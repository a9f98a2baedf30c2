use vstd::prelude::*;
use crate::errors::HostError;
use crate::fps::FpsCounter;
use crate::fps::spec_record;
use crate::frame::DisplayFrame;
use crate::frame::FRAME_BYTES;
use crate::keys::Key;
use crate::keys::KeyKind;
use crate::keys::key_code;
use crate::keys::event_kind;
use crate::keys::spec_key_code;
use crate::keys::spec_event_kind;
use crate::memory::HostMemory;
use crate::protocol::ProtocolKind;
use crate::protocol::spec_next_protocol;

verus! {

/// What the main loop does with one terminal key event.
#[derive(Clone, Copy, Debug, PartialEq, Eq, Structural)]
pub enum KeyAction {
    /// The event was consumed by the host, or has no guest mapping.
    Ignored,
    /// Submit to the guest: the guest's event kind, then its key code.
    Forward(i32, i32),
}

/// The loop's observable phase: it runs until the exit flag is set.
#[derive(Clone, Copy, Debug, PartialEq, Eq, Structural)]
pub enum LoopPhase {
    Running,
    Exiting,
}

/// The single mutable structure visible to both the main loop and the
/// guest's reentrant draw callback.  The two never run at once — the
/// callback is a nested synchronous call — so it is handed by exclusive
/// reference into one context at a time, never locked.
pub struct HostState {
    /// Set by the quit key; the loop stops at its next check.
    pub exit: bool,
    /// The most recent guest log line, if any.
    pub last_log_line: Option<String>,
    /// Whether that line carries error severity.
    pub last_log_error: bool,
    /// The terminal output encoding currently selected.
    pub protocol: ProtocolKind,
    /// The terminal's font cell width in pixels, at zoom one.
    pub font_width: u16,
    /// The terminal's font cell height in pixels, at zoom one.
    pub font_height: u16,
    /// The zoom factor applied to the output encoding; never below one.
    pub zoom: u16,
    /// The last complete frame the guest drew; `None` only before the
    /// first successful draw.
    pub current_frame: Option<DisplayFrame>,
    /// Frame-rate accounting, updated only by the draw callback.
    pub fps: FpsCounter,
}

/// The zoom after one increment: unbounded above, saturating only at the
/// machine limit.
pub open spec fn spec_inc_zoom(z: u16) -> u16 {
    if z == u16::MAX {
        z
    } else {
        (z + 1) as u16
    }
}

/// The zoom after one decrement: clamped so it never goes below one.
pub open spec fn spec_dec_zoom(z: u16) -> u16 {
    if z > 1 {
        (z - 1) as u16
    } else {
        1
    }
}

/// The quit control key.
pub open spec fn spec_is_quit(key: Key) -> bool {
    key == Key::Char('q') || key == Key::Char('Q')
}

/// The cycle-output-encoding control key.
pub open spec fn spec_is_cycle(key: Key) -> bool {
    key == Key::Char('p') || key == Key::Char('P')
}

/// The zoom-in control key.
pub open spec fn spec_is_zoom_in(key: Key) -> bool {
    key == Key::Char('+')
}

/// The zoom-out control key.
pub open spec fn spec_is_zoom_out(key: Key) -> bool {
    key == Key::Char('-')
}

/// The application-level keys, consumed by the host and never forwarded.
pub open spec fn spec_is_host_key(key: Key) -> bool {
    spec_is_quit(key) || spec_is_cycle(key) || spec_is_zoom_in(key) || spec_is_zoom_out(key)
}

/// What one key event is turned into: host keys are consumed, every other
/// key is forwarded exactly when both translations exist, and dropped
/// otherwise.
pub open spec fn spec_key_action(key: Key, kind: KeyKind) -> KeyAction {
    if spec_is_host_key(key) {
        KeyAction::Ignored
    } else {
        match (spec_key_code(key), spec_event_kind(kind)) {
            (Some(code), Some(ev)) => KeyAction::Forward(ev, code),
            _ => KeyAction::Ignored,
        }
    }
}

/// The state after one key event: a pressed host key mutates its one field;
/// nothing else changes the state.
pub open spec fn spec_key_state(s: HostState, key: Key, kind: KeyKind) -> HostState {
    if kind == KeyKind::Press {
        if spec_is_quit(key) {
            HostState { exit: true, ..s }
        } else if spec_is_cycle(key) {
            HostState { protocol: spec_next_protocol(s.protocol), ..s }
        } else if spec_is_zoom_in(key) {
            HostState { zoom: spec_inc_zoom(s.zoom), ..s }
        } else if spec_is_zoom_out(key) {
            HostState { zoom: spec_dec_zoom(s.zoom), ..s }
        } else {
            s
        }
    } else {
        s
    }
}

/// `b` differs from `a` at most in the log line and its severity.
pub open spec fn spec_same_but_log(a: HostState, b: HostState) -> bool {
    b.exit == a.exit && b.protocol == a.protocol && b.font_width == a.font_width
        && b.font_height == a.font_height && b.zoom == a.zoom && b.current_frame
        == a.current_frame && b.fps == a.fps
}

impl HostState {
    /// Structural invariant: the zoom never falls below one, and a buffered
    /// frame is always complete.
    pub open spec fn wf(&self) -> bool {
        self.zoom >= 1 && (self.current_frame is Some ==> self.current_frame->Some_0.wf())
    }

    /// The state at startup: no frame drawn yet, no log line, zoom one, the
    /// encoding the terminal query selected, and the given font cell size.
    pub fn new(font_width: u16, font_height: u16, protocol: ProtocolKind) -> (r: HostState)
        ensures
            r.wf(),
            r.exit == false,
            r.last_log_line is None,
            r.last_log_error == false,
            r.protocol == protocol,
            r.font_width == font_width,
            r.font_height == font_height,
            r.zoom == 1,
            r.current_frame is None,
            r.fps == (FpsCounter { last_second_ms: 0u64, frames_since_last_second: 0u16, fps: 0u16 }),
    {
        HostState {
            exit: false,
            last_log_line: None,
            last_log_error: false,
            protocol,
            font_width,
            font_height,
            zoom: 1,
            current_frame: None,
            fps: FpsCounter::new(),
        }
    }

    /// The loop's phase, read once per iteration.
    pub fn phase(&self) -> (r: LoopPhase)
        ensures
            r == (if self.exit {
                LoopPhase::Exiting
            } else {
                LoopPhase::Running
            }),
    {
        if self.exit {
            LoopPhase::Exiting
        } else {
            LoopPhase::Running
        }
    }

    /// Requests exit; the loop leaves Running at its next phase check.
    pub fn exit(&mut self)
        ensures
            *final(self) == (HostState { exit: true, ..*old(self) }),
    {
        self.exit = true;
    }

    /// Selects the next output encoding in the cycling order.
    pub fn cycle_protocol_type(&mut self)
        ensures
            *final(self) == (HostState {
                protocol: spec_next_protocol(old(self).protocol),
                ..*old(self)
            }),
    {
        self.protocol = self.protocol.next();
    }

    /// Sets the zoom factor; one is the floor callers must respect.
    pub fn set_zoom(&mut self, zoom: u16)
        requires
            zoom >= 1,
        ensures
            *final(self) == (HostState { zoom: zoom, ..*old(self) }),
    {
        self.zoom = zoom;
    }

    /// Zooms in one step; there is no upper bound short of the machine limit.
    pub fn increment_zoom(&mut self)
        ensures
            *final(self) == (HostState { zoom: spec_inc_zoom(old(self).zoom), ..*old(self) }),
            final(self).zoom >= 1,
    {
        let z: u16 = self.zoom.saturating_add(1);
        self.set_zoom(z);
    }

    /// Zooms out one step, clamped so the zoom never falls below one.
    pub fn decrement_zoom(&mut self)
        ensures
            *final(self) == (HostState { zoom: spec_dec_zoom(old(self).zoom), ..*old(self) }),
            final(self).zoom >= 1,
    {
        if self.zoom > 1 {
            let z: u16 = self.zoom - 1;
            self.set_zoom(z);
        } else {
            self.set_zoom(1);
        }
    }

    /// The font cell size the encoder is to target at the current zoom: the
    /// default cell size attenuated by the zoom factor.
    pub fn scaled_font(&self) -> (r: (u16, u16))
        requires
            self.zoom >= 1,
        ensures
            r.0 == self.font_width / self.zoom,
            r.1 == self.font_height / self.zoom,
    {
        (self.font_width / self.zoom, self.font_height / self.zoom)
    }

    /// Applies one terminal key event: a pressed application key (quit,
    /// cycle encoding, zoom in, zoom out) mutates the host state and is
    /// never forwarded; every other key is translated and forwarded to the
    /// guest when both translations exist, and dropped otherwise.
    pub fn handle_key(&mut self, key: Key, kind: KeyKind) -> (r: KeyAction)
        ensures
            *final(self) == spec_key_state(*old(self), key, kind),
            r == spec_key_action(key, kind),
            old(self).wf() ==> final(self).wf(),
    {
        let press = kind == KeyKind::Press;
        match key {
            Key::Char('q') | Key::Char('Q') => {
                if press {
                    self.exit();
                }
                KeyAction::Ignored
            },
            Key::Char('p') | Key::Char('P') => {
                if press {
                    self.cycle_protocol_type();
                }
                KeyAction::Ignored
            },
            Key::Char('+') => {
                if press {
                    self.increment_zoom();
                }
                KeyAction::Ignored
            },
            Key::Char('-') => {
                if press {
                    self.decrement_zoom();
                }
                KeyAction::Ignored
            },
            _ => {
                match (key_code(key), event_kind(kind)) {
                    (Some(code), Some(ev)) => KeyAction::Forward(ev, code),
                    _ => KeyAction::Ignored,
                }
            },
        }
    }
}

/// What `String::from_utf8` decodes the bytes to: `Some` of the text exactly
/// when the bytes are valid UTF-8, `None` otherwise.  The decoding depends on
/// the bytes alone.
pub uninterp spec fn text_of(bytes: Seq<u8>) -> Option<Seq<char>>;

/// Relies on `String::from_utf8`: it returns `Ok` exactly when the bytes are
/// valid UTF-8, and the decoded text is a function of the bytes alone, named
/// `text_of`.
#[verifier::external_body]
fn decode_utf8(bytes: Vec<u8>) -> (r: Option<String>)
    ensures
        r is Some <==> text_of(bytes@) is Some,
        r is Some ==> r->Some_0@ == text_of(bytes@)->Some_0,
{
    match String::from_utf8(bytes) {
        Ok(s) => Some(s),
        Err(_) => None,
    }
}

/// Decodes guest log bytes as text, failing with `DecodeError` exactly when
/// the bytes are not valid UTF-8.
pub fn decode_log_line(bytes: Vec<u8>) -> (r: Result<String, HostError>)
    ensures
        r is Ok <==> text_of(bytes@) is Some,
        r is Ok ==> r->Ok_0@ == text_of(bytes@)->Some_0,
        r is Err ==> r->Err_0 == HostError::Decode,
{
    match decode_utf8(bytes) {
        Some(s) => Ok(s),
        None => Err(HostError::Decode),
    }
}

/// The log line recorded when the guest hands an out-of-range log region.
pub open spec fn spec_log_oob_msg() -> Seq<char> {
    "guest log out of range"@
}

/// The placeholder recorded when guest log bytes are not valid text.
pub open spec fn spec_log_decode_msg() -> Seq<char> {
    "guest log is not valid text"@
}

/// The log line recorded when the guest hands an out-of-range frame offset.
pub open spec fn spec_frame_oob_msg() -> Seq<char> {
    "guest frame out of range"@
}

/// The log line recorded when a frame buffer has the wrong byte count.
pub open spec fn spec_frame_size_msg() -> Seq<char> {
    "guest frame has wrong size"@
}

impl HostState {
    /// The log callback's policy, on the outcome of the bounds-checked read:
    /// `None` where the guest's region was out of range, `Some` of the bytes
    /// otherwise.
    ///
    /// A failed read or undecodable bytes must never take the session down:
    /// either is absorbed here, leaving a placeholder line marked as an
    /// error.  A decoded line is stored with the given severity.
    pub fn on_log_bytes(&mut self, read: Option<Vec<u8>>, is_error: bool)
        ensures
            spec_same_but_log(*old(self), *final(self)),
            read is None ==> {
                &&& final(self).last_log_error == true
                &&& final(self).last_log_line is Some
                &&& final(self).last_log_line->Some_0@ == spec_log_oob_msg()
            },
            read is Some ==> {
                let bytes = read->Some_0@;
                &&& (text_of(bytes) is Some ==> {
                    &&& final(self).last_log_line is Some
                    &&& final(self).last_log_line->Some_0@ == text_of(bytes)->Some_0
                    &&& final(self).last_log_error == is_error
                })
                &&& (text_of(bytes) is None ==> {
                    &&& final(self).last_log_error == true
                    &&& final(self).last_log_line is Some
                    &&& final(self).last_log_line->Some_0@ == spec_log_decode_msg()
                })
            },
            old(self).wf() ==> final(self).wf(),
    {
        match read {
            None => {
                self.last_log_line = Some(String::from_str("guest log out of range"));
                self.last_log_error = true;
            },
            Some(bytes) => {
                match decode_log_line(bytes) {
                    Ok(line) => {
                        self.last_log_line = Some(line);
                        self.last_log_error = is_error;
                    },
                    Err(_) => {
                        self.last_log_line = Some(String::from_str("guest log is not valid text"));
                        self.last_log_error = true;
                    },
                }
            },
        }
    }

    /// The log callback, shared by the guest's normal and error log imports.
    ///
    /// Reads `(offset, length)` from the shared region and stores the decoded
    /// text as the last log line with the given severity.  An out-of-range
    /// region or undecodable bytes must never take the session down: either
    /// is absorbed here, leaving a placeholder line marked as an error.
    pub fn on_log(&mut self, mem: &HostMemory, offset: i32, length: i32, is_error: bool)
        ensures
            spec_same_but_log(*old(self), *final(self)),
            !(0 <= offset && 0 <= length && offset + length <= mem@.len()) ==> {
                &&& final(self).last_log_error == true
                &&& final(self).last_log_line is Some
                &&& final(self).last_log_line->Some_0@ == spec_log_oob_msg()
            },
            (0 <= offset && 0 <= length && offset + length <= mem@.len()) ==> {
                let bytes = mem@.subrange(offset as int, offset + length);
                &&& (text_of(bytes) is Some ==> {
                    &&& final(self).last_log_line is Some
                    &&& final(self).last_log_line->Some_0@ == text_of(bytes)->Some_0
                    &&& final(self).last_log_error == is_error
                })
                &&& (text_of(bytes) is None ==> {
                    &&& final(self).last_log_error == true
                    &&& final(self).last_log_line is Some
                    &&& final(self).last_log_line->Some_0@ == spec_log_decode_msg()
                })
            },
            old(self).wf() ==> final(self).wf(),
    {
        if offset < 0 || length < 0 {
            self.on_log_bytes(None, is_error);
            return ;
        }
        match mem.read(offset as u64, length as u64) {
            Err(_) => {
                self.on_log_bytes(None, is_error);
            },
            Ok(bytes) => {
                self.on_log_bytes(Some(bytes), is_error);
            },
        }
    }

    /// Installs one complete guest frame and updates the frame-rate
    /// accounting.
    ///
    /// With any byte count other than exactly `FRAME_BYTES` this fails with
    /// `ImageError`: the previous frame is retained untouched, the log line
    /// becomes an error report, and the accounting does not move — the
    /// failure costs the current frame only.
    pub fn draw_frame(&mut self, bytes: Vec<u8>, now_ms: u64) -> (r: Result<(), HostError>)
        requires
            now_ms >= old(self).fps.last_second_ms,
        ensures
            r is Ok <==> bytes@.len() == FRAME_BYTES,
            r is Err ==> {
                &&& r->Err_0 == HostError::Image
                &&& final(self).current_frame == old(self).current_frame
                &&& final(self).fps == old(self).fps
                &&& final(self).last_log_error == true
                &&& final(self).last_log_line is Some
                &&& final(self).last_log_line->Some_0@ == spec_frame_size_msg()
            },
            r is Ok ==> {
                &&& final(self).current_frame is Some
                &&& final(self).current_frame->Some_0@ == bytes@
                &&& final(self).fps == spec_record(old(self).fps, now_ms)
                &&& final(self).last_log_line == old(self).last_log_line
                &&& final(self).last_log_error == old(self).last_log_error
            },
            final(self).exit == old(self).exit,
            final(self).protocol == old(self).protocol,
            final(self).zoom == old(self).zoom,
            final(self).font_width == old(self).font_width,
            final(self).font_height == old(self).font_height,
            old(self).wf() ==> final(self).wf(),
    {
        match DisplayFrame::new(bytes) {
            Ok(f) => {
                self.current_frame = Some(f);
                self.fps.record_frame(now_ms);
                Ok(())
            },
            Err(e) => {
                self.last_log_line = Some(String::from_str("guest frame has wrong size"));
                self.last_log_error = true;
                Err(e)
            },
        }
    }

    /// The draw callback's policy, on the outcome of the bounds-checked
    /// frame read: `None` where the guest's offset was out of range, `Some`
    /// of the bytes otherwise.
    ///
    /// Returns whether the terminal is to be redrawn.  A failed read or a
    /// wrong byte count is fatal to this frame only: no redraw, the previous
    /// frame retained, the error surfaced as the log line.
    pub fn on_draw_bytes(&mut self, read: Option<Vec<u8>>, now_ms: u64) -> (redraw: bool)
        requires
            now_ms >= old(self).fps.last_second_ms,
        ensures
            redraw <==> read is Some && read->Some_0@.len() == FRAME_BYTES,
            redraw ==> {
                &&& final(self).current_frame is Some
                &&& final(self).current_frame->Some_0@ == read->Some_0@
                &&& final(self).fps == spec_record(old(self).fps, now_ms)
                &&& final(self).last_log_line == old(self).last_log_line
                &&& final(self).last_log_error == old(self).last_log_error
            },
            !redraw ==> {
                &&& final(self).current_frame == old(self).current_frame
                &&& final(self).fps == old(self).fps
                &&& final(self).last_log_error == true
                &&& final(self).last_log_line is Some
            },
            read is None ==> final(self).last_log_line->Some_0@ == spec_frame_oob_msg(),
            (read is Some && read->Some_0@.len() != FRAME_BYTES)
                ==> final(self).last_log_line->Some_0@ == spec_frame_size_msg(),
            final(self).exit == old(self).exit,
            final(self).protocol == old(self).protocol,
            final(self).zoom == old(self).zoom,
            final(self).font_width == old(self).font_width,
            final(self).font_height == old(self).font_height,
            old(self).wf() ==> final(self).wf(),
    {
        match read {
            None => {
                self.last_log_line = Some(String::from_str("guest frame out of range"));
                self.last_log_error = true;
                false
            },
            Some(bytes) => {
                match self.draw_frame(bytes, now_ms) {
                    Ok(_) => true,
                    Err(_) => false,
                }
            },
        }
    }

    /// The draw callback the guest invokes once per completed frame.
    ///
    /// Reads exactly `FRAME_BYTES` bytes at the guest-supplied offset,
    /// installs them as the current frame and returns whether the terminal
    /// is to be redrawn.  An out-of-range offset is fatal to this frame
    /// only: no redraw, the previous frame retained, the error surfaced as
    /// the log line.
    pub fn on_draw(&mut self, mem: &HostMemory, offset: i32, now_ms: u64) -> (redraw: bool)
        requires
            now_ms >= old(self).fps.last_second_ms,
        ensures
            redraw <==> 0 <= offset && offset + FRAME_BYTES <= mem@.len(),
            redraw ==> {
                &&& final(self).current_frame is Some
                &&& final(self).current_frame->Some_0@ == mem@.subrange(
                    offset as int,
                    offset + FRAME_BYTES,
                )
                &&& final(self).fps == spec_record(old(self).fps, now_ms)
                &&& final(self).last_log_line == old(self).last_log_line
                &&& final(self).last_log_error == old(self).last_log_error
            },
            !redraw ==> {
                &&& final(self).current_frame == old(self).current_frame
                &&& final(self).fps == old(self).fps
                &&& final(self).last_log_error == true
                &&& final(self).last_log_line is Some
                &&& final(self).last_log_line->Some_0@ == spec_frame_oob_msg()
            },
            final(self).exit == old(self).exit,
            final(self).protocol == old(self).protocol,
            final(self).zoom == old(self).zoom,
            final(self).font_width == old(self).font_width,
            final(self).font_height == old(self).font_height,
            old(self).wf() ==> final(self).wf(),
    {
        if offset < 0 {
            return self.on_draw_bytes(None, now_ms);
        }
        match mem.read(offset as u64, FRAME_BYTES) {
            Err(_) => self.on_draw_bytes(None, now_ms),
            Ok(bytes) => self.on_draw_bytes(Some(bytes), now_ms),
        }
    }
}

impl HostState {
    /// Applies one drained batch of terminal key events, in arrival order,
    /// and returns what is to be submitted to the guest: one (event kind,
    /// key code) pair per forwarded event, in the same order.
    pub fn drain_events(&mut self, events: &Vec<(Key, KeyKind)>) -> (r: Vec<(i32, i32)>)
        ensures
            *final(self) == spec_drain_state(*old(self), events@),
            r@ == spec_forwards(events@),
            old(self).wf() ==> final(self).wf(),
    {
        let mut out: Vec<(i32, i32)> = Vec::new();
        let mut i: usize = 0;
        proof {
            assert(events@.skip(0) =~= events@);
            assert(out@ + spec_forwards(events@) =~= spec_forwards(events@));
        }
        while i < events.len()
            invariant
                i <= events@.len(),
                spec_drain_state(*old(self), events@) == spec_drain_state(
                    *self,
                    events@.skip(i as int),
                ),
                spec_forwards(events@) == out@ + spec_forwards(events@.skip(i as int)),
                old(self).wf() ==> self.wf(),
            decreases events@.len() - i,
        {
            proof {
                let pre = events@.skip(i as int);
                assert(pre[0] == events@[i as int]);
                assert(pre.drop_first() =~= events@.skip(i as int + 1));
            }
            let (key, kind) = events[i];
            let action = self.handle_key(key, kind);
            let ghost out_before = out@;
            match action {
                KeyAction::Forward(ev, code) => out.push((ev, code)),
                KeyAction::Ignored => {},
            }
            proof {
                let pre = events@.skip(i as int);
                assert(out_before + spec_forwards(pre) =~= out@ + spec_forwards(
                    events@.skip(i as int + 1),
                ));
            }
            i = i + 1;
        }
        proof {
            assert(events@.skip(events@.len() as int) =~= Seq::<(Key, KeyKind)>::empty());
        }
        out
    }
}

/// One zoom adjustment, as the zoom keys issue them.
#[derive(Clone, Copy, Debug, PartialEq, Eq, Structural)]
pub enum ZoomOp {
    In,
    Out,
}

/// The zoom after a sequence of adjustments, applied left to right.
pub open spec fn spec_apply_zoom_ops(z: u16, ops: Seq<ZoomOp>) -> u16
    decreases ops.len(),
{
    if ops.len() == 0 {
        z
    } else {
        let z1 = match ops[0] {
            ZoomOp::In => spec_inc_zoom(z),
            ZoomOp::Out => spec_dec_zoom(z),
        };
        spec_apply_zoom_ops(z1, ops.drop_first())
    }
}

/// The state after a whole batch of key events, applied in arrival order.
pub open spec fn spec_drain_state(s: HostState, events: Seq<(Key, KeyKind)>) -> HostState
    decreases events.len(),
{
    if events.len() == 0 {
        s
    } else {
        spec_drain_state(spec_key_state(s, events[0].0, events[0].1), events.drop_first())
    }
}

/// The (event kind, key code) pairs a batch of key events submits to the
/// guest, in arrival order.  What is forwarded depends on the keys alone,
/// never on the state they meet.
pub open spec fn spec_forwards(events: Seq<(Key, KeyKind)>) -> Seq<(i32, i32)>
    decreases events.len(),
{
    if events.len() == 0 {
        Seq::empty()
    } else {
        (match spec_key_action(events[0].0, events[0].1) {
            KeyAction::Forward(ev, code) => seq![(ev, code)],
            KeyAction::Ignored => Seq::empty(),
        }) + spec_forwards(events.drop_first())
    }
}

/// A pressed quit key moves any state out of Running, whatever else is
/// pending: the exit flag is set on that very event.
pub proof fn lemma_quit_key_exits(s: HostState, key: Key)
    requires
        spec_is_quit(key),
    ensures
        spec_key_state(s, key, KeyKind::Press).exit,
        spec_key_action(key, KeyKind::Press) == KeyAction::Ignored,
{
}

/// For every sequence of zoom adjustments, the resulting zoom stays at least
/// one: decrementing clamps at one, and incrementing has no effect on the
/// lower bound.
pub proof fn lemma_zoom_never_below_one(z: u16, ops: Seq<ZoomOp>)
    requires
        z >= 1,
    ensures
        spec_apply_zoom_ops(z, ops) >= 1,
    decreases ops.len(),
{
    if ops.len() > 0 {
        let z1 = match ops[0] {
            ZoomOp::In => spec_inc_zoom(z),
            ZoomOp::Out => spec_dec_zoom(z),
        };
        lemma_zoom_never_below_one(z1, ops.drop_first());
    }
}

} // verus!
