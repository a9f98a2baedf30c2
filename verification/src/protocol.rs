use vstd::prelude::*;
use crate::errors::HostError;

verus! {

/// What the terminal capability query reported about the font cell size.
#[derive(Clone, Copy, Debug, PartialEq, Eq, Structural)]
pub enum FontQuery {
    /// The terminal reported a cell size, in pixels.
    Reported(u16, u16),
    /// The terminal answered, but without a font size.
    NoFontSize,
    /// The query itself failed.
    Failed,
}

/// The font cell size to run with, from the capability query's outcome: the
/// reported size; a common default where the terminal reports none; and a
/// fatal `TerminalError` where the query itself failed, since a terminal
/// that cannot be queried cannot be drawn to either.
pub fn startup_font_size(query: FontQuery) -> (r: Result<(u16, u16), HostError>)
    ensures
        query matches FontQuery::Reported(w, h) ==> r == Ok::<(u16, u16), HostError>((w, h)),
        query == FontQuery::NoFontSize ==> r == Ok::<(u16, u16), HostError>((8u16, 16u16)),
        query == FontQuery::Failed ==> r == Err::<(u16, u16), HostError>(HostError::Terminal),
{
    match query {
        FontQuery::Reported(w, h) => Ok((w, h)),
        FontQuery::NoFontSize => Ok((8, 16)),
        FontQuery::Failed => Err(HostError::Terminal),
    }
}

/// The closed set of terminal output encodings, cycled at runtime in a fixed
/// deterministic order.  The terminal collaborator renders the buffered frame
/// with whichever encoding is selected; the selection itself is host state.
#[derive(Clone, Copy, Debug, PartialEq, Eq, Structural)]
pub enum ProtocolKind {
    Halfblocks,
    Sixel,
    Kitty,
    Iterm2,
}

/// The cycling order of the encodings: each maps to the next, and the last
/// wraps around to the first.
pub open spec fn spec_next_protocol(p: ProtocolKind) -> ProtocolKind {
    match p {
        ProtocolKind::Halfblocks => ProtocolKind::Sixel,
        ProtocolKind::Sixel => ProtocolKind::Kitty,
        ProtocolKind::Kitty => ProtocolKind::Iterm2,
        ProtocolKind::Iterm2 => ProtocolKind::Halfblocks,
    }
}

impl ProtocolKind {
    /// The next encoding in the cycling order.
    pub fn next(&self) -> (r: ProtocolKind)
        ensures
            r == spec_next_protocol(*self),
    {
        match self {
            ProtocolKind::Halfblocks => ProtocolKind::Sixel,
            ProtocolKind::Sixel => ProtocolKind::Kitty,
            ProtocolKind::Kitty => ProtocolKind::Iterm2,
            ProtocolKind::Iterm2 => ProtocolKind::Halfblocks,
        }
    }

    /// The encoding's display name, for the title bar.
    pub fn label(&self) -> (r: &'static str)
        ensures
            *self == ProtocolKind::Halfblocks ==> r@ == "Halfblocks"@,
            *self == ProtocolKind::Sixel ==> r@ == "Sixel"@,
            *self == ProtocolKind::Kitty ==> r@ == "Kitty"@,
            *self == ProtocolKind::Iterm2 ==> r@ == "Iterm2"@,
    {
        match self {
            ProtocolKind::Halfblocks => "Halfblocks",
            ProtocolKind::Sixel => "Sixel",
            ProtocolKind::Kitty => "Kitty",
            ProtocolKind::Iterm2 => "Iterm2",
        }
    }
}

/// Cycling four times returns to the starting encoding: the set is closed and
/// every encoding is reachable from every other.
pub proof fn lemma_protocol_cycle(p: ProtocolKind)
    ensures
        spec_next_protocol(
            spec_next_protocol(spec_next_protocol(spec_next_protocol(p))),
        ) == p,
{
}

} // verus!
