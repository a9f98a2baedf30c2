use doomtui::errors::HostError;
use doomtui::frame::{DisplayFrame, FRAME_BYTES};
use doomtui::memory::{region_in_bounds, HostMemory};
use doomtui::protocol::ProtocolKind;
use doomtui::state::{decode_log_line, HostState};

fn fresh() -> HostState {
    HostState::new(8, 16, ProtocolKind::Halfblocks)
}

#[test]
fn read_inside_the_region_returns_exactly_those_bytes() {
    let mem = HostMemory::new(vec![10, 11, 12, 13, 14, 15, 16, 17, 18, 19]);
    assert_eq!(mem.size(), 10);
    assert_eq!(mem.read(5, 5), Ok(vec![15, 16, 17, 18, 19]));
    assert_eq!(mem.read(0, 3), Ok(vec![10, 11, 12]));
    assert_eq!(mem.read(10, 0), Ok(vec![]));
}

#[test]
fn read_past_the_region_fails_with_memory_error() {
    let mem = HostMemory::new(vec![0; 10]);
    assert_eq!(mem.read(5, 6), Err(HostError::Memory));
    assert_eq!(mem.read(0, 11), Err(HostError::Memory));
    assert_eq!(mem.read(11, 0), Err(HostError::Memory));
    assert_eq!(mem.read(u64::MAX, 1), Err(HostError::Memory));
    assert_eq!(mem.read(1, u64::MAX), Err(HostError::Memory));
    assert_eq!(mem.read(u64::MAX, u64::MAX), Err(HostError::Memory));
}

#[test]
fn bounds_check_handles_extreme_pairs() {
    assert!(region_in_bounds(10, 10, 0));
    assert!(region_in_bounds(10, 0, 10));
    assert!(!region_in_bounds(10, 10, 1));
    assert!(!region_in_bounds(0, 1, 0));
    assert!(!region_in_bounds(u64::MAX, u64::MAX, u64::MAX));
    assert!(region_in_bounds(u64::MAX, u64::MAX - 1, 1));
}

#[test]
fn display_frame_rejects_every_other_byte_count() {
    assert_eq!(FRAME_BYTES, 640 * 400 * 4);
    assert!(matches!(DisplayFrame::new(vec![0u8; FRAME_BYTES as usize]), Ok(_)));
    assert_eq!(
        DisplayFrame::new(vec![0u8; FRAME_BYTES as usize - 1]).err(),
        Some(HostError::Image)
    );
    assert_eq!(
        DisplayFrame::new(vec![0u8; FRAME_BYTES as usize + 1]).err(),
        Some(HostError::Image)
    );
    assert_eq!(DisplayFrame::new(vec![]).err(), Some(HostError::Image));
}

#[test]
fn draw_frame_with_wrong_byte_count_keeps_frame_and_logs_error() {
    let mut s = fresh();
    let r = s.draw_frame(vec![0u8; 100], 10);
    assert_eq!(r, Err(HostError::Image));
    assert!(s.current_frame.is_none());
    assert!(s.last_log_error);
    assert_eq!(s.last_log_line.as_deref(), Some("guest frame has wrong size"));
    assert_eq!(s.fps.frames_since_last_second, 0);

    let full = vec![7u8; FRAME_BYTES as usize];
    assert_eq!(s.draw_frame(full.clone(), 20), Ok(()));
    assert_eq!(s.current_frame.as_ref().unwrap().bytes(), &full);

    let r = s.draw_frame(vec![0u8; 2], 30);
    assert_eq!(r, Err(HostError::Image));
    assert_eq!(s.current_frame.as_ref().unwrap().bytes(), &full);
}

#[test]
fn draw_callback_reads_the_frame_at_the_offset() {
    let mut bytes = vec![0u8; FRAME_BYTES as usize + 16];
    for (i, b) in bytes.iter_mut().enumerate() {
        *b = (i % 251) as u8;
    }
    let mem = HostMemory::new(bytes.clone());
    let mut s = fresh();
    let redraw = s.on_draw(&mem, 16, 500);
    assert!(redraw);
    let frame = s.current_frame.as_ref().unwrap();
    assert_eq!(frame.bytes().as_slice(), &bytes[16..]);
    assert_eq!(s.fps.frames_since_last_second, 1);
    assert!(!s.last_log_error);
}

#[test]
fn draw_callback_out_of_range_skips_the_redraw() {
    let mem = HostMemory::new(vec![0u8; FRAME_BYTES as usize]);
    let mut s = fresh();
    assert!(s.on_draw(&mem, 1, 0) == false);
    assert!(s.current_frame.is_none());
    assert!(s.last_log_error);
    assert_eq!(s.last_log_line.as_deref(), Some("guest frame out of range"));
    assert!(s.on_draw(&mem, -1, 0) == false);
    assert!(s.current_frame.is_none());
    assert!(s.on_draw(&mem, 0, 0));
    assert!(s.current_frame.is_some());
}

#[test]
fn log_callback_stores_decoded_text_with_severity() {
    let mem = HostMemory::new(b"...hello, guest...".to_vec());
    let mut s = fresh();
    s.on_log(&mem, 3, 12, false);
    assert_eq!(s.last_log_line.as_deref(), Some("hello, guest"));
    assert!(!s.last_log_error);
    s.on_log(&mem, 3, 12, true);
    assert_eq!(s.last_log_line.as_deref(), Some("hello, guest"));
    assert!(s.last_log_error);
}

#[test]
fn log_callback_out_of_range_leaves_a_placeholder_error() {
    let mem = HostMemory::new(vec![b'a'; 8]);
    let mut s = fresh();
    s.on_log(&mem, 4, 5, false);
    assert_eq!(s.last_log_line.as_deref(), Some("guest log out of range"));
    assert!(s.last_log_error);
    s.on_log(&mem, -1, 2, false);
    assert_eq!(s.last_log_line.as_deref(), Some("guest log out of range"));
    s.on_log(&mem, 0, -3, false);
    assert_eq!(s.last_log_line.as_deref(), Some("guest log out of range"));
}

#[test]
fn log_callback_substitutes_for_undecodable_bytes() {
    let mem = HostMemory::new(vec![0xff, 0xfe, 0x80]);
    let mut s = fresh();
    s.on_log(&mem, 0, 3, false);
    assert_eq!(s.last_log_line.as_deref(), Some("guest log is not valid text"));
    assert!(s.last_log_error);
}

#[test]
fn byte_level_callbacks_follow_the_same_policy() {
    let mut s = fresh();
    s.on_log_bytes(None, false);
    assert_eq!(s.last_log_line.as_deref(), Some("guest log out of range"));
    assert!(s.last_log_error);
    s.on_log_bytes(Some(b"ready".to_vec()), false);
    assert_eq!(s.last_log_line.as_deref(), Some("ready"));
    assert!(!s.last_log_error);
    assert!(!s.on_draw_bytes(None, 0));
    assert!(s.current_frame.is_none());
    assert_eq!(s.last_log_line.as_deref(), Some("guest frame out of range"));
    assert!(s.on_draw_bytes(Some(vec![1u8; FRAME_BYTES as usize]), 5));
    assert!(s.current_frame.is_some());
    assert!(!s.on_draw_bytes(Some(vec![1u8; 3]), 6));
    assert_eq!(s.last_log_line.as_deref(), Some("guest frame has wrong size"));
}

#[test]
fn decoding_log_bytes_fails_only_on_invalid_text() {
    assert_eq!(decode_log_line(b"ok".to_vec()), Ok("ok".to_string()));
    assert_eq!(decode_log_line(vec![]), Ok(String::new()));
    assert_eq!(decode_log_line(vec![0xff]), Err(HostError::Decode));
    assert_eq!(decode_log_line(vec![0xed, 0xa0, 0x80]), Err(HostError::Decode));
}
