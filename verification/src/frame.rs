use vstd::prelude::*;
use crate::errors::HostError;

verus! {

/// The guest's fixed native frame width, in pixels.
pub const FRAME_WIDTH: u64 = 640;

/// The guest's fixed native frame height, in pixels.
pub const FRAME_HEIGHT: u64 = 400;

/// Bytes per pixel of the guest's frame format (RGBA, one byte a channel).
pub const FRAME_BYTES_PER_PIXEL: u64 = 4;

/// The exact byte count of one complete guest frame.
pub const FRAME_BYTES: u64 = FRAME_WIDTH * FRAME_HEIGHT * FRAME_BYTES_PER_PIXEL;

/// One complete guest frame: exactly `FRAME_BYTES` bytes of row-major RGBA,
/// ready for the terminal encoder.  A frame is never partially constructed:
/// the constructor rejects any other byte count.
pub struct DisplayFrame {
    bytes: Vec<u8>,
}

impl View for DisplayFrame {
    type V = Seq<u8>;

    closed spec fn view(&self) -> Seq<u8> {
        self.bytes@
    }
}

impl DisplayFrame {
    /// A complete frame holds exactly the expected byte count.
    pub open spec fn wf(&self) -> bool {
        self@.len() == FRAME_BYTES
    }

    /// Builds a frame from raw bytes, failing with `ImageError` exactly when
    /// the byte count is not `FRAME_BYTES`.
    pub fn new(bytes: Vec<u8>) -> (r: Result<DisplayFrame, HostError>)
        ensures
            r is Ok <==> bytes@.len() == FRAME_BYTES,
            r is Ok ==> r->Ok_0@ == bytes@ && r->Ok_0.wf(),
            r is Err ==> r->Err_0 == HostError::Image,
    {
        if bytes.len() as u64 == FRAME_BYTES {
            Ok(DisplayFrame { bytes })
        } else {
            Err(HostError::Image)
        }
    }

    /// The frame's raw RGBA bytes.
    pub fn bytes(&self) -> (r: &Vec<u8>)
        ensures
            r@ == self@,
    {
        &self.bytes
    }
}

} // verus!
