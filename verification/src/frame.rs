//! One captured image in the display's four-channel byte layout.

use vstd::prelude::*;

verus! {

/// Bytes per pixel of the display layout (red, green, blue, alpha).
pub const CHANNELS: usize = 4;

/// Number of bytes that a frame of the given size holds.
pub open spec fn frame_len(width: nat, height: nat) -> nat {
    width * height * (CHANNELS as nat)
}

/// What a frame is: its size and its bytes, row by row.
pub ghost struct FrameModel {
    pub width: nat,
    pub height: nat,
    pub data: Seq<u8>,
}

impl FrameModel {
    /// The buffer holds exactly one four-byte pixel per position.
    pub open spec fn valid(self) -> bool {
        self.data.len() == frame_len(self.width, self.height)
    }
}

/// An immutable snapshot of one capture. The buffer always holds exactly
/// `width * height * 4` bytes.
#[derive(Debug)]
pub struct Frame {
    width: u32,
    height: u32,
    data: Vec<u8>,
}

impl View for Frame {
    type V = FrameModel;

    closed spec fn view(&self) -> FrameModel {
        FrameModel { width: self.width as nat, height: self.height as nat, data: self.data@ }
    }
}

impl Frame {
    #[verifier::type_invariant]
    spec fn well_formed(self) -> bool {
        self.data@.len() == frame_len(self.width as nat, self.height as nat)
    }

    /// Wraps a pixel buffer as a frame. The buffer is accepted exactly when
    /// its length is `width * height * 4`; otherwise it is handed back.
    pub fn new(width: u32, height: u32, data: Vec<u8>) -> (res: Result<Frame, Vec<u8>>)
        ensures
            data@.len() == frame_len(width as nat, height as nat) ==> res is Ok,
            data@.len() != frame_len(width as nat, height as nat) ==> res is Err,
            res matches Ok(f) ==> f@ == (FrameModel {
                width: width as nat,
                height: height as nat,
                data: data@,
            }) && f@.valid(),
            res matches Err(d) ==> d@ == data@,
    {
        let w: u128 = width as u128;
        let h: u128 = height as u128;
        assert(w * h <= 0xFFFF_FFFF * 0xFFFF_FFFF) by (nonlinear_arith)
            requires
                w <= 0xFFFF_FFFF,
                h <= 0xFFFF_FFFF,
        ;
        let expected: u128 = w * h * 4;
        if data.len() as u128 == expected {
            Ok(Frame { width, height, data })
        } else {
            Err(data)
        }
    }

    /// Width in pixels.
    pub fn width(&self) -> (w: u32)
        ensures
            w == self@.width,
    {
        self.width
    }

    /// Height in pixels.
    pub fn height(&self) -> (h: u32)
        ensures
            h == self@.height,
    {
        self.height
    }

    /// The pixel bytes, row by row.
    pub fn data(&self) -> (d: &Vec<u8>)
        ensures
            d@ == self@.data,
            self@.valid(),
    {
        proof {
            use_type_invariant(self);
        }
        &self.data
    }

    /// Gives up the frame and hands out its buffer.
    pub fn into_data(self) -> (d: Vec<u8>)
        ensures
            d@ == self@.data,
            self@.valid(),
    {
        proof {
            use_type_invariant(&self);
        }
        self.data
    }
}

} // verus!
