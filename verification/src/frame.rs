//! One captured image: dimensions and packed pixel bytes.

use vstd::prelude::*;
use crate::error::RecorderError;

verus! {

/// Bytes per pixel of the packed source layout (blue, green, red, alpha).
pub const BYTES_PER_PIXEL: u128 = 4;

/// Number of bytes that a packed image of the given dimensions occupies.
pub open spec fn packed_len(width: u32, height: u32) -> nat {
    (width as nat) * (height as nat) * 4
}

/// Number of bytes that one row of a packed image occupies.
pub open spec fn packed_row_len(width: u32) -> nat {
    (width as nat) * 4
}

/// Computes `packed_row_len`.
pub fn packed_row_size(width: u32) -> (size: u64)
    ensures
        size == packed_row_len(width),
{
    (width as u64) * 4
}

/// A packed image is its rows, one after another, with nothing in between.
pub proof fn lemma_packed_len_is_rows(width: u32, height: u32)
    ensures
        packed_len(width, height) == packed_row_len(width) * (height as nat),
{
    assert((width as nat) * (height as nat) * 4 == (width as nat) * 4 * (height as nat))
        by (nonlinear_arith);
}

/// Computes `packed_len`. The product of two 32-bit dimensions and the pixel
/// size can exceed 64 bits, hence the wide result.
pub fn packed_size(width: u32, height: u32) -> (size: u128)
    ensures
        size == packed_len(width, height),
    no_unwind
{
    let w: u128 = width as u128;
    let h: u128 = height as u128;
    assert(w * h <= 0xffff_ffff * 0xffff_ffff) by (nonlinear_arith)
        requires
            w <= 0xffff_ffff,
            h <= 0xffff_ffff,
    ;
    w * h * BYTES_PER_PIXEL
}

/// A snapshot of one captured image. The fields are public: a frame comes
/// from a capture device and is not trusted to be consistent until checked.
#[derive(Debug)]
pub struct Frame {
    pub width: u32,
    pub height: u32,
    pub raw: Vec<u8>,
}

impl Frame {
    /// The buffer holds exactly the bytes that the dimensions call for.
    pub open spec fn size_matches(&self) -> bool {
        self.raw@.len() == packed_len(self.width, self.height)
    }

    /// What `check_size` answers for this frame.
    pub open spec fn size_check(&self) -> Result<(), RecorderError> {
        if self.size_matches() {
            Ok(())
        } else {
            Err(
                RecorderError::FrameSizeMismatch {
                    expected: packed_len(self.width, self.height) as u128,
                    actual: self.raw@.len() as usize,
                },
            )
        }
    }

    /// Builds a frame, refusing a buffer of the wrong length. The buffer is
    /// never truncated or padded.
    pub fn new(width: u32, height: u32, raw: Vec<u8>) -> (made: Result<Frame, RecorderError>)
        ensures
            raw@.len() == packed_len(width, height) ==> (made matches Ok(f) && f.width == width
                && f.height == height && f.raw@ == raw@),
            raw@.len() != packed_len(width, height) ==> made == Err::<Frame, RecorderError>(
                RecorderError::FrameSizeMismatch {
                    expected: packed_len(width, height) as u128,
                    actual: raw@.len() as usize,
                },
            ),
    {
        let frame = Frame { width, height, raw };
        match frame.check_size() {
            Ok(()) => Ok(frame),
            Err(e) => Err(e),
        }
    }

    /// The number of bytes the dimensions call for.
    pub fn expected_size(&self) -> (size: u128)
        ensures
            size == packed_len(self.width, self.height),
    {
        packed_size(self.width, self.height)
    }

    /// Checks the size invariant, reporting both lengths when it fails.
    pub fn check_size(&self) -> (checked: Result<(), RecorderError>)
        ensures
            checked == self.size_check(),
        no_unwind
    {
        let expected: u128 = packed_size(self.width, self.height);
        let actual: usize = self.raw.len();
        if actual as u128 == expected {
            Ok(())
        } else {
            Err(RecorderError::FrameSizeMismatch { expected, actual })
        }
    }
}

} // verus!
