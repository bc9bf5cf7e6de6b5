//! The ordered command stream of one frame, and the zero-fill payload
//! that initializes target 0.

use vstd::prelude::*;
use crate::uniform::UniformRecord;

verus! {

/// Where a draw pass writes its output.
#[derive(Clone, Copy, PartialEq, Eq, Structural, Debug)]
pub enum PassDestination {
    /// One of the two off-screen render targets, by index.
    Target(u32),
    /// The presentable surface texture acquired for this frame.
    Surface,
}

/// One step of a frame's command stream. The host executes the steps in
/// order on a single queue, so every write is visible to every later
/// step: that ordering is the contract the stream's producer maintains.
#[derive(Clone, Copy, PartialEq, Eq, Structural, Debug)]
pub enum Command {
    /// Zero-fill target 0's backing texture by a direct image write of
    /// `width * height * 4` zero bytes with a row pitch of
    /// `bytes_per_row` (`width * 4`) bytes.
    InitTargetZero { width: u32, height: u32, bytes_per_row: u32 },
    /// Write the record to the shared uniform buffer at offset 0.
    WriteUniform(UniformRecord),
    /// Begin a render pass that clears the destination attachment to
    /// black, binds the source target's bind group, and draws
    /// `vertices` vertices over `instances` instances.
    DrawPass {
        /// Index of the off-screen target whose bind group the pass reads.
        source_target: u32,
        /// The attachment the pass writes.
        destination: PassDestination,
        /// Number of vertices in the single draw.
        vertices: u32,
        /// Number of instances in the single draw.
        instances: u32,
    },
    /// Finish recording and submit the single command buffer.
    Submit,
    /// Present the acquired surface texture.
    Present,
}

/// A recoverable per-frame failure. The frame is skipped, the frame
/// counter does not advance, and the next redraw retries.
#[derive(Clone, Copy, PartialEq, Eq, Structural, Debug)]
pub enum FrameError {
    /// The surface produced no presentable texture this cycle.
    AcquireFailed,
}

/// Builds the payload of the zero-fill write: `width * height * 4` zero
/// bytes, one row of `width * 4` bytes per texel row.
pub fn init_target_bytes(width: u32, height: u32) -> (r: Vec<u8>)
    requires
        1 <= width,
        1 <= height,
        width * height * 4 <= u32::MAX,
    ensures
        r@.len() == width * height * 4,
        forall|i: int| 0 <= i < r@.len() ==> r@[i] == 0u8,
{
    proof {
        assert(width * height <= width * height * 4) by (nonlinear_arith)
            requires 1 <= width && 1 <= height;
    }
    let n: u32 = width * height * 4;
    let mut r: Vec<u8> = Vec::new();
    let mut i: u32 = 0;
    while i < n
        invariant
            i <= n,
            r@.len() == i,
            forall|j: int| 0 <= j < r@.len() ==> r@[j] == 0u8,
        decreases n - i,
    {
        r.push(0u8);
        i = i + 1;
    }
    r
}

} // verus!
