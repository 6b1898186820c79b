//! Painting a frame: which window sizes can be painted, and what the
//! painted pixel buffer holds.

use vstd::prelude::*;

verus! {

/// Opaque white. A pixel is `0x00RRGGBB`: the highest byte stays zero.
pub const WHITE: u32 = 0x00ff_ffff;

/// A buffer of `len` white pixels.
pub open spec fn white(len: nat) -> Seq<u32> {
    Seq::new(len, |i: int| WHITE)
}

/// Whether a window of `width` by `height` pixels can be painted: a window
/// with an empty side has no frame, and its redraw is skipped.
pub open spec fn paintable(width: u32, height: u32) -> bool {
    width > 0 && height > 0
}

/// The pixel size of a window that can be painted. Neither side is zero.
#[derive(Clone, Copy, Debug, PartialEq, Eq, Structural)]
pub struct FrameSize {
    width: u32,
    height: u32,
}

impl View for FrameSize {
    type V = (nat, nat);

    /// Width and height, in pixels.
    closed spec fn view(&self) -> (nat, nat) {
        (self.width as nat, self.height as nat)
    }
}

impl FrameSize {
    #[verifier::type_invariant]
    spec fn well_formed(&self) -> bool {
        paintable(self.width, self.height)
    }

    /// The number of pixels of a frame of this size, row by row.
    pub open spec fn pixels(&self) -> nat {
        self@.0 * self@.1
    }

    /// The size of a window's frame, or `None` where the window has an
    /// empty side and the frame is skipped.
    pub fn new(width: u32, height: u32) -> (size: Option<FrameSize>)
        ensures
            size is Some <==> paintable(width, height),
            size matches Some(s) ==> s@ == (width as nat, height as nat),
    {
        if width == 0 || height == 0 {
            None
        } else {
            Some(FrameSize { width, height })
        }
    }

    /// Width in pixels; never zero.
    pub fn width(&self) -> (width: u32)
        ensures
            width == self@.0,
            width > 0,
    {
        proof {
            use_type_invariant(self);
        }
        self.width
    }

    /// Height in pixels; never zero.
    pub fn height(&self) -> (height: u32)
        ensures
            height == self@.1,
            height > 0,
    {
        proof {
            use_type_invariant(self);
        }
        self.height
    }

    /// Length of the pixel buffer that holds a frame of this size.
    pub fn pixel_count(&self) -> (count: u64)
        ensures
            count == self.pixels(),
            count > 0,
    {
        proof {
            use_type_invariant(self);
            assert(0 < self.width * self.height <= 0xffff_ffff * 0xffff_ffff) by (nonlinear_arith)
                requires
                    0 < self.width <= 0xffff_ffff,
                    0 < self.height <= 0xffff_ffff,
            ;
        }
        (self.width as u64) * (self.height as u64)
    }
}

/// Fills the whole buffer with opaque white. The buffer keeps its length.
pub fn paint_white(pixels: &mut [u32])
    ensures
        final(pixels)@ == white(old(pixels)@.len()),
        final(pixels)@.len() == old(pixels)@.len(),
        forall|i: int| 0 <= i < final(pixels)@.len() ==> final(pixels)@[i] == WHITE,
{
    let len: usize = pixels.len();
    let mut done: usize = 0;
    while done < len
        invariant
            done <= len,
            len == pixels@.len(),
            forall|i: int| 0 <= i < done ==> pixels@[i] == WHITE,
        decreases len - done,
    {
        pixels[done] = WHITE;
        done = done + 1;
    }
    assert(pixels@ =~= white(len as nat));
}

/// Redrawing a window whose sides are both non-zero gives a frame of
/// exactly its width times its height pixels, every one of them white:
/// such a window is paintable, and painting a buffer of that many pixels
/// leaves that many pixels, all of them white.
pub proof fn lemma_redraw_is_white(width: u32, height: u32, before: Seq<u32>)
    requires
        width > 0,
        height > 0,
        before.len() == width * height,
    ensures
        paintable(width, height),
        white(before.len()).len() == width * height,
        forall|i: int| 0 <= i < width * height ==> white(before.len())[i] == WHITE,
{
}

} // verus!
