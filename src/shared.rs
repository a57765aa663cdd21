//! Read access to the last frame the runner published.
use crate::gba::Gba;
use crate::sync::{lock, replace_locked};
use crate::FRAMEBUFFER_LEN;
use vstd::prelude::*;

verus! {

/// Copies `src` into `dest` byte for byte.
pub fn copy_frame(src: &Vec<u8>, dest: &mut [u8])
    requires
        src@.len() == old(dest)@.len(),
    ensures
        final(dest)@ == src@,
{
    let n = src.len();
    let mut i: usize = 0;
    while i < n
        invariant
            n == src@.len(),
            dest@.len() == n,
            i <= n,
            forall|k: int| 0 <= k < i ==> dest@[k] == src@[k],
        decreases n - i,
    {
        dest[i] = src[i];
        i = i + 1;
    }
    assert(dest@ =~= src@);
}

/// One whole RGBA8 frame: always exactly `FRAMEBUFFER_LEN` bytes.
pub struct Frame {
    bytes: Vec<u8>,
}

impl Frame {
    #[verifier::type_invariant]
    spec fn is_whole(self) -> bool {
        self.bytes@.len() == FRAMEBUFFER_LEN
    }

    pub closed spec fn spec_bytes(self) -> Seq<u8> {
        self.bytes@
    }

    /// A black frame.
    pub fn blank() -> (r: Self)
        ensures
            r.spec_bytes() == Seq::new(FRAMEBUFFER_LEN as nat, |i: int| 0u8),
    {
        let bytes = vec![0u8; FRAMEBUFFER_LEN];
        assert(bytes@ =~= Seq::new(FRAMEBUFFER_LEN as nat, |i: int| 0u8));
        Frame { bytes }
    }

    /// The frame made of `bytes`.
    pub fn from_bytes(bytes: Vec<u8>) -> (r: Self)
        requires
            bytes@.len() == FRAMEBUFFER_LEN,
        ensures
            r.spec_bytes() == bytes@,
    {
        Frame { bytes }
    }

    /// Copies the frame into `dest`, which holds one frame.
    pub fn copy_into(&self, dest: &mut [u8])
        requires
            old(dest)@.len() == FRAMEBUFFER_LEN,
        ensures
            final(dest)@ == self.spec_bytes(),
            final(dest)@.len() == FRAMEBUFFER_LEN,
    {
        proof {
            use_type_invariant(self);
        }
        copy_frame(&self.bytes, dest);
    }
}

/// A reader of the published frame. The frame is only ever replaced whole, under
/// a lock of its own, so a copy never mixes two frames.
pub struct GbaSharedData<'a> {
    gba: &'a Gba,
}

impl<'a> GbaSharedData<'a> {
    pub(crate) fn from(gba: &'a Gba) -> Self {
        GbaSharedData { gba }
    }

    /// Copies the last published frame into `raw`, which holds one frame: the
    /// bytes of one whole frame, verbatim.
    pub fn copy_framebuffer_into(&mut self, raw: &mut [u8])
        requires
            old(raw)@.len() == FRAMEBUFFER_LEN,
        ensures
            final(raw)@.len() == FRAMEBUFFER_LEN,
    {
        let mut guard = lock(&self.gba.framebuffer);
        let frame = replace_locked(&mut guard, Frame::blank());
        frame.copy_into(raw);
        let _ = replace_locked(&mut guard, frame);
    }

    /// Replaces the published frame with `frame`, whole.
    pub(crate) fn publish(&self, frame: Frame) {
        let mut guard = lock(&self.gba.framebuffer);
        let _ = replace_locked(&mut guard, frame);
    }
}

} // verus!
