use vstd::prelude::*;

verus! {

/// A buffer that an I/O operation takes by value and hands back when it is
/// done, so that the operation has it to itself in between.
///
/// Erasing a buffer gives the canonical view of its bytes, which is what a
/// non-generic interface passes along; recovering rebuilds a buffer of the
/// caller's type from a view. The contract asks that recovery keep exactly
/// the bytes of the view, so that nothing is lost across the erasure.
pub trait IoBuf: Sized {
    /// The bytes the buffer holds.
    spec fn bytes(&self) -> Seq<u8>;

    /// The number of bytes the buffer holds.
    fn bytes_len(&self) -> (r: usize)
        ensures
            r == self.bytes().len(),
    ;

    /// The canonical view of the buffer's bytes.
    fn into_view(self) -> (v: Vec<u8>)
        ensures
            v@ == self.bytes(),
    ;

    /// A buffer of this type that holds the bytes of the view.
    fn recover(v: Vec<u8>) -> (r: Self)
        ensures
            r.bytes() == v@,
    ;
}

impl IoBuf for Vec<u8> {
    open spec fn bytes(&self) -> Seq<u8> {
        self@
    }

    fn bytes_len(&self) -> (r: usize) {
        self.len()
    }

    fn into_view(self) -> (v: Vec<u8>) {
        self
    }

    fn recover(v: Vec<u8>) -> (r: Self) {
        v
    }
}

/// A buffer carried through erasure and recovery holds what it held before:
/// the same bytes, hence the same length.
pub proof fn lemma_erasure_fidelity<B: IoBuf>(b: B, view: Seq<u8>, back: B)
    requires
        view == b.bytes(),
        back.bytes() == view,
    ensures
        back.bytes() == b.bytes(),
        back.bytes().len() == b.bytes().len(),
{
}

} // verus!
