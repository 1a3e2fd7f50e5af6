use vstd::prelude::*;

use crate::buf::IoBuf;
use crate::error::Error;

verus! {

/// The bytes of `data` after writing `b` at `pos`: what lay before `pos`
/// stays (padded with zeros up to `pos`), `b` follows, then whatever lay
/// beyond its end.
pub open spec fn write_at(data: Seq<u8>, pos: nat, b: Seq<u8>) -> Seq<u8> {
    let head = if pos <= data.len() {
        data.subrange(0, pos as int)
    } else {
        data + Seq::new((pos - data.len()) as nat, |i: int| 0u8)
    };
    let tail = if pos + b.len() < data.len() {
        data.subrange((pos + b.len()) as int, data.len() as int)
    } else {
        Seq::empty()
    };
    head + b + tail
}

/// Bytes written at `pos` are read back from `pos` as they were written,
/// whatever the file held before; in particular writing `b` to an empty file
/// leaves exactly `b`.
pub proof fn lemma_read_back(data: Seq<u8>, pos: nat, b: Seq<u8>)
    ensures
        write_at(data, pos, b).len() >= pos + b.len(),
        write_at(data, pos, b).subrange(pos as int, (pos + b.len()) as int) == b,
        data.len() == 0 && pos == 0 ==> write_at(data, pos, b) == b,
{
    let w = write_at(data, pos, b);
    let head = if pos <= data.len() {
        data.subrange(0, pos as int)
    } else {
        data + Seq::new((pos - data.len()) as nat, |i: int| 0u8)
    };
    assert(head.len() == pos);
    assert(w.subrange(pos as int, (pos + b.len()) as int) =~= b);
    if data.len() == 0 && pos == 0 {
        assert(w =~= b);
    }
}

/// A file behind a non-generic interface: every buffer passes as the
/// canonical byte view, so that files of different backends can stand
/// behind one handle type. A file is modelled as its bytes and a cursor
/// that writes start at.
pub trait DynFile {
    /// The bytes of the file.
    spec fn contents(&self) -> Seq<u8>;

    /// Where the next write starts.
    spec fn cursor(&self) -> u64;

    /// Fills `buf` with the bytes at `pos..pos + buf.len()`.
    fn read_exact_at(&mut self, buf: Vec<u8>, pos: u64) -> (r: (Result<(), Error>, Vec<u8>))
        ensures
            final(self).contents() == old(self).contents(),
            final(self).cursor() == old(self).cursor(),
            r.1@.len() == buf@.len(),
            r.0 is Ok ==> pos + buf@.len() <= old(self).contents().len() && r.1@ == old(
                self,
            ).contents().subrange(pos as int, pos + buf@.len()),
    ;

    /// Appends the bytes from `pos` to the end of the file to `buf`.
    fn read_to_end_at(&mut self, buf: Vec<u8>, pos: u64) -> (r: (Result<(), Error>, Vec<u8>))
        ensures
            final(self).contents() == old(self).contents(),
            final(self).cursor() == old(self).cursor(),
            r.0 is Ok ==> pos <= old(self).contents().len() && r.1@ == buf@ + old(
                self,
            ).contents().subrange(pos as int, old(self).contents().len() as int),
            r.0 is Err ==> r.1@ == buf@,
    ;

    /// The length of the file.
    fn size(&self) -> (r: Result<u64, Error>)
        ensures
            r is Ok ==> r->Ok_0 == self.contents().len(),
    ;

    /// Writes `buf` at the cursor and moves the cursor past it; the buffer
    /// comes back unchanged, and a failed write changes nothing.
    fn write_all(&mut self, buf: Vec<u8>) -> (r: (Result<(), Error>, Vec<u8>))
        ensures
            r.1@ == buf@,
            r.0 is Ok ==> final(self).contents() == write_at(
                old(self).contents(),
                old(self).cursor() as nat,
                buf@,
            ) && final(self).cursor() == old(self).cursor() + buf@.len(),
            r.0 is Err ==> final(self).contents() == old(self).contents() && final(self).cursor()
                == old(self).cursor(),
    ;

    /// Moves the cursor to `pos`.
    fn seek(&mut self, pos: u64) -> (r: Result<(), Error>)
        ensures
            final(self).contents() == old(self).contents(),
            r is Ok ==> final(self).cursor() == pos,
            r is Err ==> final(self).cursor() == old(self).cursor(),
    ;

    /// Pushes buffered writes down to the backend.
    fn flush(&mut self) -> (r: Result<(), Error>)
        ensures
            final(self).contents() == old(self).contents(),
            final(self).cursor() == old(self).cursor(),
    ;

    /// Flushes and releases the file.
    fn close(&mut self) -> (r: Result<(), Error>)
        ensures
            final(self).contents() == old(self).contents(),
    ;
}

/// Reads into a buffer of any type through a file's non-generic interface:
/// the buffer is erased to its view, the view is filled, and a buffer of the
/// caller's type is recovered from it. The caller gets what the direct call
/// on the view gives.
pub fn read_exact_at<F: DynFile, B: IoBuf>(file: &mut F, buf: B, pos: u64) -> (r: (Result<(), Error>, B))
    ensures
        final(file).contents() == old(file).contents(),
        final(file).cursor() == old(file).cursor(),
        r.1.bytes().len() == buf.bytes().len(),
        r.0 is Ok ==> pos + buf.bytes().len() <= old(file).contents().len() && r.1.bytes() == old(
            file,
        ).contents().subrange(pos as int, pos + buf.bytes().len()),
{
    let view = buf.into_view();
    let (result, view) = file.read_exact_at(view, pos);
    (result, B::recover(view))
}

/// Writes a buffer of any type through a file's non-generic interface and
/// hands back a buffer of the caller's type that holds the same bytes.
pub fn write_all<F: DynFile, B: IoBuf>(file: &mut F, buf: B) -> (r: (Result<(), Error>, B))
    ensures
        r.1.bytes() == buf.bytes(),
        r.0 is Ok ==> final(file).contents() == write_at(
            old(file).contents(),
            old(file).cursor() as nat,
            buf.bytes(),
        ) && final(file).cursor() == old(file).cursor() + buf.bytes().len(),
        r.0 is Err ==> final(file).contents() == old(file).contents() && final(file).cursor()
            == old(file).cursor(),
{
    let view = buf.into_view();
    let (result, view) = file.write_all(view);
    (result, B::recover(view))
}

} // verus!
