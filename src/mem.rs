use vstd::prelude::*;

use crate::dynamic::{write_at, DynFile};
use crate::error::Error;

verus! {

/// A file held in memory: its bytes and a cursor for writes.
pub struct MemFile {
    data: Vec<u8>,
    pos: u64,
}

/// Appends `src[from..to]` to `out`.
fn push_range(out: &mut Vec<u8>, src: &Vec<u8>, from: usize, to: usize)
    requires
        from <= to <= src@.len(),
    ensures
        final(out)@ == old(out)@ + src@.subrange(from as int, to as int),
{
    let ghost start = out@;
    let mut i: usize = from;
    while i < to
        invariant
            from <= i <= to <= src@.len(),
            out@ == start + src@.subrange(from as int, i as int),
        decreases to - i,
    {
        out.push(src[i]);
        i = i + 1;
        assert(out@ =~= start + src@.subrange(from as int, i as int));
    }
}

/// Appends `n` zero bytes to `out`.
fn push_zeros(out: &mut Vec<u8>, n: usize)
    ensures
        final(out)@ == old(out)@ + Seq::new(n as nat, |i: int| 0u8),
{
    let ghost start = out@;
    let mut i: usize = 0;
    while i < n
        invariant
            i <= n,
            out@ == start + Seq::new(i as nat, |k: int| 0u8),
        decreases n - i,
    {
        out.push(0u8);
        i = i + 1;
        assert(out@ =~= start + Seq::new(i as nat, |k: int| 0u8));
    }
}

impl MemFile {
    /// The bytes of the file.
    pub closed spec fn data(&self) -> Seq<u8> {
        self.data@
    }

    /// The cursor writes start at.
    pub closed spec fn position(&self) -> u64 {
        self.pos
    }

    /// An empty file with the cursor at 0.
    pub fn new() -> (r: MemFile)
        ensures
            r.data().len() == 0,
            r.position() == 0,
    {
        MemFile { data: Vec::new(), pos: 0 }
    }

    /// Fills `buf` with the bytes at `pos..pos + buf.len()`. The buffer is
    /// filled in place; when the range reaches past the end it is handed
    /// back untouched.
    pub fn read_exact_at(&self, buf: Vec<u8>, pos: u64) -> (r: (Result<(), Error>, Vec<u8>))
        ensures
            r.0 is Ok <==> pos + buf@.len() <= self.data().len(),
            r.0 is Ok ==> r.1@ == self.data().subrange(pos as int, pos + buf@.len()),
            r.0 is Err ==> r.1@ == buf@ && r.0->Err_0 is UnexpectedEof,
    {
        let mut buf = buf;
        let n = buf.len();
        if pos > self.data.len() as u64 || n > self.data.len() - pos as usize {
            return (Err(Error::UnexpectedEof), buf);
        }
        let start = pos as usize;
        let ghost len = self.data@.len();
        assert(len <= usize::MAX);
        let mut i: usize = 0;
        while i < n
            invariant
                n == buf@.len(),
                start + n <= self.data@.len(),
                self.data@.len() <= usize::MAX,
                i <= n,
                forall|k: int| 0 <= k < i ==> buf@[k] == self.data@[start + k],
            decreases n - i,
        {
            buf.set(i, self.data[start + i]);
            i = i + 1;
        }
        assert(buf@ =~= self.data@.subrange(pos as int, pos + n));
        (Ok(()), buf)
    }

    /// Appends the bytes from `pos` to the end of the file to `buf`.
    pub fn read_to_end_at(&self, buf: Vec<u8>, pos: u64) -> (r: (Result<(), Error>, Vec<u8>))
        ensures
            r.0 is Ok <==> pos <= self.data().len(),
            r.0 is Ok ==> r.1@ == buf@ + self.data().subrange(pos as int, self.data().len() as int),
            r.0 is Err ==> r.1@ == buf@ && r.0->Err_0 is UnexpectedEof,
    {
        let mut buf = buf;
        if pos > self.data.len() as u64 {
            return (Err(Error::UnexpectedEof), buf);
        }
        push_range(&mut buf, &self.data, pos as usize, self.data.len());
        (Ok(()), buf)
    }

    /// The length of the file.
    pub fn size(&self) -> (r: Result<u64, Error>)
        ensures
            r is Ok,
            r->Ok_0 == self.data().len(),
    {
        Ok(self.data.len() as u64)
    }

    /// Writes `buf` at the cursor, filling any gap before it with zeros, and
    /// moves the cursor past it; the buffer comes back unchanged. It fails,
    /// changing nothing, only where the end of the write would lie beyond
    /// what memory can address.
    pub fn write_all(&mut self, buf: Vec<u8>) -> (r: (Result<(), Error>, Vec<u8>))
        ensures
            r.1@ == buf@,
            r.0 is Ok <==> old(self).position() + buf@.len() <= usize::MAX,
            r.0 is Ok ==> final(self).data() == write_at(old(self).data(), old(self).position() as nat, buf@)
                && final(self).position() == old(self).position() + buf@.len(),
            r.0 is Err ==> final(self).data() == old(self).data() && final(self).position()
                == old(self).position() && r.0->Err_0 is TooLarge,
    {
        if self.pos > usize::MAX as u64 || buf.len() > usize::MAX - self.pos as usize {
            return (Err(Error::TooLarge), buf);
        }
        let p = self.pos as usize;
        let len = self.data.len();
        let end = p + buf.len();
        let mut out: Vec<u8> = Vec::new();
        if p <= len {
            push_range(&mut out, &self.data, 0, p);
        } else {
            push_range(&mut out, &self.data, 0, len);
            push_zeros(&mut out, p - len);
        }
        push_range(&mut out, &buf, 0, buf.len());
        if end < len {
            push_range(&mut out, &self.data, end, len);
        }
        proof {
            assert(self.data@.subrange(0, len as int) =~= self.data@);
            assert(buf@.subrange(0, buf@.len() as int) =~= buf@);
            assert(out@ =~= write_at(self.data@, p as nat, buf@));
        }
        self.data = out;
        self.pos = self.pos + buf.len() as u64;
        (Ok(()), buf)
    }

    /// Moves the cursor to `pos`; always succeeds.
    pub fn seek(&mut self, pos: u64) -> (r: Result<(), Error>)
        ensures
            r is Ok,
            final(self).position() == pos,
            final(self).data() == old(self).data(),
    {
        self.pos = pos;
        Ok(())
    }
}

impl DynFile for MemFile {
    closed spec fn contents(&self) -> Seq<u8> {
        self.data@
    }

    closed spec fn cursor(&self) -> u64 {
        self.pos
    }

    fn read_exact_at(&mut self, buf: Vec<u8>, pos: u64) -> (r: (Result<(), Error>, Vec<u8>)) {
        MemFile::read_exact_at(self, buf, pos)
    }

    fn read_to_end_at(&mut self, buf: Vec<u8>, pos: u64) -> (r: (Result<(), Error>, Vec<u8>)) {
        MemFile::read_to_end_at(self, buf, pos)
    }

    fn size(&self) -> (r: Result<u64, Error>) {
        MemFile::size(self)
    }

    fn write_all(&mut self, buf: Vec<u8>) -> (r: (Result<(), Error>, Vec<u8>)) {
        MemFile::write_all(self, buf)
    }

    fn seek(&mut self, pos: u64) -> (r: Result<(), Error>) {
        MemFile::seek(self, pos)
    }

    fn flush(&mut self) -> (r: Result<(), Error>) {
        Ok(())
    }

    fn close(&mut self) -> (r: Result<(), Error>) {
        Ok(())
    }
}

} // verus!
