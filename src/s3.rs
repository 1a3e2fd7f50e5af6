use vstd::prelude::*;

use vstd::slice::slice_to_vec;
use vstd::utf8::encode_utf8;

use crate::error::Error;
use crate::wire::{
    encode_path, is_success, parse_content_length, push_encoded_path, success_status, valid_length,
    digits_value, Header, HttpRequest, HttpResponse, Method,
};

verus! {

/// Credentials handed to the request signer.
#[derive(Debug, Clone)]
pub struct AwsCredential {
    pub key_id: String,
    pub secret_key: String,
    pub token: Option<String>,
}

/// Options shared by every file of one object store.
#[derive(Debug, Clone)]
pub struct S3Options {
    pub endpoint: String,
    pub credential: Option<AwsCredential>,
    pub region: String,
    pub sign_payload: bool,
    pub checksum: bool,
}

/// A file of an object store, addressed by URL, with a cursor kept locally.
///
/// Each operation is planned here as a request, carried out by the caller
/// (signing and sending it), and completed here from what came back. The
/// cursor moves only when an exchange succeeds, or on `seek`.
pub struct S3File {
    options: S3Options,
    path: String,
    url: Vec<u8>,
    pos: u64,
}

/// The URL of `path` under `endpoint`: `{endpoint}/{encoded path}`.
pub open spec fn object_url(endpoint: Seq<u8>, path: Seq<u8>) -> Seq<u8> {
    endpoint + seq![47u8] + encode_path(path)
}

/// The inclusive byte range a read of `len` bytes at `pos` asks for, when it
/// is not empty and the cursor after it still fits in 64 bits.
pub open spec fn read_range(pos: u64, len: nat) -> Option<(u64, u64)> {
    if 0 < len && pos + len <= u64::MAX {
        Some((pos, (pos + len - 1) as u64))
    } else {
        None
    }
}

/// A read of `len` bytes at `pos` succeeds on this answer.
pub open spec fn read_accepted(pos: u64, len: nat, status: u16, body: Seq<u8>) -> bool {
    read_range(pos, len) is Some && success_status(status) && body.len() == len
}

/// A write of `len` bytes at `pos` can be sent: the cursor after it fits.
pub open spec fn write_fits(pos: u64, len: nat) -> bool {
    pos + len <= u64::MAX
}

/// A write of `len` bytes at `pos` succeeds on this status.
pub open spec fn write_accepted(pos: u64, len: nat, status: u16) -> bool {
    write_fits(pos, len) && success_status(status)
}

/// What an object store holding `object` sends back for the range
/// `first..=last` that lies within it.
pub open spec fn served(object: Seq<u8>, first: u64, last: u64) -> Seq<u8> {
    object.subrange(first as int, last + 1)
}

impl S3File {
    /// The cursor.
    pub closed spec fn position(&self) -> u64 {
        self.pos
    }

    /// The URL every request of this file targets.
    pub closed spec fn url(&self) -> Seq<u8> {
        self.url@
    }

    /// The options the file was made with.
    pub closed spec fn settings(&self) -> S3Options {
        self.options
    }

    /// The path the file was made with.
    pub closed spec fn path_name(&self) -> Seq<char> {
        self.path@
    }

    /// A new file at `path`, with the cursor at 0.
    pub fn new(options: S3Options, path: String) -> (r: S3File)
        ensures
            r.position() == 0,
            r.settings() == options,
            r.path_name() == path@,
            r.url() == object_url(encode_utf8(options.endpoint@), encode_utf8(path@)),
    {
        let mut url: Vec<u8> = slice_to_vec(options.endpoint.as_str().as_bytes());
        url.push(47u8);
        push_encoded_path(&mut url, path.as_str().as_bytes());
        proof {
            assert(url@ =~= object_url(encode_utf8(options.endpoint@), encode_utf8(path@)));
        }
        S3File { options, path, url, pos: 0 }
    }

    /// The cursor.
    pub fn pos(&self) -> (r: u64)
        ensures
            r == self.position(),
    {
        self.pos
    }

    /// The options the file was made with.
    pub fn options(&self) -> (r: &S3Options)
        ensures
            *r == self.settings(),
    {
        &self.options
    }

    /// The path the file was made with.
    pub fn path(&self) -> (r: &String)
        ensures
            r@ == self.path_name(),
    {
        &self.path
    }

    fn build_request(&self, method: Method, header: Option<Header>, body: Vec<u8>) -> (r: HttpRequest)
        ensures
            r.method == method,
            r.url@ == self.url(),
            r.header == header,
            r.body@ == body@,
    {
        HttpRequest { method, url: self.url.clone(), header, body }
    }

    /// The ranged GET that fills a buffer of `len` bytes from the cursor.
    pub fn read_request(&self, len: usize) -> (r: Result<HttpRequest, Error>)
        ensures
            r is Ok <==> read_range(self.position(), len as nat) is Some,
            r is Err ==> r->Err_0 is InvalidRange,
            r is Ok ==> ({
                let (first, last) = read_range(self.position(), len as nat)->Some_0;
                &&& r->Ok_0.method == Method::Get
                &&& r->Ok_0.url@ == self.url()
                &&& r->Ok_0.header == Some(Header::Range { first, last })
                &&& r->Ok_0.body@.len() == 0
            }),
    {
        if len == 0 || self.pos > u64::MAX - len as u64 {
            return Err(Error::InvalidRange);
        }
        let last = self.pos + (len as u64 - 1);
        Ok(self.build_request(Method::Get, Some(Header::Range { first: self.pos, last }), Vec::new()))
    }

    /// Completes a read from the outcome of its exchange: on success the
    /// response body is copied into the buffer, which it fills exactly, and
    /// the cursor moves past it; on failure
    /// the buffer and the cursor are left as they were.
    pub fn finish_read(&mut self, outcome: Result<HttpResponse, Error>, buf: Vec<u8>) -> (r: (
        Result<(), Error>,
        Vec<u8>,
    ))
        ensures
            final(self).url() == old(self).url(),
            final(self).settings() == old(self).settings(),
            final(self).path_name() == old(self).path_name(),
            r.0 is Ok <==> outcome is Ok && read_accepted(
                old(self).position(),
                buf@.len(),
                outcome->Ok_0.status,
                outcome->Ok_0.body@,
            ),
            r.0 is Ok ==> r.1@ == outcome->Ok_0.body@ && final(self).position()
                == old(self).position() + buf@.len(),
            r.0 is Err ==> r.1@ == buf@ && final(self).position() == old(self).position(),
            outcome is Err ==> r.0 == Err::<(), Error>(outcome->Err_0),
            outcome is Ok && read_range(old(self).position(), buf@.len()) is None ==> r.0 is Err
                && r.0->Err_0 is InvalidRange,
            outcome is Ok && read_range(old(self).position(), buf@.len()) is Some && !success_status(
                outcome->Ok_0.status,
            ) ==> r.0 is Err && r.0->Err_0 is Status && r.0->Err_0->Status_0
                == outcome->Ok_0.status,
            outcome is Ok && read_range(old(self).position(), buf@.len()) is Some && success_status(
                outcome->Ok_0.status,
            ) && outcome->Ok_0.body@.len() != buf@.len() ==> r.0 == Err::<(), Error>(
                Error::BodyLength { expected: buf@.len() as usize, actual: outcome->Ok_0.body@.len() as usize },
            ),
    {
        match outcome {
            Err(e) => (Err(e), buf),
            Ok(resp) => {
                let len = buf.len();
                if len == 0 || self.pos > u64::MAX - len as u64 {
                    (Err(Error::InvalidRange), buf)
                } else if !is_success(resp.status) {
                    (Err(Error::Status(resp.status, Vec::new())), buf)
                } else if resp.body.len() != len {
                    (Err(Error::BodyLength { expected: len, actual: resp.body.len() }), buf)
                } else {
                    let mut buf = buf;
                    let mut i: usize = 0;
                    while i < len
                        invariant
                            len == buf@.len(),
                            len == resp.body@.len(),
                            i <= len,
                            forall|k: int| 0 <= k < i ==> buf@[k] == resp.body@[k],
                        decreases len - i,
                    {
                        buf.set(i, resp.body[i]);
                        i = i + 1;
                    }
                    assert(buf@ =~= resp.body@);
                    self.pos = self.pos + len as u64;
                    (Ok(()), buf)
                }
            },
        }
    }

    /// The HEAD request that asks for the object's size.
    pub fn size_request(&self) -> (r: HttpRequest)
        ensures
            r.method == Method::Head,
            r.url@ == self.url(),
            r.header is None,
            r.body@.len() == 0,
    {
        self.build_request(Method::Head, None, Vec::new())
    }

    /// Completes a size query from the outcome of its exchange: the size is
    /// the decimal content-length of a successful response.
    pub fn finish_size(&self, outcome: Result<HttpResponse, Error>) -> (r: Result<u64, Error>)
        ensures
            r is Ok <==> outcome is Ok && success_status(outcome->Ok_0.status)
                && outcome->Ok_0.content_length is Some && valid_length(
                outcome->Ok_0.content_length->Some_0@,
            ),
            r is Ok ==> r->Ok_0 == digits_value(outcome->Ok_0.content_length->Some_0@),
            outcome is Err ==> r == Err::<u64, Error>(outcome->Err_0),
            outcome is Ok && !success_status(outcome->Ok_0.status) ==> r is Err && r->Err_0 is Status
                && r->Err_0->Status_0 == outcome->Ok_0.status,
            outcome is Ok && success_status(outcome->Ok_0.status)
                && outcome->Ok_0.content_length is None ==> r is Err && r->Err_0 is MissingContentLength,
            outcome is Ok && success_status(outcome->Ok_0.status)
                && outcome->Ok_0.content_length is Some && !valid_length(
                outcome->Ok_0.content_length->Some_0@,
            ) ==> r is Err && r->Err_0 is InvalidContentLength,
    {
        match outcome {
            Err(e) => Err(e),
            Ok(resp) => {
                if !is_success(resp.status) {
                    Err(Error::Status(resp.status, Vec::new()))
                } else {
                    match &resp.content_length {
                        None => Err(Error::MissingContentLength),
                        Some(v) => parse_content_length(v),
                    }
                }
            },
        }
    }

    /// The PUT that stores `buf` as the object, with its length declared.
    pub fn write_request(&self, buf: &Vec<u8>) -> (r: Result<HttpRequest, Error>)
        ensures
            r is Ok <==> write_fits(self.position(), buf@.len()),
            r is Err ==> r->Err_0 is TooLarge,
            r is Ok ==> r->Ok_0.method == Method::Put && r->Ok_0.url@ == self.url()
                && r->Ok_0.header == Some(Header::ContentLength(buf@.len() as u64))
                && r->Ok_0.body@ == buf@,
    {
        if self.pos > u64::MAX - buf.len() as u64 {
            return Err(Error::TooLarge);
        }
        let body = buf.clone();
        Ok(self.build_request(Method::Put, Some(Header::ContentLength(buf.len() as u64)), body))
    }

    /// Completes a write from the outcome of its exchange and hands the
    /// buffer back unchanged. On success the cursor moves past the bytes
    /// written; on failure it stays, and a rejecting status keeps the
    /// response body for diagnostics.
    pub fn finish_write(&mut self, outcome: Result<HttpResponse, Error>, buf: Vec<u8>) -> (r: (
        Result<(), Error>,
        Vec<u8>,
    ))
        ensures
            r.1@ == buf@,
            final(self).url() == old(self).url(),
            final(self).settings() == old(self).settings(),
            final(self).path_name() == old(self).path_name(),
            r.0 is Ok <==> outcome is Ok && write_accepted(
                old(self).position(),
                buf@.len(),
                outcome->Ok_0.status,
            ),
            r.0 is Ok ==> final(self).position() == old(self).position() + buf@.len(),
            r.0 is Err ==> final(self).position() == old(self).position(),
            outcome is Err ==> r.0 == Err::<(), Error>(outcome->Err_0),
            outcome is Ok && !success_status(outcome->Ok_0.status) ==> r.0 is Err && r.0->Err_0 is Status
                && r.0->Err_0->Status_0 == outcome->Ok_0.status && r.0->Err_0->Status_1@
                == outcome->Ok_0.body@,
            outcome is Ok && success_status(outcome->Ok_0.status) && !write_fits(
                old(self).position(),
                buf@.len(),
            ) ==> r.0 is Err && r.0->Err_0 is TooLarge,
    {
        match outcome {
            Err(e) => (Err(e), buf),
            Ok(resp) => {
                if !is_success(resp.status) {
                    (Err(Error::Status(resp.status, resp.body)), buf)
                } else if self.pos > u64::MAX - buf.len() as u64 {
                    (Err(Error::TooLarge), buf)
                } else {
                    self.pos = self.pos + buf.len() as u64;
                    (Ok(()), buf)
                }
            },
        }
    }

    /// Moves the cursor to `pos`. Nothing is sent, and it always succeeds.
    pub fn seek(&mut self, pos: u64) -> (r: Result<(), Error>)
        ensures
            r is Ok,
            final(self).position() == pos,
            final(self).url() == old(self).url(),
            final(self).settings() == old(self).settings(),
            final(self).path_name() == old(self).path_name(),
    {
        self.pos = pos;
        Ok(())
    }

    /// Every successful write is already durable: nothing to do.
    pub fn sync_data(&self) -> (r: Result<(), Error>)
        ensures
            r is Ok,
    {
        Ok(())
    }

    /// Every successful write is already durable: nothing to do.
    pub fn sync_all(&self) -> (r: Result<(), Error>)
        ensures
            r is Ok,
    {
        Ok(())
    }

    /// Nothing is held open: closing changes nothing.
    pub fn close(&mut self) -> (r: Result<(), Error>)
        ensures
            r is Ok,
            final(self).position() == old(self).position(),
            final(self).url() == old(self).url(),
            final(self).settings() == old(self).settings(),
            final(self).path_name() == old(self).path_name(),
    {
        Ok(())
    }
} // impl S3File

/// Writing `b` at the start of a file, seeking back to 0 and reading
/// `b.len()` bytes gives back `b`: the write is sent whole and moves the
/// cursor past it, the read asks for exactly the range the write covered,
/// and a store that answers that range from the object the write left
/// delivers bytes that the read accepts.
pub proof fn lemma_round_trip(b: Seq<u8>, put_status: u16, get_status: u16)
    requires
        0 < b.len() < u64::MAX,
        success_status(put_status),
        success_status(get_status),
    ensures
        write_accepted(0, b.len(), put_status),
        read_range(0, b.len()) == Some((0u64, (b.len() - 1) as u64)),
        read_accepted(0, b.len(), get_status, served(b, 0, (b.len() - 1) as u64)),
        served(b, 0, (b.len() - 1) as u64) == b,
{
    assert(b.subrange(0, b.len() as int) =~= b);
}

/// After a successful write of `n` bytes, the next read starts at the old
/// cursor plus `n`.
pub proof fn lemma_cursor_advance(pos: u64, n: nat, status: u16, len: nat)
    requires
        write_accepted(pos, n, status),
        read_range((pos + n) as u64, len) is Some,
    ensures
        read_range((pos + n) as u64, len)->Some_0.0 == pos + n,
{
}

/// A failed status never counts bytes as transferred: neither a read nor a
/// write is accepted on it.
pub proof fn lemma_failed_status_transfers_nothing(pos: u64, len: nat, status: u16, body: Seq<u8>)
    requires
        !success_status(status),
    ensures
        !read_accepted(pos, len, status, body),
        !write_accepted(pos, len, status),
{
}

} // verus!
