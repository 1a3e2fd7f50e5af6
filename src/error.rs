use vstd::prelude::*;

verus! {

/// Every failure an I/O operation can report.
#[derive(Debug, Clone)]
pub enum Error {
    /// The HTTP client could not complete the exchange.
    Transport(String),
    /// The request could not be signed; nothing was sent.
    Signing(String),
    /// The exchange completed with a status outside 200..=299: the status, and
    /// the response body kept for diagnostics (empty where it is not captured).
    Status(u16, Vec<u8>),
    /// A size query was answered without a content-length header.
    MissingContentLength,
    /// The content-length header is not a decimal number that fits in 64 bits.
    InvalidContentLength,
    /// The response body does not have the length of the destination buffer.
    BodyLength { expected: usize, actual: usize },
    /// The requested byte range is empty or does not fit in 64 bits.
    InvalidRange,
    /// A read reaches past the end of the resource.
    UnexpectedEof,
    /// A write would make the resource longer than 64 bits can address.
    TooLarge,
}

} // verus!
