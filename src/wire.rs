use vstd::prelude::*;

verus! {

/// The HTTP methods the remote backend uses.
#[derive(Debug, Clone, Copy, PartialEq, Eq, Structural)]
pub enum Method {
    Get,
    Head,
    Put,
}

/// The one header a request of the remote backend carries, if any.
#[derive(Debug, Clone, Copy, PartialEq, Eq, Structural)]
pub enum Header {
    /// `Range: bytes=<first>-<last>`, both ends inclusive.
    Range { first: u64, last: u64 },
    /// `Content-Length: <n>`.
    ContentLength(u64),
}

/// A request as plain values: the caller turns it into a transport request.
#[derive(Debug, Clone)]
pub struct HttpRequest {
    pub method: Method,
    pub url: Vec<u8>,
    pub header: Option<Header>,
    pub body: Vec<u8>,
}

/// What the remote backend reads of a response.
#[derive(Debug, Clone)]
pub struct HttpResponse {
    pub status: u16,
    /// The raw value of the content-length header, when present.
    pub content_length: Option<Vec<u8>>,
    pub body: Vec<u8>,
}

/// A status in 200..=299.
pub open spec fn success_status(status: u16) -> bool {
    200 <= status && status < 300
}

/// Whether a status reports success.
pub fn is_success(status: u16) -> (r: bool)
    ensures
        r == success_status(status),
{
    200 <= status && status < 300
}

/// The decimal digits of `n`, most significant first, without leading zeros.
pub open spec fn decimal(n: nat) -> Seq<u8>
    decreases n,
{
    if n < 10 {
        seq![(48 + n) as u8]
    } else {
        decimal(n / 10).push((48 + n % 10) as u8)
    }
}

/// Relies on the std `Display` impl of `u64` (through `to_string`): the
/// shortest decimal form of the number, in ASCII digits.
#[verifier::external_body]
fn decimal_bytes(n: u64) -> (r: Vec<u8>)
    ensures
        r@ == decimal(n as nat),
{
    n.to_string().into_bytes()
}

pub open spec fn is_digit(b: u8) -> bool {
    48 <= b && b <= 57
}

pub open spec fn all_digits(s: Seq<u8>) -> bool {
    forall|i: int| 0 <= i < s.len() ==> is_digit(#[trigger] s[i])
}

/// The number that a string of decimal digits denotes.
pub open spec fn digits_value(s: Seq<u8>) -> nat
    decreases s.len(),
{
    if s.len() == 0 {
        0
    } else {
        digits_value(s.drop_last()) * 10 + (s.last() - 48) as nat
    }
}

/// A content-length value is accepted when it is a non-empty run of
/// decimal digits whose value fits in 64 bits.
pub open spec fn valid_length(s: Seq<u8>) -> bool {
    s.len() > 0 && all_digits(s) && digits_value(s) <= u64::MAX
}

proof fn lemma_prefix_value(s: Seq<u8>, j: int)
    requires
        all_digits(s),
        0 <= j <= s.len(),
    ensures
        digits_value(s.subrange(0, j)) <= digits_value(s),
    decreases s.len(),
{
    if j == s.len() {
        assert(s.subrange(0, j) =~= s);
    } else {
        let t = s.drop_last();
        assert(all_digits(t)) by {
            assert forall|i: int| 0 <= i < t.len() implies is_digit(#[trigger] t[i]) by {
                assert(t[i] == s[i]);
            }
        }
        lemma_prefix_value(t, j);
        assert(t.subrange(0, j) =~= s.subrange(0, j));
    }
}

/// Reads a content-length header value.
pub fn parse_content_length(s: &Vec<u8>) -> (r: Result<u64, crate::error::Error>)
    ensures
        r is Ok <==> valid_length(s@),
        r is Ok ==> r->Ok_0 == digits_value(s@),
        r is Err ==> r->Err_0 is InvalidContentLength,
{
    if s.len() == 0 {
        return Err(crate::error::Error::InvalidContentLength);
    }
    let mut acc: u64 = 0;
    let mut i: usize = 0;
    while i < s.len()
        invariant
            0 <= i <= s@.len(),
            all_digits(s@.subrange(0, i as int)),
            acc == digits_value(s@.subrange(0, i as int)),
        decreases s@.len() - i,
    {
        let b = s[i];
        assert(s@.subrange(0, i + 1).drop_last() =~= s@.subrange(0, i as int));
        if b < 48 || b > 57 {
            return Err(crate::error::Error::InvalidContentLength);
        }
        let d: u64 = (b - 48) as u64;
        if acc > 1844674407370955161 || (acc == 1844674407370955161 && d > 5) {
            proof {
                if all_digits(s@) {
                    lemma_prefix_value(s@, i + 1);
                }
            }
            return Err(crate::error::Error::InvalidContentLength);
        }
        acc = acc * 10 + d;
        i = i + 1;
        assert(all_digits(s@.subrange(0, i as int))) by {
            assert forall|k: int| 0 <= k < i implies is_digit(#[trigger] s@.subrange(0, i as int)[k]) by {
                if k < i - 1 {
                    assert(s@.subrange(0, i as int)[k] == s@.subrange(0, i - 1)[k]);
                }
            }
        }
    }
    assert(s@.subrange(0, s@.len() as int) =~= s@);
    Ok(acc)
}

/// Bytes that a path keeps as they are in a URL: ASCII letters and digits,
/// `-`, `.`, `_`, `~` and the separator `/`.
pub open spec fn unreserved(b: u8) -> bool {
    (48 <= b && b <= 57) || (65 <= b && b <= 90) || (97 <= b && b <= 122) || b == 45 || b == 46
        || b == 95 || b == 126 || b == 47
}

/// An uppercase hexadecimal digit for `n < 16`.
pub open spec fn hex_digit(n: u8) -> u8 {
    if n < 10 {
        (48 + n) as u8
    } else {
        (55 + n) as u8
    }
}

/// `%` followed by the two uppercase hexadecimal digits of `b`.
pub open spec fn escaped(b: u8) -> Seq<u8> {
    seq![37u8, hex_digit(b / 16), hex_digit(b % 16)]
}

/// A path in URL form: each reserved byte escaped, the others kept.
pub open spec fn encode_path(s: Seq<u8>) -> Seq<u8>
    decreases s.len(),
{
    if s.len() == 0 {
        Seq::empty()
    } else {
        encode_path(s.drop_last()) + if unreserved(s.last()) {
            seq![s.last()]
        } else {
            escaped(s.last())
        }
    }
}

/// Relies on percent_encoding::percent_encode_byte: the three-byte escape of
/// one byte, with uppercase digits.
#[verifier::external_body]
fn escape_byte(b: u8) -> (r: Vec<u8>)
    ensures
        r@ == escaped(b),
{
    percent_encoding::percent_encode_byte(b).as_bytes().to_vec()
}

fn is_unreserved(b: u8) -> (r: bool)
    ensures
        r == unreserved(b),
{
    (48 <= b && b <= 57) || (65 <= b && b <= 90) || (97 <= b && b <= 122) || b == 45 || b == 46
        || b == 95 || b == 126 || b == 47
}

/// Appends `path` in URL form to `out`.
pub fn push_encoded_path(out: &mut Vec<u8>, path: &[u8])
    ensures
        final(out)@ == old(out)@ + encode_path(path@),
{
    let ghost start = out@;
    let mut i: usize = 0;
    while i < path.len()
        invariant
            0 <= i <= path@.len(),
            out@ == start + encode_path(path@.subrange(0, i as int)),
        decreases path@.len() - i,
    {
        let b = path[i];
        assert(path@.subrange(0, i + 1).drop_last() =~= path@.subrange(0, i as int));
        if is_unreserved(b) {
            out.push(b);
        } else {
            let mut e = escape_byte(b);
            out.append(&mut e);
        }
        i = i + 1;
        assert(out@ =~= start + encode_path(path@.subrange(0, i as int)));
    }
    assert(path@.subrange(0, path@.len() as int) =~= path@);
}

/// `bytes=<first>-<last>`.
pub open spec fn range_value(first: u64, last: u64) -> Seq<u8> {
    seq![98u8, 121, 116, 101, 115, 61] + decimal(first as nat) + seq![45u8] + decimal(last as nat)
}

impl Header {
    /// The header's name, in lower case.
    pub fn name(&self) -> (r: &'static str)
        ensures
            self is Range ==> r@ == "range"@,
            self is ContentLength ==> r@ == "content-length"@,
    {
        match self {
            Header::Range { .. } => "range",
            Header::ContentLength(_) => "content-length",
        }
    }

    /// The header's value as ASCII bytes.
    pub fn value(&self) -> (r: Vec<u8>)
        ensures
            r@ == match *self {
                Header::Range { first, last } => range_value(first, last),
                Header::ContentLength(n) => decimal(n as nat),
            },
    {
        match self {
            Header::Range { first, last } => {
                let mut v: Vec<u8> = vec![98u8, 121, 116, 101, 115, 61];
                let mut a = decimal_bytes(*first);
                v.append(&mut a);
                v.push(45u8);
                let mut b = decimal_bytes(*last);
                v.append(&mut b);
                assert(v@ =~= range_value(*first, *last));
                v
            },
            Header::ContentLength(n) => decimal_bytes(*n),
        }
    }
}

} // verus!
