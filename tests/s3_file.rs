use std::collections::HashMap;

use fusio::error::Error;
use fusio::s3::{AwsCredential, S3File, S3Options};
use fusio::wire::{parse_content_length, Header, HttpRequest, HttpResponse, Method};

/// An object store in memory that answers requests the way the remote
/// protocol describes.
struct Store {
    objects: HashMap<Vec<u8>, Vec<u8>>,
}

impl Store {
    fn answer(&mut self, req: HttpRequest) -> Result<HttpResponse, Error> {
        let response = match req.method {
            Method::Put => {
                self.objects.insert(req.url.clone(), req.body.clone());
                HttpResponse { status: 200, content_length: None, body: Vec::new() }
            }
            Method::Head => match self.objects.get(&req.url) {
                Some(object) => HttpResponse {
                    status: 200,
                    content_length: Some(object.len().to_string().into_bytes()),
                    body: Vec::new(),
                },
                None => HttpResponse { status: 404, content_length: None, body: Vec::new() },
            },
            Method::Get => match (self.objects.get(&req.url), req.header) {
                (Some(object), Some(Header::Range { first, last })) => {
                    let end = (last as usize + 1).min(object.len());
                    HttpResponse {
                        status: 206,
                        content_length: None,
                        body: object[first as usize..end].to_vec(),
                    }
                }
                _ => HttpResponse { status: 404, content_length: None, body: Vec::new() },
            },
        };
        Ok(response)
    }
}

fn options() -> S3Options {
    S3Options {
        endpoint: "https://fusio-test.s3.ap-southeast-1.amazonaws.com".into(),
        credential: Some(AwsCredential {
            key_id: "key".into(),
            secret_key: "secret".into(),
            token: None,
        }),
        region: "ap-southeast-1".into(),
        sign_payload: true,
        checksum: false,
    }
}

fn response(status: u16, content_length: Option<&[u8]>, body: &[u8]) -> Result<HttpResponse, Error> {
    Ok(HttpResponse {
        status,
        content_length: content_length.map(|v| v.to_vec()),
        body: body.to_vec(),
    })
}

#[test]
fn write_and_read_s3_file() {
    let mut store = Store { objects: HashMap::new() };
    let mut s3 = S3File::new(options(), "test.txt".into());

    let data = b"The answer of life, universe and everthing".to_vec();
    let req = s3.write_request(&data).unwrap();
    let outcome = store.answer(req);
    let (result, _) = s3.finish_write(outcome, data.clone());
    result.unwrap();

    s3.seek(0).unwrap();

    let outcome = store.answer(s3.size_request());
    let size = s3.finish_size(outcome).unwrap();
    assert_eq!(size, 42);

    let buf = vec![0u8; size as usize];
    let outcome = store.answer(s3.read_request(buf.len()).unwrap());
    let (result, buf) = s3.finish_read(outcome, buf);
    result.unwrap();
    assert_eq!(buf, b"The answer of life, universe and everthing");
    assert_eq!(s3.pos(), 42);
}

#[test]
fn requests_target_the_encoded_path() {
    let s3 = S3File::new(options(), "dir/a b%.txt".into());
    let req = s3.size_request();
    assert_eq!(req.method, Method::Head);
    assert_eq!(
        req.url,
        b"https://fusio-test.s3.ap-southeast-1.amazonaws.com/dir/a%20b%25.txt".to_vec()
    );
    assert!(req.header.is_none());
    assert!(req.body.is_empty());
}

#[test]
fn read_request_asks_for_the_range_at_the_cursor() {
    let mut s3 = S3File::new(options(), "f".into());
    s3.seek(10).unwrap();
    let req = s3.read_request(5).unwrap();
    assert_eq!(req.method, Method::Get);
    let header = req.header.unwrap();
    assert_eq!(header, Header::Range { first: 10, last: 14 });
    assert_eq!(header.name(), "range");
    assert_eq!(header.value(), b"bytes=10-14".to_vec());
    assert!(matches!(s3.read_request(0), Err(Error::InvalidRange)));
    s3.seek(u64::MAX).unwrap();
    assert!(matches!(s3.read_request(1), Err(Error::InvalidRange)));
}

#[test]
fn write_request_declares_the_length() {
    let s3 = S3File::new(options(), "f".into());
    let req = s3.write_request(&vec![1u8, 2, 3]).unwrap();
    assert_eq!(req.method, Method::Put);
    let header = req.header.unwrap();
    assert_eq!(header, Header::ContentLength(3));
    assert_eq!(header.name(), "content-length");
    assert_eq!(header.value(), b"3".to_vec());
    assert_eq!(req.body, vec![1u8, 2, 3]);
}

#[test]
fn failed_write_keeps_the_cursor_and_the_body_text() {
    let mut s3 = S3File::new(options(), "f".into());
    let (result, buf) = s3.finish_write(response(403, None, b"denied"), vec![1u8, 2]);
    match result {
        Err(Error::Status(code, content)) => {
            assert_eq!(code, 403);
            assert_eq!(content, b"denied".to_vec());
        }
        _ => panic!("expected a status error"),
    }
    assert_eq!(buf, vec![1u8, 2]);
    assert_eq!(s3.pos(), 0);
}

#[test]
fn failed_read_keeps_the_cursor() {
    let mut s3 = S3File::new(options(), "f".into());
    let (result, buf) = s3.finish_read(response(500, None, b""), vec![9u8; 3]);
    assert!(matches!(result, Err(Error::Status(500, _))));
    assert_eq!(buf, vec![9u8; 3]);
    assert_eq!(s3.pos(), 0);
}

#[test]
fn short_body_is_an_error() {
    let mut s3 = S3File::new(options(), "f".into());
    let (result, buf) = s3.finish_read(response(200, None, b"ab"), vec![0u8; 3]);
    assert!(matches!(result, Err(Error::BodyLength { expected: 3, actual: 2 })));
    assert_eq!(buf, vec![0u8; 3]);
    assert_eq!(s3.pos(), 0);
}

#[test]
fn transport_error_passes_through() {
    let mut s3 = S3File::new(options(), "f".into());
    let (result, _) = s3.finish_write(Err(Error::Transport("refused".into())), vec![1u8]);
    match result {
        Err(Error::Transport(m)) => assert_eq!(m, "refused"),
        _ => panic!("expected the transport error"),
    }
    assert!(matches!(
        s3.finish_size(Err(Error::Signing("no key".into()))),
        Err(Error::Signing(_))
    ));
    assert_eq!(s3.pos(), 0);
}

#[test]
fn size_needs_a_content_length() {
    let s3 = S3File::new(options(), "f".into());
    assert!(matches!(s3.finish_size(response(200, None, b"")), Err(Error::MissingContentLength)));
    assert!(matches!(
        s3.finish_size(response(200, Some(b"4x"), b"")),
        Err(Error::InvalidContentLength)
    ));
    assert!(matches!(s3.finish_size(response(404, Some(b"4"), b"")), Err(Error::Status(404, _))));
    assert_eq!(s3.finish_size(response(204, Some(b"1234"), b"")).unwrap(), 1234);
}

#[test]
fn content_length_parsing() {
    assert_eq!(parse_content_length(&b"0".to_vec()).unwrap(), 0);
    assert_eq!(parse_content_length(&b"18446744073709551615".to_vec()).unwrap(), u64::MAX);
    assert!(parse_content_length(&b"18446744073709551616".to_vec()).is_err());
    assert!(parse_content_length(&b"".to_vec()).is_err());
    assert!(parse_content_length(&b"-1".to_vec()).is_err());
}

#[test]
fn seek_and_lifecycle_calls_always_succeed() {
    let mut s3 = S3File::new(options(), "f".into());
    s3.seek(7).unwrap();
    assert_eq!(s3.pos(), 7);
    s3.sync_data().unwrap();
    s3.sync_all().unwrap();
    s3.close().unwrap();
    assert_eq!(s3.pos(), 7);
}
