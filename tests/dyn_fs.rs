use fusio::buf::IoBuf;
use fusio::dynamic::{self, DynFile};
use fusio::error::Error;
use fusio::mem::MemFile;

#[test]
fn test_dyn_fs() {
    let mut file = MemFile::new();
    let buf = vec![24u8, 9, 24, 0];
    let (result, _) = dynamic::write_all(&mut file, buf);
    result.unwrap();
}

#[test]
fn dyn_file_size_and_read_to_end() {
    let mut file = MemFile::new();
    let (result, back) = dynamic::write_all(&mut file, vec![24u8, 9, 24, 0]);
    result.unwrap();
    assert_eq!(back, vec![24u8, 9, 24, 0]);
    assert_eq!(DynFile::size(&file).unwrap(), 4);
    let (result, buf) = DynFile::read_to_end_at(&mut file, Vec::new(), 0);
    result.unwrap();
    assert_eq!(buf, vec![24u8, 9, 24, 0]);
}

#[test]
fn round_trip_after_seek() {
    let mut file = MemFile::new();
    let data = b"hello world".to_vec();
    let (result, _) = file.write_all(data.clone());
    result.unwrap();
    file.seek(0).unwrap();
    let (result, buf) = dynamic::read_exact_at(&mut file, vec![0u8; data.len()], 0);
    result.unwrap();
    assert_eq!(buf, data);
}

#[test]
fn writes_advance_the_cursor() {
    let mut file = MemFile::new();
    file.write_all(vec![1u8, 2]).0.unwrap();
    file.write_all(vec![3u8]).0.unwrap();
    let (result, buf) = file.read_to_end_at(Vec::new(), 0);
    result.unwrap();
    assert_eq!(buf, vec![1u8, 2, 3]);
}

#[test]
fn seek_overrides_the_cursor() {
    let mut file = MemFile::new();
    file.write_all(vec![1u8, 2, 3, 4]).0.unwrap();
    file.seek(1).unwrap();
    file.write_all(vec![9u8]).0.unwrap();
    let (_, buf) = file.read_to_end_at(Vec::new(), 0);
    assert_eq!(buf, vec![1u8, 9, 3, 4]);
}

#[test]
fn write_past_the_end_fills_with_zeros() {
    let mut file = MemFile::new();
    file.write_all(vec![7u8]).0.unwrap();
    file.seek(3).unwrap();
    file.write_all(vec![8u8]).0.unwrap();
    let (_, buf) = file.read_to_end_at(Vec::new(), 0);
    assert_eq!(buf, vec![7u8, 0, 0, 8]);
    assert_eq!(file.size().unwrap(), 4);
}

#[test]
fn read_past_the_end_is_an_error_and_keeps_the_buffer() {
    let mut file = MemFile::new();
    file.write_all(vec![1u8, 2, 3]).0.unwrap();
    let (result, buf) = file.read_exact_at(vec![5u8, 5], 2);
    assert!(matches!(result, Err(Error::UnexpectedEof)));
    assert_eq!(buf, vec![5u8, 5]);
    let (result, buf) = file.read_to_end_at(vec![1u8], 4);
    assert!(matches!(result, Err(Error::UnexpectedEof)));
    assert_eq!(buf, vec![1u8]);
}

#[test]
fn read_to_end_appends() {
    let mut file = MemFile::new();
    file.write_all(vec![1u8, 2, 3]).0.unwrap();
    let (result, buf) = file.read_to_end_at(vec![0u8], 1);
    result.unwrap();
    assert_eq!(buf, vec![0u8, 2, 3]);
    let (result, buf) = file.read_to_end_at(Vec::new(), 3);
    result.unwrap();
    assert!(buf.is_empty());
}

#[test]
fn cursor_overflow_is_rejected() {
    let mut file = MemFile::new();
    file.seek(u64::MAX).unwrap();
    let (result, buf) = file.write_all(vec![1u8]);
    assert!(matches!(result, Err(Error::TooLarge)));
    assert_eq!(buf, vec![1u8]);
    assert_eq!(file.size().unwrap(), 0);
}

#[test]
fn erasure_keeps_the_bytes() {
    let b = vec![3u8, 1, 4, 1, 5];
    assert_eq!(b.bytes_len(), 5);
    let view = b.clone().into_view();
    let back: Vec<u8> = IoBuf::recover(view);
    assert_eq!(back, b);
}
