use bux::proto::codec::{UploadReceiver, UploadStep};
use bux::proto::{
    decode_frame, encode_frame, frame_len, recv_download, recv_upload, recv_upload_to_writer,
    send_download, send_download_from_reader, send_upload, Download, ErrorCode, ErrorInfo,
    FrameError, StreamError, Upload, MAX_FRAME,
};

#[test]
fn roundtrip_upload_stream() {
    let data = vec![42u8; 600];
    let msgs = send_upload(&data, 256);
    let received = recv_upload(&msgs, 1024).unwrap();
    assert_eq!(received, data);
}

#[test]
fn roundtrip_download_stream() {
    let data = vec![7u8; 500];
    let msgs = send_download(&data, 256);
    let received = recv_download(&msgs).unwrap();
    assert_eq!(received, data);
}

#[test]
fn rejects_oversized_frame() {
    let mut buf = Vec::new();
    buf.extend_from_slice(&(32u32 * 1024 * 1024).to_be_bytes());
    buf.extend_from_slice(&[0u8; 16]);
    let result = decode_frame(&buf);
    assert!(result.is_err());
    assert_eq!(result.unwrap_err(), FrameError::TooLarge);
}

#[test]
fn upload_exceeds_limit() {
    let msgs = vec![Upload::Chunk(vec![0u8; 200]), Upload::Done];
    let result = recv_upload(&msgs, 100);
    assert!(result.is_err());
    assert!(matches!(result, Err(StreamError::LimitExceeded)));
}

#[test]
fn recv_upload_to_writer_streams() {
    let data = vec![42u8; 600];
    let msgs = send_upload(&data, 256);
    let mut dst = Vec::new();
    let total = recv_upload_to_writer(&msgs, &mut dst, 1024).unwrap();
    assert_eq!(total, 600);
    assert_eq!(dst, data);
}

#[test]
fn recv_upload_to_writer_rejects_oversized() {
    let msgs = vec![Upload::Chunk(vec![0u8; 200]), Upload::Done];
    let mut dst = Vec::new();
    let result = recv_upload_to_writer(&msgs, &mut dst, 100);
    assert!(result.is_err());
    assert!(dst.is_empty());
}

#[test]
fn send_download_from_reader_streams() {
    let data = vec![7u8; 500];
    let (msgs, total) = send_download_from_reader(&data, 256);
    assert_eq!(total, 500);
    let received = recv_download(&msgs).unwrap();
    assert_eq!(received, data);
}

#[test]
fn frame_is_length_prefix_then_payload() {
    let frame = encode_frame(b"hello").unwrap();
    assert_eq!(frame, vec![0, 0, 0, 5, b'h', b'e', b'l', b'l', b'o']);
    let mut two = frame.clone();
    two.extend_from_slice(&encode_frame(b"!").unwrap());
    let (payload, used) = decode_frame(&two).unwrap();
    assert_eq!(payload, b"hello");
    assert_eq!(used, 9);
    let (payload, used) = decode_frame(&two[used..]).unwrap();
    assert_eq!(payload, b"!");
    assert_eq!(used, 5);
}

#[test]
fn frame_roundtrip_of_empty_and_large_payload() {
    let empty = encode_frame(&[]).unwrap();
    assert_eq!(empty, vec![0, 0, 0, 0]);
    assert_eq!(decode_frame(&empty).unwrap(), (vec![], 4));
    let big = vec![0xabu8; 70_000];
    let frame = encode_frame(&big).unwrap();
    assert_eq!(&frame[..4], &[0, 1, 0x11, 0x70]);
    let (payload, used) = decode_frame(&frame).unwrap();
    assert_eq!(payload, big);
    assert_eq!(used, 70_004);
}

#[test]
fn frame_bound_is_sixteen_mebibytes() {
    assert_eq!(MAX_FRAME, 16 * 1024 * 1024);
    assert_eq!(frame_len(&[1, 0, 0, 0]), Ok(16 * 1024 * 1024));
    assert_eq!(frame_len(&[1, 0, 0, 1]), Err(FrameError::TooLarge));
    assert_eq!(frame_len(&[0xff, 0xff, 0xff, 0xff]), Err(FrameError::TooLarge));
    // The header alone decides: nothing of the payload needs to be there.
    assert_eq!(decode_frame(&[1, 0, 0, 1]), Err(FrameError::TooLarge));
    let too_big = vec![0u8; 16 * 1024 * 1024 + 1];
    assert_eq!(encode_frame(&too_big), Err(FrameError::TooLarge));
    let just_fits = vec![0u8; 16 * 1024 * 1024];
    assert!(encode_frame(&just_fits).is_ok());
}

#[test]
fn frame_that_ends_early_is_an_unexpected_end() {
    assert_eq!(decode_frame(&[]), Err(FrameError::UnexpectedEof));
    assert_eq!(decode_frame(&[0, 0, 0]), Err(FrameError::UnexpectedEof));
    assert_eq!(decode_frame(&[0, 0, 0, 2, 1]), Err(FrameError::UnexpectedEof));
}

#[test]
fn upload_is_cut_into_chunks_of_the_given_size() {
    let data: Vec<u8> = (0..10).collect();
    let msgs = send_upload(&data, 4);
    assert_eq!(msgs.len(), 4);
    assert!(matches!(&msgs[0], Upload::Chunk(d) if d == &vec![0, 1, 2, 3]));
    assert!(matches!(&msgs[1], Upload::Chunk(d) if d == &vec![4, 5, 6, 7]));
    assert!(matches!(&msgs[2], Upload::Chunk(d) if d == &vec![8, 9]));
    assert!(matches!(&msgs[3], Upload::Done));
    let none = send_upload(&[], 4);
    assert_eq!(none.len(), 1);
    assert!(matches!(&none[0], Upload::Done));
}

#[test]
fn upload_roundtrip_for_every_chunk_size() {
    let data: Vec<u8> = (0..=255).collect();
    for chunk in 1..=300usize {
        let msgs = send_upload(&data, chunk);
        assert_eq!(recv_upload(&msgs, 256).unwrap(), data);
        assert!(matches!(recv_upload(&msgs, 255), Err(StreamError::LimitExceeded)));
        let down = send_download(&data, chunk);
        assert_eq!(recv_download(&down).unwrap(), data);
    }
}

#[test]
fn upload_without_end_is_an_unexpected_end() {
    let msgs = vec![Upload::Chunk(vec![1, 2, 3])];
    assert!(matches!(recv_upload(&msgs, 10), Err(StreamError::UnexpectedEof)));
    assert!(matches!(recv_download(&[]), Err(StreamError::UnexpectedEof)));
}

#[test]
fn download_error_is_handed_on() {
    let msgs = vec![
        Download::Chunk(vec![1]),
        Download::Error(ErrorInfo::new(ErrorCode::NotFound, "no such file")),
        Download::Done,
    ];
    match recv_download(&msgs) {
        Err(StreamError::Remote(e)) => {
            assert_eq!(e.code, ErrorCode::NotFound);
            assert_eq!(e.message, "no such file");
        }
        other => panic!("expected the error of the sender, got {other:?}"),
    }
}

#[test]
fn writer_keeps_what_came_before_the_limit() {
    let msgs = vec![Upload::Chunk(vec![1, 2]), Upload::Chunk(vec![3, 4, 5]), Upload::Done];
    let mut dst = vec![9];
    assert!(matches!(
        recv_upload_to_writer(&msgs, &mut dst, 4),
        Err(StreamError::LimitExceeded)
    ));
    assert_eq!(dst, vec![9, 1, 2]);
}

#[test]
fn receiver_counts_and_stops_at_the_limit() {
    let mut r = UploadReceiver::new(5);
    assert_eq!(r.accept(&Upload::Chunk(vec![0; 3])), UploadStep::Write);
    assert_eq!(r.total(), 3);
    assert_eq!(r.accept(&Upload::Chunk(vec![0; 3])), UploadStep::LimitExceeded);
    assert_eq!(r.total(), 3);
    assert_eq!(r.accept(&Upload::Chunk(vec![0; 2])), UploadStep::Write);
    assert_eq!(r.accept(&Upload::Done), UploadStep::Finished(5));
}
