//! Frames, and transfers cut into chunks.
//!
//! A frame is the length of the payload as a big-endian `u32`, then the
//! payload, which is at most [`MAX_FRAME`] bytes long on both sides. An upload
//! is a run of [`Upload::Chunk`] messages closed by one [`Upload::Done`]; a
//! download is the same with [`Download`], and may end in an error instead.

use vstd::prelude::*;
use vstd::slice::{slice_subrange, slice_to_vec};
use crate::bytes::{be32, be32_value, lemma_be32_roundtrip, read_be32};
use crate::proto::message::{Download, ErrorCode, ErrorInfo, Upload};

verus! {

/// Largest payload of a frame: 16 MiB.
pub const MAX_FRAME: u32 = 0x100_0000;

/// Bytes of the length prefix.
pub const FRAME_HEADER: usize = 4;

/// Why a frame cannot be written or read.
#[derive(Debug, Clone, Copy, PartialEq, Eq, Structural)]
pub enum FrameError {
    /// The payload is longer than [`MAX_FRAME`].
    TooLarge,
    /// The bytes end before the frame does.
    UnexpectedEof,
}

/// The frame around `payload`.
pub open spec fn spec_frame(payload: Seq<u8>) -> Seq<u8> {
    be32(payload.len() as u32) + payload
}

/// What the first frame of `buf` holds and how many bytes it takes. The length
/// is judged on the four header bytes alone, before the payload is looked at.
pub open spec fn spec_decode_frame(buf: Seq<u8>) -> Result<(Seq<u8>, int), FrameError> {
    if buf.len() < FRAME_HEADER {
        Err(FrameError::UnexpectedEof)
    } else {
        let n = be32_value(buf.subrange(0, 4));
        if n > MAX_FRAME {
            Err(FrameError::TooLarge)
        } else if buf.len() < FRAME_HEADER + n {
            Err(FrameError::UnexpectedEof)
        } else {
            Ok((buf.subrange(4, 4 + n), 4 + n))
        }
    }
}

/// A frame that was written is read back as it was, whatever follows it.
pub proof fn lemma_frame_roundtrip(payload: Seq<u8>, rest: Seq<u8>)
    requires
        payload.len() <= MAX_FRAME,
    ensures
        spec_decode_frame(spec_frame(payload) + rest) == Ok::<(Seq<u8>, int), FrameError>(
            (payload, 4 + payload.len() as int),
        ),
{
    let buf = spec_frame(payload) + rest;
    lemma_be32_roundtrip(payload.len() as u32);
    assert(buf.subrange(0, 4) =~= be32(payload.len() as u32));
    assert(buf.subrange(4, 4 + payload.len() as int) =~= payload);
}

/// A header that claims more than [`MAX_FRAME`] bytes is refused whatever
/// follows it, and so also when nothing does.
pub proof fn lemma_oversized_frame_rejected(header: Seq<u8>, rest: Seq<u8>)
    requires
        header.len() == FRAME_HEADER,
        be32_value(header) > MAX_FRAME,
    ensures
        spec_decode_frame(header + rest) == Err::<(Seq<u8>, int), FrameError>(
            FrameError::TooLarge,
        ),
        spec_decode_frame(header) == Err::<(Seq<u8>, int), FrameError>(FrameError::TooLarge),
{
    assert((header + rest).subrange(0, 4) =~= header);
    assert(header.subrange(0, 4) =~= header);
}

/// Puts `payload` into a frame.
pub fn encode_frame(payload: &[u8]) -> (r: Result<Vec<u8>, FrameError>)
    ensures
        payload@.len() <= MAX_FRAME ==> r is Ok && r->Ok_0@ == spec_frame(payload@),
        payload@.len() > MAX_FRAME ==> r == Err::<Vec<u8>, FrameError>(FrameError::TooLarge),
{
    if payload.len() > MAX_FRAME as usize {
        return Err(FrameError::TooLarge);
    }
    let len: u32 = payload.len() as u32;
    let mut frame: Vec<u8> = Vec::with_capacity(FRAME_HEADER + payload.len());
    frame.push((len / 0x100_0000) as u8);
    frame.push((len / 0x1_0000 % 256) as u8);
    frame.push((len / 0x100 % 256) as u8);
    frame.push((len % 256) as u8);
    let mut body = slice_to_vec(payload);
    frame.append(&mut body);
    assert(frame@ =~= spec_frame(payload@));
    Ok(frame)
}

/// Reads the length that a header announces, and refuses one above
/// [`MAX_FRAME`]. It sees the header alone.
pub fn frame_len(header: &[u8; 4]) -> (r: Result<u32, FrameError>)
    ensures
        be32_value(header@) <= MAX_FRAME ==> r == Ok::<u32, FrameError>(
            be32_value(header@) as u32,
        ),
        be32_value(header@) > MAX_FRAME ==> r == Err::<u32, FrameError>(FrameError::TooLarge),
        r == (match spec_decode_frame(header@) {
            Err(FrameError::TooLarge) => Err::<u32, FrameError>(FrameError::TooLarge),
            _ => Ok(be32_value(header@) as u32),
        }),
{
    let len = read_be32(header.as_slice(), 0);
    assert(header@.subrange(0, 4) =~= header@);
    if len > MAX_FRAME {
        Err(FrameError::TooLarge)
    } else {
        Ok(len)
    }
}

/// Takes the first frame off `buf`: its payload, and the number of bytes that
/// the frame took.
pub fn decode_frame(buf: &[u8]) -> (r: Result<(Vec<u8>, usize), FrameError>)
    ensures
        match spec_decode_frame(buf@) {
            Ok((payload, used)) => r is Ok && r->Ok_0.0@ == payload && r->Ok_0.1 == used,
            Err(e) => r == Err::<(Vec<u8>, usize), FrameError>(e),
        },
{
    if buf.len() < FRAME_HEADER {
        return Err(FrameError::UnexpectedEof);
    }
    let len = read_be32(buf, 0);
    if len > MAX_FRAME {
        return Err(FrameError::TooLarge);
    }
    let n: usize = len as usize;
    if buf.len() - FRAME_HEADER < n {
        return Err(FrameError::UnexpectedEof);
    }
    let payload = slice_to_vec(slice_subrange(buf, FRAME_HEADER, FRAME_HEADER + n));
    Ok((payload, FRAME_HEADER + n))
}

/// An upload message as plain data.
pub enum UploadView {
    /// A piece of the data.
    Chunk(Seq<u8>),
    /// End of the upload.
    Done,
}

impl View for Upload {
    type V = UploadView;

    open spec fn view(&self) -> UploadView {
        match self {
            Upload::Chunk(d) => UploadView::Chunk(d@),
            Upload::Done => UploadView::Done,
        }
    }
}

/// A download message as plain data.
pub enum DownloadView {
    /// A piece of the data.
    Chunk(Seq<u8>),
    /// End of the download.
    Done,
    /// The path could not be read.
    Error(ErrorCode, Seq<char>),
}

impl View for Download {
    type V = DownloadView;

    open spec fn view(&self) -> DownloadView {
        match self {
            Download::Chunk(d) => DownloadView::Chunk(d@),
            Download::Done => DownloadView::Done,
            Download::Error(e) => DownloadView::Error(e.code, e.message@),
        }
    }
}

/// The messages of a run as plain data.
pub open spec fn upload_views(msgs: Seq<Upload>) -> Seq<UploadView> {
    msgs.map_values(|m: Upload| m@)
}

/// The messages of a run as plain data.
pub open spec fn download_views(msgs: Seq<Download>) -> Seq<DownloadView> {
    msgs.map_values(|m: Download| m@)
}

/// `data` cut into pieces of `chunk_size` bytes, the last one shorter where
/// the length is no multiple; no piece is empty.
pub open spec fn spec_chunks(data: Seq<u8>, chunk_size: int) -> Seq<Seq<u8>>
    decreases data.len(),
{
    if chunk_size <= 0 || data.len() == 0 {
        Seq::empty()
    } else if data.len() <= chunk_size {
        seq![data]
    } else {
        seq![data.take(chunk_size)] + spec_chunks(data.skip(chunk_size), chunk_size)
    }
}

/// The pieces in a row.
pub open spec fn spec_concat(pieces: Seq<Seq<u8>>) -> Seq<u8>
    decreases pieces.len(),
{
    if pieces.len() == 0 {
        Seq::empty()
    } else {
        pieces[0] + spec_concat(pieces.skip(1))
    }
}

/// The upload of `data` in chunks of `chunk_size`: one message for each piece
/// of [`spec_chunks`], then the end.
pub open spec fn upload_stream(data: Seq<u8>, chunk_size: int) -> Seq<UploadView> {
    spec_chunks(data, chunk_size).map_values(|d: Seq<u8>| UploadView::Chunk(d)).push(
        UploadView::Done,
    )
}

/// The download of `data` in chunks of `chunk_size`.
pub open spec fn download_stream(data: Seq<u8>, chunk_size: int) -> Seq<DownloadView> {
    spec_chunks(data, chunk_size).map_values(|d: Seq<u8>| DownloadView::Chunk(d)).push(
        DownloadView::Done,
    )
}

/// The pieces of a cut, in a row, are the data again; none is empty and none
/// is longer than the chunk size.
#[verifier::rlimit(40)]
pub proof fn lemma_chunks(data: Seq<u8>, chunk_size: int)
    requires
        chunk_size > 0,
    ensures
        spec_concat(spec_chunks(data, chunk_size)) == data,
        forall|i: int|
            0 <= i < spec_chunks(data, chunk_size).len() ==> 0 < (#[trigger] spec_chunks(
                data,
                chunk_size,
            )[i]).len() <= chunk_size,
        spec_chunks(data, chunk_size).len() == (data.len() + chunk_size - 1) / chunk_size,
    decreases data.len(),
{
    let pieces = spec_chunks(data, chunk_size);
    if data.len() == 0 {
        assert(spec_concat(pieces) =~= data);
        assert((data.len() + chunk_size - 1) / chunk_size == 0) by (nonlinear_arith)
            requires
                data.len() == 0,
                chunk_size > 0,
        ;
    } else if data.len() <= chunk_size {
        assert(pieces.len() == 1);
        assert(pieces.skip(1).len() == 0);
        assert(spec_concat(pieces.skip(1)) =~= Seq::<u8>::empty());
        assert(spec_concat(pieces) =~= data);
        assert((data.len() + chunk_size - 1) / chunk_size == 1) by (nonlinear_arith)
            requires
                0 < data.len() <= chunk_size,
        ;
    } else {
        let tail = data.skip(chunk_size);
        lemma_chunks(tail, chunk_size);
        assert(pieces.skip(1) =~= spec_chunks(tail, chunk_size));
        assert(pieces[0] == data.take(chunk_size));
        assert(data.take(chunk_size) + tail =~= data);
        assert(spec_concat(pieces) == pieces[0] + spec_concat(pieces.skip(1)));
        assert forall|i: int| 0 <= i < pieces.len() implies 0 < (#[trigger] pieces[i]).len()
            <= chunk_size by {
            if i > 0 {
                assert(pieces[i] == spec_chunks(tail, chunk_size)[i - 1]);
            }
        }
        assert((data.len() + chunk_size - 1) / chunk_size == (tail.len() + chunk_size - 1)
            / chunk_size + 1) by (nonlinear_arith)
            requires
                tail.len() == data.len() - chunk_size,
                chunk_size > 0,
        ;
    }
}

/// Why a transfer did not yield its data.
#[derive(Debug, Clone)]
pub enum StreamError {
    /// The messages end before the end of the transfer.
    UnexpectedEof,
    /// The upload is larger than the limit.
    LimitExceeded,
    /// The sender reported an error in place of the data.
    Remote(ErrorInfo),
}

/// A transfer error as plain data.
pub enum StreamErrorView {
    /// The messages end before the end of the transfer.
    UnexpectedEof,
    /// The upload is larger than the limit.
    LimitExceeded,
    /// The sender reported an error in place of the data.
    Remote(ErrorCode, Seq<char>),
}

impl View for StreamError {
    type V = StreamErrorView;

    open spec fn view(&self) -> StreamErrorView {
        match self {
            StreamError::UnexpectedEof => StreamErrorView::UnexpectedEof,
            StreamError::LimitExceeded => StreamErrorView::LimitExceeded,
            StreamError::Remote(e) => StreamErrorView::Remote(e.code, e.message@),
        }
    }
}

/// How an upload that has already delivered `acc` goes on over `msgs`: the
/// bytes delivered in the end, and whether the upload completed. A chunk that
/// would take the total above `max_bytes` ends it, and is not delivered;
/// messages behind the end of the upload are not looked at.
pub open spec fn spec_recv_upload(msgs: Seq<UploadView>, max_bytes: u64, acc: Seq<u8>) -> (
    Seq<u8>,
    Result<(), StreamErrorView>,
)
    decreases msgs.len(),
{
    if msgs.len() == 0 {
        (acc, Err(StreamErrorView::UnexpectedEof))
    } else {
        match msgs[0] {
            UploadView::Done => (acc, Ok(())),
            UploadView::Chunk(d) => if acc.len() + d.len() > max_bytes {
                (acc, Err(StreamErrorView::LimitExceeded))
            } else {
                spec_recv_upload(msgs.skip(1), max_bytes, acc + d)
            },
        }
    }
}

/// How a download that has already delivered `acc` goes on over `msgs`.
pub open spec fn spec_recv_download(msgs: Seq<DownloadView>, acc: Seq<u8>) -> Result<
    Seq<u8>,
    StreamErrorView,
>
    decreases msgs.len(),
{
    if msgs.len() == 0 {
        Err(StreamErrorView::UnexpectedEof)
    } else {
        match msgs[0] {
            DownloadView::Done => Ok(acc),
            DownloadView::Chunk(d) => spec_recv_download(msgs.skip(1), acc + d),
            DownloadView::Error(code, message) => Err(StreamErrorView::Remote(code, message)),
        }
    }
}

#[verifier::rlimit(40)]
proof fn lemma_upload_roundtrip_from(data: Seq<u8>, chunk_size: int, max_bytes: u64, acc: Seq<u8>)
    requires
        chunk_size > 0,
        acc.len() <= max_bytes,
    ensures
        acc.len() + data.len() <= max_bytes ==> spec_recv_upload(
            upload_stream(data, chunk_size),
            max_bytes,
            acc,
        ) == (acc + data, Ok::<(), StreamErrorView>(())),
        acc.len() + data.len() > max_bytes ==> spec_recv_upload(
            upload_stream(data, chunk_size),
            max_bytes,
            acc,
        ).1 == Err::<(), StreamErrorView>(StreamErrorView::LimitExceeded),
    decreases data.len(),
{
    let msgs = upload_stream(data, chunk_size);
    let pieces = spec_chunks(data, chunk_size);
    if data.len() == 0 {
        assert(pieces.len() == 0);
        assert(msgs.len() == 1);
        assert(msgs[0] == UploadView::Done);
        assert(acc + data =~= acc);
    } else if data.len() <= chunk_size {
        assert(pieces.len() == 1);
        assert(msgs.len() == 2);
        assert(msgs[0] == UploadView::Chunk(data));
        let rest = msgs.skip(1);
        assert(rest.len() == 1);
        assert(rest[0] == UploadView::Done);
        assert(spec_recv_upload(rest, max_bytes, acc + data) == (acc + data, Ok::<(), StreamErrorView>(())));
    } else {
        let head = data.take(chunk_size);
        let tail = data.skip(chunk_size);
        let tail_pieces = spec_chunks(tail, chunk_size);
        assert(pieces =~= seq![head] + tail_pieces);
        assert(msgs.len() == tail_pieces.len() + 2);
        assert(msgs[0] == UploadView::Chunk(head));
        assert(msgs.skip(1) =~= upload_stream(tail, chunk_size)) by {
            let a = msgs.skip(1);
            let b = upload_stream(tail, chunk_size);
            assert(a.len() == b.len());
            assert forall|i: int| 0 <= i < a.len() implies a[i] == b[i] by {
                assert(a[i] == msgs[i + 1]);
                if i < tail_pieces.len() {
                    assert(pieces[i + 1] == tail_pieces[i]);
                }
            }
        }
        assert(head.len() == chunk_size);
        assert((acc + head).len() == acc.len() + chunk_size);
        assert(tail.len() == data.len() - chunk_size);
        if acc.len() + chunk_size <= max_bytes {
            lemma_upload_roundtrip_from(tail, chunk_size, max_bytes, acc + head);
        }
        assert(spec_recv_upload(msgs, max_bytes, acc) == (if acc.len() + head.len() > max_bytes {
            (acc, Err::<(), StreamErrorView>(StreamErrorView::LimitExceeded))
        } else {
            spec_recv_upload(msgs.skip(1), max_bytes, acc + head)
        }));
        assert(acc + head + tail =~= acc + data);
    }
}

/// An upload that is sent and received yields the data, for every chunk size,
/// and fails exactly when the data is longer than the limit.
pub proof fn lemma_upload_roundtrip(data: Seq<u8>, chunk_size: int, max_bytes: u64)
    requires
        chunk_size > 0,
    ensures
        data.len() <= max_bytes ==> spec_recv_upload(
            upload_stream(data, chunk_size),
            max_bytes,
            Seq::empty(),
        ) == (data, Ok::<(), StreamErrorView>(())),
        data.len() > max_bytes ==> spec_recv_upload(
            upload_stream(data, chunk_size),
            max_bytes,
            Seq::empty(),
        ).1 == Err::<(), StreamErrorView>(StreamErrorView::LimitExceeded),
{
    lemma_upload_roundtrip_from(data, chunk_size, max_bytes, Seq::empty());
    assert(Seq::<u8>::empty() + data =~= data);
}

#[verifier::rlimit(40)]
proof fn lemma_download_roundtrip_from(data: Seq<u8>, chunk_size: int, acc: Seq<u8>)
    requires
        chunk_size > 0,
    ensures
        spec_recv_download(download_stream(data, chunk_size), acc) == Ok::<
            Seq<u8>,
            StreamErrorView,
        >(acc + data),
    decreases data.len(),
{
    let msgs = download_stream(data, chunk_size);
    let pieces = spec_chunks(data, chunk_size);
    if data.len() == 0 {
        assert(pieces.len() == 0);
        assert(msgs.len() == 1);
        assert(msgs[0] == DownloadView::Done);
        assert(acc + data =~= acc);
    } else if data.len() <= chunk_size {
        assert(pieces.len() == 1);
        assert(msgs.len() == 2);
        assert(msgs[0] == DownloadView::Chunk(data));
        let rest = msgs.skip(1);
        assert(rest.len() == 1);
        assert(rest[0] == DownloadView::Done);
        assert(spec_recv_download(rest, acc + data) == Ok::<Seq<u8>, StreamErrorView>(acc + data));
    } else {
        let head = data.take(chunk_size);
        let tail = data.skip(chunk_size);
        let tail_pieces = spec_chunks(tail, chunk_size);
        assert(pieces =~= seq![head] + tail_pieces);
        assert(msgs.len() == tail_pieces.len() + 2);
        assert(msgs[0] == DownloadView::Chunk(head));
        assert(msgs.skip(1) =~= download_stream(tail, chunk_size)) by {
            let a = msgs.skip(1);
            let b = download_stream(tail, chunk_size);
            assert(a.len() == b.len());
            assert forall|i: int| 0 <= i < a.len() implies a[i] == b[i] by {
                assert(a[i] == msgs[i + 1]);
                if i < tail_pieces.len() {
                    assert(pieces[i + 1] == tail_pieces[i]);
                }
            }
        }
        lemma_download_roundtrip_from(tail, chunk_size, acc + head);
        assert(acc + head + tail =~= acc + data);
    }
}

/// A download that is sent and received yields the data, for every chunk
/// size.
pub proof fn lemma_download_roundtrip(data: Seq<u8>, chunk_size: int)
    requires
        chunk_size > 0,
    ensures
        spec_recv_download(download_stream(data, chunk_size), Seq::empty()) == Ok::<
            Seq<u8>,
            StreamErrorView,
        >(data),
{
    lemma_download_roundtrip_from(data, chunk_size, Seq::empty());
    assert(Seq::<u8>::empty() + data =~= data);
}

/// Cuts `data` into [`Upload::Chunk`] messages of `chunk_size` bytes, the last one
/// shorter where the length is no multiple, and closes with [`Upload::Done`].
#[verifier::rlimit(40)]
pub fn send_upload(data: &[u8], chunk_size: usize) -> (r: Vec<Upload>)
    requires
        chunk_size > 0,
    ensures
        upload_views(r@) == upload_stream(data@, chunk_size as int),
{
    let len = data.len();
    let mut out: Vec<Upload> = Vec::new();
    let mut pos: usize = 0;
    let ghost mut sent: Seq<Seq<u8>> = Seq::empty();
    assert(data@.skip(0) =~= data@);
    while pos < len
        invariant
            len == data@.len(),
            chunk_size > 0,
            pos <= len,
            sent + spec_chunks(data@.skip(pos as int), chunk_size as int) == spec_chunks(
                data@,
                chunk_size as int,
            ),
            out@.len() == sent.len(),
            forall|j: int| 0 <= j < sent.len() ==> (#[trigger] out@[j])@ == UploadView::Chunk(sent[j]),
        decreases len - pos,
    {
        let n: usize = if len - pos <= chunk_size {
            len - pos
        } else {
            chunk_size
        };
        let piece = slice_to_vec(slice_subrange(data, pos, pos + n));
        proof {
            let rest = data@.skip(pos as int);
            assert(piece@ =~= rest.take(n as int));
            assert(rest.skip(n as int) =~= data@.skip(pos + n));
            if len - pos <= chunk_size {
                assert(rest.take(n as int) =~= rest);
                assert(spec_chunks(data@.skip(pos + n), chunk_size as int) =~= Seq::<
                    Seq<u8>,
                >::empty());
            }
            assert(sent.push(piece@) + spec_chunks(data@.skip(pos + n), chunk_size as int) =~= sent
                + spec_chunks(rest, chunk_size as int));
            sent = sent.push(piece@);
        }
        out.push(Upload::Chunk(piece));
        pos += n;
    }
    proof {
        assert(sent =~= spec_chunks(data@, chunk_size as int));
        let a = upload_views(out@.push(Upload::Done));
        let b = upload_stream(data@, chunk_size as int);
        assert(a.len() == b.len());
        assert forall|j: int| 0 <= j < a.len() implies a[j] == b[j] by {
            if j < sent.len() {
                assert(out@.push(Upload::Done)[j] == out@[j]);
            }
        }
        assert(a =~= b);
    }
    out.push(Upload::Done);
    out
}

/// Cuts `data` into [`Download::Chunk`] messages of `chunk_size` bytes, the last one
/// shorter where the length is no multiple, and closes with [`Download::Done`].
#[verifier::rlimit(40)]
pub fn send_download(data: &[u8], chunk_size: usize) -> (r: Vec<Download>)
    requires
        chunk_size > 0,
    ensures
        download_views(r@) == download_stream(data@, chunk_size as int),
{
    let len = data.len();
    let mut out: Vec<Download> = Vec::new();
    let mut pos: usize = 0;
    let ghost mut sent: Seq<Seq<u8>> = Seq::empty();
    assert(data@.skip(0) =~= data@);
    while pos < len
        invariant
            len == data@.len(),
            chunk_size > 0,
            pos <= len,
            sent + spec_chunks(data@.skip(pos as int), chunk_size as int) == spec_chunks(
                data@,
                chunk_size as int,
            ),
            out@.len() == sent.len(),
            forall|j: int| 0 <= j < sent.len() ==> (#[trigger] out@[j])@ == DownloadView::Chunk(sent[j]),
        decreases len - pos,
    {
        let n: usize = if len - pos <= chunk_size {
            len - pos
        } else {
            chunk_size
        };
        let piece = slice_to_vec(slice_subrange(data, pos, pos + n));
        proof {
            let rest = data@.skip(pos as int);
            assert(piece@ =~= rest.take(n as int));
            assert(rest.skip(n as int) =~= data@.skip(pos + n));
            if len - pos <= chunk_size {
                assert(rest.take(n as int) =~= rest);
                assert(spec_chunks(data@.skip(pos + n), chunk_size as int) =~= Seq::<
                    Seq<u8>,
                >::empty());
            }
            assert(sent.push(piece@) + spec_chunks(data@.skip(pos + n), chunk_size as int) =~= sent
                + spec_chunks(rest, chunk_size as int));
            sent = sent.push(piece@);
        }
        out.push(Download::Chunk(piece));
        pos += n;
    }
    proof {
        assert(sent =~= spec_chunks(data@, chunk_size as int));
        let a = download_views(out@.push(Download::Done));
        let b = download_stream(data@, chunk_size as int);
        assert(a.len() == b.len());
        assert forall|j: int| 0 <= j < a.len() implies a[j] == b[j] by {
            if j < sent.len() {
                assert(out@.push(Download::Done)[j] == out@[j]);
            }
        }
        assert(a =~= b);
    }
    out.push(Download::Done);
    out
}

/// Streams everything that the reader `src` holds as a download in chunks of
/// `chunk_size`, and says how many bytes were sent.
pub fn send_download_from_reader(src: &[u8], chunk_size: usize) -> (r: (Vec<Download>, u64))
    requires
        chunk_size > 0,
    ensures
        download_views(r.0@) == download_stream(src@, chunk_size as int),
        r.1 == src@.len(),
{
    (send_download(src, chunk_size), src.len() as u64)
}

/// Receives an upload into the writer `dst`: every chunk is appended as it
/// comes, up to the end of the upload, and the number of bytes received is
/// returned. A chunk that takes the total above `max_bytes` ends the upload
/// with [`StreamError::LimitExceeded`] and is not written.
#[verifier::rlimit(40)]
pub fn recv_upload_to_writer(msgs: &[Upload], dst: &mut Vec<u8>, max_bytes: u64) -> (r: Result<
    u64,
    StreamError,
>)
    ensures
        final(dst)@ == old(dst)@ + spec_recv_upload(upload_views(msgs@), max_bytes, Seq::empty()).0,
        match spec_recv_upload(upload_views(msgs@), max_bytes, Seq::empty()).1 {
            Ok(()) => r is Ok && r->Ok_0 == spec_recv_upload(
                upload_views(msgs@),
                max_bytes,
                Seq::empty(),
            ).0.len(),
            Err(e) => r is Err && r->Err_0@ == e,
        },
{
    let ghost views = upload_views(msgs@);
    let ghost mut acc: Seq<u8> = Seq::empty();
    let mut total: u64 = 0;
    let mut i: usize = 0;
    assert(views.skip(0) =~= views);
    assert(old(dst)@ + acc =~= old(dst)@);
    while i < msgs.len()
        invariant
            i <= msgs@.len(),
            views == upload_views(msgs@),
            total == acc.len(),
            total <= max_bytes,
            dst@ == old(dst)@ + acc,
            spec_recv_upload(views.skip(i as int), max_bytes, acc) == spec_recv_upload(
                views,
                max_bytes,
                Seq::empty(),
            ),
        decreases msgs@.len() - i,
    {
        let ghost rest = views.skip(i as int);
        assert(rest[0] == msgs@[i as int]@);
        assert(rest.skip(1) =~= views.skip(i + 1));
        match &msgs[i] {
            Upload::Done => {
                return Ok(total);
            },
            Upload::Chunk(data) => {
                if data.len() as u64 > max_bytes - total {
                    return Err(StreamError::LimitExceeded);
                }
                total = total + data.len() as u64;
                let mut piece = slice_to_vec(data.as_slice());
                dst.append(&mut piece);
                proof {
                    assert(dst@ =~= old(dst)@ + (acc + data@));
                    acc = acc + data@;
                }
            },
        }
        i += 1;
    }
    assert(views.skip(i as int).len() == 0);
    Err(StreamError::UnexpectedEof)
}

/// Receives an upload into one buffer. It fails with
/// [`StreamError::LimitExceeded`] when the data is longer than `max_bytes`, and
/// with [`StreamError::UnexpectedEof`] when the messages end before the upload.
pub fn recv_upload(msgs: &[Upload], max_bytes: u64) -> (r: Result<Vec<u8>, StreamError>)
    ensures
        match spec_recv_upload(upload_views(msgs@), max_bytes, Seq::empty()).1 {
            Ok(()) => r is Ok && r->Ok_0@ == spec_recv_upload(
                upload_views(msgs@),
                max_bytes,
                Seq::empty(),
            ).0,
            Err(e) => r is Err && r->Err_0@ == e,
        },
{
    let mut buf: Vec<u8> = Vec::new();
    match recv_upload_to_writer(msgs, &mut buf, max_bytes) {
        Ok(_) => {
            assert(buf@ =~= spec_recv_upload(upload_views(msgs@), max_bytes, Seq::empty()).0);
            Ok(buf)
        },
        Err(e) => Err(e),
    }
}

/// Receives a download into one buffer, up to its end. An error that the
/// sender reports in place of the data is handed on.
pub fn recv_download(msgs: &[Download]) -> (r: Result<Vec<u8>, StreamError>)
    ensures
        match spec_recv_download(download_views(msgs@), Seq::empty()) {
            Ok(data) => r is Ok && r->Ok_0@ == data,
            Err(e) => r is Err && r->Err_0@ == e,
        },
{
    let ghost views = download_views(msgs@);
    let mut buf: Vec<u8> = Vec::new();
    let mut i: usize = 0;
    assert(views.skip(0) =~= views);
    while i < msgs.len()
        invariant
            i <= msgs@.len(),
            views == download_views(msgs@),
            spec_recv_download(views.skip(i as int), buf@) == spec_recv_download(
                views,
                Seq::empty(),
            ),
        decreases msgs@.len() - i,
    {
        let ghost rest = views.skip(i as int);
        let ghost before = buf@;
        assert(rest[0] == msgs@[i as int]@);
        assert(rest.skip(1) =~= views.skip(i + 1));
        match &msgs[i] {
            Download::Done => {
                return Ok(buf);
            },
            Download::Error(e) => {
                return Err(
                    StreamError::Remote(ErrorInfo { code: e.code, message: e.message.clone() }),
                );
            },
            Download::Chunk(data) => {
                let mut piece = slice_to_vec(data.as_slice());
                buf.append(&mut piece);
                assert(buf@ =~= before + data@);
            },
        }
        i += 1;
    }
    assert(views.skip(i as int).len() == 0);
    Err(StreamError::UnexpectedEof)
}

/// What a receiver does with one message of an upload.
#[derive(Debug, Clone, Copy, PartialEq, Eq, Structural)]
pub enum UploadStep {
    /// The chunk is within the limit: write it, and go on.
    Write,
    /// The upload is complete; this many bytes were received.
    Finished(u64),
    /// The chunk takes the upload above the limit: stop, and do not write it.
    LimitExceeded,
}

/// Receives an upload chunk by chunk, without keeping the data: it counts the
/// bytes and watches the limit.
#[derive(Debug, Clone, Copy)]
pub struct UploadReceiver {
    total: u64,
    max_bytes: u64,
}

impl UploadReceiver {
    /// Bytes received so far.
    pub closed spec fn spec_total(&self) -> u64 {
        self.total
    }

    /// The limit.
    pub closed spec fn spec_max_bytes(&self) -> u64 {
        self.max_bytes
    }

    /// What holds of a receiver at all times: it never received more than the
    /// limit.
    pub closed spec fn wf(&self) -> bool {
        self.total <= self.max_bytes
    }

    /// A receiver that accepts up to `max_bytes` bytes.
    pub fn new(max_bytes: u64) -> (r: Self)
        ensures
            r.wf(),
            r.spec_total() == 0,
            r.spec_max_bytes() == max_bytes,
    {
        UploadReceiver { total: 0, max_bytes }
    }

    /// Bytes received so far.
    pub fn total(&self) -> (r: u64)
        ensures
            r == self.spec_total(),
    {
        self.total
    }

    /// Says what to do with the next message of the upload, as
    /// [`spec_recv_upload`] does for its first message.
    pub fn accept(&mut self, msg: &Upload) -> (r: UploadStep)
        requires
            old(self).wf(),
        ensures
            final(self).wf(),
            final(self).spec_max_bytes() == old(self).spec_max_bytes(),
            match msg@ {
                UploadView::Done => r == UploadStep::Finished(old(self).spec_total())
                    && final(self).spec_total() == old(self).spec_total(),
                UploadView::Chunk(d) => if old(self).spec_total() + d.len() > old(
                    self,
                ).spec_max_bytes() {
                    r == UploadStep::LimitExceeded && final(self).spec_total() == old(
                        self,
                    ).spec_total()
                } else {
                    r == UploadStep::Write && final(self).spec_total() == old(self).spec_total()
                        + d.len()
                },
            },
    {
        match msg {
            Upload::Done => UploadStep::Finished(self.total),
            Upload::Chunk(data) => {
                if data.len() as u64 > self.max_bytes - self.total {
                    UploadStep::LimitExceeded
                } else {
                    self.total = self.total + data.len() as u64;
                    UploadStep::Write
                }
            },
        }
    }
}

} // verus!
