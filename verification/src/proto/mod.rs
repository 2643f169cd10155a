//! Wire protocol between host and guest.
//!
//! Every operation has a connection of its own. The host opens it with a
//! [`Hello`] that names the operation, the guest answers with a [`HelloAck`],
//! and the messages of that operation follow until it is complete. A frame is
//! four bytes of length, big-endian, and then the payload.

pub mod codec;
pub mod message;

pub use codec::{
    decode_frame, encode_frame, frame_len, recv_download, recv_upload, recv_upload_to_writer,
    send_download, send_download_from_reader, send_upload, FrameError, StreamError, UploadReceiver,
    UploadStep, MAX_FRAME,
};
pub use message::{
    ControlReq, ControlResp, Download, ErrorCode, ErrorInfo, ExecIn, ExecOut, ExecStart, Hello,
    HelloAck, TtyConfig, Upload, UploadResult, AGENT_PORT, MAX_UPLOAD_BYTES, PROTOCOL_VERSION,
    STREAM_CHUNK_SIZE,
};
