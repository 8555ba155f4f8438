//! How stratum messages are laid out as JSON-RPC requests and responses, and
//! how they are read back.
use vstd::prelude::*;
use crate::stratum::message::{NotifyParams, ResponseParams, StratumMessage, SubscribeParams, notify_json, subscribe_json};
use crate::stratum::protocol::{JsonValue, RpcError, RpcId, StratumProtocol, optional_text, optional_text_value};
use crate::text::str_eq;
use crate::stratum::json::{
    RequestFrame, ResponseFrame, json_request_of, json_response_of, json_value_of, read_json, read_json_request,
    read_json_response,
};
use crate::stratum::framing::{
    FrameError, buffer_bytes, search_end, codec_discarding, first_delimiter, frame_taken, fresh_decode, buffer_len, codec_delimiters, codec_max_length, codec_scan_offset,
    codec_writer, delimiter_decode, delimiter_encode, new_delimiter_codec, utf8_text,
};
use bytes::BytesMut;
use tokio_util::codec::AnyDelimiterCodec;

verus! {

/// Why a frame from the pool is not a stratum message.
#[derive(Debug, Clone, Copy, PartialEq, Eq, Structural)]
pub enum CodecError {
    /// The frame is JSON, but not a JSON object.
    NotAnObject,
    /// A request carries no parameters.
    NoParams,
    /// A request has the wrong number of parameters, or an optional text
    /// parameter that is neither text nor null.
    InvalidParams,
    /// A request names a method that is not part of the protocol.
    UnknownMethod,
    /// A parameter that must be text is not.
    NotStr,
    /// A parameter that must be a boolean is not.
    NotBool,
    /// A parameter that must be an unsigned 64-bit integer is not.
    NotU64,
    /// The result of a response is neither a boolean, an array nor null.
    InvalidResult,
    /// More than 4096 bytes arrived without a line end.
    FrameTooLong,
    /// The stream failed.
    FrameIo,
    /// A frame to be sent is not UTF-8 text.
    InvalidUtf8,
}

impl CodecError {
    /// The text with which this error is reported.
    pub open spec fn text(&self) -> &'static str {
        match self {
            CodecError::NotAnObject => "Not an object",
            CodecError::NoParams => "No params",
            CodecError::InvalidParams => "Invalid params",
            CodecError::UnknownMethod => "Unknown method",
            CodecError::NotStr => "Param is not str",
            CodecError::NotBool => "Param is not bool",
            CodecError::NotU64 => "Param is not u64",
            CodecError::InvalidResult => "Invalid result",
            CodecError::FrameTooLong => "max chunk length exceeded",
            CodecError::FrameIo => "I/O error",
            CodecError::InvalidUtf8 => "invalid utf-8",
        }
    }

    /// The text with which this error is reported.
    pub fn message(&self) -> (text: &'static str)
        ensures
            text == self.text(),
    {
        match self {
            CodecError::NotAnObject => "Not an object",
            CodecError::NoParams => "No params",
            CodecError::InvalidParams => "Invalid params",
            CodecError::UnknownMethod => "Unknown method",
            CodecError::NotStr => "Param is not str",
            CodecError::NotBool => "Param is not bool",
            CodecError::NotU64 => "Param is not u64",
            CodecError::InvalidResult => "Invalid result",
            CodecError::FrameTooLong => "max chunk length exceeded",
            CodecError::FrameIo => "I/O error",
            CodecError::InvalidUtf8 => "invalid utf-8",
        }
    }
}

/// The longest frame, in bytes.
pub const MAX_FRAME_LENGTH: usize = 4096;

/// The byte that ends every frame: a line end.
pub const FRAME_END: u8 = 10;

/// What comes of reading a line from the start of a buffer.
pub enum LineRead {
    /// A line: its bytes, and what follows its line end.
    Line(Seq<u8>, Seq<u8>),
    /// More than 4096 bytes without a line end.
    TooLong,
    /// No line end yet, and at most 4096 bytes.
    Incomplete,
}

/// Reads a line from the start of a buffer: the bytes before the first line
/// end, if one comes within the first 4097 bytes.
pub open spec fn spec_next_line(bytes: Seq<u8>) -> LineRead {
    let limit: int = if MAX_FRAME_LENGTH + 1 < bytes.len() {
        (MAX_FRAME_LENGTH + 1) as int
    } else {
        bytes.len() as int
    };
    match first_delimiter(bytes, seq![FRAME_END], 0, limit) {
        Some(i) => LineRead::Line(bytes.take(i), bytes.skip(i + 1)),
        None => if bytes.len() > MAX_FRAME_LENGTH {
            LineRead::TooLong
        } else {
            LineRead::Incomplete
        },
    }
}

/// The first line end among bytes without any, once one is appended, is the
/// appended one.
proof fn lemma_first_delimiter_after(bytes: Seq<u8>, from: int)
    requires
        0 <= from <= bytes.len() - 1,
        bytes[bytes.len() - 1] == FRAME_END,
        forall|i: int| from <= i < bytes.len() - 1 ==> bytes[i] != FRAME_END,
    ensures
        first_delimiter(bytes, seq![FRAME_END], from, bytes.len() as int) == Some(bytes.len() - 1),
    decreases bytes.len() - from,
{
    if from < bytes.len() - 1 {
        assert(!seq![FRAME_END].contains(bytes[from])) by {
            if seq![FRAME_END].contains(bytes[from]) {
                let k = choose|k: int| 0 <= k < 1 && seq![FRAME_END][k] == bytes[from];
                assert(k == 0);
            }
        }
        lemma_first_delimiter_after(bytes, from + 1);
    } else {
        assert(seq![FRAME_END][0] == FRAME_END);
    }
}

/// The first line end does not depend on what follows it.
proof fn lemma_first_delimiter_prefix(bytes: Seq<u8>, more: Seq<u8>, from: int, to: int, to2: int)
    requires
        0 <= from,
        to <= bytes.len(),
        to <= to2 <= bytes.len() + more.len(),
        first_delimiter(bytes, seq![FRAME_END], from, to) is Some,
    ensures
        first_delimiter(bytes + more, seq![FRAME_END], from, to2) == first_delimiter(
            bytes,
            seq![FRAME_END],
            from,
            to,
        ),
    decreases to - from,
{
    if from < to {
        assert((bytes + more)[from] == bytes[from]);
        if !seq![FRAME_END].contains(bytes[from]) {
            lemma_first_delimiter_prefix(bytes, more, from + 1, to, to2);
        }
    }
}

/// Bytes appended after the end of a search do not change what it finds.
proof fn lemma_first_delimiter_append(bytes: Seq<u8>, more: Seq<u8>, from: int, to: int)
    requires
        0 <= from,
        to <= bytes.len(),
    ensures
        first_delimiter(bytes + more, seq![FRAME_END], from, to) == first_delimiter(
            bytes,
            seq![FRAME_END],
            from,
            to,
        ),
    decreases to - from,
{
    if from < to {
        assert((bytes + more)[from] == bytes[from]);
        lemma_first_delimiter_append(bytes, more, from + 1, to);
    }
}

/// A line that is written is read back: a payload without line ends, of at
/// most 4096 bytes, followed by its line end and anything else, reads as
/// that payload, with the rest left to read.
pub proof fn law_frame_round_trip(payload: Seq<u8>, rest: Seq<u8>)
    requires
        payload.len() <= MAX_FRAME_LENGTH,
        forall|i: int| 0 <= i < payload.len() ==> payload[i] != FRAME_END,
    ensures
        spec_next_line(payload + seq![FRAME_END] + rest) == LineRead::Line(payload, rest),
{
    let line = payload + seq![FRAME_END];
    let bytes = line + rest;
    assert(line[line.len() - 1] == FRAME_END);
    lemma_first_delimiter_after(line, 0);
    let limit: int = if MAX_FRAME_LENGTH + 1 < bytes.len() {
        (MAX_FRAME_LENGTH + 1) as int
    } else {
        bytes.len() as int
    };
    lemma_first_delimiter_prefix(line, rest, 0, line.len() as int, limit);
    assert(bytes.take(payload.len() as int) =~= payload);
    assert(bytes.skip(payload.len() + 1int) =~= rest);
}

/// Cuts the pool's stream into newline-terminated frames of at most 4096
/// bytes, and writes frames the same way.
pub struct StratumCodec {
    codec: AnyDelimiterCodec,
    seen: usize,
}

impl StratumCodec {
    /// The codec cuts at line ends, writes a line end after each frame and
    /// accepts frames of at most 4096 bytes; it has searched no further into
    /// the buffer than `seen`.
    pub closed spec fn wf(&self) -> bool {
        &&& codec_delimiters(self.codec) == seq![FRAME_END]
        &&& codec_writer(self.codec) == seq![FRAME_END]
        &&& codec_max_length(self.codec) == MAX_FRAME_LENGTH
        &&& codec_scan_offset(self.codec) <= self.seen
        &&& codec_scan_offset(self.codec) <= MAX_FRAME_LENGTH + 1
    }

    /// The codec is at the start of a line: it drops nothing and has
    /// searched nothing of the buffer.
    pub closed spec fn at_line_start(&self) -> bool {
        &&& !codec_discarding(self.codec)
        &&& codec_scan_offset(self.codec) == 0
    }

    /// The codec reads the next whole line from these bytes: it drops
    /// nothing, and the part of them that it has already searched holds no
    /// line end. So it is at the start of a line, or the bytes go on from
    /// what it last found no line in.
    pub closed spec fn resumes_on(&self, bytes: Seq<u8>) -> bool {
        &&& !codec_discarding(self.codec)
        &&& first_delimiter(bytes, seq![FRAME_END], 0, codec_scan_offset(self.codec) as int) is None
    }

    /// Where the codec stops dropping the rest of an over-long line in these
    /// bytes: at the first line end within its search, if it is dropping and
    /// finds one.
    pub closed spec fn discard_end(&self, bytes: Seq<u8>) -> Option<int> {
        if codec_discarding(self.codec) {
            first_delimiter(
                bytes,
                seq![FRAME_END],
                codec_scan_offset(self.codec) as int,
                search_end(bytes.len(), MAX_FRAME_LENGTH as nat),
            )
        } else {
            None
        }
    }

    /// How far into the read buffer the codec may have searched: nothing
    /// after it cut a frame, else the length the buffer had when it last
    /// looked.
    pub closed spec fn seen_len(&self) -> nat {
        self.seen as nat
    }

    /// A codec that has seen nothing yet.
    pub fn new() -> (codec: StratumCodec)
        ensures
            codec.wf(),
            codec.seen_len() == 0,
            codec.at_line_start(),
            forall|bytes: Seq<u8>| #[trigger] codec.resumes_on(bytes),
    {
        let mut delimiters: Vec<u8> = Vec::new();
        delimiters.push(FRAME_END);
        let mut writer: Vec<u8> = Vec::new();
        writer.push(FRAME_END);
        assert(delimiters@ == seq![FRAME_END]);
        assert(writer@ == seq![FRAME_END]);
        StratumCodec { codec: new_delimiter_codec(delimiters, writer, MAX_FRAME_LENGTH), seen: 0 }
    }

    /// How far into the read buffer the codec may have searched; the buffer
    /// must not have shrunk below it since.
    pub fn seen(&self) -> (len: usize)
        ensures
            len == self.seen_len(),
    {
        self.seen
    }

    /// Cuts the next frame off the read buffer: the bytes before the next
    /// line end, of at most 4096 bytes, taken off the buffer with their line
    /// end (after any rest of an over-long frame). Without a complete frame
    /// it gives none and keeps what is left to read; with more than 4096
    /// bytes and no line end it fails.
    pub fn decode_frame(&mut self, src: &mut BytesMut) -> (res: Result<Option<Vec<u8>>, CodecError>)
        requires
            old(self).wf(),
            buffer_bytes(*old(src)).len() >= old(self).seen_len(),
        ensures
            final(self).wf(),
            res matches Ok(Some(_)) ==> final(self).seen_len() == 0,
            !(res matches Ok(Some(_))) ==> final(self).seen_len() == buffer_bytes(*final(src)).len(),
            res matches Ok(Some(frame)) ==> frame@.len() <= MAX_FRAME_LENGTH && frame_taken(
                buffer_bytes(*old(src)),
                frame@,
                buffer_bytes(*final(src)),
                seq![FRAME_END],
            ),
            res matches Ok(None) ==> buffer_bytes(*final(src)) == buffer_bytes(*old(src)).skip(
                buffer_bytes(*old(src)).len() - buffer_bytes(*final(src)).len(),
            ),
            old(self).resumes_on(buffer_bytes(*old(src))) ==> match spec_next_line(
                buffer_bytes(*old(src)),
            ) {
                LineRead::Line(line, rest) => res matches Ok(Some(frame)) && frame@ == line
                    && buffer_bytes(*final(src)) == rest,
                LineRead::TooLong => res == Err::<Option<Vec<u8>>, CodecError>(CodecError::FrameTooLong)
                    && buffer_bytes(*final(src)) == buffer_bytes(*old(src)),
                LineRead::Incomplete => res matches Ok(None) && buffer_bytes(*final(src))
                    == buffer_bytes(*old(src)),
            },
            old(self).discard_end(buffer_bytes(*old(src))) matches Some(i) ==> match spec_next_line(
                buffer_bytes(*old(src)).skip(i + 1),
            ) {
                LineRead::Line(line, rest) => res matches Ok(Some(frame)) && frame@ == line
                    && buffer_bytes(*final(src)) == rest,
                LineRead::TooLong => res == Err::<Option<Vec<u8>>, CodecError>(CodecError::FrameTooLong)
                    && buffer_bytes(*final(src)) == buffer_bytes(*old(src)).skip(i + 1),
                LineRead::Incomplete => res matches Ok(None) && buffer_bytes(*final(src)) == buffer_bytes(
                    *old(src),
                ).skip(i + 1),
            },
            res matches Ok(None) && old(self).discard_end(buffer_bytes(*old(src))) is Some ==> forall|
                more: Seq<u8>,
            | #[trigger] final(self).resumes_on(buffer_bytes(*final(src)) + more),
            res matches Ok(Some(_)) ==> final(self).at_line_start(),
            res matches Ok(Some(_)) ==> forall|bytes: Seq<u8>| #[trigger] final(self).resumes_on(bytes),
            res matches Ok(None) && old(self).resumes_on(buffer_bytes(*old(src))) ==> forall|
                more: Seq<u8>,
            | #[trigger] final(self).resumes_on(buffer_bytes(*final(src)) + more),
            res is Err ==> res == Err::<Option<Vec<u8>>, CodecError>(CodecError::FrameTooLong)
                && buffer_bytes(*final(src)).len() > MAX_FRAME_LENGTH && buffer_bytes(*final(src))
                == buffer_bytes(*old(src)).skip(
                buffer_bytes(*old(src)).len() - buffer_bytes(*final(src)).len(),
            ),
    {
        let ghost old_bytes = buffer_bytes(*src);
        let res = delimiter_decode(&mut self.codec, src);
        self.seen = match &res {
            Ok(Some(_)) => 0,
            _ => buffer_len(src),
        };
        proof {
            if res is Ok && res->Ok_0 is None && (old(self).resumes_on(old_bytes) || old(
                self,
            ).discard_end(old_bytes) is Some) {
                let new_bytes = buffer_bytes(*src);
                assert forall|more: Seq<u8>| #[trigger] self.resumes_on(new_bytes + more) by {
                    lemma_first_delimiter_append(new_bytes, more, 0, new_bytes.len() as int);
                }
            }
        }
        match res {
            Ok(frame) => {
                Ok(frame)
            },
            Err(_) => Err(CodecError::FrameTooLong),
        }
    }

    /// Reads the next message from the read buffer: cuts the next frame off
    /// it, as `decode_frame` does, and reads the frame as `read_frame` does.
    /// Without a complete frame it gives none; with more than 4096 bytes and
    /// no line end it fails.
    pub fn decode(&mut self, src: &mut BytesMut) -> (res: Result<Option<StratumProtocol>, DecodeError>)
        requires
            old(self).wf(),
            buffer_bytes(*old(src)).len() >= old(self).seen_len(),
        ensures
            final(self).wf(),
            frame_cut(res) ==> final(self).seen_len() == 0 && forall|bytes: Seq<u8>| #[trigger]
                final(self).resumes_on(bytes),
            !frame_cut(res) ==> final(self).seen_len() == buffer_bytes(*final(src)).len(),
            frame_cut(res) ==> exists|line: Seq<u8>|
                line.len() <= MAX_FRAME_LENGTH && #[trigger] frame_taken(
                    buffer_bytes(*old(src)),
                    line,
                    buffer_bytes(*final(src)),
                    seq![FRAME_END],
                ) && frame_read(line, res),
            old(self).resumes_on(buffer_bytes(*old(src))) ==> match spec_next_line(
                buffer_bytes(*old(src)),
            ) {
                LineRead::Line(line, rest) => buffer_bytes(*final(src)) == rest && frame_read(line, res),
                LineRead::TooLong => res matches Err(DecodeError::Codec(CodecError::FrameTooLong))
                    && buffer_bytes(*final(src)) == buffer_bytes(*old(src)),
                LineRead::Incomplete => res matches Ok(None) && buffer_bytes(*final(src)) == buffer_bytes(
                    *old(src),
                ),
            },
            old(self).discard_end(buffer_bytes(*old(src))) matches Some(i) ==> match spec_next_line(
                buffer_bytes(*old(src)).skip(i + 1),
            ) {
                LineRead::Line(line, rest) => buffer_bytes(*final(src)) == rest && frame_read(line, res),
                LineRead::TooLong => res matches Err(DecodeError::Codec(CodecError::FrameTooLong))
                    && buffer_bytes(*final(src)) == buffer_bytes(*old(src)).skip(i + 1),
                LineRead::Incomplete => res matches Ok(None) && buffer_bytes(*final(src)) == buffer_bytes(
                    *old(src),
                ).skip(i + 1),
            },
            res matches Ok(None) ==> buffer_bytes(*final(src)) == buffer_bytes(*old(src)).skip(
                buffer_bytes(*old(src)).len() - buffer_bytes(*final(src)).len(),
            ),
            res matches Ok(None) && (old(self).resumes_on(buffer_bytes(*old(src))) || old(
                self,
            ).discard_end(buffer_bytes(*old(src))) is Some) ==> forall|more: Seq<u8>| #[trigger]
                final(self).resumes_on(buffer_bytes(*final(src)) + more),
            res matches Err(DecodeError::Codec(CodecError::FrameTooLong)) ==> buffer_bytes(
                *final(src),
            ).len() > MAX_FRAME_LENGTH && buffer_bytes(*final(src)) == buffer_bytes(*old(src)).skip(
                buffer_bytes(*old(src)).len() - buffer_bytes(*final(src)).len(),
            ),
    {
        let frame = match self.decode_frame(src) {
            Ok(Some(frame)) => frame,
            Ok(None) => return Ok(None),
            Err(e) => return Err(DecodeError::Codec(e)),
        };
        let res = read_frame(frame.as_slice());
        assert(frame_taken(buffer_bytes(*old(src)), frame@, buffer_bytes(*src), seq![FRAME_END]));
        res
    }

    /// Writes a frame to the send buffer: the payload and a line end, if the
    /// payload is UTF-8 text; otherwise the buffer is left as it was.
    pub fn encode_frame(&mut self, payload: &[u8], dst: &mut BytesMut) -> (res: Result<(), CodecError>)
        requires
            old(self).wf(),
            buffer_bytes(*old(dst)).len() + payload@.len() + 1 <= isize::MAX,
        ensures
            final(self).wf(),
            final(self).seen_len() == old(self).seen_len(),
            final(self).at_line_start() == old(self).at_line_start(),
            forall|bytes: Seq<u8>| #[trigger] final(self).resumes_on(bytes) == old(self).resumes_on(bytes),
            res is Ok <==> vstd::utf8::valid_utf8(payload@),
            res is Ok ==> buffer_bytes(*final(dst)) == buffer_bytes(*old(dst)) + payload@ + seq![FRAME_END],
            res is Err ==> res == Err::<(), CodecError>(CodecError::InvalidUtf8) && buffer_bytes(
                *final(dst),
            ) == buffer_bytes(*old(dst)),
    {
        let text = match utf8_text(payload) {
            Ok(text) => text,
            Err(_) => return Err(CodecError::InvalidUtf8),
        };
        let _ = delimiter_encode(&mut self.codec, text, dst);
        Ok(())
    }
}

impl Default for StratumCodec {
    fn default() -> (codec: Self)
        ensures
            codec.wf(),
            codec.seen_len() == 0,
            codec.at_line_start(),
            forall|bytes: Seq<u8>| #[trigger] codec.resumes_on(bytes),
    {
        StratumCodec::new()
    }
}

/// Which kind of JSON-RPC frame a JSON object is.
#[derive(Debug, Clone, Copy, PartialEq, Eq, Structural)]
pub enum FrameKind {
    Request,
    Response,
}

/// A message laid out as a JSON-RPC frame, ready to be serialised.
#[derive(Debug)]
pub enum RpcOutgoing {
    /// A request, or a notification when it carries no id.
    Request { method: &'static str, params: Vec<JsonValue>, id: Option<RpcId> },
    /// A response carrying a result.
    Success { id: RpcId, result: Option<ResponseParams> },
    /// A response carrying an error.
    Failure { id: RpcId, error: RpcError },
}

/// The frame kind of a parsed JSON document: an object with a `method` member
/// is a request, any other object a response.
pub open spec fn spec_frame_kind(is_object: bool, has_method: bool) -> Result<FrameKind, CodecError> {
    if !is_object {
        Err(CodecError::NotAnObject)
    } else if has_method {
        Ok(FrameKind::Request)
    } else {
        Ok(FrameKind::Response)
    }
}

/// Decides how a parsed JSON document is read.
pub fn frame_kind(is_object: bool, has_method: bool) -> (kind: Result<FrameKind, CodecError>)
    ensures
        kind == spec_frame_kind(is_object, has_method),
{
    if !is_object {
        Err(CodecError::NotAnObject)
    } else if has_method {
        Ok(FrameKind::Request)
    } else {
        Ok(FrameKind::Response)
    }
}

/// The text of a parameter, if it is text.
pub open spec fn str_param(v: JsonValue) -> Option<String> {
    match v {
        JsonValue::Str(s) => Some(s),
        _ => None,
    }
}

/// The boolean of a parameter, if it is one.
pub open spec fn bool_param(v: JsonValue) -> Option<bool> {
    match v {
        JsonValue::Bool(b) => Some(b),
        _ => None,
    }
}

/// The unsigned 64-bit integer of a parameter, if it is one.
pub open spec fn u64_param(v: JsonValue) -> Option<u64> {
    match v {
        JsonValue::Number(Some(n)) => Some(n),
        _ => None,
    }
}

/// An optional text parameter: text, or null for none.
pub open spec fn optional_str_param(v: JsonValue) -> Option<Option<String>> {
    match v {
        JsonValue::Str(s) => Some(Some(s)),
        JsonValue::Null => Some(None),
        _ => None,
    }
}

/// The id a message gets when its frame carries none.
pub open spec fn id_or_zero(id: Option<RpcId>) -> RpcId {
    match id {
        Some(id) => id,
        None => RpcId::Num(0),
    }
}

/// The message that a request frame stands for, or why it stands for none.
/// The parameters are checked in order, each as the method needs it.
pub open spec fn spec_decode_request(
    id: Option<RpcId>,
    method: Seq<char>,
    params: Option<Seq<JsonValue>>,
) -> Result<StratumProtocol, CodecError> {
    match params {
        None => Err(CodecError::NoParams),
        Some(p) => {
            if method == "mining.subscribe"@ {
                if p.len() != 3 {
                    Err(CodecError::InvalidParams)
                } else if str_param(p[0]) is None || str_param(p[1]) is None {
                    Err(CodecError::NotStr)
                } else if optional_str_param(p[2]) is None {
                    Err(CodecError::InvalidParams)
                } else {
                    Ok(
                        StratumProtocol::Subscribe(
                            id_or_zero(id),
                            str_param(p[0])->0,
                            str_param(p[1])->0,
                            optional_str_param(p[2])->0,
                        ),
                    )
                }
            } else if method == "mining.authorize"@ {
                if p.len() != 3 {
                    Err(CodecError::InvalidParams)
                } else if str_param(p[0]) is None || str_param(p[1]) is None {
                    Err(CodecError::NotStr)
                } else if optional_str_param(p[2]) is None {
                    Err(CodecError::InvalidParams)
                } else {
                    Ok(
                        StratumProtocol::Authorize(
                            id_or_zero(id),
                            str_param(p[0])->0,
                            str_param(p[1])->0,
                            optional_str_param(p[2])->0,
                        ),
                    )
                }
            } else if method == "mining.set_target"@ {
                if p.len() != 1 {
                    Err(CodecError::InvalidParams)
                } else if u64_param(p[0]) is None {
                    Err(CodecError::NotU64)
                } else {
                    Ok(StratumProtocol::SetTarget(u64_param(p[0])->0))
                }
            } else if method == "mining.notify"@ {
                if p.len() != 7 {
                    Err(CodecError::InvalidParams)
                } else if exists|i: int| 0 <= i < 6 && (#[trigger] str_param(p[i])) is None {
                    Err(CodecError::NotStr)
                } else if bool_param(p[6]) is None {
                    Err(CodecError::NotBool)
                } else {
                    Ok(
                        StratumProtocol::Notify(
                            str_param(p[0])->0,
                            str_param(p[1])->0,
                            str_param(p[2])->0,
                            str_param(p[3])->0,
                            str_param(p[4])->0,
                            str_param(p[5])->0,
                            bool_param(p[6])->0,
                        ),
                    )
                }
            } else if method == "mining.submit"@ {
                if p.len() != 3 {
                    Err(CodecError::InvalidParams)
                } else if exists|i: int| 0 <= i < 3 && (#[trigger] str_param(p[i])) is None {
                    Err(CodecError::NotStr)
                } else {
                    Ok(
                        StratumProtocol::Submit(
                            id_or_zero(id),
                            str_param(p[0])->0,
                            str_param(p[1])->0,
                            str_param(p[2])->0,
                        ),
                    )
                }
            } else {
                Err(CodecError::UnknownMethod)
            }
        },
    }
}

/// Reads a text parameter.
pub fn unwrap_str_value(value: JsonValue) -> (res: Result<String, CodecError>)
    ensures
        match str_param(value) {
            Some(s) => res == Ok::<String, CodecError>(s),
            None => res == Err::<String, CodecError>(CodecError::NotStr),
        },
{
    match value {
        JsonValue::Str(s) => Ok(s),
        _ => Err(CodecError::NotStr),
    }
}

/// Reads a boolean parameter.
pub fn unwrap_bool_value(value: JsonValue) -> (res: Result<bool, CodecError>)
    ensures
        match bool_param(value) {
            Some(b) => res == Ok::<bool, CodecError>(b),
            None => res == Err::<bool, CodecError>(CodecError::NotBool),
        },
{
    match value {
        JsonValue::Bool(b) => Ok(b),
        _ => Err(CodecError::NotBool),
    }
}

/// Reads an unsigned 64-bit integer parameter.
pub fn unwrap_u64_value(value: JsonValue) -> (res: Result<u64, CodecError>)
    ensures
        match u64_param(value) {
            Some(n) => res == Ok::<u64, CodecError>(n),
            None => res == Err::<u64, CodecError>(CodecError::NotU64),
        },
{
    match value {
        JsonValue::Number(Some(n)) => Ok(n),
        _ => Err(CodecError::NotU64),
    }
}

/// Reads an optional text parameter: text, or null for none.
fn unwrap_optional_str_value(value: JsonValue) -> (res: Result<Option<String>, CodecError>)
    ensures
        match optional_str_param(value) {
            Some(s) => res == Ok::<Option<String>, CodecError>(s),
            None => res == Err::<Option<String>, CodecError>(CodecError::InvalidParams),
        },
{
    match value {
        JsonValue::Str(s) => Ok(Some(s)),
        JsonValue::Null => Ok(None),
        _ => Err(CodecError::InvalidParams),
    }
}

/// Takes the last value out of a list of parameters.
fn take_last(params: &mut Vec<JsonValue>) -> (value: JsonValue)
    requires
        old(params)@.len() > 0,
    ensures
        value == old(params)@.last(),
        final(params)@ == old(params)@.drop_last(),
{
    params.pop().unwrap()
}

/// Splits a list of three parameters into its values.
fn split3(params: Vec<JsonValue>) -> (values: (JsonValue, JsonValue, JsonValue))
    requires
        params@.len() == 3,
    ensures
        values.0 == params@[0],
        values.1 == params@[1],
        values.2 == params@[2],
{
    let mut params = params;
    let c = take_last(&mut params);
    let b = take_last(&mut params);
    let a = take_last(&mut params);
    (a, b, c)
}

/// The message that a request frame stands for: its id (if any), its method
/// and its parameters (if any).
pub fn decode_request(id: Option<RpcId>, method: &str, params: Option<Vec<JsonValue>>) -> (res:
    Result<StratumProtocol, CodecError>)
    ensures
        res == spec_decode_request(
            id,
            method@,
            match params {
                Some(p) => Some(p@),
                None => None,
            },
        ),
{
    let params = match params {
        Some(params) => params,
        None => return Err(CodecError::NoParams),
    };
    let id = match id {
        Some(id) => id,
        None => RpcId::Num(0),
    };
    if str_eq(method, "mining.subscribe") {
        if params.len() != 3 {
            return Err(CodecError::InvalidParams);
        }
        let (a, b, c) = split3(params);
        let user_agent = unwrap_str_value(a)?;
        let protocol_version = unwrap_str_value(b)?;
        let session_id = unwrap_optional_str_value(c)?;
        Ok(StratumProtocol::Subscribe(id, user_agent, protocol_version, session_id))
    } else if str_eq(method, "mining.authorize") {
        if params.len() != 3 {
            return Err(CodecError::InvalidParams);
        }
        let (a, b, c) = split3(params);
        let account_name = unwrap_str_value(a)?;
        let miner_name = unwrap_str_value(b)?;
        let worker_password = unwrap_optional_str_value(c)?;
        Ok(StratumProtocol::Authorize(id, account_name, miner_name, worker_password))
    } else if str_eq(method, "mining.set_target") {
        if params.len() != 1 {
            return Err(CodecError::InvalidParams);
        }
        let mut params = params;
        let a = take_last(&mut params);
        let difficulty_target = unwrap_u64_value(a)?;
        Ok(StratumProtocol::SetTarget(difficulty_target))
    } else if str_eq(method, "mining.notify") {
        if params.len() != 7 {
            return Err(CodecError::InvalidParams);
        }
        let ghost p = params@;
        let mut params = params;
        let g = take_last(&mut params);
        let f = take_last(&mut params);
        let e = take_last(&mut params);
        let d = take_last(&mut params);
        let c = take_last(&mut params);
        let b = take_last(&mut params);
        let a = take_last(&mut params);
        assert(a == p[0] && b == p[1] && c == p[2] && d == p[3] && e == p[4] && f == p[5] && g
            == p[6]);
        let job_id = unwrap_str_value(a)?;
        let block_header_root = unwrap_str_value(b)?;
        let hashed_leaves_1 = unwrap_str_value(c)?;
        let hashed_leaves_2 = unwrap_str_value(d)?;
        let hashed_leaves_3 = unwrap_str_value(e)?;
        let hashed_leaves_4 = unwrap_str_value(f)?;
        assert(forall|i: int| 0 <= i < 6 ==> (#[trigger] str_param(p[i])) is Some) by {
            assert forall|i: int| 0 <= i < 6 implies (#[trigger] str_param(p[i])) is Some by {
                if i == 0 {
                } else if i == 1 {
                } else if i == 2 {
                } else if i == 3 {
                } else if i == 4 {
                } else {
                }
            }
        }
        let clean_jobs = unwrap_bool_value(g)?;
        Ok(
            StratumProtocol::Notify(
                job_id,
                block_header_root,
                hashed_leaves_1,
                hashed_leaves_2,
                hashed_leaves_3,
                hashed_leaves_4,
                clean_jobs,
            ),
        )
    } else if str_eq(method, "mining.submit") {
        if params.len() != 3 {
            return Err(CodecError::InvalidParams);
        }
        let ghost p = params@;
        let (a, b, c) = split3(params);
        let job_id = unwrap_str_value(a)?;
        let nonce = unwrap_str_value(b)?;
        let proof = unwrap_str_value(c)?;
        assert(forall|i: int| 0 <= i < 3 ==> (#[trigger] str_param(p[i])) is Some) by {
            assert forall|i: int| 0 <= i < 3 implies (#[trigger] str_param(p[i])) is Some by {
                if i == 0 {
                } else if i == 1 {
                } else {
                }
            }
        }
        Ok(StratumProtocol::Submit(id, job_id, nonce, proof))
    } else {
        Err(CodecError::UnknownMethod)
    }
}

/// The result of a response as the protocol reads it: a boolean, an array
/// or null.
pub open spec fn spec_response_params(result: JsonValue) -> Result<ResponseParams, CodecError> {
    match result {
        JsonValue::Bool(b) => Ok(ResponseParams::Bool(b)),
        JsonValue::Array(items) => Ok(ResponseParams::Array(items)),
        JsonValue::Null => Ok(ResponseParams::Null),
        _ => Err(CodecError::InvalidResult),
    }
}

/// Reads the result of a response.
pub fn response_params(result: JsonValue) -> (res: Result<ResponseParams, CodecError>)
    ensures
        res == spec_response_params(result),
{
    match result {
        JsonValue::Bool(b) => Ok(ResponseParams::Bool(b)),
        JsonValue::Array(items) => Ok(ResponseParams::Array(items)),
        JsonValue::Null => Ok(ResponseParams::Null),
        _ => Err(CodecError::InvalidResult),
    }
}

/// The message that a response frame stands for: its id (zero when it has
/// none) with either its result or its error.
pub open spec fn spec_decode_response(
    id: Option<RpcId>,
    payload: Result<JsonValue, RpcError>,
) -> Result<StratumProtocol, CodecError> {
    match payload {
        Ok(result) => match spec_response_params(result) {
            Ok(params) => Ok(StratumProtocol::Response(id_or_zero(id), Some(params), None)),
            Err(e) => Err(e),
        },
        Err(error) => Ok(StratumProtocol::Response(id_or_zero(id), None, Some(error))),
    }
}

/// The message that a response frame stands for.
pub fn decode_response(id: Option<RpcId>, payload: Result<JsonValue, RpcError>) -> (res: Result<
    StratumProtocol,
    CodecError,
>)
    ensures
        res == spec_decode_response(id, payload),
{
    let id = match id {
        Some(id) => id,
        None => RpcId::Num(0),
    };
    match payload {
        Ok(result) => {
            let params = response_params(result)?;
            Ok(StratumProtocol::Response(id, Some(params), None))
        },
        Err(error) => Ok(StratumProtocol::Response(id, None, Some(error))),
    }
}

/// Why a message could not be read from the pool's stream.
#[derive(Debug)]
pub enum DecodeError {
    /// The frame is not a stratum message, or the stream failed.
    Codec(CodecError),
    /// The frame is not JSON text, or not a JSON-RPC request or response.
    Json(serde_json::Error),
}

/// The JSON value of a text that reads as JSON.
pub open spec fn text_json(text: String) -> JsonValue {
    json_value_of(vstd::utf8::encode_utf8(text@))->0
}

/// The values of the parameters of a request, read from their texts.
pub open spec fn params_values(params: Option<Vec<String>>) -> Option<Seq<JsonValue>> {
    match params {
        Some(p) => Some(p@.map_values(|t: String| text_json(t))),
        None => None,
    }
}

/// The result of a response read from its text, or its error.
pub open spec fn payload_value(payload: Result<String, RpcError>) -> Result<JsonValue, RpcError> {
    match payload {
        Ok(t) => Ok(text_json(t)),
        Err(e) => Err(e),
    }
}

/// A JSON object with a member of this name.
pub open spec fn has_member(doc: JsonValue, key: Seq<char>) -> bool {
    match doc {
        JsonValue::Object(members) => exists|i: int|
            0 <= i < members@.len() && (#[trigger] members@[i]).0@ == key,
        _ => false,
    }
}

/// A frame was cut from the buffer: the read neither waited for more bytes
/// nor failed on an over-long line.
pub open spec fn frame_cut(res: Result<Option<StratumProtocol>, DecodeError>) -> bool {
    !(res matches Ok(None)) && !(res matches Err(DecodeError::Codec(CodecError::FrameTooLong)))
}

/// A read gave the message that a decoding gave, or its error.
pub open spec fn read_as(
    res: Result<Option<StratumProtocol>, DecodeError>,
    decoded: Result<StratumProtocol, CodecError>,
) -> bool {
    match decoded {
        Ok(m) => res matches Ok(Some(x)) && x == m,
        Err(e) => res matches Err(DecodeError::Codec(c)) && c == e,
    }
}

/// What a frame reads as: a frame that is not JSON text fails; a JSON value
/// that is no object is no message; an object with a `method` member is
/// read as a JSON-RPC request and decoded as one, any other object as a
/// response; a frame that is not a JSON-RPC request or response fails.
pub open spec fn frame_read(line: Seq<u8>, res: Result<Option<StratumProtocol>, DecodeError>) -> bool {
    match json_value_of(line) {
        None => res matches Err(DecodeError::Json(_)),
        Some(doc) => match spec_frame_kind(doc is Object, has_member(doc, "method"@)) {
            Err(e) => res matches Err(DecodeError::Codec(c)) && c == e,
            Ok(FrameKind::Request) => match json_request_of(line) {
                None => res matches Err(DecodeError::Json(_)),
                Some(r) => read_as(res, spec_decode_request(r.id, r.method@, params_values(r.params))),
            },
            Ok(FrameKind::Response) => match json_response_of(line) {
                None => res matches Err(DecodeError::Json(_)),
                Some(r) => read_as(res, spec_decode_response(r.id, payload_value(r.payload))),
            },
        },
    }
}

/// Reads the JSON value of a text that reads as JSON.
fn text_value(text: &String) -> (value: JsonValue)
    requires
        json_value_of(vstd::utf8::encode_utf8(text@)) is Some,
    ensures
        value == text_json(*text),
{
    match read_json(text.as_str().as_bytes()) {
        Ok(value) => value,
        Err(_) => {
            // the text reads as JSON
            proof {
                assert(false);
            }
            JsonValue::Null
        },
    }
}

/// Reads the values of the parameters of a request from their texts.
fn param_values(texts: &Vec<String>) -> (values: Vec<JsonValue>)
    requires
        forall|i: int|
            0 <= i < texts@.len() ==> #[trigger] json_value_of(vstd::utf8::encode_utf8(texts@[i]@)) is Some,
    ensures
        values@ == texts@.map_values(|t: String| text_json(t)),
{
    let mut values: Vec<JsonValue> = Vec::new();
    let mut i: usize = 0;
    while i < texts.len()
        invariant
            i <= texts@.len(),
            forall|j: int|
                0 <= j < texts@.len() ==> #[trigger] json_value_of(vstd::utf8::encode_utf8(texts@[j]@)) is Some,
            values@ == texts@.take(i as int).map_values(|t: String| text_json(t)),
        decreases texts@.len() - i,
    {
        let value = text_value(&texts[i]);
        values.push(value);
        proof {
            assert(texts@.take(i + 1int) == texts@.take(i as int).push(texts@[i as int]));
        }
        i = i + 1;
    }
    assert(texts@.take(texts@.len() as int) == texts@);
    values
}

/// Whether one of an object's members is named `method`.
fn has_method_member(members: &Vec<(String, String)>) -> (found: bool)
    ensures
        found == exists|i: int| 0 <= i < members@.len() && (#[trigger] members@[i]).0@ == "method"@,
{
    let mut i: usize = 0;
    while i < members.len()
        invariant
            i <= members@.len(),
            forall|j: int| 0 <= j < i ==> (#[trigger] members@[j]).0@ != "method"@,
        decreases members@.len() - i,
    {
        if str_eq(members[i].0.as_str(), "method") {
            assert(members@[i as int].0@ == "method"@);
            return true;
        }
        i = i + 1;
    }
    false
}

/// Reads a frame from the pool as a stratum message: its JSON text, then
/// the request or response that it is, decoded.
pub fn read_frame(line: &[u8]) -> (res: Result<Option<StratumProtocol>, DecodeError>)
    ensures
        frame_read(line@, res),
        frame_cut(res),
{
    let doc = match read_json(line) {
        Ok(doc) => doc,
        Err(e) => return Err(DecodeError::Json(e)),
    };
    let (is_object, has_method) = match &doc {
        JsonValue::Object(members) => (true, has_method_member(members)),
        _ => (false, false),
    };
    match frame_kind(is_object, has_method) {
        Err(e) => Err(DecodeError::Codec(e)),
        Ok(FrameKind::Request) => {
            let request = match read_json_request(line) {
                Ok(request) => request,
                Err(e) => return Err(DecodeError::Json(e)),
            };
            let RequestFrame { id, method, params } = request;
            let values = match &params {
                Some(texts) => Some(param_values(texts)),
                None => None,
            };
            match decode_request(id, method.as_str(), values) {
                Ok(message) => Ok(Some(message)),
                Err(e) => Err(DecodeError::Codec(e)),
            }
        },
        Ok(FrameKind::Response) => {
            let response = match read_json_response(line) {
                Ok(response) => response,
                Err(e) => return Err(DecodeError::Json(e)),
            };
            let ResponseFrame { id, payload } = response;
            let value = match payload {
                Ok(text) => Ok(text_value(&text)),
                Err(error) => Err(error),
            };
            match decode_response(id, value) {
                Ok(message) => Ok(Some(message)),
                Err(e) => Err(DecodeError::Codec(e)),
            }
        },
    }
}

/// The method of a request message.
pub open spec fn request_method(item: StratumProtocol) -> &'static str {
    match item {
        StratumProtocol::Subscribe(..) => "mining.subscribe",
        StratumProtocol::Authorize(..) => "mining.authorize",
        StratumProtocol::SetTarget(..) => "mining.set_target",
        StratumProtocol::Notify(..) => "mining.notify",
        StratumProtocol::Submit(..) => "mining.submit",
        StratumProtocol::Response(..) => "",
    }
}

/// The parameters of a request message, in the order in which they are sent.
pub open spec fn request_params(item: StratumProtocol) -> Seq<JsonValue> {
    match item {
        StratumProtocol::Subscribe(_, user_agent, protocol_version, session_id) => subscribe_json(
            SubscribeParams(user_agent, protocol_version, session_id),
        ),
        StratumProtocol::Authorize(_, account_name, worker_name, worker_password) => seq![
            JsonValue::Str(account_name),
            JsonValue::Str(worker_name),
            optional_text(worker_password),
        ],
        StratumProtocol::SetTarget(target) => seq![JsonValue::Number(Some(target))],
        StratumProtocol::Notify(a, b, c, d, e, f, g) => notify_json(NotifyParams(a, b, c, d, e, f, g)),
        StratumProtocol::Submit(_, job_id, nonce, proof) => seq![
            JsonValue::Str(job_id),
            JsonValue::Str(nonce),
            JsonValue::Str(proof),
        ],
        StratumProtocol::Response(..) => seq![],
    }
}

/// The id of a request message: requests that expect an answer carry their
/// id, notifications of the pool carry none.
pub open spec fn request_id(item: StratumProtocol) -> Option<RpcId> {
    match item {
        StratumProtocol::Subscribe(id, ..) => Some(id),
        StratumProtocol::Authorize(id, ..) => Some(id),
        StratumProtocol::Submit(id, ..) => Some(id),
        _ => None,
    }
}

/// Lays a message out as a JSON-RPC frame: a request with its method,
/// parameters and id, or a response with its error if it has one and
/// otherwise its result.
pub fn encode_message(item: StratumProtocol) -> (out: RpcOutgoing)
    ensures
        match item {
            StratumProtocol::Response(id, result, error) => match error {
                Some(error) => out == RpcOutgoing::Failure { id, error },
                None => out == RpcOutgoing::Success { id, result },
            },
            _ => out matches RpcOutgoing::Request { method, params, id } && method == request_method(
                item,
            ) && params@ == request_params(item) && id == request_id(item),
        },
{
    match item {
        StratumProtocol::Subscribe(id, user_agent, protocol_version, session_id) => {
            let params = SubscribeParams(user_agent, protocol_version, session_id).into_json();
            RpcOutgoing::Request { method: "mining.subscribe", params, id: Some(id) }
        },
        StratumProtocol::Authorize(id, account_name, worker_name, worker_password) => {
            let mut params: Vec<JsonValue> = Vec::new();
            params.push(JsonValue::Str(account_name));
            params.push(JsonValue::Str(worker_name));
            params.push(optional_text_value(worker_password));
            RpcOutgoing::Request { method: "mining.authorize", params, id: Some(id) }
        },
        StratumProtocol::SetTarget(difficulty_target) => {
            let mut params: Vec<JsonValue> = Vec::new();
            params.push(JsonValue::Number(Some(difficulty_target)));
            RpcOutgoing::Request { method: "mining.set_target", params, id: None }
        },
        StratumProtocol::Notify(
            job_id,
            block_header_root,
            hashed_leaves_1,
            hashed_leaves_2,
            hashed_leaves_3,
            hashed_leaves_4,
            clean_jobs,
        ) => {
            let params = NotifyParams(
                job_id,
                block_header_root,
                hashed_leaves_1,
                hashed_leaves_2,
                hashed_leaves_3,
                hashed_leaves_4,
                clean_jobs,
            ).into_json();
            RpcOutgoing::Request { method: "mining.notify", params, id: None }
        },
        StratumProtocol::Submit(id, job_id, nonce, proof) => {
            let mut params: Vec<JsonValue> = Vec::new();
            params.push(JsonValue::Str(job_id));
            params.push(JsonValue::Str(nonce));
            params.push(JsonValue::Str(proof));
            RpcOutgoing::Request { method: "mining.submit", params, id: Some(id) }
        },
        StratumProtocol::Response(id, result, error) => match error {
            Some(error) => RpcOutgoing::Failure { id, error },
            None => RpcOutgoing::Success { id, result },
        },
    }
}

/// The method names of the protocol are distinct texts.
proof fn lemma_method_names_distinct()
    ensures
        "mining.subscribe"@ != "mining.authorize"@,
        "mining.subscribe"@ != "mining.set_target"@,
        "mining.subscribe"@ != "mining.notify"@,
        "mining.subscribe"@ != "mining.submit"@,
        "mining.authorize"@ != "mining.set_target"@,
        "mining.authorize"@ != "mining.notify"@,
        "mining.authorize"@ != "mining.submit"@,
        "mining.set_target"@ != "mining.notify"@,
        "mining.set_target"@ != "mining.submit"@,
        "mining.notify"@ != "mining.submit"@,
{
    reveal_strlit("mining.subscribe");
    reveal_strlit("mining.authorize");
    reveal_strlit("mining.set_target");
    reveal_strlit("mining.notify");
    reveal_strlit("mining.submit");
    assert("mining.subscribe"@.len() == 16);
    assert("mining.authorize"@.len() == 16);
    assert("mining.set_target"@.len() == 17);
    assert("mining.notify"@.len() == 13);
    assert("mining.submit"@.len() == 13);
    assert("mining.subscribe"@[7] == 's');
    assert("mining.authorize"@[7] == 'a');
    assert("mining.notify"@[7] == 'n');
    assert("mining.submit"@[7] == 's');
}

/// Every request message reads back as itself: decoding the method,
/// parameters and id that `encode_message` lays out gives the message that
/// was encoded.
pub proof fn law_request_round_trip(item: StratumProtocol)
    requires
        !(item is Response),
    ensures
        spec_decode_request(request_id(item), request_method(item)@, Some(request_params(item)))
            == Ok::<StratumProtocol, CodecError>(item),
{
    lemma_method_names_distinct();
    let p = request_params(item);
    match item {
        StratumProtocol::Notify(a, b, c, d, e, f, g) => {
            assert(forall|i: int| 0 <= i < 6 ==> (#[trigger] str_param(p[i])) is Some);
        },
        StratumProtocol::Submit(_, a, b, c) => {
            assert(forall|i: int| 0 <= i < 3 ==> (#[trigger] str_param(p[i])) is Some);
        },
        StratumProtocol::Subscribe(_, _, _, session_id) => {
            assert(optional_str_param(optional_text(session_id)) == Some(session_id));
        },
        StratumProtocol::Authorize(_, _, _, worker_password) => {
            assert(optional_str_param(optional_text(worker_password)) == Some(worker_password));
        },
        _ => {},
    }
}

/// The JSON value that a response's result is sent as.
pub open spec fn result_json(result: ResponseParams) -> JsonValue {
    match result {
        ResponseParams::Bool(b) => JsonValue::Bool(b),
        ResponseParams::Array(items) => JsonValue::Array(items),
        ResponseParams::Null => JsonValue::Null,
    }
}

/// Every response reads back as itself: a response with an error reads as
/// that error; one with a result reads as that result; one with neither was
/// sent with a null result and reads as a null result.
pub proof fn law_response_round_trip(id: RpcId, result: Option<ResponseParams>, error: Option<RpcError>)
    ensures
        error matches Some(e) ==> spec_decode_response(Some(id), Err(e)) == Ok::<
            StratumProtocol,
            CodecError,
        >(StratumProtocol::Response(id, None, Some(e))),
        error is None ==> (result matches Some(r) ==> spec_decode_response(
            Some(id),
            Ok(result_json(r)),
        ) == Ok::<StratumProtocol, CodecError>(StratumProtocol::Response(id, Some(r), None))),
        error is None ==> result is None ==> spec_decode_response(Some(id), Ok(JsonValue::Null))
            == Ok::<StratumProtocol, CodecError>(
            StratumProtocol::Response(id, Some(ResponseParams::Null), None),
        ),
{
}

/// A frame whose JSON text is an object with a `method` member, and which
/// reads as the JSON-RPC request that `encode_message` lays a request
/// message out as (its method, its id and its parameters), is read as that
/// message.
pub proof fn law_frame_reads_request(
    line: Seq<u8>,
    item: StratumProtocol,
    res: Result<Option<StratumProtocol>, DecodeError>,
)
    requires
        !(item is Response),
        json_value_of(line) matches Some(doc) && has_member(doc, "method"@),
        json_request_of(line) matches Some(r) && r.id == request_id(item) && r.method@ == request_method(
            item,
        )@ && params_values(r.params) == Some(request_params(item)),
        frame_read(line, res),
    ensures
        res matches Ok(Some(m)) && m == item,
{
    law_request_round_trip(item);
}

/// A frame whose JSON text is an object without a `method` member, and
/// which reads as a JSON-RPC response with an id and either an error or a
/// result whose text stands for a response's result, is read as that
/// response.
pub proof fn law_frame_reads_response(
    line: Seq<u8>,
    id: RpcId,
    result: ResponseParams,
    error: Option<RpcError>,
    res: Result<Option<StratumProtocol>, DecodeError>,
)
    requires
        json_value_of(line) matches Some(doc) && doc is Object && !has_member(doc, "method"@),
        json_response_of(line) matches Some(r) && r.id == Some(id) && match error {
            Some(e) => r.payload == Err::<String, RpcError>(e),
            None => r.payload matches Ok(text) && text_json(text) == result_json(result),
        },
        frame_read(line, res),
    ensures
        error matches Some(e) ==> (res matches Ok(Some(m)) && m == StratumProtocol::Response(id, None, Some(e))),
        error is None ==> (res matches Ok(Some(m)) && m == StratumProtocol::Response(id, Some(result), None)),
{
    law_response_round_trip(id, Some(result), error);
}

/// The parameters of a handler message, in the order in which they are sent.
pub open spec fn message_params(item: StratumMessage) -> Seq<JsonValue> {
    match item {
        StratumMessage::Subscribe(_, user_agent, protocol_version, session_id) => subscribe_json(
            SubscribeParams(user_agent, protocol_version, session_id),
        ),
        StratumMessage::Authorize(_, miner_name, worker_password) => seq![
            JsonValue::Str(miner_name),
            JsonValue::Str(worker_password),
        ],
        StratumMessage::SetDifficulty(target) => seq![JsonValue::Number(Some(target))],
        StratumMessage::Notify(a, b, c, d, e, f, g) => notify_json(NotifyParams(a, b, c, d, e, f, g)),
        StratumMessage::Submit(_, worker_name, job_id, nonce, commitment, proof) => seq![
            JsonValue::Str(worker_name),
            JsonValue::Str(job_id),
            JsonValue::Str(nonce),
            JsonValue::Str(commitment),
            JsonValue::Str(proof),
        ],
        StratumMessage::Response(..) => seq![],
    }
}

/// The id of a handler message: requests that expect an answer carry their
/// id, notifications carry none.
pub open spec fn message_id(item: StratumMessage) -> Option<RpcId> {
    match item {
        StratumMessage::Subscribe(id, ..) => Some(id),
        StratumMessage::Authorize(id, ..) => Some(id),
        StratumMessage::Submit(id, ..) => Some(id),
        _ => None,
    }
}

/// Lays a handler message out as a JSON-RPC frame: a request named by the
/// message's name with its parameters and id, or a response with its error
/// if it has one and otherwise its result.
pub fn encode_stratum_message(item: StratumMessage) -> (out: RpcOutgoing)
    ensures
        match item {
            StratumMessage::Response(id, result, error) => match error {
                Some(error) => out == RpcOutgoing::Failure { id, error },
                None => out == RpcOutgoing::Success { id, result },
            },
            _ => out matches RpcOutgoing::Request { method, params, id } && method
                == item.method_name() && params@ == message_params(item) && id == message_id(item),
        },
{
    let method = item.name();
    match item {
        StratumMessage::Subscribe(id, user_agent, protocol_version, session_id) => {
            let params = SubscribeParams(user_agent, protocol_version, session_id).into_json();
            RpcOutgoing::Request { method, params, id: Some(id) }
        },
        StratumMessage::Authorize(id, miner_name, worker_password) => {
            let mut params: Vec<JsonValue> = Vec::new();
            params.push(JsonValue::Str(miner_name));
            params.push(JsonValue::Str(worker_password));
            RpcOutgoing::Request { method, params, id: Some(id) }
        },
        StratumMessage::SetDifficulty(difficulty_target) => {
            let mut params: Vec<JsonValue> = Vec::new();
            params.push(JsonValue::Number(Some(difficulty_target)));
            RpcOutgoing::Request { method, params, id: None }
        },
        StratumMessage::Notify(a, b, c, d, e, f, g) => {
            let params = NotifyParams(a, b, c, d, e, f, g).into_json();
            RpcOutgoing::Request { method, params, id: None }
        },
        StratumMessage::Submit(id, worker_name, job_id, nonce, commitment, proof) => {
            let mut params: Vec<JsonValue> = Vec::new();
            params.push(JsonValue::Str(worker_name));
            params.push(JsonValue::Str(job_id));
            params.push(JsonValue::Str(nonce));
            params.push(JsonValue::Str(commitment));
            params.push(JsonValue::Str(proof));
            RpcOutgoing::Request { method, params, id: Some(id) }
        },
        StratumMessage::Response(id, result, error) => match error {
            Some(error) => RpcOutgoing::Failure { id, error },
            None => RpcOutgoing::Success { id, result },
        },
    }
}

/// A handler message is sent with its parameters in the order of its
/// fields: a submission's i-th parameter is its (i+1)-th field (worker name,
/// job id, nonce, commitment, proof), an authorization's are its miner name
/// and password, and a notification's are its seven fields in order.
pub proof fn law_message_params_in_field_order(item: StratumMessage)
    ensures
        item matches StratumMessage::Submit(_, worker, job_id, nonce, commitment, proof) ==> {
            let p = message_params(item);
            &&& p.len() == 5
            &&& p[0] == JsonValue::Str(worker)
            &&& p[1] == JsonValue::Str(job_id)
            &&& p[2] == JsonValue::Str(nonce)
            &&& p[3] == JsonValue::Str(commitment)
            &&& p[4] == JsonValue::Str(proof)
        },
        item matches StratumMessage::Authorize(_, miner, password) ==> message_params(item) == seq![
            JsonValue::Str(miner),
            JsonValue::Str(password),
        ],
        item matches StratumMessage::Notify(a, b, c, d, e, f, g) ==> message_params(item) == seq![
            JsonValue::Str(a),
            JsonValue::Str(b),
            JsonValue::Str(c),
            JsonValue::Str(d),
            JsonValue::Str(e),
            JsonValue::Str(f),
            JsonValue::Bool(g),
        ],
{
}

/// A submission that the handler writes reads back, on the pool's side, as
/// the submission of the same job id, nonce and proof: its parameters at the
/// places of the job id, the nonce and the proof decode as a `mining.submit`
/// request with those fields.
pub proof fn law_submit_reads_back(item: StratumMessage)
    requires
        item is Submit,
    ensures
        item matches StratumMessage::Submit(id, _, job_id, nonce, _, proof) ==> spec_decode_request(
            message_id(item),
            "mining.submit"@,
            Some(seq![message_params(item)[1], message_params(item)[2], message_params(item)[4]]),
        ) == Ok::<StratumProtocol, CodecError>(StratumProtocol::Submit(id, job_id, nonce, proof)),
{
    lemma_method_names_distinct();
    let p = seq![message_params(item)[1], message_params(item)[2], message_params(item)[4]];
    assert(forall|i: int| 0 <= i < 3 ==> (#[trigger] str_param(p[i])) is Some);
}

/// A message read from the wire keeps every field in its place: a
/// subscription, a target and a notification read as handler messages are
/// sent on with the parameters and id they came with, and a submission keeps
/// its job id, nonce and proof at their places.
pub proof fn law_read_keeps_fields(p: StratumProtocol, m: StratumMessage)
    requires
        StratumMessage::reads_as(p, m),
    ensures
        (p is Subscribe || p is SetTarget || p is Notify) ==> message_params(m) == request_params(p)
            && message_id(m) == request_id(p),
        p matches StratumProtocol::Notify(job_id, challenge, address, ..) ==> (m matches StratumMessage::Notify(
            job_id2,
            challenge2,
            address2,
            ..,
        ) && job_id2 == job_id && challenge2 == challenge && address2 == address),
        p is Submit ==> message_params(m)[1] == request_params(p)[0] && message_params(m)[2]
            == request_params(p)[1] && message_params(m)[4] == request_params(p)[2] && message_id(m)
            == request_id(p),
{
}

} // verus!
