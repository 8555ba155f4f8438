//! The byte buffers and the delimiter codec that cut the pool's stream into
//! frames.
use vstd::prelude::*;
use vstd::string::StringSliceAdditionalSpecFns;
use bytes::BytesMut;
use tokio_util::codec::{AnyDelimiterCodec, AnyDelimiterCodecError, Decoder, Encoder};

verus! {

#[verifier::external_type_specification]
#[verifier::external_body]
pub struct ExBytesMut(BytesMut);

#[verifier::external_type_specification]
#[verifier::external_body]
pub struct ExAnyDelimiterCodec(AnyDelimiterCodec);

#[verifier::external_type_specification]
#[verifier::external_body]
pub struct ExUtf8Error(std::str::Utf8Error);

/// The bytes that a buffer holds.
pub uninterp spec fn buffer_bytes(buf: BytesMut) -> Seq<u8>;

/// The bytes at which a delimiter codec cuts frames.
pub uninterp spec fn codec_delimiters(codec: AnyDelimiterCodec) -> Seq<u8>;

/// The bytes that a delimiter codec writes after each frame.
pub uninterp spec fn codec_writer(codec: AnyDelimiterCodec) -> Seq<u8>;

/// The longest frame that a delimiter codec accepts.
pub uninterp spec fn codec_max_length(codec: AnyDelimiterCodec) -> nat;

/// How far into the buffer a delimiter codec has already searched for a
/// delimiter.
pub uninterp spec fn codec_scan_offset(codec: AnyDelimiterCodec) -> nat;

/// Whether a delimiter codec is dropping the rest of an over-long frame.
pub uninterp spec fn codec_discarding(codec: AnyDelimiterCodec) -> bool;

/// The index of the first delimiter in `bytes` from `from` up to `to`.
pub open spec fn first_delimiter(bytes: Seq<u8>, delimiters: Seq<u8>, from: int, to: int) -> Option<int>
    decreases to - from,
{
    if from >= to {
        None
    } else if delimiters.contains(bytes[from]) {
        Some(from)
    } else {
        first_delimiter(bytes, delimiters, from + 1, to)
    }
}

/// What a delimiter codec that has searched nothing and drops nothing does
/// with a buffer: the bytes before the first delimiter among the first
/// `max_length + 1` bytes are the frame, taken off with the delimiter;
/// without a delimiter there, more than `max_length` bytes fail and fewer
/// give no frame, the buffer kept either way.
pub open spec fn fresh_decode(
    bytes: Seq<u8>,
    delimiters: Seq<u8>,
    max_length: nat,
    res: Result<Option<Vec<u8>>, FrameError>,
    rest: Seq<u8>,
) -> bool {
    let limit: int = if max_length + 1 < bytes.len() {
        (max_length + 1) as int
    } else {
        bytes.len() as int
    };
    match first_delimiter(bytes, delimiters, 0, limit) {
        Some(i) => res matches Ok(Some(frame)) && frame@ == bytes.take(i) && rest == bytes.skip(i + 1),
        None => if bytes.len() > max_length {
            res is Err && rest == bytes
        } else {
            res matches Ok(None) && rest == bytes
        },
    }
}

/// Where a codec stops searching a buffer of `len` bytes: after the longest
/// frame and one byte more, or at the buffer's end.
pub open spec fn search_end(len: nat, max_length: nat) -> int {
    if max_length + 1 < len {
        (max_length + 1) as int
    } else {
        len as int
    }
}

/// The settings of a delimiter codec, which decoding and encoding keep.
pub open spec fn same_settings(a: AnyDelimiterCodec, b: AnyDelimiterCodec) -> bool {
    &&& codec_delimiters(a) == codec_delimiters(b)
    &&& codec_writer(a) == codec_writer(b)
    &&& codec_max_length(a) == codec_max_length(b)
}

/// A frame was cut from a buffer: the buffer that is left follows the frame
/// and one delimiter byte, which follow whatever was dropped before them.
pub open spec fn frame_taken(old_buf: Seq<u8>, frame: Seq<u8>, new_buf: Seq<u8>, delimiters: Seq<u8>) -> bool {
    let end = old_buf.len() - new_buf.len() - 1;
    &&& frame.len() + 1 + new_buf.len() <= old_buf.len()
    &&& old_buf.subrange(end - frame.len(), end) == frame
    &&& delimiters.contains(old_buf[end])
    &&& new_buf == old_buf.skip(end + 1)
}

/// Why a frame could not be cut from the stream.
#[derive(Debug, Clone, Copy, PartialEq, Eq, Structural)]
pub enum FrameError {
    /// More bytes than the longest frame arrived without a delimiter.
    TooLong,
    /// The stream failed.
    Io,
}

/// `BytesMut::len`: the number of bytes that the buffer holds.
#[verifier::external_body]
pub(crate) fn buffer_len(buf: &BytesMut) -> (len: usize)
    ensures
        len == buffer_bytes(*buf).len(),
{
    buf.len()
}

/// `AnyDelimiterCodec::new_with_max_length`: a codec that cuts frames at the
/// given delimiters, writes the given bytes after each frame and accepts
/// frames of at most `max_length` bytes; it has searched nothing yet.
#[verifier::external_body]
pub(crate) fn new_delimiter_codec(
    seek_delimiters: Vec<u8>,
    sequence_writer: Vec<u8>,
    max_length: usize,
) -> (codec: AnyDelimiterCodec)
    ensures
        codec_delimiters(codec) == seek_delimiters@,
        codec_writer(codec) == sequence_writer@,
        codec_max_length(codec) == max_length,
        codec_scan_offset(codec) == 0,
        !codec_discarding(codec),
{
    AnyDelimiterCodec::new_with_max_length(seek_delimiters, sequence_writer, max_length)
}

/// `<AnyDelimiterCodec as Decoder>::decode`, with the frame's bytes copied
/// into a vector. It searches the buffer from where it stopped, at most to
/// the longest frame plus one byte. A frame it gives is the bytes before a
/// delimiter, at most the longest frame long; it takes the frame and its
/// delimiter off the buffer (after any bytes it still had to discard from
/// an earlier over-long frame). Otherwise it only drops bytes off the front
/// of the buffer; it fails when more than the longest frame is buffered
/// without a delimiter. It never fails with an I/O error. When it drops
/// nothing and the part it already searched holds no delimiter, it acts as
/// on a fresh search of the whole buffer, and when it then finds no frame it
/// keeps the buffer and resumes after all of it next time. When it drops
/// the rest of an over-long frame and finds a delimiter within its search,
/// it drops up to the first such delimiter and acts as on a fresh search of
/// what follows it. The crate slices
/// the buffer from its search offset, hence the requirement.
#[verifier::external_body]
pub(crate) fn delimiter_decode(
    codec: &mut AnyDelimiterCodec,
    buf: &mut BytesMut,
) -> (res: Result<Option<Vec<u8>>, FrameError>)
    requires
        codec_scan_offset(*old(codec)) <= buffer_bytes(*old(buf)).len(),
        codec_scan_offset(*old(codec)) <= codec_max_length(*old(codec)) + 1,
    ensures
        same_settings(*old(codec), *final(codec)),
        codec_scan_offset(*final(codec)) <= buffer_bytes(*final(buf)).len(),
        codec_scan_offset(*final(codec)) <= codec_max_length(*final(codec)) + 1,
        buffer_bytes(*final(buf)).len() <= buffer_bytes(*old(buf)).len(),
        res matches Ok(Some(frame)) ==> frame_taken(
            buffer_bytes(*old(buf)),
            frame@,
            buffer_bytes(*final(buf)),
            codec_delimiters(*old(codec)),
        ),
        res matches Ok(Some(frame)) ==> frame@.len() <= codec_max_length(*old(codec)),
        !codec_discarding(*old(codec)) && first_delimiter(
            buffer_bytes(*old(buf)),
            codec_delimiters(*old(codec)),
            0,
            codec_scan_offset(*old(codec)) as int,
        ) is None ==> fresh_decode(
            buffer_bytes(*old(buf)),
            codec_delimiters(*old(codec)),
            codec_max_length(*old(codec)),
            res,
            buffer_bytes(*final(buf)),
        ),
        res matches Ok(None) && !codec_discarding(*old(codec)) && first_delimiter(
            buffer_bytes(*old(buf)),
            codec_delimiters(*old(codec)),
            0,
            codec_scan_offset(*old(codec)) as int,
        ) is None ==> !codec_discarding(*final(codec)) && codec_scan_offset(
            *final(codec),
        ) == buffer_bytes(*final(buf)).len(),
        codec_discarding(*old(codec)) ==> (first_delimiter(
            buffer_bytes(*old(buf)),
            codec_delimiters(*old(codec)),
            codec_scan_offset(*old(codec)) as int,
            search_end(buffer_bytes(*old(buf)).len(), codec_max_length(*old(codec))),
        ) matches Some(i) ==> fresh_decode(
            buffer_bytes(*old(buf)).skip(i + 1),
            codec_delimiters(*old(codec)),
            codec_max_length(*old(codec)),
            res,
            buffer_bytes(*final(buf)),
        )),
        res matches Ok(None) && codec_discarding(*old(codec)) && first_delimiter(
            buffer_bytes(*old(buf)),
            codec_delimiters(*old(codec)),
            codec_scan_offset(*old(codec)) as int,
            search_end(buffer_bytes(*old(buf)).len(), codec_max_length(*old(codec))),
        ) is Some ==> !codec_discarding(*final(codec)) && codec_scan_offset(*final(codec))
            == buffer_bytes(*final(buf)).len(),
        res matches Ok(Some(frame)) ==> !codec_discarding(*final(codec)) && codec_scan_offset(
            *final(codec),
        ) == 0,
        res is Err ==> codec_discarding(*final(codec)),
        res matches Ok(None) ==> buffer_bytes(*final(buf)) == buffer_bytes(*old(buf)).skip(
            buffer_bytes(*old(buf)).len() - buffer_bytes(*final(buf)).len(),
        ),
        res matches Err(e) ==> e == FrameError::TooLong && buffer_bytes(*final(buf)).len()
            > codec_max_length(*old(codec)) && buffer_bytes(*final(buf)) == buffer_bytes(
            *old(buf),
        ).skip(buffer_bytes(*old(buf)).len() - buffer_bytes(*final(buf)).len()),
{
    match codec.decode(buf) {
        Ok(frame) => Ok(frame.map(|bytes| bytes.to_vec())),
        Err(AnyDelimiterCodecError::MaxChunkLengthExceeded) => Err(FrameError::TooLong),
        Err(AnyDelimiterCodecError::Io(_)) => Err(FrameError::Io),
    }
}

/// `<AnyDelimiterCodec as Encoder<&str>>::encode`: appends the text's bytes
/// and then the codec's writer bytes to the buffer, and succeeds. The
/// buffer's `reserve` panics past `isize::MAX` bytes, hence the requirement.
#[verifier::external_body]
pub(crate) fn delimiter_encode(
    codec: &mut AnyDelimiterCodec,
    text: &str,
    buf: &mut BytesMut,
) -> (res: Result<(), FrameError>)
    requires
        buffer_bytes(*old(buf)).len() + text.spec_bytes().len() + codec_writer(*old(codec)).len()
            <= isize::MAX,
    ensures
        res is Ok,
        *final(codec) == *old(codec),
        buffer_bytes(*final(buf)) == buffer_bytes(*old(buf)) + text.spec_bytes() + codec_writer(
            *old(codec),
        ),
{
    match codec.encode(text, buf) {
        Ok(()) => Ok(()),
        Err(AnyDelimiterCodecError::MaxChunkLengthExceeded) => Err(FrameError::TooLong),
        Err(AnyDelimiterCodecError::Io(_)) => Err(FrameError::Io),
    }
}

/// `std::str::from_utf8`: the bytes as text, exactly when they are valid
/// UTF-8; the text is those same bytes.
#[verifier::external_body]
pub(crate) fn utf8_text(bytes: &[u8]) -> (res: Result<&str, std::str::Utf8Error>)
    ensures
        res is Ok <==> vstd::utf8::valid_utf8(bytes@),
        res matches Ok(text) ==> text.spec_bytes() == bytes@,
{
    std::str::from_utf8(bytes)
}

} // verus!
