//! The buffer protocol: every variable-length output of the native compiler
//! is read by asking for its size and then filling a buffer of that size.

use crate::error::{classify, classify_spec, NvrtcError, NVRTC_SUCCESS};
use vstd::prelude::*;
use vstd::utf8::{
    decode_utf8, decode_utf8_encode_utf8, encode_scalar, encode_utf8, leading_byte_width_1,
    valid_utf8,
};

verus! {

/// The byte with which the native compiler ends a text output.
pub const TERMINATOR: u8 = 0;

/// The variable-length outputs of a compiler session.
#[derive(Clone, Copy, Debug, PartialEq, Eq, Structural)]
pub enum Artifact {
    /// The compiled intermediate representation, a text.
    Ptx,
    /// The compiled binary module.
    Cubin,
    /// The diagnostic log of the last compile attempt, a text.
    Log,
}

/// How the bytes of a filled buffer are read.
#[derive(Clone, Copy, Debug, PartialEq, Eq, Structural)]
pub enum Interpretation {
    /// The last byte is a terminator; the bytes before it are UTF-8 text.
    Text,
    /// Every byte is payload.
    Bytes,
}

/// Why an output could not be read.
#[derive(Clone, Copy, Debug, PartialEq, Eq, Structural)]
pub enum OutputError {
    /// A native call reported a failure.
    Native(NvrtcError),
    /// The native compiler wrote bytes that are not well-formed UTF-8.
    Decoding,
}

/// An output of the native compiler, read from a filled buffer.
#[derive(Debug)]
pub enum Output {
    Text(String),
    Bytes(Vec<u8>),
}

/// What an `Output` holds.
pub enum OutputView {
    Text(Seq<char>),
    Bytes(Seq<u8>),
}

impl View for Output {
    type V = OutputView;

    open spec fn view(&self) -> OutputView {
        match self {
            Output::Text(text) => OutputView::Text(text@),
            Output::Bytes(bytes) => OutputView::Bytes(bytes@),
        }
    }
}

/// The text bytes of a filled buffer: everything but the last byte, and
/// nothing at all where the buffer is empty.
pub open spec fn text_bytes(filled: Seq<u8>) -> Seq<u8> {
    if filled.len() == 0 {
        filled
    } else {
        filled.drop_last()
    }
}

/// What a filled buffer means under an interpretation.
pub open spec fn interpret_spec(filled: Seq<u8>, how: Interpretation) -> Result<
    OutputView,
    OutputError,
> {
    match how {
        Interpretation::Bytes => Ok(OutputView::Bytes(filled)),
        Interpretation::Text => if valid_utf8(text_bytes(filled)) {
            Ok(OutputView::Text(decode_utf8(text_bytes(filled))))
        } else {
            Err(OutputError::Decoding)
        },
    }
}

/// The view of a read's result.
pub open spec fn result_view(r: Result<Output, OutputError>) -> Result<OutputView, OutputError> {
    match r {
        Ok(output) => Ok(output@),
        Err(e) => Err(e),
    }
}

/// `std::string::String::from_utf8`: the bytes become a `String` exactly when
/// they are well-formed UTF-8, and the string then holds the characters that
/// the bytes encode. Otherwise there is no string.
#[verifier::external_body]
pub(crate) fn string_from_utf8(bytes: Vec<u8>) -> (r: Option<String>)
    ensures
        r is Some <==> valid_utf8(bytes@),
        r matches Some(text) ==> text@ == decode_utf8(bytes@),
{
    match String::from_utf8(bytes) {
        Ok(text) => Some(text),
        Err(_) => None,
    }
}

/// Reads a filled buffer under an interpretation.
///
/// For text the last byte is dropped, unless the buffer is empty, and the rest
/// is checked to be UTF-8. For bytes the buffer is handed back as it is.
pub fn interpret(filled: Vec<u8>, how: Interpretation) -> (r: Result<Output, OutputError>)
    ensures
        result_view(r) == interpret_spec(filled@, how),
{
    match how {
        Interpretation::Bytes => Ok(Output::Bytes(filled)),
        Interpretation::Text => {
            let mut filled = filled;
            let n = filled.len();
            if n > 0 {
                filled.truncate(n - 1);
            }
            match string_from_utf8(filled) {
                Some(text) => Ok(Output::Text(text)),
                None => Err(OutputError::Decoding),
            }
        },
    }
}

/// A buffer of `n` zero bytes.
pub open spec fn zeroed(n: nat) -> Seq<u8> {
    Seq::new(n, |i: int| 0u8)
}

/// What a read yields once both native calls have replied: the first failure,
/// or the filled buffer under the interpretation.
pub open spec fn read_spec(
    size_status: u32,
    fill_status: u32,
    filled: Seq<u8>,
    how: Interpretation,
) -> Result<OutputView, OutputError> {
    match classify_spec(size_status) {
        Err(e) => Err(OutputError::Native(e)),
        Ok(_) => match classify_spec(fill_status) {
            Err(e) => Err(OutputError::Native(e)),
            Ok(_) => interpret_spec(filled, how),
        },
    }
}

/// What `read_sized` promises of its result `r`, given the two native calls.
///
/// The size query was made. Where it failed, `r` is that failure. Otherwise
/// `fill` was called on a zeroed buffer of the size reported, and `r` is what
/// `read_spec` makes of the two replies.
pub open spec fn read_sized_outcome<S, F>(
    handle: u64,
    artifact: Artifact,
    size_query: S,
    fill: F,
    how: Interpretation,
    r: Result<OutputView, OutputError>,
) -> bool where S: FnOnce(u64, Artifact) -> (u32, usize), F: FnOnce(u64, Artifact, Vec<u8>) -> (
    u32,
    Vec<u8>,
) {
    exists|size: (u32, usize)|
        {
            &&& #[trigger] size_query.ensures((handle, artifact), size)
            &&& classify_spec(size.0) matches Err(e) ==> r == Err::<OutputView, OutputError>(
                OutputError::Native(e),
            )
            &&& classify_spec(size.0) is Ok ==> exists|buffer: Vec<u8>, reply: (u32, Vec<u8>)|
                {
                    &&& buffer@ == zeroed(size.1 as nat)
                    &&& #[trigger] fill.ensures((handle, artifact, buffer), reply)
                    &&& r == read_spec(size.0, reply.0, reply.1@, how)
                }
        }
}

/// Reads one variable-length output of the session `handle`.
///
/// `size_query` is the native call that reports the exact length of
/// `artifact`, `fill` the one that writes it into a buffer of that length. The
/// size is asked first, and on a failure `fill` is not called. The buffer
/// handed to `fill` is freshly allocated, zeroed and exactly as long as the
/// size reported; no buffer is kept or used again. The output is read from
/// the buffer that `fill` hands back.
pub fn read_sized<S, F>(
    handle: u64,
    artifact: Artifact,
    size_query: S,
    fill: F,
    how: Interpretation,
) -> (r: Result<Output, OutputError>) where
    S: FnOnce(u64, Artifact) -> (u32, usize),
    F: FnOnce(u64, Artifact, Vec<u8>) -> (u32, Vec<u8>),

    requires
        size_query.requires((handle, artifact)),
        forall|buffer: Vec<u8>|
            buffer@ == zeroed(buffer@.len()) ==> #[trigger] fill.requires(
                (handle, artifact, buffer),
            ),
    ensures
        read_sized_outcome(handle, artifact, size_query, fill, how, result_view(r)),
{
    let size = size_query(handle, artifact);
    match classify(size.0) {
        Err(e) => Err(OutputError::Native(e)),
        Ok(_) => {
            let buffer = vec![0u8; size.1];
            assert(buffer@ =~= zeroed(size.1 as nat));
            let reply = fill(handle, artifact, buffer);
            match classify(reply.0) {
                Err(e) => Err(OutputError::Native(e)),
                Ok(_) => interpret(reply.1, how),
            }
        },
    }
}

/// The encoding of a text that holds the character zero holds the byte zero.
proof fn lemma_zero_char_encodes_to_zero_byte(chars: Seq<char>, at: int)
    requires
        0 <= at < chars.len(),
        chars[at] == '\0',
    ensures
        encode_utf8(chars).contains(TERMINATOR),
    decreases chars.len(),
{
    let head = encode_scalar(chars[0] as u32);
    let tail = encode_utf8(chars.drop_first());
    if at == 0 {
        assert(leading_byte_width_1(0u32) == 0u8) by (bit_vector);
        assert(head[0] == TERMINATOR);
        assert((head + tail)[0] == TERMINATOR);
    } else {
        lemma_zero_char_encodes_to_zero_byte(chars.drop_first(), at - 1);
        let j = choose|j: int| 0 <= j < tail.len() && tail[j] == TERMINATOR;
        assert((head + tail)[head.len() + j] == TERMINATOR);
    }
}

/// A text that was read is exactly what the bytes before the last encode: the
/// position of the terminator is no part of it.
pub proof fn lemma_text_is_all_but_last_byte(filled: Seq<u8>)
    ensures
        interpret_spec(filled, Interpretation::Text) matches Ok(OutputView::Text(text))
            ==> encode_utf8(text) == text_bytes(filled) && (filled.len() > 0 ==> encode_utf8(
            text,
        ).len() == filled.len() - 1),
        interpret_spec(filled, Interpretation::Text) is Err <==> !valid_utf8(text_bytes(filled)),
{
    if valid_utf8(text_bytes(filled)) {
        decode_utf8_encode_utf8(text_bytes(filled));
    }
}

/// Where the native compiler kept its word, and no byte before the last is
/// the terminator, the text that was read holds no terminator character.
pub proof fn lemma_text_holds_no_terminator(filled: Seq<u8>)
    requires
        forall|i: int| 0 <= i < filled.len() - 1 ==> filled[i] != TERMINATOR,
    ensures
        interpret_spec(filled, Interpretation::Text) matches Ok(OutputView::Text(text))
            ==> !text.contains('\0'),
{
    let bytes = text_bytes(filled);
    if valid_utf8(bytes) {
        let text = decode_utf8(bytes);
        decode_utf8_encode_utf8(bytes);
        if text.contains('\0') {
            let at = choose|at: int| 0 <= at < text.len() && text[at] == '\0';
            lemma_zero_char_encodes_to_zero_byte(text, at);
            let j = choose|j: int| 0 <= j < bytes.len() && bytes[j] == TERMINATOR;
            assert(filled[j] == TERMINATOR);
        }
    }
}

/// An empty buffer, as for a log of size zero, is read as the empty text.
pub proof fn lemma_empty_buffer_is_empty_text()
    ensures
        interpret_spec(Seq::<u8>::empty(), Interpretation::Text) == Ok::<
            OutputView,
            OutputError,
        >(OutputView::Text(Seq::<char>::empty())),
        read_spec(
            NVRTC_SUCCESS,
            NVRTC_SUCCESS,
            Seq::<u8>::empty(),
            Interpretation::Text,
        ) == Ok::<OutputView, OutputError>(OutputView::Text(Seq::<char>::empty())),
{
    let none = Seq::<u8>::empty();
    assert(text_bytes(none) == none);
    assert(valid_utf8(none));
    assert(decode_utf8(none) =~= Seq::<char>::empty());
}

/// A binary output is the filled buffer, byte for byte: where `fill` handed
/// back a buffer as long as the size that was reported, the output has
/// exactly that size.
pub proof fn lemma_bytes_output_has_reported_size(size: usize, filled: Seq<u8>)
    requires
        filled.len() == size,
    ensures
        read_spec(NVRTC_SUCCESS, NVRTC_SUCCESS, filled, Interpretation::Bytes) == Ok::<
            OutputView,
            OutputError,
        >(OutputView::Bytes(filled)),
        interpret_spec(filled, Interpretation::Bytes) matches Ok(OutputView::Bytes(bytes))
            && bytes.len() == size,
{
}

} // verus!
