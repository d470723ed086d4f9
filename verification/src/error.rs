//! The error taxonomy: what each native status code means.

use vstd::prelude::*;

verus! {

/// The status with which the native compiler reports success.
pub const NVRTC_SUCCESS: u32 = 0;

/// The largest status code that the native interface documents.
pub const NVRTC_LAST_DOCUMENTED: u32 = 11;

/// The code that stands for `UnknownError`; the native interface never returns it.
pub const NVRTC_UNKNOWN: u32 = 999;

/// What `UnknownError` is rendered as. No status code stands behind this
/// kind, so the native compiler has no wording for it.
pub const UNKNOWN_ERROR_MESSAGE: &'static str = "Unknown error";

/// A failure reported by the native compiler.
///
/// The first eleven kinds are the documented failure codes `1` to `11`, in
/// that order. `UnknownError` is the catch-all for every other code, so that a
/// newer native library cannot make the classification fail.
#[derive(Clone, Copy, Debug, PartialEq, Eq, Structural)]
pub enum NvrtcError {
    OutOfMemory,
    ProgramCreationFailure,
    InvalidInput,
    InvalidProgram,
    InvalidOption,
    Compilation,
    BuiltinOperationFailure,
    NoNameExpressionsAfterCompilation,
    NoLoweredNamesBeforeCompilation,
    NameExpressionNotValid,
    InternalError,
    UnknownError,
}

/// The result of an operation that fails only with a native error.
pub type NvrtcResult<T> = Result<T, NvrtcError>;

/// Whether `code` is a failure code that the native interface documents.
pub open spec fn is_documented_failure(code: u32) -> bool {
    NVRTC_SUCCESS < code <= NVRTC_LAST_DOCUMENTED
}

impl NvrtcError {
    /// The status code of this kind: the documented code, or `999` for
    /// `UnknownError`.
    pub open spec fn spec_code(self) -> u32 {
        match self {
            NvrtcError::OutOfMemory => 1,
            NvrtcError::ProgramCreationFailure => 2,
            NvrtcError::InvalidInput => 3,
            NvrtcError::InvalidProgram => 4,
            NvrtcError::InvalidOption => 5,
            NvrtcError::Compilation => 6,
            NvrtcError::BuiltinOperationFailure => 7,
            NvrtcError::NoNameExpressionsAfterCompilation => 8,
            NvrtcError::NoLoweredNamesBeforeCompilation => 9,
            NvrtcError::NameExpressionNotValid => 10,
            NvrtcError::InternalError => 11,
            NvrtcError::UnknownError => NVRTC_UNKNOWN,
        }
    }

    /// The status code of this kind.
    #[verifier::when_used_as_spec(spec_code)]
    pub fn code(self) -> (code: u32)
        ensures
            code == self.spec_code(),
    {
        match self {
            NvrtcError::OutOfMemory => 1,
            NvrtcError::ProgramCreationFailure => 2,
            NvrtcError::InvalidInput => 3,
            NvrtcError::InvalidProgram => 4,
            NvrtcError::InvalidOption => 5,
            NvrtcError::Compilation => 6,
            NvrtcError::BuiltinOperationFailure => 7,
            NvrtcError::NoNameExpressionsAfterCompilation => 8,
            NvrtcError::NoLoweredNamesBeforeCompilation => 9,
            NvrtcError::NameExpressionNotValid => 10,
            NvrtcError::InternalError => 11,
            NvrtcError::UnknownError => NVRTC_UNKNOWN,
        }
    }

    /// Renders this error as text.
    ///
    /// A documented kind is described by the native compiler itself:
    /// `describe` is the native call that words a status code, and it is asked
    /// for the code of this kind, so that the text is that of the library in
    /// use. `UnknownError` is `UNKNOWN_ERROR_MESSAGE`, and `describe` is not
    /// called.
    pub fn message<F>(self, describe: F) -> (text: String) where F: FnOnce(u32) -> String
        requires
            self != NvrtcError::UnknownError ==> describe.requires((self.spec_code(),)),
        ensures
            self == NvrtcError::UnknownError ==> text@ == UNKNOWN_ERROR_MESSAGE@,
            self != NvrtcError::UnknownError ==> describe.ensures((self.spec_code(),), text),
    {
        match self {
            NvrtcError::UnknownError => UNKNOWN_ERROR_MESSAGE.to_owned(),
            documented => describe(documented.code()),
        }
    }
}

/// The meaning of a raw status code: success is `Ok`, the codes `1` to `11`
/// are the documented kinds in their order, and every other code is
/// `UnknownError`.
pub open spec fn classify_spec(code: u32) -> NvrtcResult<()> {
    if code == NVRTC_SUCCESS {
        Ok(())
    } else if code == 1 {
        Err(NvrtcError::OutOfMemory)
    } else if code == 2 {
        Err(NvrtcError::ProgramCreationFailure)
    } else if code == 3 {
        Err(NvrtcError::InvalidInput)
    } else if code == 4 {
        Err(NvrtcError::InvalidProgram)
    } else if code == 5 {
        Err(NvrtcError::InvalidOption)
    } else if code == 6 {
        Err(NvrtcError::Compilation)
    } else if code == 7 {
        Err(NvrtcError::BuiltinOperationFailure)
    } else if code == 8 {
        Err(NvrtcError::NoNameExpressionsAfterCompilation)
    } else if code == 9 {
        Err(NvrtcError::NoLoweredNamesBeforeCompilation)
    } else if code == 10 {
        Err(NvrtcError::NameExpressionNotValid)
    } else if code == 11 {
        Err(NvrtcError::InternalError)
    } else {
        Err(NvrtcError::UnknownError)
    }
}

/// Classification and `code` agree: a documented kind is what its own code is
/// classified as, a documented failure code is classified as a kind that has
/// this code, and an undocumented code is `UnknownError`.
pub proof fn lemma_classify_matches_code(code: u32, kind: NvrtcError)
    ensures
        kind != NvrtcError::UnknownError ==> is_documented_failure(kind.spec_code())
            && classify_spec(kind.spec_code()) == Err::<(), NvrtcError>(kind),
        is_documented_failure(code) ==> (classify_spec(code) matches Err(k) && k
            != NvrtcError::UnknownError && k.spec_code() == code),
        code > NVRTC_LAST_DOCUMENTED ==> classify_spec(code) == Err::<(), NvrtcError>(
            NvrtcError::UnknownError,
        ),
        classify_spec(code) is Ok <==> code == NVRTC_SUCCESS,
{
}

/// Classifies the status that a native call returned.
///
/// Every native call site routes its status through this function and stops
/// at the first failure. No code makes it panic.
pub fn classify(code: u32) -> (r: NvrtcResult<()>)
    ensures
        r == classify_spec(code),
        r is Ok <==> code == NVRTC_SUCCESS,
        forall|kind: NvrtcError|
            kind != NvrtcError::UnknownError ==> (r == Err::<(), NvrtcError>(kind)
                <==> code == #[trigger] kind.spec_code()),
        r == Err::<(), NvrtcError>(NvrtcError::UnknownError) <==> code > NVRTC_LAST_DOCUMENTED,
{
    let kind = match code {
        0 => {
            return Ok(());
        },
        1 => NvrtcError::OutOfMemory,
        2 => NvrtcError::ProgramCreationFailure,
        3 => NvrtcError::InvalidInput,
        4 => NvrtcError::InvalidProgram,
        5 => NvrtcError::InvalidOption,
        6 => NvrtcError::Compilation,
        7 => NvrtcError::BuiltinOperationFailure,
        8 => NvrtcError::NoNameExpressionsAfterCompilation,
        9 => NvrtcError::NoLoweredNamesBeforeCompilation,
        10 => NvrtcError::NameExpressionNotValid,
        11 => NvrtcError::InternalError,
        _ => NvrtcError::UnknownError,
    };
    Err(kind)
}

} // verus!
