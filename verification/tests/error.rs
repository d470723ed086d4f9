use nvrtc::error::{classify, NvrtcError, UNKNOWN_ERROR_MESSAGE};
use std::cell::Cell;

const DOCUMENTED: [(u32, NvrtcError); 11] = [
    (1, NvrtcError::OutOfMemory),
    (2, NvrtcError::ProgramCreationFailure),
    (3, NvrtcError::InvalidInput),
    (4, NvrtcError::InvalidProgram),
    (5, NvrtcError::InvalidOption),
    (6, NvrtcError::Compilation),
    (7, NvrtcError::BuiltinOperationFailure),
    (8, NvrtcError::NoNameExpressionsAfterCompilation),
    (9, NvrtcError::NoLoweredNamesBeforeCompilation),
    (10, NvrtcError::NameExpressionNotValid),
    (11, NvrtcError::InternalError),
];

#[test]
fn classify_success_is_ok() {
    assert_eq!(classify(0), Ok(()));
}

#[test]
fn classify_documented_codes() {
    for (code, kind) in DOCUMENTED {
        assert_eq!(classify(code), Err(kind));
    }
}

#[test]
fn classify_undocumented_codes_are_unknown() {
    for code in [12u32, 13, 100, 998, 999, 1000, 0x8000_0000, u32::MAX] {
        assert_eq!(classify(code), Err(NvrtcError::UnknownError));
    }
}

#[test]
fn classify_is_total_near_the_documented_range() {
    for code in 0u32..4096 {
        let expected = match code {
            0 => Ok(()),
            1..=11 => Err(DOCUMENTED[(code - 1) as usize].1),
            _ => Err(NvrtcError::UnknownError),
        };
        assert_eq!(classify(code), expected);
    }
}

#[test]
fn code_of_each_kind() {
    for (code, kind) in DOCUMENTED {
        assert_eq!(kind.code(), code);
    }
    assert_eq!(NvrtcError::UnknownError.code(), 999);
}

#[test]
fn classify_undoes_code_for_documented_kinds() {
    for (_, kind) in DOCUMENTED {
        assert_eq!(classify(kind.code()), Err(kind));
    }
}

#[test]
fn message_of_documented_kind_is_the_native_wording() {
    let asked = Cell::new(None);
    let text = NvrtcError::Compilation.message(|code| {
        asked.set(Some(code));
        String::from("NVRTC_ERROR_COMPILATION")
    });
    assert_eq!(asked.get(), Some(6));
    assert_eq!(text, "NVRTC_ERROR_COMPILATION");
}

#[test]
fn message_asks_for_the_code_of_each_kind() {
    for (code, kind) in DOCUMENTED {
        let text = kind.message(|asked| format!("native text for {}", asked));
        assert_eq!(text, format!("native text for {}", code));
    }
}

#[test]
fn message_of_unknown_error_is_fixed_and_asks_nothing() {
    let calls = Cell::new(0u32);
    let text = NvrtcError::UnknownError.message(|_| {
        calls.set(calls.get() + 1);
        String::from("never used")
    });
    assert_eq!(calls.get(), 0);
    assert_eq!(text, "Unknown error");
    assert_eq!(text, UNKNOWN_ERROR_MESSAGE);
}
