use wasmedge_plugin_sdk::error::{
    check, gen_runtime_error, CoreCommonError, CoreError, CoreExecutionError,
    CoreInstantiationError, CoreLoadError, CoreValidationError, RawResult, ERR_CATEGORY_USER,
    ERR_CATEGORY_WASM,
};

fn assigned(code: u32) -> bool {
    (0x01..=0x0B).contains(&code)
        || (0x20..=0x38).contains(&code)
        || (0x40..=0x55).contains(&code)
        || (0x60..=0x64).contains(&code)
        || (0x80..=0x90).contains(&code)
}

#[test]
fn zero_is_success() {
    assert_eq!(gen_runtime_error(0), Ok(()));
}

#[test]
fn common_codes() {
    assert_eq!(gen_runtime_error(0x01), Err(CoreError::Common(CoreCommonError::Terminated)));
    assert_eq!(gen_runtime_error(0x02), Err(CoreError::Common(CoreCommonError::RuntimeError)));
    assert_eq!(gen_runtime_error(0x03), Err(CoreError::Common(CoreCommonError::CostLimitExceeded)));
    assert_eq!(gen_runtime_error(0x04), Err(CoreError::Common(CoreCommonError::WrongVMWorkflow)));
    assert_eq!(gen_runtime_error(0x05), Err(CoreError::Common(CoreCommonError::FuncNotFound)));
    assert_eq!(gen_runtime_error(0x06), Err(CoreError::Common(CoreCommonError::AOTDisabled)));
    assert_eq!(gen_runtime_error(0x07), Err(CoreError::Common(CoreCommonError::Interrupted)));
    assert_eq!(gen_runtime_error(0x08), Err(CoreError::Common(CoreCommonError::NotValidated)));
    assert_eq!(gen_runtime_error(0x09), Err(CoreError::Common(CoreCommonError::UserDefError)));
}

#[test]
fn control_flow_sentinels() {
    assert_eq!(gen_runtime_error(0x0A), Err(CoreError::Asyncify));
    assert_eq!(gen_runtime_error(0x0B), Err(CoreError::Yield));
    assert!(CoreError::Yield.is_yield());
    assert!(!CoreError::Asyncify.is_yield());
    assert!(!CoreError::terminated().is_yield());
    assert!(!CoreError::User(0x0B).is_yield());
}

#[test]
fn phase_boundaries() {
    assert_eq!(gen_runtime_error(0x20), Err(CoreError::Load(CoreLoadError::IllegalPath)));
    assert_eq!(gen_runtime_error(0x23), Err(CoreError::Load(CoreLoadError::MalformedMagic)));
    assert_eq!(gen_runtime_error(0x38), Err(CoreError::Load(CoreLoadError::IllegalGrammar)));
    assert_eq!(
        gen_runtime_error(0x40),
        Err(CoreError::Validation(CoreValidationError::InvalidAlignment))
    );
    assert_eq!(
        gen_runtime_error(0x4D),
        Err(CoreError::Validation(CoreValidationError::DupExportName))
    );
    assert_eq!(
        gen_runtime_error(0x55),
        Err(CoreError::Validation(CoreValidationError::InvalidLaneIdx))
    );
    assert_eq!(
        gen_runtime_error(0x60),
        Err(CoreError::Instantiation(CoreInstantiationError::ModuleNameConflict))
    );
    assert_eq!(
        gen_runtime_error(0x64),
        Err(CoreError::Instantiation(CoreInstantiationError::ElemSegDoesNotFit))
    );
    assert_eq!(
        gen_runtime_error(0x80),
        Err(CoreError::Execution(CoreExecutionError::WrongInstanceAddress))
    );
    assert_eq!(
        gen_runtime_error(0x83),
        Err(CoreError::Execution(CoreExecutionError::FuncTypeMismatch))
    );
    assert_eq!(
        gen_runtime_error(0x84),
        Err(CoreError::Execution(CoreExecutionError::DivideByZero))
    );
    assert_eq!(
        gen_runtime_error(0x88),
        Err(CoreError::Execution(CoreExecutionError::MemoryOutOfBounds))
    );
    assert_eq!(
        gen_runtime_error(0x8D),
        Err(CoreError::Execution(CoreExecutionError::HostFuncFailed))
    );
    assert_eq!(
        gen_runtime_error(0x90),
        Err(CoreError::Execution(CoreExecutionError::WaitOnUnsharedMemory))
    );
}

#[test]
fn unassigned_codes_are_the_generic_failure() {
    for code in [0x0C, 0x1F, 0x39, 0x3F, 0x56, 0x5F, 0x65, 0x7F, 0x91, 0x100, 0xFFFF, u32::MAX] {
        assert_eq!(gen_runtime_error(code), Err(CoreError::runtime()));
    }
    assert_eq!(CoreError::runtime(), CoreError::Common(CoreCommonError::RuntimeError));
    assert_eq!(CoreError::terminated(), CoreError::Common(CoreCommonError::Terminated));
}

#[test]
fn every_assigned_code_reads_back_as_itself() {
    for code in 0u32..=0x120 {
        match gen_runtime_error(code) {
            Ok(()) => assert_eq!(code, 0),
            Err(e) => {
                let raw = e.to_raw();
                assert_eq!(raw.category, ERR_CATEGORY_WASM);
                if assigned(code) {
                    assert_eq!(raw.code, code);
                } else {
                    assert_eq!(raw.code, 0x02);
                }
            }
        }
    }
}

#[test]
fn wire_form_of_failures() {
    assert_eq!(
        CoreError::Execution(CoreExecutionError::MemoryOutOfBounds).to_raw(),
        RawResult { category: 0, code: 0x88 }
    );
    assert_eq!(CoreError::Asyncify.to_raw(), RawResult { category: 0, code: 0x0A });
    assert_eq!(CoreError::Yield.to_raw(), RawResult { category: 0, code: 0x0B });
    assert_eq!(CoreError::User(42).to_raw(), RawResult { category: 1, code: 42 });
    assert_eq!(
        CoreError::User(u32::MAX).to_raw(),
        RawResult { category: ERR_CATEGORY_USER, code: u32::MAX }
    );
    assert_eq!(
        RawResult::from(CoreError::Load(CoreLoadError::MalformedUTF8)),
        RawResult { category: 0, code: 0x34 }
    );
    let into: RawResult = CoreError::Validation(CoreValidationError::TypeCheckFailed).into();
    assert_eq!(into, RawResult { category: 0, code: 0x41 });
    assert_eq!(CoreCommonError::NotValidated.code(), 0x08);
    assert_eq!(CoreCommonError::UserDefError.code(), 0x09);
    assert_eq!(CoreLoadError::from_code(0x1F), None);
    assert_eq!(CoreLoadError::from_code(0x39), None);
    assert_eq!(CoreInstantiationError::from_code(0x62), Some(CoreInstantiationError::UnknownImport));
}

#[test]
fn check_reads_results() {
    assert_eq!(check(RawResult::success()), Ok(()));
    assert!(RawResult::success().is_ok());
    // a regular termination counts as success
    assert_eq!(check(RawResult { category: 0, code: 1 }), Ok(()));
    assert!(RawResult { category: 0, code: 1 }.is_ok());
    assert!(!RawResult { category: 0, code: 2 }.is_ok());
    assert!(!RawResult { category: 1, code: 0 }.is_ok());
    assert_eq!(
        check(RawResult { category: 0, code: 0x89 }),
        Err(CoreError::Execution(CoreExecutionError::Unreachable))
    );
    assert_eq!(check(RawResult { category: 0, code: 0x0B }), Err(CoreError::Yield));
    assert_eq!(check(RawResult { category: 0, code: 0x77 }), Err(CoreError::runtime()));
    assert_eq!(check(RawResult { category: 1, code: 0 }), Err(CoreError::User(0)));
    assert_eq!(check(RawResult { category: 1, code: 1 }), Err(CoreError::User(1)));
    assert_eq!(check(RawResult { category: 1, code: 0xDEAD }), Err(CoreError::User(0xDEAD)));
    assert_eq!(check(RawResult { category: 2, code: 0 }), Err(CoreError::runtime()));
    assert_eq!(check(RawResult { category: 9, code: 0x83 }), Err(CoreError::runtime()));
}

#[test]
fn failures_survive_the_wire() {
    let mut all: Vec<CoreError> = vec![CoreError::Asyncify, CoreError::Yield];
    for code in 0u32..=0x120 {
        if let Err(e) = gen_runtime_error(code) {
            all.push(e);
        }
    }
    for user in [0u32, 1, 2, 0x83, 0xFFFF_FFFF] {
        all.push(CoreError::User(user));
    }
    for e in all {
        let back = check(e.to_raw());
        if e == CoreError::terminated() {
            assert_eq!(back, Ok(()));
        } else {
            assert_eq!(back, Err(e));
        }
    }
}
