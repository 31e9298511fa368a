use tinycoro::{CoroutineError, CoroutineState};

#[test]
fn state_codes_decode_in_order() {
    assert_eq!(CoroutineState::from_raw(0), CoroutineState::Dead);
    assert_eq!(CoroutineState::from_raw(1), CoroutineState::Normal);
    assert_eq!(CoroutineState::from_raw(2), CoroutineState::Running);
    assert_eq!(CoroutineState::from_raw(3), CoroutineState::Suspended);
}

#[test]
fn unknown_state_code_reads_as_dead() {
    assert_eq!(CoroutineState::from_raw(4), CoroutineState::Dead);
    assert_eq!(CoroutineState::from_raw(255), CoroutineState::Dead);
    assert_eq!(CoroutineState::from_raw(u32::MAX), CoroutineState::Dead);
}

#[test]
fn result_codes_decode_in_order() {
    let expected: [CoroutineError; 13] = [
        CoroutineError::Success,
        CoroutineError::GenericError,
        CoroutineError::InvalidPointer,
        CoroutineError::InvalidCoroutine,
        CoroutineError::NotSuspended,
        CoroutineError::NotRunning,
        CoroutineError::MakeContextError,
        CoroutineError::SwitchContextError,
        CoroutineError::NotEnoughSpace,
        CoroutineError::OutOfMemory,
        CoroutineError::InvalidArguments,
        CoroutineError::InvalidOperation,
        CoroutineError::StackOverflow,
    ];
    let mut code: u32 = 0;
    for e in expected.iter() {
        assert_eq!(CoroutineError::from_raw(code), *e);
        code += 1;
    }
    assert_eq!(code, 13);
}

#[test]
fn result_code_past_the_last_is_unknown() {
    assert_eq!(CoroutineError::from_raw(13), CoroutineError::Unknown);
    assert_eq!(CoroutineError::from_raw(1000), CoroutineError::Unknown);
    assert_eq!(CoroutineError::from_raw(u32::MAX), CoroutineError::Unknown);
}

#[test]
fn decoded_results_are_pairwise_distinct() {
    let mut a: u32 = 0;
    while a <= 13 {
        let mut b: u32 = a + 1;
        while b <= 13 {
            assert_ne!(CoroutineError::from_raw(a), CoroutineError::from_raw(b));
            b += 1;
        }
        a += 1;
    }
}

#[test]
fn check_maps_zero_to_ok() {
    assert_eq!(CoroutineError::check(0), Ok(()));
}

#[test]
fn check_maps_other_codes_to_their_error() {
    assert_eq!(CoroutineError::check(4), Err(CoroutineError::NotSuspended));
    assert_eq!(CoroutineError::check(5), Err(CoroutineError::NotRunning));
    assert_eq!(CoroutineError::check(8), Err(CoroutineError::NotEnoughSpace));
    assert_eq!(CoroutineError::check(12), Err(CoroutineError::StackOverflow));
    assert_eq!(CoroutineError::check(77), Err(CoroutineError::Unknown));
}

#[test]
fn every_outcome_has_its_message() {
    assert_eq!(CoroutineError::Success.message(), "No error");
    assert_eq!(CoroutineError::GenericError.message(), "Generic error");
    assert_eq!(CoroutineError::InvalidPointer.message(), "Invalid pointer");
    assert_eq!(CoroutineError::InvalidCoroutine.message(), "Invalid coroutine");
    assert_eq!(CoroutineError::NotSuspended.message(), "Coroutine not suspended");
    assert_eq!(CoroutineError::NotRunning.message(), "Coroutine not running");
    assert_eq!(CoroutineError::MakeContextError.message(), "Make context error");
    assert_eq!(CoroutineError::SwitchContextError.message(), "Switch context error");
    assert_eq!(CoroutineError::NotEnoughSpace.message(), "Not enough space");
    assert_eq!(CoroutineError::OutOfMemory.message(), "Out of memory");
    assert_eq!(CoroutineError::InvalidArguments.message(), "Invalid arguments");
    assert_eq!(CoroutineError::InvalidOperation.message(), "Invalid operation");
    assert_eq!(CoroutineError::StackOverflow.message(), "Stack overflow");
    assert_eq!(CoroutineError::Unknown.message(), "Unknown error");
}

#[test]
fn outcomes_and_states_are_plain_values() {
    let e: CoroutineError = CoroutineError::NotRunning;
    let copy: CoroutineError = e;
    assert_eq!(e, copy);
    assert_eq!(format!("{:?}", e), "NotRunning");
    let s: CoroutineState = CoroutineState::Suspended;
    let copy: CoroutineState = s;
    assert_eq!(s, copy);
    assert_eq!(format!("{:?}", s), "Suspended");
}
