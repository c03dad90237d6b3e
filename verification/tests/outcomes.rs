use mujs::{after_status, call_failure, panic_error_index, toboolean_result, tostring_result, truth, CallStep};

#[test]
fn truth_of_c_integers() {
    assert!(!truth(0));
    assert!(truth(1));
    assert!(truth(-7));
}

#[test]
fn toboolean_is_always_a_value() {
    assert_eq!(toboolean_result(0), Ok(false));
    assert_eq!(toboolean_result(1), Ok(true));
    assert_eq!(toboolean_result(42), Ok(true));
}

#[test]
fn tostring_of_null_is_an_error() {
    assert_eq!(tostring_result(None), Err("Null string".to_string()));
}

#[test]
fn tostring_of_bytes_is_their_text() {
    assert_eq!(tostring_result(Some(b"240.32")), Ok("240.32".to_string()));
    assert_eq!(tostring_result(Some(b"Hello B\xc3\xa5sse!")), Ok("Hello Båsse!".to_string()));
    assert_eq!(tostring_result(Some(b"\xff")), Ok("\u{fffd}".to_string()));
}

#[test]
fn protected_call_succeeds_on_status_zero() {
    assert_eq!(after_status(0), CallStep::Done(Ok(())));
}

#[test]
fn protected_call_reads_error_on_other_status() {
    assert_eq!(after_status(1), CallStep::ReadError(-1));
    assert_eq!(after_status(-1), CallStep::ReadError(-1));
}

#[test]
fn protected_call_failure_carries_message() {
    assert_eq!(
        call_failure(Ok("ReferenceError: 'mystic' is not defined".to_string())),
        Err("ReferenceError: 'mystic' is not defined".to_string())
    );
}

#[test]
fn panic_reads_top_value() {
    assert_eq!(panic_error_index(1), 0);
    assert_eq!(panic_error_index(5), 4);
    assert_eq!(panic_error_index(0), -1);
}

#[test]
fn boolean_round_trip() {
    for b in [true, false] {
        match mujs::command::pushboolean(b) {
            mujs::Command::PushBoolean { value } => assert_eq!(truth(value), b),
            other => panic!("unexpected command {:?}", other),
        }
    }
}
