use dlt_log::errors::{DltReturnValue, InitializeError};
use dlt_log::logger::DltLogger;
use dlt_log::registration::{InitAction, InitEvent, InitStatus, Registrar};
use dlt_log::severity::Severity;

/// Drives a registration run the way the native driver would, against a
/// simulated backend that answers the application registration with
/// `app_code`, the context registration with `context_code`, and whose
/// sink slot is free when `sink_free` holds. Each performed request is
/// recorded in `requested`.
fn drive(
    app_id: &str,
    app_description: &str,
    context_id: &str,
    context_description: &str,
    app_code: DltReturnValue,
    context_code: DltReturnValue,
    sink_free: bool,
    requested: &mut Vec<String>,
) -> Result<(), InitializeError> {
    let (mut registrar, mut status) =
        Registrar::start(app_id, app_description, context_id, context_description);
    loop {
        match status {
            InitStatus::Request(action) => {
                let event = match &action {
                    InitAction::RegisterApp { id, description } => {
                        requested.push(format!("app:{}:{}", id.as_str(), description.as_str()));
                        InitEvent::BackendReturned(app_code)
                    }
                    InitAction::RegisterContext { id, description } => {
                        requested
                            .push(format!("context:{}:{}", id.as_str(), description.as_str()));
                        InitEvent::BackendReturned(context_code)
                    }
                    InitAction::InstallSink => {
                        requested.push("sink".to_string());
                        if sink_free {
                            InitEvent::SinkInstalled
                        } else {
                            InitEvent::SinkAlreadySet
                        }
                    }
                };
                status = registrar.advance(event);
            }
            InitStatus::Done => return Ok(()),
            InitStatus::Failed(e) => return Err(e),
        }
    }
}

#[test]
fn init_empty_parameters() {
    // the backend rejects an empty application id
    let mut a = Vec::new();
    assert!(drive(
        "",
        "Rust tests",
        "INT",
        "Integration tests",
        DltReturnValue::DLT_RETURN_WRONG_PARAMETER,
        DltReturnValue::DLT_RETURN_OK,
        true,
        &mut a,
    )
    .is_err());
    // the backend rejects an empty context id
    let mut b = Vec::new();
    assert!(drive(
        "TEST",
        "Rust tests",
        "",
        "Integration tests",
        DltReturnValue::DLT_RETURN_OK,
        DltReturnValue::DLT_RETURN_WRONG_PARAMETER,
        true,
        &mut b,
    )
    .is_err());
    // empty description is ok
    let mut c = Vec::new();
    assert!(drive(
        "TEST",
        "",
        "INT",
        "Integration tests",
        DltReturnValue::DLT_RETURN_OK,
        DltReturnValue::DLT_RETURN_OK,
        true,
        &mut c,
    )
    .is_ok());
}

#[test]
fn empty_context_description_accepted() {
    let ok = DltReturnValue::DLT_RETURN_OK;
    let mut a = Vec::new();
    assert!(drive("APP", "desc", "CTX", "", ok, ok, true, &mut a).is_ok());
    assert_eq!(
        a,
        vec![
            "app:APP:desc".to_string(),
            "context:CTX:".to_string(),
            "sink".to_string(),
        ]
    );
}

#[test]
fn init_nulerror() {
    let x: [u8; 4] = [0, b'A', b'P', b'P'];
    let str_with_null: &str = std::str::from_utf8(&x).unwrap();
    let ok = DltReturnValue::DLT_RETURN_OK;
    let mut a = Vec::new();
    assert!(
        drive(str_with_null, "Rust tests", "INT", "Integration tests", ok, ok, true, &mut a)
            .is_err()
    );
    let mut b = Vec::new();
    assert!(
        drive("TEST", str_with_null, "INT", "Integration tests", ok, ok, true, &mut b).is_err()
    );
    let mut c = Vec::new();
    assert!(
        drive("TEST", "Rust tests", str_with_null, "Integration tests", ok, ok, true, &mut c)
            .is_err()
    );
    let mut d = Vec::new();
    assert!(drive("TEST", "Rust tests", "INT", str_with_null, ok, ok, true, &mut d).is_err());
}

#[test]
fn log_test_nulerror() {
    let ok = DltReturnValue::DLT_RETURN_OK;
    let mut actions = Vec::new();
    assert!(
        drive("TEST", "Rust tests", "INT", "Integration tests", ok, ok, true, &mut actions)
            .is_ok()
    );

    // no panic when providing an invalid native string
    let x: [u8; 5] = [0, b'T', b'E', b'S', b'T'];
    let str_with_null: &str = std::str::from_utf8(&x).unwrap();
    let logger = DltLogger {};
    let e = logger.prepare(Severity::Info, Some("tests/log_nulerror.rs"), Some(9), str_with_null);
    assert_eq!(
        e.text.as_str(),
        "ERROR: NulError when converting log message from Rust to C."
    );
}

#[test]
fn nul_input_fails_before_further_requests() {
    let x: [u8; 4] = [0, b'A', b'P', b'P'];
    let str_with_null: &str = std::str::from_utf8(&x).unwrap();
    let ok = DltReturnValue::DLT_RETURN_OK;

    // a NUL in the application id: nothing was requested of the backend
    let mut a = Vec::new();
    let r = drive(str_with_null, "desc", "CTX", "desc", ok, ok, true, &mut a);
    assert!(matches!(r, Err(InitializeError::ConversionError { nul_position: 0 })));
    assert!(a.is_empty());

    // a NUL in the context id: only the application registration
    // precedes the point of failure
    let mut b = Vec::new();
    let r = drive("APP", "desc", str_with_null, "desc", ok, ok, true, &mut b);
    assert!(matches!(r, Err(InitializeError::ConversionError { nul_position: 0 })));
    assert_eq!(b, vec!["app:APP:desc".to_string()]);
}

#[test]
fn conversion_error_reports_nul_position() {
    let x: [u8; 4] = [b'A', b'P', 0, b'P'];
    let s: &str = std::str::from_utf8(&x).unwrap();
    let ok = DltReturnValue::DLT_RETURN_OK;
    let mut a = Vec::new();
    let r = drive(s, "desc", "CTX", "desc", ok, ok, true, &mut a);
    assert_eq!(r, Err(InitializeError::ConversionError { nul_position: 2 }));
}

#[test]
fn backend_error_code_preserved() {
    let ok = DltReturnValue::DLT_RETURN_OK;
    let mut a = Vec::new();
    let r = drive(
        "TEST",
        "desc",
        "CTX",
        "desc",
        DltReturnValue::DLT_RETURN_ERROR,
        ok,
        true,
        &mut a,
    );
    assert_eq!(
        r,
        Err(InitializeError::DltLibraryError(DltReturnValue::DLT_RETURN_ERROR))
    );
    // the run stopped at the application registration
    assert_eq!(a.len(), 1);

    let mut b = Vec::new();
    let r = drive(
        "TEST",
        "desc",
        "CTX",
        "desc",
        ok,
        DltReturnValue::DLT_RETURN_PIPE_ERROR,
        true,
        &mut b,
    );
    assert_eq!(
        r,
        Err(InitializeError::DltLibraryError(DltReturnValue::DLT_RETURN_PIPE_ERROR))
    );
    assert_eq!(b.len(), 2);
}

#[test]
fn second_init_rejected_and_logger_unchanged() {
    let ok = DltReturnValue::DLT_RETURN_OK;
    let mut first = Vec::new();
    assert!(drive("TEST", "Rust tests", "EXPL", "desc", ok, ok, true, &mut first).is_ok());

    // a second attempt finds the sink occupied
    let mut second = Vec::new();
    let r = drive("TEST", "Rust tests", "EXPL", "desc", ok, ok, false, &mut second);
    assert_eq!(r, Err(InitializeError::LoggerError));

    // the installed logger answers as before
    let logger = DltLogger {};
    assert!(logger.enabled(Severity::Trace));
    let e = logger.prepare(Severity::Info, Some("a.rs"), Some(1), "still here");
    assert_eq!(e.text.as_str(), "[a.rs:1] still here");
}
