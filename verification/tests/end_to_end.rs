use dlt_log::errors::{DltReturnValue, InitializeError};
use dlt_log::logger::DltLogger;
use dlt_log::registration::{InitAction, InitEvent, InitStatus, Registrar};
use dlt_log::severity::{BackendLevel, Severity};

#[test]
fn end_to_end_five_severities() {
    // registration: the backend accepts both steps, the sink is free
    let mut requested: Vec<String> = Vec::new();
    let (mut registrar, mut status) =
        Registrar::start("TEST", "Rust tests", "EXPL", "Smoke test example");
    let outcome: Result<(), InitializeError> = loop {
        match status {
            InitStatus::Request(action) => {
                let event = match &action {
                    InitAction::RegisterApp { id, description } => {
                        requested.push(format!("app:{}:{}", id.as_str(), description.as_str()));
                        InitEvent::BackendReturned(DltReturnValue::DLT_RETURN_OK)
                    }
                    InitAction::RegisterContext { id, description } => {
                        requested
                            .push(format!("context:{}:{}", id.as_str(), description.as_str()));
                        InitEvent::BackendReturned(DltReturnValue::DLT_RETURN_OK)
                    }
                    InitAction::InstallSink => {
                        requested.push("sink".to_string());
                        InitEvent::SinkInstalled
                    }
                };
                status = registrar.advance(event);
            }
            InitStatus::Done => break Ok(()),
            InitStatus::Failed(e) => break Err(e),
        }
    };
    assert_eq!(outcome, Ok(()));
    assert_eq!(
        requested,
        vec![
            "app:TEST:Rust tests".to_string(),
            "context:EXPL:Smoke test example".to_string(),
            "sink".to_string(),
        ]
    );

    // one message at each of the five severities: five emissions, each
    // with the mapped level and the literal rendered text
    let logger = DltLogger {};
    let cases = [
        (Severity::Error, BackendLevel::Error, "Test error"),
        (Severity::Warn, BackendLevel::Warn, "Test warn"),
        (Severity::Info, BackendLevel::Info, "Test info"),
        (Severity::Debug, BackendLevel::Debug, "Test debug"),
        (Severity::Trace, BackendLevel::Verbose, "Test trace"),
    ];
    let mut emissions: Vec<(BackendLevel, String)> = Vec::new();
    for (severity, expected_level, message) in cases {
        let e = logger.prepare(severity, Some("tests/log.rs"), Some(13), message);
        emissions.push((e.level, e.text.as_str().to_string()));
        assert_eq!(e.level, expected_level);
    }
    assert_eq!(emissions.len(), 5);
    assert_eq!(emissions[0].1, "[log.rs:13] Test error");
    assert_eq!(emissions[1].1, "[log.rs:13] Test warn");
    assert_eq!(emissions[2].1, "[log.rs:13] Test info");
    assert_eq!(emissions[3].1, "[log.rs:13] Test debug");
    assert_eq!(emissions[4].1, "[log.rs:13] Test trace");
}
