use actor_telemetry::export::{
    export_is_configured, flush_best_effort, initialize_if_configured, ExportEnvironment,
    FlushOutcome, InitStep,
};

fn environment(
    disabled: Option<&str>,
    exporter: Option<&str>,
    traces_endpoint: Option<&str>,
    endpoint: Option<&str>,
) -> ExportEnvironment {
    ExportEnvironment {
        sdk_disabled: disabled.map(str::to_owned),
        traces_exporter: exporter.map(str::to_owned),
        traces_endpoint: traces_endpoint.map(|value| value.as_bytes().to_vec()),
        endpoint: endpoint.map(|value| value.as_bytes().to_vec()),
    }
}

#[test]
fn an_endpoint_configures_export() {
    assert!(!export_is_configured(&environment(None, None, None, None)));
    assert!(export_is_configured(&environment(None, None, Some("http://a"), None)));
    assert!(export_is_configured(&environment(None, None, None, Some("http://a"))));
    assert!(!export_is_configured(&environment(None, None, Some(""), Some(""))));
    assert!(export_is_configured(&environment(None, None, Some(""), Some("x"))));
}

#[test]
fn switching_export_off_wins() {
    for word in ["true", "TRUE", "True"] {
        assert!(!export_is_configured(&environment(Some(word), None, Some("x"), None)));
    }
    for word in ["none", "NONE", "nOnE"] {
        assert!(!export_is_configured(&environment(None, Some(word), Some("x"), None)));
    }
    for word in ["", "false", "1", "true ", "tru", "truE\u{130}"] {
        assert!(export_is_configured(&environment(Some(word), None, Some("x"), None)));
    }
    assert!(export_is_configured(&environment(None, Some("otlp"), Some("x"), None)));
}

#[test]
fn one_provider_is_built_and_shared() {
    let on = environment(None, None, Some("x"), None);
    let off = environment(None, None, None, None);
    assert_eq!(initialize_if_configured(&on, false), InitStep::Build);
    assert_eq!(initialize_if_configured(&on, true), InitStep::Reuse);
    assert_eq!(initialize_if_configured(&off, false), InitStep::Skip);
    assert_eq!(initialize_if_configured(&off, true), InitStep::Skip);
}

#[test]
fn failed_flushes_only_warn() {
    assert_eq!(flush_best_effort(FlushOutcome::Flushed), None);
    assert_eq!(
        flush_best_effort(FlushOutcome::ExportFailed),
        Some("failed to flush OpenTelemetry traces")
    );
    assert_eq!(
        flush_best_effort(FlushOutcome::TaskFailed),
        Some("OpenTelemetry flush task failed")
    );
    assert_eq!(
        flush_best_effort(FlushOutcome::TimedOut),
        Some("OpenTelemetry trace flush timed out")
    );
}
