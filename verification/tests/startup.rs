use stdio_bus::signal::{ShutdownState, SignalHandler};
use stdio_bus::startup::{
    managed_config_path_from_debug_env, run_worker_mode, StartupErrorKind, StartupStep,
};

fn next(step: StartupStep) -> StartupStep {
    run_worker_mode(step, None).unwrap()
}

fn after_failure(step: StartupStep) -> StartupStep {
    run_worker_mode(step, Some("why".to_string())).unwrap()
}

#[test]
fn startup_goes_through_its_steps() {
    let mut step = StartupStep::ParseOverrides;
    let mut steps = vec![step];
    while step != StartupStep::Done {
        step = next(step);
        steps.push(step);
    }
    assert_eq!(
        steps,
        vec![
            StartupStep::ParseOverrides,
            StartupStep::Preload,
            StartupStep::Load {
                cloud_requirements: true
            },
            StartupStep::Serve,
            StartupStep::Done,
        ]
    );
}

#[test]
fn configuration_failures_have_a_way_out() {
    let step = after_failure(StartupStep::Preload);
    assert_eq!(
        step,
        StartupStep::Load {
            cloud_requirements: false
        }
    );
    let step = after_failure(step);
    assert_eq!(step, StartupStep::LoadDefault);
    assert_eq!(next(step), StartupStep::Serve);
}

#[test]
fn startup_errors_are_told() {
    for (step, kind, text) in [
        (
            StartupStep::ParseOverrides,
            StartupErrorKind::InvalidInput,
            "error parsing -c overrides: why",
        ),
        (
            StartupStep::LoadDefault,
            StartupErrorKind::InvalidData,
            "error loading default config: why",
        ),
        (
            StartupStep::Serve,
            StartupErrorKind::Other,
            "worker error: why",
        ),
    ] {
        let error = run_worker_mode(step, Some("why".to_string())).unwrap_err();
        assert_eq!(error.kind, kind);
        assert_eq!(error.message, text);
    }
}

#[test]
fn managed_configuration_is_for_debug_builds() {
    let path = Some("/tmp/managed.toml".to_string());
    assert_eq!(
        managed_config_path_from_debug_env(true, path.clone()),
        path
    );
    assert_eq!(managed_config_path_from_debug_env(false, path), None);
    assert_eq!(
        managed_config_path_from_debug_env(true, Some(String::new())),
        None
    );
    assert_eq!(managed_config_path_from_debug_env(true, None), None);
}

#[test]
fn shutdown_is_requested_and_completed() {
    let mut handler = SignalHandler::new();
    assert_eq!(handler.state(), ShutdownState::Running);
    assert!(!handler.is_shutdown_requested());
    handler.request_shutdown();
    assert_eq!(handler.state(), ShutdownState::Draining);
    assert!(handler.is_shutdown_requested());
    handler.complete_shutdown();
    assert_eq!(handler.state(), ShutdownState::Stopped);
    assert!(handler.is_shutdown_requested());
    assert!(!SignalHandler::default().is_shutdown_requested());
}
