use skyrogue::config::Config;
use skyrogue::errors::{StartupError, WindowStage};
use skyrogue::events::{is_exit_request, AppEvent, Key};
use skyrogue::numfmt::u32_to_string;
use skyrogue::paths::DirPath;
use skyrogue::shell::{Shell, ShellStage};
use skyrogue::verbosity::{parse_verbosity, Verbosity};

fn dir(components: &[&str]) -> DirPath {
    DirPath::from_components(components.iter().map(|c| c.to_string()).collect())
}

#[test]
fn verbosity_recognizes_four_names_in_any_casing() {
    assert_eq!(parse_verbosity("DEBUG"), Verbosity::Debug);
    assert_eq!(parse_verbosity("debug"), Verbosity::Debug);
    assert_eq!(parse_verbosity("DeBuG"), Verbosity::Debug);
    assert_eq!(parse_verbosity("INFO"), Verbosity::Info);
    assert_eq!(parse_verbosity("info"), Verbosity::Info);
    assert_eq!(parse_verbosity("WARNING"), Verbosity::Warn);
    assert_eq!(parse_verbosity("Warning"), Verbosity::Warn);
    assert_eq!(parse_verbosity("ERROR"), Verbosity::Error);
    assert_eq!(parse_verbosity("error"), Verbosity::Error);
}

#[test]
fn verbosity_alias_warning_maps_to_warn() {
    assert_eq!(parse_verbosity("warning"), Verbosity::Warn);
}

#[test]
fn unknown_verbosity_maps_to_info() {
    assert_eq!(parse_verbosity("loud"), Verbosity::Info);
    assert_eq!(parse_verbosity(""), Verbosity::Info);
    assert_eq!(parse_verbosity("warn"), Verbosity::Info);
    assert_eq!(parse_verbosity("debugg"), Verbosity::Info);
}

#[test]
fn verbosity_labels() {
    assert_eq!(Verbosity::Debug.label(), "DEBUG");
    assert_eq!(Verbosity::Info.label(), "INFO");
    assert_eq!(Verbosity::Warn.label(), "WARN");
    assert_eq!(Verbosity::Error.label(), "ERROR");
}

#[test]
fn config_defaults() {
    let c = Config::new("INFO", dir(&["top", "data"]));
    assert_eq!(c.verbosity(), Verbosity::Info);
    assert_eq!(c.screen_width(), 1600);
    assert_eq!(c.screen_height(), 900);
    assert_eq!(c.data_path().display_string(), "/top/data");
}

#[test]
fn config_report_lines() {
    let c = Config::new("warning", dir(&["top", "data"]));
    let lines = c.log();
    assert_eq!(
        lines,
        vec![
            "application is running with the following parameters:".to_string(),
            "verbosity: WARN".to_string(),
            "data path: /top/data".to_string(),
            "screen width: 1600".to_string(),
            "screen height: 900".to_string(),
        ]
    );
}

#[test]
fn decimal_rendering() {
    assert_eq!(u32_to_string(0), "0");
    assert_eq!(u32_to_string(7), "7");
    assert_eq!(u32_to_string(10), "10");
    assert_eq!(u32_to_string(900), "900");
    assert_eq!(u32_to_string(1600), "1600");
    assert_eq!(u32_to_string(u32::MAX), "4294967295");
}

#[test]
fn exit_requests() {
    assert!(is_exit_request(&AppEvent::Quit));
    assert!(is_exit_request(&AppEvent::KeyDown { keycode: Some(Key::Escape) }));
    assert!(!is_exit_request(&AppEvent::KeyDown { keycode: Some(Key::Other) }));
    assert!(!is_exit_request(&AppEvent::KeyDown { keycode: None }));
    assert!(!is_exit_request(&AppEvent::Other));
}

#[test]
fn shell_runs_through_its_stages_once() {
    let c = Config::new("INFO", dir(&["top", "data"]));
    let mut shell = Shell::new(c);
    assert_eq!(shell.stage(), ShellStage::Configured);
    shell.logging_initialized();
    assert_eq!(shell.stage(), ShellStage::Logging);
    let request = shell.window_request();
    assert_eq!(shell.stage(), ShellStage::Windowed);
    assert_eq!(request.title, "Skyrogue");
    assert_eq!(request.width, 1600);
    assert_eq!(request.height, 900);
    shell.event_loop_started();
    assert_eq!(shell.stage(), ShellStage::Running);
    assert!(shell.is_running());
    shell.handle_event(&AppEvent::KeyDown { keycode: Some(Key::Escape) });
    assert_eq!(shell.stage(), ShellStage::ShuttingDown);
    assert!(!shell.is_running());
    shell.shutdown_complete();
    assert_eq!(shell.stage(), ShellStage::Exited);
}

#[test]
fn event_loop_ignores_everything_but_exit_requests() {
    let c = Config::new("INFO", dir(&["top", "data"]));
    let mut shell = Shell::new(c);
    shell.logging_initialized();
    let _ = shell.window_request();
    shell.event_loop_started();
    shell.drain_events(&vec![
        AppEvent::Other,
        AppEvent::KeyDown { keycode: None },
        AppEvent::KeyDown { keycode: Some(Key::Other) },
    ]);
    assert!(shell.is_running());
    shell.drain_events(&vec![AppEvent::Other, AppEvent::Quit, AppEvent::Other]);
    assert!(!shell.is_running());
    assert_eq!(shell.stage(), ShellStage::ShuttingDown);
}

#[test]
fn quit_after_synthesized_quit_event() {
    // The explicit-valid-path scenario, carried to the end: a quit event
    // takes a freshly started shell to a clean shutdown.
    let c = Config::new("INFO", dir(&["tmp", "t"]));
    assert_eq!(c.verbosity(), Verbosity::Info);
    let mut shell = Shell::new(c);
    shell.logging_initialized();
    let _ = shell.window_request();
    shell.event_loop_started();
    shell.drain_events(&vec![AppEvent::Quit]);
    shell.shutdown_complete();
    assert_eq!(shell.stage(), ShellStage::Exited);
}

#[test]
fn error_messages() {
    assert_eq!(StartupError::ArgParse.message(), "malformed command line");
    assert_eq!(
        StartupError::Environment.message(),
        "unable to query or canonicalize the current working directory"
    );
    assert_eq!(
        StartupError::DataPathNotFound.message(),
        "no data path specified and no 'data' folder found in the current directory"
    );
    assert!(StartupError::DataPathNotFound.message().contains("no 'data' folder"));
    assert_eq!(StartupError::LoggingInit.message(), "unable to initialize logging");
    assert_eq!(
        StartupError::WindowingInit(WindowStage::Context).message(),
        "unable to initialize sdl context"
    );
    assert_eq!(
        StartupError::WindowingInit(WindowStage::Video).message(),
        "unable to initialize video subsystem"
    );
    assert_eq!(
        StartupError::WindowingInit(WindowStage::WindowBuild).message(),
        "unable to initialize window"
    );
    assert_eq!(
        StartupError::WindowingInit(WindowStage::EventPump).message(),
        "unable to initialize event pump"
    );
}
