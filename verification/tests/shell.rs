use launcher_shell::escalation::{
    conclude_run, escalate_run_failure, find_pattern, webview_corruption_signature, DialogVariant,
};
use launcher_shell::instance::{claim_instance, on_second_instance, secondary_plan, InstanceRole};
use launcher_shell::registry::{
    compose, compose_shell, init_all, registry_units, Builder, Command, FeatureModule,
};
use launcher_shell::state_init::{InitError, Session};
use launcher_shell::window::{show_window, ShellWindow, UiEvent, WindowError, WindowHost};

fn host_with_hidden_main() -> WindowHost {
    let mut host = WindowHost::new();
    host.windows.push(ShellWindow {
        label: "main".to_string(),
        visible: false,
        focused: false,
    });
    host
}

#[test]
fn composition_registers_all_modules_in_order() {
    let b = init_all(Builder::new());
    assert_eq!(b.plugins.len(), 18);
    assert_eq!(b.plugins[0], FeatureModule::Auth);
    assert_eq!(b.plugins[17], FeatureModule::Worlds);
}

#[test]
fn composition_is_order_independent() {
    let forward = registry_units();
    let mut backward = registry_units();
    backward.reverse();

    let b1 = compose(Builder::new(), &forward);
    let b2 = compose(Builder::new(), &backward);

    assert_eq!(b1.plugins.len(), b2.plugins.len());
    for unit in &forward {
        assert!(b1.plugins.contains(unit));
        assert!(b2.plugins.contains(unit));
    }
}

#[test]
fn shell_composition_installs_listener_and_commands() {
    let b = compose_shell(Builder::new());
    assert!(b.single_instance_listener);
    assert!(b.window_state_persistence);
    assert!(b.persisted_scope);
    assert_eq!(
        b.commands,
        vec![Command::InitializeState, Command::ShowWindow]
    );
    assert_eq!(b.plugins.len(), 18);
}

#[test]
fn initialize_state_succeeds_and_grants_cache_directories() {
    let mut session = Session::new();
    let r = session.initialize_state(true, Some("/data/caches".to_string()));
    assert_eq!(r, Ok(()));
    assert!(session.is_initialized());

    let grants = session.grants();
    assert_eq!(grants.len(), 2);
    assert_eq!(grants[0].path, "/data/caches");
    assert!(grants[0].recursive);
    assert_eq!(grants[1].path, "/data/caches/icons");
    assert!(grants[1].recursive);
}

#[test]
fn second_initialization_fails_and_keeps_state() {
    let mut session = Session::new();
    assert_eq!(
        session.initialize_state(true, Some("/data/caches".to_string())),
        Ok(())
    );
    let r = session.initialize_state(true, Some("/elsewhere".to_string()));
    assert_eq!(r, Err(InitError::AlreadyInitialized));

    assert!(session.is_initialized());
    assert_eq!(session.cache_root.as_deref(), Some("/data/caches"));
    assert_eq!(session.grants().len(), 2);
    assert_eq!(session.event_bindings, 1);
}

#[test]
fn event_subsystem_failure_aborts_before_singleton() {
    let mut session = Session::new();
    let r = session.initialize_state(false, Some("/data/caches".to_string()));
    assert_eq!(r, Err(InitError::EventSubsystem));
    assert!(!session.is_initialized());
    assert!(!session.events_ready);
    assert_eq!(session.grants().len(), 0);
}

#[test]
fn retry_after_partial_failure_succeeds_without_rebinding_events() {
    let mut session = Session::new();
    let first = session.initialize_state(true, None);
    assert_eq!(first, Err(InitError::StateSingleton));
    assert!(session.events_ready);
    assert!(!session.is_initialized());
    assert_eq!(session.event_bindings, 1);

    // The retry reports no fresh event-subsystem outcome: the binding
    // from the first attempt is reused.
    let second = session.initialize_state(false, Some("/data/caches".to_string()));
    assert_eq!(second, Ok(()));
    assert!(session.is_initialized());
    assert_eq!(session.event_bindings, 1);
    assert_eq!(session.grants().len(), 2);
}

#[test]
fn show_window_without_window_is_a_command_level_failure() {
    let mut host = WindowHost::new();
    let r = show_window(&mut host, true, true);
    assert_eq!(r, Err(WindowError::WindowNotFound));
    assert!(host.windows.is_empty());
    assert!(host.events.is_empty());
}

#[test]
fn show_window_shows_and_focuses_the_main_window() {
    let mut host = host_with_hidden_main();
    let r = show_window(&mut host, true, true);
    assert_eq!(r, Ok(()));
    assert_eq!(host.windows.len(), 1);
    assert!(host.windows[0].visible);
    assert!(host.windows[0].focused);
}

#[test]
fn show_window_surfaces_a_refused_visibility_request() {
    let mut host = host_with_hidden_main();
    let r = show_window(&mut host, false, true);
    assert_eq!(r, Err(WindowError::ShowFailed));
    assert!(!host.windows[0].visible);
    assert!(!host.windows[0].focused);
}

#[test]
fn show_window_surfaces_a_refused_focus_request() {
    let mut host = host_with_hidden_main();
    let r = show_window(&mut host, true, false);
    assert_eq!(r, Err(WindowError::FocusFailed));
    assert!(host.windows[0].visible);
    assert!(!host.windows[0].focused);
}

#[test]
fn lock_acquisition_decides_the_instance_role() {
    assert_eq!(claim_instance(true), InstanceRole::Primary);
    assert_eq!(claim_instance(false), InstanceRole::Secondary);
}

#[test]
fn secondary_launch_forwards_arguments_and_never_bootstraps() {
    let argv = vec!["launcher".to_string(), "--open".to_string()];
    let plan = secondary_plan(argv.clone());
    assert_eq!(plan.forwarded_args, argv);
    assert!(!plan.proceed_with_bootstrap);
}

#[test]
fn second_launch_raises_a_hidden_primary_window() {
    let mut host = host_with_hidden_main();
    let argv = vec!["launcher".to_string(), "some://deep-link".to_string()];
    let r = on_second_instance(&mut host, argv.clone());
    assert_eq!(r, Ok(()));

    // No second window appears; the existing one is shown and focused.
    assert_eq!(host.windows.len(), 1);
    assert!(host.windows[0].visible);
    assert!(host.windows[0].focused);

    assert_eq!(host.events.len(), 1);
    let UiEvent::SingleInstance { argv: forwarded } = &host.events[0];
    assert_eq!(forwarded, &argv);
}

#[test]
fn second_launch_focuses_an_already_visible_primary_window() {
    let mut host = WindowHost::new();
    host.windows.push(ShellWindow {
        label: "main".to_string(),
        visible: true,
        focused: false,
    });
    let r = on_second_instance(&mut host, vec!["launcher".to_string()]);
    assert_eq!(r, Ok(()));
    assert_eq!(host.windows.len(), 1);
    assert!(host.windows[0].visible);
    assert!(host.windows[0].focused);
}

#[test]
fn corrupted_webview_signature_produces_the_remediation_dialog() {
    let diagnostic = format!(
        "RunEvent(ExitRequested) caused by {}(0x80004005))",
        webview_corruption_signature()
    );
    let plan = escalate_run_failure(&diagnostic, true);
    assert_eq!(plan.variant, DialogVariant::WebviewRemediation);
    assert!(plan.abnormal_exit);
}

#[test]
fn other_failures_produce_the_generic_dialog() {
    let plan = escalate_run_failure("error while creating event loop", true);
    assert_eq!(plan.variant, DialogVariant::Generic);
    assert!(plan.abnormal_exit);
}

#[test]
fn webview_signature_is_ignored_on_other_platforms() {
    let diagnostic = format!("{} deep inside", webview_corruption_signature());
    let plan = escalate_run_failure(&diagnostic, false);
    assert_eq!(plan.variant, DialogVariant::Generic);
    assert!(plan.abnormal_exit);
}

#[test]
fn clean_run_exits_normally_without_dialog() {
    let t = conclude_run(None, true);
    assert_eq!(t.exit_code, 0);
    assert!(t.dialog.is_none());
}

#[test]
fn failed_run_exits_abnormally_after_a_dialog() {
    let t = conclude_run(Some("runtime gave up"), false);
    assert_ne!(t.exit_code, 0);
    let plan = t.dialog.expect("a fatal failure always plans a dialog");
    assert_eq!(plan.variant, DialogVariant::Generic);
    assert!(plan.abnormal_exit);
}

#[test]
fn pattern_search_finds_occurrences_anywhere() {
    assert!(find_pattern("abcdef", "cde"));
    assert!(find_pattern("abcdef", "abcdef"));
    assert!(find_pattern("abcdef", "f"));
    assert!(find_pattern("aaab", "aab"));
    assert!(find_pattern("abcdef", ""));
    assert!(find_pattern("", ""));
}

#[test]
fn pattern_search_handles_multibyte_characters() {
    assert!(find_pattern("die Höhle des Löwen", "öhle"));
    assert!(!find_pattern("die Höhle", "Hö?"));
}

#[test]
fn signature_matches_the_known_corrupted_dependency_diagnostic() {
    assert_eq!(
        webview_corruption_signature(),
        "Runtime(CreateWebview(WebView2Error(WindowsError"
    );
}

#[test]
fn pattern_search_rejects_absent_patterns() {
    assert!(!find_pattern("", "a"));
    assert!(!find_pattern("abcdef", "cdf"));
    assert!(!find_pattern("abc", "abcd"));
    assert!(!find_pattern("WebView2", "webview2"));
}
