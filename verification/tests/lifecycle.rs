use plantuml_supervisor::paths::choose_jar_path;
use plantuml_supervisor::paths::choose_java_path;
use plantuml_supervisor::paths::normalize_jar_path;
use plantuml_supervisor::probe::ReadinessProbe;
use plantuml_supervisor::probe::PROBE_ATTEMPTS;
use plantuml_supervisor::probe::PROBE_INTERVAL_MS;
use plantuml_supervisor::supervisor::existing_start_status;
use plantuml_supervisor::supervisor::get_server_status;
use plantuml_supervisor::supervisor::record_start;
use plantuml_supervisor::supervisor::take_child;
use plantuml_supervisor::supervisor::Supervisor;
use plantuml_supervisor::supervisor::SETTLE_DELAY_MS;

#[test]
fn normalizes_verbatim_long_paths() {
    assert_eq!(
        normalize_jar_path(r"\\?\C:\app\resources\plantuml.jar"),
        r"C:\app\resources\plantuml.jar"
    );
    assert_eq!(normalize_jar_path(r"\\?\\\?\C:\a.jar"), r"C:\a.jar");
    assert_eq!(
        normalize_jar_path("/opt/app/resources/plantuml.jar"),
        "/opt/app/resources/plantuml.jar"
    );
    assert_eq!(normalize_jar_path(r"\\?x\a.jar"), r"\\?x\a.jar");
    assert_eq!(normalize_jar_path(""), "");
}

#[test]
fn prefers_packaged_payload() {
    let chosen = choose_jar_path(
        Some("/opt/app/resources/plantuml.jar".to_string()),
        true,
        "resources/plantuml.jar".to_string(),
        true,
    );
    assert_eq!(chosen, Some("/opt/app/resources/plantuml.jar".to_string()));
}

#[test]
fn falls_back_to_development_payload() {
    let chosen = choose_jar_path(
        Some("/opt/app/resources/plantuml.jar".to_string()),
        false,
        "resources/plantuml.jar".to_string(),
        true,
    );
    assert_eq!(chosen, Some("resources/plantuml.jar".to_string()));

    let chosen = choose_jar_path(None, false, "resources/plantuml.jar".to_string(), true);
    assert_eq!(chosen, Some("resources/plantuml.jar".to_string()));
}

#[test]
fn reports_missing_payload() {
    let chosen = choose_jar_path(
        Some("/opt/app/resources/plantuml.jar".to_string()),
        false,
        "resources/plantuml.jar".to_string(),
        false,
    );
    assert_eq!(chosen, None);
}

#[test]
fn prefers_bundled_java_and_falls_back_to_system() {
    let bundled = "/opt/app/resources/jre/bin/java".to_string();
    assert_eq!(choose_java_path(Some(bundled.clone()), true), bundled);
    assert_eq!(choose_java_path(Some(bundled), false), "java");
    assert_eq!(choose_java_path(None, false), "java");
}

#[test]
fn probe_budget_and_interval() {
    assert_eq!(PROBE_ATTEMPTS, 30);
    assert_eq!(PROBE_INTERVAL_MS, 500);
    assert_eq!(SETTLE_DELAY_MS, 500);
}

#[test]
fn probe_is_ready_at_first_occupied_observation() {
    let mut probe = ReadinessProbe::new();
    assert!(!probe.exhausted());
    assert!(!probe.observe(false));
    assert!(!probe.observe(false));
    assert!(probe.observe(true));
    assert_eq!(probe.attempts_left, PROBE_ATTEMPTS - 3);
}

#[test]
fn probe_gives_up_after_its_budget() {
    let mut probe = ReadinessProbe::new();
    let mut observations = 0;
    while !probe.exhausted() {
        assert!(!probe.observe(false));
        observations += 1;
    }
    assert_eq!(observations, 30);
}

#[test]
fn fresh_supervisor_reports_stopped_on_default_port() {
    let sup = Supervisor::new();
    assert_eq!(sup.child, None);
    assert_eq!(sup.port, 18123);
    let status = get_server_status(&sup, false);
    assert!(!status.running);
    assert_eq!(status.port, 18123);
    assert_eq!(status.url, "http://localhost:18123");
    assert_eq!(status.error, None);
}

#[test]
fn started_supervisor_reports_running_with_url() {
    let mut sup = Supervisor::new();
    assert!(existing_start_status(&sup).is_none());
    let status = record_start(&mut sup, 4242, 18123);
    assert!(status.running);
    assert_eq!(status.port, 18123);
    assert_eq!(status.url, "http://localhost:18123");
    assert_eq!(status.error, None);
    let observed = get_server_status(&sup, true);
    assert!(observed.running);
    assert_eq!(observed.port, 18123);
    assert_eq!(observed.url, "http://localhost:18123");
}

#[test]
fn start_on_occupied_default_port_reports_fallback_port() {
    let mut occupied = vec![false; 100];
    occupied[0] = true;
    let port = plantuml_supervisor::ports::find_available_port(18123, &occupied);
    assert!((18124..=18222).contains(&port));
    let mut sup = Supervisor::new();
    let status = record_start(&mut sup, 4242, port);
    assert!(status.running);
    assert_eq!(status.port, 18124);
    assert_eq!(status.url, "http://localhost:18124");
}

#[test]
fn second_start_reports_existing_child_without_spawning() {
    let mut sup = Supervisor::new();
    let first = record_start(&mut sup, 4242, 18123);
    let second = existing_start_status(&sup).expect("a child is recorded");
    assert_eq!(second.running, first.running);
    assert_eq!(second.port, first.port);
    assert_eq!(second.url, first.url);
    assert_eq!(sup.child, Some(4242));
}

#[test]
fn stop_without_child_is_a_no_op_success() {
    let mut sup = Supervisor::new();
    assert_eq!(take_child(&mut sup), None);
    assert_eq!(sup.child, None);
    assert_eq!(sup.port, 18123);
    let status = get_server_status(&sup, false);
    assert!(!status.running);
}

#[test]
fn stop_takes_the_child_exactly_once() {
    let mut sup = Supervisor::new();
    record_start(&mut sup, 4242, 18123);
    assert_eq!(take_child(&mut sup), Some(4242));
    assert_eq!(take_child(&mut sup), None);
    assert_eq!(sup.port, 18123, "the port reflects the most recent start");
}

#[test]
fn restart_reports_running_on_the_new_port() {
    let mut sup = Supervisor::new();
    record_start(&mut sup, 4242, 18123);
    let pre_restart_port = sup.port;
    assert_eq!(take_child(&mut sup), Some(4242));
    let status = record_start(&mut sup, 4243, 18124);
    assert!(status.running);
    assert_eq!(status.port, 18124);
    assert_ne!(status.port, pre_restart_port, "ports are re-allocated, not reused");
    let observed = get_server_status(&sup, true);
    assert!(observed.running);
    assert_eq!(observed.port, 18124);
}

#[test]
fn crashed_child_is_reported_as_not_running() {
    let mut sup = Supervisor::new();
    record_start(&mut sup, 4242, 18123);
    let observed = get_server_status(&sup, false);
    assert!(!observed.running, "handle recorded but port freed");
    assert_eq!(observed.port, 18123);
    assert_eq!(sup.child, Some(4242), "a status check alone clears no handle");
}

#[test]
fn missing_payload_leaves_the_supervisor_stopped() {
    let mut sup = Supervisor::new();
    let chosen = choose_jar_path(None, false, "resources/plantuml.jar".to_string(), false);
    assert_eq!(chosen, None);
    let error = plantuml_supervisor::launch::jar_not_found_error();
    assert!(error.contains("resources folder"));
    let status = get_server_status(&sup, false);
    assert!(!status.running);
    assert_eq!(take_child(&mut sup), None);
}
