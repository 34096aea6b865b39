use auto_attach::reconcile::{attach_args, attach_result, on_attach, on_probe, ToolRun};
use auto_attach::report::{report_attached, AttachState};
use auto_attach::status::ProbeError;

fn missing_tool() -> ToolRun {
    ToolRun::Missing { location: "\"/opt/bin/usbip\"".to_string() }
}

#[test]
fn transition_printed_once_per_change() {
    let mut s = AttachState::new();
    let observations = [false, true, true, false, false, true, false];
    let expected: [&[&str]; 7] = [
        &[],
        &["Attached"],
        &[],
        &["Detached"],
        &[],
        &["Attached"],
        &["Detached"],
    ];
    for (a, want) in observations.iter().zip(expected.iter()) {
        assert_eq!(report_attached(&mut s, *a), *want);
        assert_eq!(s.is_attached, *a);
    }
}

#[test]
fn error_printed_once_until_it_changes() {
    let mut s = AttachState::new();
    s.last_error = "boom".to_string();
    assert_eq!(report_attached(&mut s, false), vec!["boom"]);
    assert_eq!(report_attached(&mut s, false), Vec::<String>::new());
    s.last_error = "bang".to_string();
    assert_eq!(report_attached(&mut s, false), vec!["bang"]);
    assert_eq!(report_attached(&mut s, true), vec!["Attached"]);
    assert_eq!(s.last_reported_error, "");
    assert_eq!(report_attached(&mut s, false), vec!["Detached", "bang"]);
}

#[test]
fn no_error_line_while_attached() {
    let mut s = AttachState::new();
    assert_eq!(report_attached(&mut s, true), vec!["Attached"]);
    s.last_error = "stale".to_string();
    assert_eq!(report_attached(&mut s, true), Vec::<String>::new());
}

#[test]
fn unavailable_probe_still_attempts_attach() {
    let mut s = AttachState::new();
    let probe = Err(ProbeError::Unavailable { path: "/sys/status".to_string() });
    let (lines, run) = on_probe(&mut s, &probe);
    assert!(run);
    assert_eq!(lines, vec!["Status file not found: /sys/status"]);
    let lines = on_attach(&mut s, Ok(()));
    assert_eq!(lines, vec!["Attached"]);
    assert_eq!(s.last_error, "");
}

#[test]
fn missing_tool_reported_once() {
    let r = attach_result(&missing_tool());
    let msg = r.clone().unwrap_err();
    assert_eq!(msg, "usbip binary not found at: \"/opt/bin/usbip\"");
    assert!(msg.contains("not found"));
    let mut s = AttachState::new();
    let mut printed: Vec<String> = Vec::new();
    for _ in 0..3 {
        let (lines, run) = on_probe(&mut s, &Ok(false));
        printed.extend(lines);
        assert!(run);
        printed.extend(on_attach(&mut s, attach_result(&missing_tool())));
    }
    assert_eq!(printed, vec![msg]);
}

#[test]
fn attached_iteration_is_quiet() {
    let mut s = AttachState::new();
    let (lines, run) = on_probe(&mut s, &Ok(false));
    assert!(lines.is_empty());
    assert!(run);
    assert_eq!(on_attach(&mut s, Ok(())), vec!["Attached"]);
    let (lines, run) = on_probe(&mut s, &Ok(true));
    assert!(lines.is_empty());
    assert!(!run);
    assert!(s.is_attached);
}

#[test]
fn detach_after_attach_reports_both() {
    let mut s = AttachState::new();
    let (lines, _) = on_probe(&mut s, &Ok(true));
    assert_eq!(lines, vec!["Attached"]);
    let (lines, run) = on_probe(&mut s, &Ok(false));
    assert_eq!(lines, vec!["Detached"]);
    assert!(run);
    let lines = on_attach(&mut s, Err("device busy\n".to_string()));
    assert_eq!(lines, vec!["device busy\n"]);
}

#[test]
fn attach_results_by_kind() {
    assert!(attach_result(&ToolRun::Exited { success: true, stderr: "x".to_string() }).is_ok());
    assert_eq!(
        attach_result(&ToolRun::Exited { success: false, stderr: "no route".to_string() }),
        Err("no route".to_string())
    );
    assert_eq!(
        attach_result(&ToolRun::SpawnFailed { reason: "denied".to_string() }),
        Err("Command execution failed: denied".to_string())
    );
    assert_eq!(
        attach_result(&ToolRun::NoProgramPath { reason: "gone".to_string() }),
        Err("Current executable error: gone".to_string())
    );
    assert_eq!(
        attach_result(&ToolRun::TimedOut { seconds: 30 }),
        Err("usbip timed out after 30 s".to_string())
    );
    assert_eq!(
        attach_result(&ToolRun::NoProgramDir),
        Err("Could not determine executable directory".to_string())
    );
}

#[test]
fn attach_tool_arguments() {
    assert_eq!(
        attach_args("192.168.1.5", "2-1"),
        vec!["attach", "--remote", "192.168.1.5", "--busid", "2-1"]
    );
}
