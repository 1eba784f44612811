//! The observable surface of job statuses and stop kinds.

use iron_exec::job::status::Status;
use iron_exec::job::status::StopType;

#[test]
fn stop_types_map_to_signals() {
    assert_eq!(15, StopType::Term.sig());
    assert_eq!(9, StopType::Kill.sig());
}

#[test]
fn stop_types_have_lowercase_names() {
    assert_eq!("term", StopType::Term.as_str());
    assert_eq!("kill", StopType::Kill.as_str());
}

#[test]
fn status_labels_are_literal_tokens() {
    assert_eq!("Unknown state", Status::UnknownState.as_str());
    assert_eq!("Running", Status::Running.as_str());
    assert_eq!("Exited", Status::Exited(Some(0)).as_str());
    assert_eq!("Exited", Status::Exited(None).as_str());
    assert_eq!("terminated", Status::Stopped(StopType::Term).as_str());
    assert_eq!("Killed", Status::Stopped(StopType::Kill).as_str());
    assert_eq!("Killed".to_string(), Status::Stopped(StopType::Kill).to_string());
    assert_eq!("Running".to_string(), Status::Running.to_string());
}

#[test]
fn only_stopped_statuses_are_stopped() {
    assert!(!Status::UnknownState.is_stopped());
    assert!(!Status::Running.is_stopped());
    assert!(!Status::Exited(Some(1)).is_stopped());
    assert!(Status::Stopped(StopType::Term).is_stopped());
    assert!(Status::Stopped(StopType::Kill).is_stopped());
}
