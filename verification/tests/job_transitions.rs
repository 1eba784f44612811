//! Status transitions on a single job: the reaper's guarded write and the
//! stop-initiated write.

use iron_exec::job::status::Status;
use iron_exec::job::status::StopType;
use iron_exec::job::Command;
use iron_exec::job::Job;
use uuid::Uuid;

fn job(status: Status) -> Job {
    Job::new(
        Uuid::new_v4().as_u128(),
        Command::new("echo", vec!["hello".to_string()]),
        1234,
        status,
        Uuid::new_v4().as_u128(),
    )
}

#[test]
fn accessors_return_what_the_job_was_built_from() {
    let id = Uuid::new_v4().as_u128();
    let owner_id = Uuid::new_v4().as_u128();
    let j = Job::new(id, Command::new("sh", vec!["-c".to_string()]), 77, Status::Running, owner_id);
    assert_eq!(id, j.id());
    assert_eq!(owner_id, j.owner_id());
    assert_eq!(77, j.pid());
    assert_eq!(Status::Running, j.status());
    assert_eq!("sh", j.command().name());
    assert_eq!(vec!["-c".to_string()], j.command().args());

    let mut j = j;
    j.set_pid(78);
    assert_eq!(78, j.pid());
}

#[test]
fn reaping_a_running_job_exits_it() {
    let mut j = job(Status::Running);
    j.reap(Some(0));
    assert_eq!(Status::Exited(Some(0)), j.status());

    let mut j = job(Status::Running);
    j.reap(None);
    assert_eq!(Status::Exited(None), j.status());
}

#[test]
fn reaping_never_overwrites_a_stop() {
    let mut j = job(Status::Running);
    j.mark_stopped(StopType::Kill);
    assert_eq!(Status::Stopped(StopType::Kill), j.status());

    j.reap(Some(0));
    assert_eq!(Status::Stopped(StopType::Kill), j.status());

    let mut j = job(Status::Running);
    j.mark_stopped(StopType::Term);
    j.reap(None);
    assert_eq!(Status::Stopped(StopType::Term), j.status());
}

#[test]
fn query_extracts_the_exit_code_only_from_exited() {
    let j = job(Status::Running);
    let info = j.query();
    assert_eq!("Running", info.status());
    assert_eq!(None, info.exit_code());
    assert_eq!(1234, info.pid());
    assert_eq!("echo", info.command().name());

    let j = job(Status::Exited(Some(127)));
    let info = j.query();
    assert_eq!("Exited", info.status());
    assert_eq!(Some(127), info.exit_code());

    let j = job(Status::Exited(None));
    assert_eq!(None, j.query().exit_code());

    let j = job(Status::Stopped(StopType::Kill));
    let info = j.query();
    assert_eq!("Killed", info.status());
    assert_eq!(None, info.exit_code());
}
