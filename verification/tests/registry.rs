//! The worker core as a state machine: registration, lookup, status
//! transitions and error messages, driven with synthetic spawn and wait
//! outcomes.

use iron_exec::job::Command;
use iron_exec::worker::Config;
use iron_exec::worker::Worker;
use uuid::Uuid;

fn owner() -> u128 {
    Uuid::new_v4().as_u128()
}

#[test]
fn start_registers_running_job() {
    let mut worker = Worker::new(Config::new("/tmp", 4));
    let owner_id = owner();
    let command = Command::new("echo", vec!["hello world".to_string()]);
    let (job_id, log_path) = worker.prepare_start(&command);
    assert_eq!(0, worker.job_count());

    let registered = worker.register_start(job_id, command, owner_id, Ok(4242));
    assert_eq!(job_id, registered.unwrap());
    assert_eq!(1, worker.job_count(), "job was not pushed to worker jobs vec");

    let info = worker.query(job_id, owner_id).unwrap();
    assert_eq!("Running", info.status());
    assert_eq!(4242, info.pid());
    assert_eq!(None, info.exit_code());
    assert_eq!("echo", info.command().name());
    assert_eq!(vec!["hello world".to_string()], info.command().args());

    let expected_path = format!("/tmp/echo_{}.log", Uuid::from_u128(job_id));
    assert_eq!(expected_path, log_path);
}

#[test]
fn fresh_ids_are_version_four() {
    let worker = Worker::new(Config::default());
    let command = Command::new("echo", vec![]);
    for _ in 0..16 {
        let (job_id, _) = worker.prepare_start(&command);
        assert_eq!(4, (job_id >> 76) & 0xf, "version nibble");
        assert_eq!(2, (job_id >> 62) & 0x3, "variant bits");
    }
}

#[test]
fn lookup_misses_share_one_message() {
    let mut worker = Worker::new(Config::new("/tmp", 4));
    let owner_id = owner();
    let command = Command::new("echo", vec!["hello".to_string(), "world".to_string()]);
    let (job_id, _) = worker.prepare_start(&command);
    worker
        .register_start(job_id, command, owner_id, Ok(77))
        .unwrap();

    let unknown_id = owner();
    let expected_unknown = format!("no job with id {} found for user", Uuid::from_u128(unknown_id));
    let expected_known = format!("no job with id {} found for user", Uuid::from_u128(job_id));

    let e = worker.query(unknown_id, owner_id).unwrap_err();
    assert_eq!(expected_unknown, e.as_str(), "query a non-existent job");

    let e = worker.query(job_id, owner()).unwrap_err();
    assert_eq!(expected_known, e.as_str(), "query existing job with wrong owner_id");

    let e = worker.stop(unknown_id, owner_id, false).unwrap_err();
    assert_eq!(expected_unknown, e.as_str(), "stop a non-existent job");

    let e = worker.stop(job_id, owner(), true).unwrap_err();
    assert_eq!(expected_known, e.as_str(), "stop with wrong owner_id");

    let e = worker.stream_path(unknown_id, owner_id).unwrap_err();
    assert_eq!(expected_unknown, e.as_str(), "stream a non-existent job");
}

#[test]
fn reaping_reports_the_exit_code() {
    let mut worker = Worker::new(Config::new("/tmp", 4));
    let owner_id = owner();
    let command = Command::new("echo", vec!["hello world".to_string()]);
    let (job_id, _) = worker.prepare_start(&command);
    worker
        .register_start(job_id, command, owner_id, Ok(4242))
        .unwrap();

    let event = worker.finish_wait(job_id, Ok(Some(0)));
    assert_eq!((job_id, false), event.unwrap());

    let info = worker.query(job_id, owner_id).unwrap();
    assert_eq!("Exited", info.status());
    assert_eq!(Some(0), info.exit_code());

    let again = worker.query(job_id, owner_id).unwrap();
    assert_eq!(info.status(), again.status());
    assert_eq!(info.pid(), again.pid());
    assert_eq!(info.exit_code(), again.exit_code());
    assert_eq!(info.command().name(), again.command().name());
    assert_eq!(info.command().args(), again.command().args());
}

#[test]
fn reaping_without_a_code_leaves_the_code_unknown() {
    let mut worker = Worker::new(Config::new("/tmp", 4));
    let owner_id = owner();
    let command = Command::new("sh", vec!["-c".to_string(), "exit 7".to_string()]);
    let (job_id, _) = worker.prepare_start(&command);
    worker
        .register_start(job_id, command, owner_id, Ok(555))
        .unwrap();

    worker.finish_wait(job_id, Ok(None)).unwrap();
    let info = worker.query(job_id, owner_id).unwrap();
    assert_eq!("Exited", info.status());
    assert_eq!(None, info.exit_code());
}

#[test]
fn wait_failures_are_published_and_change_nothing() {
    let mut worker = Worker::new(Config::new("/tmp", 4));
    let owner_id = owner();
    let command = Command::new("echo", vec![]);
    let (job_id, _) = worker.prepare_start(&command);
    worker
        .register_start(job_id, command, owner_id, Ok(4242))
        .unwrap();

    let receiver = worker.notify_receiver();
    let event = worker.finish_wait(job_id, Err("wait interrupted".to_string()));
    let e = event.unwrap_err();
    assert_eq!("child process failed: wait interrupted", e.as_str());

    let published = receiver.try_recv().unwrap().unwrap_err();
    assert_eq!("child process failed: wait interrupted", published.as_str());

    let info = worker.query(job_id, owner_id).unwrap();
    assert_eq!("Running", info.status(), "a failed wait must not change the status");
}

#[test]
fn spawn_failures_report_the_cause_and_register_nothing() {
    let mut worker = Worker::new(Config::new("/tmp", 4));
    let command = Command::new("whatever-madeup-command", vec![]);
    let (job_id, _) = worker.prepare_start(&command);
    let detail = "Os { code: 2, kind: NotFound, message: \"No such file or directory\" }";
    let e = worker
        .register_start(job_id, command, owner(), Err(detail.to_string()))
        .unwrap_err();
    assert_eq!(
        "failed to spawn child process: Os { code: 2, kind: NotFound, message: \"No such file or directory\" }",
        e.as_str(),
    );
    assert_eq!(0, worker.job_count());
}

#[test]
fn stream_paths_name_the_log_file() {
    let mut worker = Worker::new(Config::new("/var/log/jobs", 2));
    let owner_id = owner();
    let command = Command::new("echo", vec!["hi".to_string()]);
    let (job_id, prepared_path) = worker.prepare_start(&command);
    worker
        .register_start(job_id, command, owner_id, Ok(99))
        .unwrap();

    let path = worker.stream_path(job_id, owner_id).unwrap();
    assert_eq!(prepared_path, path);
    assert_eq!(format!("/var/log/jobs/echo_{}.log", Uuid::from_u128(job_id)), path);
}

#[test]
fn config_reports_its_options() {
    let cfg = Config::new("/var/log/jobs", 8);
    assert_eq!("/var/log/jobs", cfg.log_dir());
    assert_eq!(8, cfg.thread_count());

    let cfg = Config::default();
    assert_eq!("/tmp", cfg.log_dir());
    assert_eq!(4, cfg.thread_count());
}

#[test]
fn each_job_is_found_under_its_own_pair() {
    let mut worker = Worker::new(Config::new("/tmp", 4));
    let owner_a = owner();
    let owner_b = owner();

    let first = Command::new("echo", vec!["one".to_string()]);
    let (id_a, _) = worker.prepare_start(&first);
    worker.register_start(id_a, first, owner_a, Ok(100)).unwrap();

    let second = Command::new("sleep", vec!["30".to_string()]);
    let (id_b, _) = worker.prepare_start(&second);
    worker.register_start(id_b, second, owner_b, Ok(200)).unwrap();

    assert_eq!(2, worker.job_count());
    assert_eq!(vec![100, 200], worker.pids());

    let a = worker.query(id_a, owner_a).unwrap();
    assert_eq!("echo", a.command().name());
    assert_eq!(100, a.pid());

    let b = worker.query(id_b, owner_b).unwrap();
    assert_eq!("sleep", b.command().name());
    assert_eq!(200, b.pid());

    worker.finish_wait(id_a, Ok(Some(0))).unwrap();
    assert_eq!("Exited", worker.query(id_a, owner_a).unwrap().status());
    assert_eq!(
        "Running",
        worker.query(id_b, owner_b).unwrap().status(),
        "reaping one job must not touch another",
    );

    assert!(worker.query(id_a, owner_b).is_err());
    assert!(worker.query(id_b, owner_a).is_err());
}

#[test]
fn the_completion_channel_has_the_configured_capacity() {
    let worker = Worker::new(Config::new("/tmp", 3));
    assert_eq!(Some(3), worker.notify_receiver().capacity());

    let worker = Worker::new(Config::default());
    assert_eq!(Some(4), worker.notify_receiver().capacity());
}

#[test]
fn every_receiver_consumes_from_the_one_channel() {
    let mut worker = Worker::new(Config::new("/tmp", 4));
    let first = worker.notify_receiver();
    let second = worker.notify_receiver();

    let owner_id = owner();
    let command = Command::new("echo", vec![]);
    let (job_id, _) = worker.prepare_start(&command);
    worker.register_start(job_id, command, owner_id, Ok(4242)).unwrap();
    worker.finish_wait(job_id, Ok(Some(0))).unwrap();

    assert_eq!((job_id, false), first.try_recv().unwrap().unwrap());
    assert!(
        second.try_recv().is_err(),
        "an event must be delivered to exactly one consumer",
    );
}
