//! The cgroup plan: which directory a job's cgroup lives in, which
//! interface files are written with what contents, and the `cgroup.procs`
//! line.

use iron_exec::job::CgroupConfig;
use iron_exec::job::CpuConfig;
use iron_exec::job::IoConfig;
use iron_exec::job::MemConfig;
use uuid::Uuid;

#[test]
fn controller_configs_exist_only_with_a_field() {
    assert!(CpuConfig::new(None, None).is_none());
    assert!(MemConfig::new(None, None).is_none());
    assert!(IoConfig::new(None, None).is_none());

    let cpu = CpuConfig::new(Some("155".to_string()), None).unwrap();
    assert_eq!(Some("155".to_string()), cpu.max);
    assert_eq!(None, cpu.weight);

    let mem = MemConfig::new(None, Some(75)).unwrap();
    assert_eq!(None, mem.max);
    assert_eq!(Some(75), mem.weight);

    let io = IoConfig::new(Some("8:16 wbps=1048576".to_string()), Some(200)).unwrap();
    assert_eq!(Some("8:16 wbps=1048576".to_string()), io.max);
    assert_eq!(Some(200), io.weight);
}

#[test]
fn init_plan_lists_each_present_field_once() {
    let mut config = CgroupConfig::new(
        Some("155".to_string()),
        Some(75),
        Some("104857600".to_string()),
        None,
        None,
        Some(33),
    );
    let job_id = Uuid::new_v4().as_u128();
    let writes = config.init_plan("echo", job_id);

    assert_eq!(
        vec![
            ("cpu.max".to_string(), "155".to_string()),
            ("cpu.weight".to_string(), "75".to_string()),
            ("memory.max".to_string(), "104857600".to_string()),
            ("io.weight".to_string(), "33".to_string()),
        ],
        writes,
    );
    assert_eq!(
        format!("/sys/fs/cgroup/echo_{}", Uuid::from_u128(job_id)),
        config.root_path(),
    );
}

#[test]
fn an_empty_config_plans_no_writes() {
    let mut config = CgroupConfig::new(None, None, None, None, None, None);
    let writes = config.init_plan("sleep", 0);
    assert!(writes.is_empty());
    assert_eq!(
        "/sys/fs/cgroup/sleep_00000000-0000-0000-0000-000000000000",
        config.root_path(),
    );
}

#[test]
fn procs_lines_are_decimal_pids() {
    assert_eq!("1\n", CgroupConfig::procs_line(1));
    assert_eq!("0\n", CgroupConfig::procs_line(0));
    assert_eq!("4194304\n", CgroupConfig::procs_line(4194304));
    assert_eq!("4294967295\n", CgroupConfig::procs_line(u32::MAX));
}
