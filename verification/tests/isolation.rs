use contain::cgroup::{
    cgroup_plan, dec_text, node_path, pid_record, CgroupAction, CgroupNode, CgroupState,
};
use contain::launch::{
    launch_argv, launch_exit_code, namespace_mask, split_request, ContainerRequest, NEWNS_FLAG,
    NEWPID_FLAG, NEWUTS_FLAG,
};
use contain::session::{
    hostname_value, phase_best_effort, proc_mount, tmp_mount, workdir_path, workload_event,
    IsolationTarget, Phase, Session, StepEvent,
};

fn strings(words: &[&str]) -> Vec<String> {
    words.iter().map(|w| w.to_string()).collect()
}

#[test]
fn launch_argv_prepends_child_marker() {
    let argv = launch_argv(strings(&["echo", "hello"]));
    assert_eq!(argv, strings(&["child", "echo", "hello"]));
}

#[test]
fn launch_argv_of_nothing_is_just_the_marker() {
    let argv = launch_argv(Vec::new());
    assert_eq!(argv, strings(&["child"]));
}

#[test]
fn split_request_names_program_and_args() {
    let req = split_request(strings(&["echo", "hello", "world"])).unwrap();
    assert_eq!(req.program, "echo");
    assert_eq!(req.args, strings(&["hello", "world"]));
}

#[test]
fn split_request_of_nothing_is_refused() {
    assert!(split_request(Vec::new()).is_none());
}

#[test]
fn container_request_keeps_its_fields() {
    let req = ContainerRequest::new("/bin/true".to_string(), Vec::new());
    assert_eq!(req.program, "/bin/true");
    assert!(req.args.is_empty());
}

#[test]
fn namespace_mask_is_uts_pid_mount() {
    let mask = namespace_mask();
    assert_eq!(mask, 0x2402_0000);
    assert_eq!(mask, NEWUTS_FLAG | NEWPID_FLAG | NEWNS_FLAG);
    assert_eq!(mask & NEWUTS_FLAG, NEWUTS_FLAG);
    assert_eq!(mask & NEWPID_FLAG, NEWPID_FLAG);
    assert_eq!(mask & NEWNS_FLAG, NEWNS_FLAG);
    assert_eq!(mask as i32 as u32, mask);
}

#[test]
fn decimal_text_is_the_whole_number() {
    assert_eq!(dec_text(0), b"0".to_vec());
    assert_eq!(dec_text(7), b"7".to_vec());
    assert_eq!(dec_text(20), b"20".to_vec());
    assert_eq!(dec_text(305), b"305".to_vec());
    assert_eq!(dec_text(u32::MAX), b"4294967295".to_vec());
}

#[test]
fn pid_record_is_decimal_and_newline() {
    assert_eq!(pid_record(4242), b"4242\n".to_vec());
}

#[test]
fn node_paths_sit_under_the_pids_controller() {
    assert_eq!(node_path(CgroupNode::SubgroupDir), "/sys/fs/cgroup/pids/dirty");
    assert_eq!(node_path(CgroupNode::PidsMax), "/sys/fs/cgroup/pids/dirty/pids.max");
    assert_eq!(
        node_path(CgroupNode::NotifyOnRelease),
        "/sys/fs/cgroup/pids/dirty/notify_on_release"
    );
    assert_eq!(node_path(CgroupNode::Procs), "/sys/fs/cgroup/pids/dirty/cgroup.procs");
}

#[test]
fn cgroup_plan_writes_the_ceiling_the_flag_and_the_pid() {
    let plan = cgroup_plan(77);
    assert_eq!(plan.len(), 11);

    assert_eq!(plan[0].node, CgroupNode::SubgroupDir);
    assert!(matches!(plan[0].action, CgroupAction::EnsureDir));
    assert!(plan[0].fatal);

    match &plan[3].action {
        CgroupAction::WriteBytes(c) => assert_eq!(c, &b"20".to_vec()),
        _ => panic!("expected a write"),
    }
    assert_eq!(plan[3].node, CgroupNode::PidsMax);
    assert!(plan[3].fatal);

    assert_eq!(plan[6].node, CgroupNode::NotifyOnRelease);
    match &plan[6].action {
        CgroupAction::WriteBytes(c) => assert_eq!(c, &b"1".to_vec()),
        _ => panic!("expected a write"),
    }

    assert_eq!(plan[9].node, CgroupNode::Procs);
    match &plan[9].action {
        CgroupAction::WriteBytes(c) => assert_eq!(c, &b"77\n".to_vec()),
        _ => panic!("expected a write"),
    }

    match plan[1].action {
        CgroupAction::SetMode(m) => assert_eq!(m, 0o755),
        _ => panic!("expected a mode change"),
    }
    assert!(!plan[1].fatal);
    match plan[10].action {
        CgroupAction::SetMode(m) => assert_eq!(m, 0o700),
        _ => panic!("expected a mode change"),
    }
}

#[test]
fn cgroup_setup_configures_a_pristine_hierarchy() {
    let mut state = CgroupState::pristine();
    state.apply_plan(&cgroup_plan(12));
    assert!(state.dir_exists);
    assert_eq!(state.pids_max, Some(b"20".to_vec()));
    assert_eq!(state.notify, Some(b"1".to_vec()));
    assert_eq!(state.procs, vec![b"12\n".to_vec()]);
    assert_eq!(state.dir_mode, Some(0o755));
    assert_eq!(state.max_mode, Some(0o755));
    assert_eq!(state.notify_mode, Some(0o700));
    assert_eq!(state.procs_mode, Some(0o700));
}

#[test]
fn cgroup_setup_twice_changes_nothing_but_membership() {
    let mut once = CgroupState::pristine();
    once.apply_plan(&cgroup_plan(12));

    let mut twice = CgroupState::pristine();
    twice.apply_plan(&cgroup_plan(12));
    twice.apply_plan(&cgroup_plan(34));

    assert_eq!(twice.dir_exists, once.dir_exists);
    assert_eq!(twice.pids_max, once.pids_max);
    assert_eq!(twice.notify, once.notify);
    assert_eq!(twice.dir_mode, once.dir_mode);
    assert_eq!(twice.max_mode, once.max_mode);
    assert_eq!(twice.notify_mode, once.notify_mode);
    assert_eq!(twice.procs_mode, once.procs_mode);
    assert_eq!(twice.procs, vec![b"12\n".to_vec(), b"34\n".to_vec()]);
}

#[test]
fn isolation_fixtures_hold_the_configured_values() {
    assert_eq!(hostname_value(), "container");
    assert_eq!(workdir_path(), "/");
    let target = IsolationTarget::new("/srv/rootfs".to_string());
    assert_eq!(target.root, "/srv/rootfs");

    let p = proc_mount();
    assert_eq!(p.source, "proc");
    assert_eq!(p.target, "/proc");
    assert_eq!(p.fstype, "proc");

    let t = tmp_mount();
    assert_eq!(t.source, "tmpfs");
    assert_eq!(t.target, "/tmp");
    assert_eq!(t.fstype, "tmpfs");
}

#[test]
fn phases_run_in_the_isolation_order() {
    let mut s = Session::start();
    let expected = [
        Phase::SetupCgroup,
        Phase::SetHostname,
        Phase::ChrootRoot,
        Phase::ChdirRoot,
        Phase::MountProc,
        Phase::MountTmp,
    ];
    for want in expected.iter() {
        assert_eq!(s.phase, *want);
        s.advance(StepEvent::Completed);
    }
    assert_eq!(s.phase, Phase::RunWorkload);
}

#[test]
fn successful_run_exits_zero() {
    let mut s = Session::start();
    for _ in 0..6 {
        s.advance(StepEvent::Completed);
    }
    s.advance(StepEvent::WorkloadExited(0));
    assert_eq!(s.phase, Phase::UnmountProc);
    s.advance(StepEvent::Completed);
    assert_eq!(s.phase, Phase::UnmountTmp);
    s.advance(StepEvent::Completed);
    assert_eq!(s.phase, Phase::Finished);
    assert_eq!(s.exit_code(), 0);
    assert!(!s.degraded);
}

#[test]
fn workload_status_is_propagated() {
    let mut s = Session::start();
    for _ in 0..6 {
        s.advance(StepEvent::Completed);
    }
    s.advance(StepEvent::WorkloadExited(42));
    s.advance(StepEvent::Completed);
    s.advance(StepEvent::Completed);
    assert_eq!(s.exit_code(), 42);
}

#[test]
fn cleanup_runs_even_when_the_workload_fails() {
    let mut s = Session::start();
    for _ in 0..6 {
        s.advance(StepEvent::Completed);
    }
    s.advance(StepEvent::WorkloadExited(1));
    assert_eq!(s.phase, Phase::UnmountProc);
    s.advance(StepEvent::Failed);
    assert_eq!(s.phase, Phase::UnmountTmp);
    s.advance(StepEvent::Completed);
    assert_eq!(s.phase, Phase::Finished);
    assert_eq!(s.exit_code(), 1);
}

#[test]
fn cleanup_runs_even_when_the_spawn_fails() {
    let mut s = Session::start();
    for _ in 0..6 {
        s.advance(StepEvent::Completed);
    }
    s.advance(StepEvent::SpawnFailed);
    assert_eq!(s.phase, Phase::UnmountProc);
    s.advance(StepEvent::Completed);
    assert_eq!(s.phase, Phase::UnmountTmp);
    s.advance(StepEvent::Completed);
    assert_eq!(s.phase, Phase::Finished);
    assert!(s.spawn_failed);
    assert_eq!(s.exit_code(), 1);
}

#[test]
fn best_effort_failures_do_not_stop_the_run() {
    let mut s = Session::start();
    s.advance(StepEvent::Completed); // cgroup setup
    s.advance(StepEvent::Failed); // hostname: best effort
    s.advance(StepEvent::Completed); // chroot
    s.advance(StepEvent::Failed); // chdir: best effort
    s.advance(StepEvent::Completed); // proc mount
    s.advance(StepEvent::Failed); // tmpfs mount: best effort
    assert_eq!(s.phase, Phase::RunWorkload);
    assert!(s.degraded);
    s.advance(StepEvent::WorkloadExited(0));
    s.advance(StepEvent::Failed);
    s.advance(StepEvent::Failed);
    assert_eq!(s.phase, Phase::Finished);
    assert_eq!(s.exit_code(), 0);
    assert!(s.degraded);
}

#[test]
fn only_the_critical_steps_are_fatal() {
    assert!(!phase_best_effort(Phase::SetupCgroup));
    assert!(phase_best_effort(Phase::SetHostname));
    assert!(!phase_best_effort(Phase::ChrootRoot));
    assert!(phase_best_effort(Phase::ChdirRoot));
    assert!(!phase_best_effort(Phase::MountProc));
    assert!(phase_best_effort(Phase::MountTmp));
    assert!(phase_best_effort(Phase::UnmountProc));
    assert!(phase_best_effort(Phase::UnmountTmp));
    assert!(!phase_best_effort(Phase::RunWorkload));
}

#[test]
fn cgroup_setup_failure_aborts_the_launch() {
    let mut s = Session::start();
    assert_eq!(s.phase, Phase::SetupCgroup);
    s.advance(StepEvent::Failed);
    assert_eq!(s.phase, Phase::Finished);
    assert!(s.setup_failed);
    assert_eq!(s.workload_status, None);
    assert_eq!(s.exit_code(), 1);
}

#[test]
fn chroot_failure_aborts_the_launch() {
    let mut s = Session::start();
    s.advance(StepEvent::Completed); // cgroup setup
    s.advance(StepEvent::Completed); // hostname
    assert_eq!(s.phase, Phase::ChrootRoot);
    s.advance(StepEvent::Failed);
    assert_eq!(s.phase, Phase::Finished);
    assert!(s.setup_failed);
    assert_eq!(s.exit_code(), 1);
}

#[test]
fn proc_mount_failure_aborts_the_launch() {
    let mut s = Session::start();
    for _ in 0..4 {
        s.advance(StepEvent::Completed);
    }
    assert_eq!(s.phase, Phase::MountProc);
    s.advance(StepEvent::Failed);
    assert_eq!(s.phase, Phase::Finished);
    assert!(s.setup_failed);
    assert_eq!(s.workload_status, None);
    assert_eq!(s.exit_code(), 1);
}

#[test]
fn launch_exit_code_propagates_the_child_status() {
    assert_eq!(launch_exit_code(Some(0)), 0);
    assert_eq!(launch_exit_code(Some(7)), 7);
    assert_eq!(launch_exit_code(None), 1);
}

#[test]
fn workload_event_carries_the_status() {
    assert_eq!(workload_event(Some(0)), StepEvent::WorkloadExited(0));
    assert_eq!(workload_event(Some(42)), StepEvent::WorkloadExited(42));
    assert_eq!(workload_event(None), StepEvent::WorkloadExited(1));
}

#[test]
fn run_scenario_echo_hello_reaches_the_workload() {
    // The outer process forwards `echo hello` through the child marker;
    // the inner process splits it back and runs it to a zero exit.
    let argv = launch_argv(strings(&["echo", "hello"]));
    assert_eq!(argv[0], "child");
    let req = split_request(argv[1..].to_vec()).unwrap();
    assert_eq!(req.program, "echo");
    assert_eq!(req.args, strings(&["hello"]));

    let mut s = Session::start();
    for _ in 0..6 {
        s.advance(StepEvent::Completed);
    }
    assert_eq!(s.phase, Phase::RunWorkload);
    s.advance(StepEvent::WorkloadExited(0));
    s.advance(StepEvent::Completed);
    s.advance(StepEvent::Completed);
    assert_eq!(s.exit_code(), 0);
}
