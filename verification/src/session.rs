use vstd::prelude::*;

verus! {

/// The fixed target of the isolation: the directory that becomes the
/// workload's root filesystem. Captured once; the hostname and the two
/// mounts are not configurable.
pub struct IsolationTarget {
    pub root: String,
}

impl IsolationTarget {
    pub fn new(root: String) -> (t: IsolationTarget)
        ensures
            t.root == root,
    {
        IsolationTarget { root }
    }
}

/// The hostname set inside the new UTS namespace.
pub fn hostname_value() -> (h: String)
    ensures
        h@ == "container"@,
{
    String::from_str("container")
}

/// The working directory entered right after the root change.
pub fn workdir_path() -> (p: String)
    ensures
        p@ == "/"@,
{
    String::from_str("/")
}

/// One mount to perform: a source, a target path inside the new root,
/// and a filesystem type.
pub struct MountSpec {
    pub source: String,
    pub target: String,
    pub fstype: String,
}

/// The fresh proc filesystem mounted over `/proc` inside the new root.
pub fn proc_mount() -> (m: MountSpec)
    ensures
        m.source@ == "proc"@,
        m.target@ == "/proc"@,
        m.fstype@ == "proc"@,
{
    MountSpec {
        source: String::from_str("proc"),
        target: String::from_str("/proc"),
        fstype: String::from_str("proc"),
    }
}

/// The fresh tmpfs mounted over `/tmp` inside the new root.
pub fn tmp_mount() -> (m: MountSpec)
    ensures
        m.source@ == "tmpfs"@,
        m.target@ == "/tmp"@,
        m.fstype@ == "tmpfs"@,
{
    MountSpec {
        source: String::from_str("tmpfs"),
        target: String::from_str("/tmp"),
        fstype: String::from_str("tmpfs"),
    }
}

/// The steps of the child-mode process, in the only order that keeps
/// the isolation sound: the cgroup membership must be in place before
/// the workload exists, the root change must precede the working-
/// directory change, and both must precede the mounts, whose targets
/// are paths inside the new root; the workload runs only after the
/// mounts; the unmounts follow the workload whatever became of it.
/// Each phase names the operation the driver must perform next;
/// `Finished` means nothing is left but reporting the exit status.
#[derive(Clone, Copy, PartialEq, Eq, Structural, Debug)]
pub enum Phase {
    SetupCgroup,
    SetHostname,
    ChrootRoot,
    ChdirRoot,
    MountProc,
    MountTmp,
    RunWorkload,
    UnmountProc,
    UnmountTmp,
    Finished,
}

/// What the driver reports back after performing the current phase's
/// operation. `Completed` and `Failed` answer every phase but the
/// workload run, which answers with the workload's own exit status or
/// with the failure to spawn it at all.
#[derive(Clone, Copy, PartialEq, Eq, Structural, Debug)]
pub enum StepEvent {
    Completed,
    Failed,
    WorkloadExited(i32),
    SpawnFailed,
}

/// How far each phase stands from the start.
pub open spec fn phase_index(p: Phase) -> int {
    match p {
        Phase::SetupCgroup => 0,
        Phase::SetHostname => 1,
        Phase::ChrootRoot => 2,
        Phase::ChdirRoot => 3,
        Phase::MountProc => 4,
        Phase::MountTmp => 5,
        Phase::RunWorkload => 6,
        Phase::UnmountProc => 7,
        Phase::UnmountTmp => 8,
        Phase::Finished => 9,
    }
}

/// The phase that follows `p` when its step went through. `Finished`
/// has no successor.
pub open spec fn next_phase(p: Phase) -> Phase {
    match p {
        Phase::SetupCgroup => Phase::SetHostname,
        Phase::SetHostname => Phase::ChrootRoot,
        Phase::ChrootRoot => Phase::ChdirRoot,
        Phase::ChdirRoot => Phase::MountProc,
        Phase::MountProc => Phase::MountTmp,
        Phase::MountTmp => Phase::RunWorkload,
        Phase::RunWorkload => Phase::UnmountProc,
        Phase::UnmountProc => Phase::UnmountTmp,
        Phase::UnmountTmp => Phase::Finished,
        Phase::Finished => Phase::Finished,
    }
}

/// Which events answer which phase.
pub open spec fn event_fits(p: Phase, ev: StepEvent) -> bool {
    match p {
        Phase::RunWorkload => ev is WorkloadExited || ev is SpawnFailed,
        Phase::Finished => false,
        _ => ev is Completed || ev is Failed,
    }
}

/// The steps whose failure breaks the isolation outright: without the
/// cgroup membership the process-count limit is not enforced on the
/// workload, a failed root change leaves the workload on the host's
/// filesystem, and a missing fresh `/proc` breaks most userland
/// tooling. A failure of any of these must fail the whole launch.
pub open spec fn phase_is_critical(p: Phase) -> bool {
    match p {
        Phase::SetupCgroup => true,
        Phase::ChrootRoot => true,
        Phase::MountProc => true,
        _ => false,
    }
}

/// Whether a failure of this phase's operation is tolerated: the
/// hostname, the working-directory change, the tmpfs mount and the
/// unmounts are best effort — the failure is reported as a warning and
/// the sequence goes on — while the critical steps abort the launch
/// and a failure to spawn the workload is fatal for the invocation,
/// though the unmounts still run before it is surfaced.
pub open spec fn phase_is_best_effort(p: Phase) -> bool {
    match p {
        Phase::SetHostname => true,
        Phase::ChdirRoot => true,
        Phase::MountTmp => true,
        Phase::UnmountProc => true,
        Phase::UnmountTmp => true,
        _ => false,
    }
}

/// Executable twin of `phase_is_best_effort`.
pub fn phase_best_effort(p: Phase) -> (r: bool)
    ensures
        r == phase_is_best_effort(p),
{
    match p {
        Phase::SetHostname => true,
        Phase::ChdirRoot => true,
        Phase::MountTmp => true,
        Phase::UnmountProc => true,
        Phase::UnmountTmp => true,
        _ => false,
    }
}

/// The state of one child-mode run: the pending phase, the workload's
/// exit status once it is known, whether the spawn failed, whether a
/// critical setup step failed and aborted the launch, and whether any
/// best-effort step failed along the way (partial isolation, to be
/// surfaced as a warning).
pub struct Session {
    pub phase: Phase,
    pub workload_status: Option<i32>,
    pub spawn_failed: bool,
    pub setup_failed: bool,
    pub degraded: bool,
}

/// A session is well formed when what it records matches how far it
/// has come: an aborted setup stands only at the end, with no workload
/// outcome; no status before the workload ran; afterwards, exactly one
/// of an exit status or a failed spawn.
pub open spec fn session_wf(s: Session) -> bool {
    &&& s.setup_failed ==> s.phase is Finished && s.workload_status is None && !s.spawn_failed
    &&& phase_index(s.phase) <= 6 ==> s.workload_status is None && !s.spawn_failed
    &&& phase_index(s.phase) > 6 && !s.setup_failed ==> (s.workload_status is Some
        <==> !s.spawn_failed)
}

/// The session after one event. A failed critical step aborts the
/// launch: the machine moves straight to `Finished` with the setup
/// marked failed, and no workload is ever reached. Every other event
/// advances the phase by exactly one step, recording the workload's
/// outcome when it arrives.
pub open spec fn spec_advance(s: Session, ev: StepEvent) -> Session {
    if phase_is_critical(s.phase) && ev is Failed {
        Session {
            phase: Phase::Finished,
            workload_status: s.workload_status,
            spawn_failed: s.spawn_failed,
            setup_failed: true,
            degraded: s.degraded,
        }
    } else {
        Session {
            phase: next_phase(s.phase),
            workload_status: if s.phase is RunWorkload && ev is WorkloadExited {
                Some(ev->WorkloadExited_0)
            } else {
                s.workload_status
            },
            spawn_failed: s.spawn_failed || (s.phase is RunWorkload && ev is SpawnFailed),
            setup_failed: s.setup_failed,
            degraded: s.degraded || ev is Failed,
        }
    }
}

/// The start state, for use in specifications.
pub open spec fn spec_start() -> Session {
    Session {
        phase: Phase::SetupCgroup,
        workload_status: None,
        spawn_failed: false,
        setup_failed: false,
        degraded: false,
    }
}

impl Session {
    /// A run that has not performed anything yet.
    pub fn start() -> (s: Session)
        ensures
            s == spec_start(),
            session_wf(s),
    {
        Session {
            phase: Phase::SetupCgroup,
            workload_status: None,
            spawn_failed: false,
            setup_failed: false,
            degraded: false,
        }
    }

    /// Consumes the outcome of the current phase's operation and moves
    /// on: to the next phase, or to the aborted end when a critical
    /// step failed.
    pub fn advance(&mut self, ev: StepEvent)
        requires
            event_fits(old(self).phase, ev),
            session_wf(*old(self)),
        ensures
            *final(self) == spec_advance(*old(self), ev),
            session_wf(*final(self)),
    {
        let critical = match self.phase {
            Phase::SetupCgroup => true,
            Phase::ChrootRoot => true,
            Phase::MountProc => true,
            _ => false,
        };
        if critical && matches!(ev, StepEvent::Failed) {
            self.setup_failed = true;
            self.phase = Phase::Finished;
            return ;
        }
        if matches!(self.phase, Phase::RunWorkload) {
            match ev {
                StepEvent::WorkloadExited(code) => {
                    self.workload_status = Some(code);
                },
                StepEvent::SpawnFailed => {
                    self.spawn_failed = true;
                },
                _ => {},
            }
        }
        if matches!(ev, StepEvent::Failed) {
            self.degraded = true;
        }
        self.phase = match self.phase {
            Phase::SetupCgroup => Phase::SetHostname,
            Phase::SetHostname => Phase::ChrootRoot,
            Phase::ChrootRoot => Phase::ChdirRoot,
            Phase::ChdirRoot => Phase::MountProc,
            Phase::MountProc => Phase::MountTmp,
            Phase::MountTmp => Phase::RunWorkload,
            Phase::RunWorkload => Phase::UnmountProc,
            Phase::UnmountProc => Phase::UnmountTmp,
            Phase::UnmountTmp => Phase::Finished,
            Phase::Finished => Phase::Finished,
        };
    }

    /// The exit status the tool itself reports once the run is over:
    /// the workload's own status, propagated end to end, or one when a
    /// critical setup step failed or the workload could not be spawned
    /// at all. Zero is reported only for a workload that ran and
    /// exited with zero.
    pub fn exit_code(&self) -> (code: i32)
        requires
            self.phase is Finished,
            session_wf(*self),
        ensures
            self.spawn_failed ==> code == 1,
            self.setup_failed ==> code == 1,
            self.workload_status matches Some(st) ==> code == st,
            code == 0 ==> self.workload_status == Some(0i32) && !self.spawn_failed
                && !self.setup_failed,
    {
        match self.workload_status {
            Some(st) => st,
            None => 1,
        }
    }
}

/// The event reported for a workload that ran to completion: its own
/// exit status where the system gives one, or one where a signal ended
/// the workload and left none.
pub fn workload_event(status: Option<i32>) -> (ev: StepEvent)
    ensures
        status matches Some(st) ==> ev == StepEvent::WorkloadExited(st),
        status is None ==> ev == StepEvent::WorkloadExited(1i32),
{
    match status {
        Some(st) => StepEvent::WorkloadExited(st),
        None => StepEvent::WorkloadExited(1),
    }
}

/// The session after consuming the events from index `i` up to `n`,
/// in order, starting at `s`.
pub open spec fn session_upto(s: Session, evs: Seq<StepEvent>, i: int, n: int) -> Session
    decreases n - i,
{
    if i < 0 || i >= n || i >= evs.len() {
        s
    } else {
        session_upto(spec_advance(s, evs[i]), evs, i + 1, n)
    }
}

/// The session after the first `n` events, from the start state.
pub open spec fn session_at(evs: Seq<StepEvent>, n: int) -> Session {
    session_upto(spec_start(), evs, 0, n)
}

/// The session after a whole event sequence, from the start state.
pub open spec fn run_trace(evs: Seq<StepEvent>) -> Session {
    session_at(evs, evs.len() as int)
}

/// A sequence of events answers the machine step by step: each event
/// fits the phase the machine is in when it arrives.
pub open spec fn trace_fits(s: Session, evs: Seq<StepEvent>, i: int) -> bool
    decreases evs.len() - i,
{
    i >= evs.len() || (0 <= i && event_fits(s.phase, evs[i]) && trace_fits(
        spec_advance(s, evs[i]),
        evs,
        i + 1,
    ))
}

/// Consuming one more event is one more step of the machine.
proof fn lemma_upto_snoc(s: Session, evs: Seq<StepEvent>, i: int, n: int)
    requires
        0 <= i <= n < evs.len(),
    ensures
        session_upto(s, evs, i, n + 1) == spec_advance(session_upto(s, evs, i, n), evs[n]),
    decreases n - i,
{
    if i < n {
        lemma_upto_snoc(spec_advance(s, evs[i]), evs, i + 1, n);
    } else {
        assert(session_upto(spec_advance(s, evs[n]), evs, n + 1, n + 1) == spec_advance(
            s,
            evs[n],
        ));
        assert(session_upto(s, evs, n, n + 1) == spec_advance(s, evs[n]));
    }
}

/// A valid trace stays valid from any point the machine has reached.
proof fn lemma_suffix_valid(s: Session, evs: Seq<StepEvent>, i: int, n: int)
    requires
        0 <= i <= n <= evs.len(),
        trace_fits(s, evs, i),
    ensures
        trace_fits(session_upto(s, evs, i, n), evs, n),
    decreases n - i,
{
    if i < n {
        lemma_suffix_valid(spec_advance(s, evs[i]), evs, i + 1, n);
    }
}

/// In a valid trace the machine moves exactly one phase per event and
/// skips none; only the end of the run — finished, or aborted by a
/// failed critical step — breaks the count.
pub proof fn lemma_one_phase_per_event(s: Session, evs: Seq<StepEvent>, i: int, n: int)
    requires
        0 <= i <= n <= evs.len(),
        trace_fits(s, evs, i),
    ensures
        session_upto(s, evs, i, n).phase is Finished || phase_index(session_upto(s, evs, i, n).phase)
            == phase_index(s.phase) + (n - i),
    decreases n - i,
{
    if i < n {
        lemma_one_phase_per_event(spec_advance(s, evs[i]), evs, i + 1, n);
    }
}

/// The phase the machine stands in after `k` events of a valid trace,
/// with `k` events still ahead: not yet finished, exactly `k` steps
/// in, about to consume an event that fits, and one more event is one
/// more step.
proof fn lemma_midstate(evs: Seq<StepEvent>, k: int)
    requires
        trace_fits(spec_start(), evs, 0),
        0 <= k < evs.len(),
    ensures
        !(session_at(evs, k).phase is Finished),
        phase_index(session_at(evs, k).phase) == k,
        event_fits(session_at(evs, k).phase, evs[k]),
        session_at(evs, k + 1) == spec_advance(session_at(evs, k), evs[k]),
{
    lemma_suffix_valid(spec_start(), evs, 0, k);
    lemma_one_phase_per_event(spec_start(), evs, 0, k);
    lemma_upto_snoc(spec_start(), evs, 0, k);
}

/// The workload step is reached only after every setup step before it
/// was driven and answered, in order, and only when each critical step
/// — the cgroup setup, the root change, and the proc mount — reported
/// success; a failure of any of them ends the launch before a workload
/// exists. A workload can therefore not be spawned before the proc
/// mount was attempted and succeeded.
pub proof fn lemma_workload_after_setup(evs: Seq<StepEvent>)
    requires
        trace_fits(spec_start(), evs, 0),
        run_trace(evs).phase is RunWorkload,
    ensures
        evs.len() == 6,
        session_at(evs, 0).phase is SetupCgroup,
        session_at(evs, 1).phase is SetHostname,
        session_at(evs, 2).phase is ChrootRoot,
        session_at(evs, 3).phase is ChdirRoot,
        session_at(evs, 4).phase is MountProc,
        session_at(evs, 5).phase is MountTmp,
        evs[0] is Completed,
        evs[2] is Completed,
        evs[4] is Completed,
{
    lemma_one_phase_per_event(spec_start(), evs, 0, evs.len() as int);
    lemma_midstate(evs, 0);
    lemma_midstate(evs, 1);
    lemma_midstate(evs, 2);
    lemma_midstate(evs, 3);
    lemma_midstate(evs, 4);
    lemma_midstate(evs, 5);
    if evs[0] is Failed {
        assert(session_at(evs, 1).phase is Finished);
    }
    if evs[2] is Failed {
        assert(session_at(evs, 3).phase is Finished);
    }
    if evs[4] is Failed {
        assert(session_at(evs, 5).phase is Finished);
    }
}

/// The cgroup invariant at the machine level: before any workload is
/// spawned, the cgroup setup step has been driven and has succeeded,
/// so the subgroup exists and the current process stands in its
/// membership list — what one successful run of the setup establishes
/// is `crate::cgroup::lemma_cgroup_setup_effect`.
pub proof fn lemma_cgroup_attach_before_workload(evs: Seq<StepEvent>)
    requires
        trace_fits(spec_start(), evs, 0),
        run_trace(evs).phase is RunWorkload,
    ensures
        evs.len() >= 1,
        session_at(evs, 0).phase is SetupCgroup,
        evs[0] is Completed,
{
    lemma_workload_after_setup(evs);
}

/// A failed critical step ends the launch at once: the machine moves
/// straight to the finished state with the setup marked failed, no
/// workload outcome is ever recorded, and `exit_code` is then bound to
/// report one, never zero.
pub proof fn lemma_critical_failure_aborts(s: Session, ev: StepEvent)
    requires
        session_wf(s),
        phase_is_critical(s.phase),
        ev is Failed,
    ensures
        ({
            let s1 = spec_advance(s, ev);
            &&& s1.phase is Finished
            &&& s1.setup_failed
            &&& s1.workload_status is None
            &&& session_wf(s1)
        }),
{
}

/// Whatever becomes of the workload — any exit status, zero or not, or
/// no spawn at all — the machine demands the unmount of `/proc` and
/// then of `/tmp` before it finishes, and carries the outcome through
/// to the end unchanged.
pub proof fn lemma_cleanup_always_runs(s: Session, outcome: StepEvent, u1: StepEvent, u2: StepEvent)
    requires
        session_wf(s),
        s.phase is RunWorkload,
        event_fits(Phase::RunWorkload, outcome),
        u1 is Completed || u1 is Failed,
        u2 is Completed || u2 is Failed,
    ensures
        ({
            let s1 = spec_advance(s, outcome);
            let s2 = spec_advance(s1, u1);
            let s3 = spec_advance(s2, u2);
            &&& s1.phase is UnmountProc
            &&& s2.phase is UnmountTmp
            &&& s3.phase is Finished
            &&& session_wf(s3)
            &&& !s3.setup_failed
            &&& outcome matches StepEvent::WorkloadExited(st) ==> s3.workload_status == Some(st)
                && !s3.spawn_failed
            &&& outcome is SpawnFailed ==> s3.spawn_failed && s3.workload_status is None
        }),
{
}

} // verus!
