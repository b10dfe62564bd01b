use vstd::prelude::*;

verus! {

/// The four filesystem nodes that the resource limiter touches, all of
/// them under the pids controller of the cgroup hierarchy.
#[derive(Clone, Copy, PartialEq, Eq, Structural, Debug)]
pub enum CgroupNode {
    /// The shared subgroup directory.
    SubgroupDir,
    /// The process-count ceiling file of the subgroup.
    PidsMax,
    /// The release-notification flag file of the subgroup.
    NotifyOnRelease,
    /// The membership list of the subgroup.
    Procs,
}

/// One step of the cgroup setup. The driver performs it with ordinary
/// filesystem calls against the node's path.
pub enum CgroupAction {
    /// Create the directory if it is absent; succeeding on an existing
    /// directory is required (the setup must be idempotent).
    EnsureDir,
    /// Open the control file for writing, creating it if absent.
    OpenFile,
    /// Write exactly these bytes to the control file.
    WriteBytes(Vec<u8>),
    /// Set the node's permission bits.
    SetMode(u32),
}

/// One planned operation: the node, what to do to it, and whether a
/// failure aborts the launch (`fatal`) or is tolerated with a warning.
pub struct CgroupOp {
    pub node: CgroupNode,
    pub action: CgroupAction,
    pub fatal: bool,
}

/// Ghost image of a `CgroupAction`.
pub enum CgroupActionView {
    EnsureDir,
    OpenFile,
    WriteBytes(Seq<u8>),
    SetMode(u32),
}

/// Ghost image of a `CgroupOp`.
pub struct CgroupOpView {
    pub node: CgroupNode,
    pub action: CgroupActionView,
    pub fatal: bool,
}

impl View for CgroupAction {
    type V = CgroupActionView;

    open spec fn view(&self) -> CgroupActionView {
        match self {
            CgroupAction::EnsureDir => CgroupActionView::EnsureDir,
            CgroupAction::OpenFile => CgroupActionView::OpenFile,
            CgroupAction::WriteBytes(c) => CgroupActionView::WriteBytes(c@),
            CgroupAction::SetMode(m) => CgroupActionView::SetMode(*m),
        }
    }
}

impl View for CgroupOp {
    type V = CgroupOpView;

    open spec fn view(&self) -> CgroupOpView {
        CgroupOpView { node: self.node, action: self.action@, fatal: self.fatal }
    }
}

/// The filesystem path of a node, under the conventional cgroup mount
/// point and the pids controller.
pub fn node_path(node: CgroupNode) -> (p: String)
    ensures
        node is SubgroupDir ==> p@ == "/sys/fs/cgroup/pids/dirty"@,
        node is PidsMax ==> p@ == "/sys/fs/cgroup/pids/dirty/pids.max"@,
        node is NotifyOnRelease ==> p@ == "/sys/fs/cgroup/pids/dirty/notify_on_release"@,
        node is Procs ==> p@ == "/sys/fs/cgroup/pids/dirty/cgroup.procs"@,
{
    match node {
        CgroupNode::SubgroupDir => String::from_str("/sys/fs/cgroup/pids/dirty"),
        CgroupNode::PidsMax => String::from_str("/sys/fs/cgroup/pids/dirty/pids.max"),
        CgroupNode::NotifyOnRelease => String::from_str(
            "/sys/fs/cgroup/pids/dirty/notify_on_release",
        ),
        CgroupNode::Procs => String::from_str("/sys/fs/cgroup/pids/dirty/cgroup.procs"),
    }
}

/// The decimal digits of `n`, most significant first, as ASCII bytes:
/// the canonical decimal text of a number.
pub open spec fn dec_digits(n: nat) -> Seq<u8>
    decreases n,
{
    if n < 10 {
        seq![(n + 48) as u8]
    } else {
        dec_digits(n / 10).push(((n % 10) + 48) as u8)
    }
}

/// The number a digit string denotes, reading left to right.
pub open spec fn dec_value(s: Seq<u8>) -> nat
    decreases s.len(),
{
    if s.len() == 0 {
        0
    } else {
        dec_value(s.drop_last()) * 10 + (if s.last() >= 48 {
            (s.last() - 48) as nat
        } else {
            0
        })
    }
}

/// The decimal text of a number denotes that number back: the digit
/// string is a faithful encoding, not a truncation.
pub proof fn lemma_dec_digits_value(n: nat)
    ensures
        dec_value(dec_digits(n)) == n,
        dec_digits(n).len() >= 1,
        forall|i: int| 0 <= i < dec_digits(n).len() ==> 48 <= #[trigger] dec_digits(n)[i] <= 57,
    decreases n,
{
    if n < 10 {
        let d = dec_digits(n);
        assert(d =~= seq![(n + 48) as u8]);
        assert(d.drop_last() =~= Seq::<u8>::empty());
        assert(dec_value(d.drop_last()) == 0);
        assert(d.last() == (n + 48) as u8);
        assert(dec_value(d) == n);
    } else {
        lemma_dec_digits_value(n / 10);
        let d = dec_digits(n);
        assert(d.drop_last() =~= dec_digits(n / 10));
        assert(d.last() == ((n % 10) + 48) as u8);
        assert(dec_value(d) == (n / 10) * 10 + n % 10);
        assert((n / 10) * 10 + n % 10 == n) by (nonlinear_arith);
    }
}

/// The decimal digits of `n`, as the kernel's textual interfaces expect
/// a process id: the full number, never a truncated byte.
pub fn dec_text(n: u32) -> (r: Vec<u8>)
    ensures
        r@ == dec_digits(n as nat),
    decreases n,
{
    if n < 10 {
        let mut v: Vec<u8> = Vec::new();
        v.push((n as u8) + 48);
        proof {
            assert(v@ =~= dec_digits(n as nat));
        }
        v
    } else {
        let mut v = dec_text(n / 10);
        v.push(((n % 10) as u8) + 48);
        v
    }
}

/// The membership record for a process: its decimal pid followed by a
/// newline, the form the kernel's control file takes.
pub open spec fn pid_record_bytes(pid: u32) -> Seq<u8> {
    dec_digits(pid as nat).push(10u8)
}

/// Builds the bytes written to the membership list for `pid`.
pub fn pid_record(pid: u32) -> (r: Vec<u8>)
    ensures
        r@ == pid_record_bytes(pid),
{
    let mut v = dec_text(pid);
    v.push(10u8);
    v
}

/// The fixed process-count ceiling of the subgroup.
pub open spec fn pids_max_bytes() -> Seq<u8> {
    seq![50u8, 48u8]  // the digits "20"
}

/// The release-notification flag value.
pub open spec fn notify_bytes() -> Seq<u8> {
    seq![49u8]  // the digit "1"
}

/// The control values are the decimal texts of the numbers they stand
/// for: the ceiling is twenty processes, the flag is raised.
pub proof fn lemma_control_values()
    ensures
        pids_max_bytes() == dec_digits(20),
        dec_value(pids_max_bytes()) == 20,
        notify_bytes() == dec_digits(1),
        dec_value(notify_bytes()) == 1,
{
    reveal_with_fuel(dec_digits, 3);
    assert(pids_max_bytes() =~= dec_digits(20));
    assert(notify_bytes() =~= dec_digits(1));
    lemma_dec_digits_value(20);
    lemma_dec_digits_value(1);
}

/// The whole cgroup setup for one invocation, in order: ensure the
/// shared subgroup directory, cap its process count at twenty, raise
/// the release-notification flag, and append the current process to the
/// membership list; after each node is written, set its permission
/// bits. Creation and the content writes are fatal on failure;
/// permission bits are best effort.
pub open spec fn spec_cgroup_plan(pid: u32) -> Seq<CgroupOpView> {
    seq![
        CgroupOpView {
            node: CgroupNode::SubgroupDir,
            action: CgroupActionView::EnsureDir,
            fatal: true,
        },
        CgroupOpView {
            node: CgroupNode::SubgroupDir,
            action: CgroupActionView::SetMode(0o755),
            fatal: false,
        },
        CgroupOpView { node: CgroupNode::PidsMax, action: CgroupActionView::OpenFile, fatal: true },
        CgroupOpView {
            node: CgroupNode::PidsMax,
            action: CgroupActionView::WriteBytes(pids_max_bytes()),
            fatal: true,
        },
        CgroupOpView {
            node: CgroupNode::PidsMax,
            action: CgroupActionView::SetMode(0o755),
            fatal: false,
        },
        CgroupOpView {
            node: CgroupNode::NotifyOnRelease,
            action: CgroupActionView::OpenFile,
            fatal: true,
        },
        CgroupOpView {
            node: CgroupNode::NotifyOnRelease,
            action: CgroupActionView::WriteBytes(notify_bytes()),
            fatal: true,
        },
        CgroupOpView {
            node: CgroupNode::NotifyOnRelease,
            action: CgroupActionView::SetMode(0o700),
            fatal: false,
        },
        CgroupOpView { node: CgroupNode::Procs, action: CgroupActionView::OpenFile, fatal: true },
        CgroupOpView {
            node: CgroupNode::Procs,
            action: CgroupActionView::WriteBytes(pid_record_bytes(pid)),
            fatal: true,
        },
        CgroupOpView {
            node: CgroupNode::Procs,
            action: CgroupActionView::SetMode(0o700),
            fatal: false,
        },
    ]
}

/// Builds the ordered operation list that configures the subgroup and
/// attaches `pid` to it.
pub fn cgroup_plan(pid: u32) -> (plan: Vec<CgroupOp>)
    ensures
        plan@.map_values(|op: CgroupOp| op@) == spec_cgroup_plan(pid),
{
    let mut plan: Vec<CgroupOp> = Vec::new();
    plan.push(
        CgroupOp { node: CgroupNode::SubgroupDir, action: CgroupAction::EnsureDir, fatal: true },
    );
    plan.push(
        CgroupOp {
            node: CgroupNode::SubgroupDir,
            action: CgroupAction::SetMode(0o755),
            fatal: false,
        },
    );
    plan.push(CgroupOp { node: CgroupNode::PidsMax, action: CgroupAction::OpenFile, fatal: true });
    let mut max_content: Vec<u8> = Vec::new();
    max_content.push(50u8);
    max_content.push(48u8);
    proof {
        assert(max_content@ =~= pids_max_bytes());
    }
    plan.push(
        CgroupOp {
            node: CgroupNode::PidsMax,
            action: CgroupAction::WriteBytes(max_content),
            fatal: true,
        },
    );
    plan.push(
        CgroupOp { node: CgroupNode::PidsMax, action: CgroupAction::SetMode(0o755), fatal: false },
    );
    plan.push(
        CgroupOp { node: CgroupNode::NotifyOnRelease, action: CgroupAction::OpenFile, fatal: true },
    );
    let mut notify_content: Vec<u8> = Vec::new();
    notify_content.push(49u8);
    proof {
        assert(notify_content@ =~= notify_bytes());
    }
    plan.push(
        CgroupOp {
            node: CgroupNode::NotifyOnRelease,
            action: CgroupAction::WriteBytes(notify_content),
            fatal: true,
        },
    );
    plan.push(
        CgroupOp {
            node: CgroupNode::NotifyOnRelease,
            action: CgroupAction::SetMode(0o700),
            fatal: false,
        },
    );
    plan.push(CgroupOp { node: CgroupNode::Procs, action: CgroupAction::OpenFile, fatal: true });
    plan.push(
        CgroupOp {
            node: CgroupNode::Procs,
            action: CgroupAction::WriteBytes(pid_record(pid)),
            fatal: true,
        },
    );
    plan.push(
        CgroupOp { node: CgroupNode::Procs, action: CgroupAction::SetMode(0o700), fatal: false },
    );
    proof {
        assert(plan@.map_values(|op: CgroupOp| op@) =~= spec_cgroup_plan(pid));
    }
    plan
}

/// Ghost image of the part of the cgroup hierarchy that the setup
/// touches: whether the subgroup directory exists, the contents of its
/// three control files, and the permission bits that were set on each
/// node. The membership list is a sequence because the kernel attaches
/// a written process to the group without detaching the others.
pub struct CgroupStateView {
    pub dir_exists: bool,
    pub pids_max: Option<Seq<u8>>,
    pub notify: Option<Seq<u8>>,
    pub procs: Seq<Seq<u8>>,
    pub dir_mode: Option<u32>,
    pub max_mode: Option<u32>,
    pub notify_mode: Option<u32>,
    pub procs_mode: Option<u32>,
}

/// What one operation does to the hierarchy, as the kernel's
/// interfaces behave: ensuring the directory succeeds whether or not
/// it already exists; opening a control file changes nothing; writing
/// the ceiling or the flag replaces the value; writing the membership
/// list appends the record; setting a mode replaces the bits.
pub open spec fn apply_op_view(s: CgroupStateView, op: CgroupOpView) -> CgroupStateView {
    match op.action {
        CgroupActionView::EnsureDir => CgroupStateView { dir_exists: true, ..s },
        CgroupActionView::OpenFile => s,
        CgroupActionView::WriteBytes(c) => match op.node {
            CgroupNode::SubgroupDir => s,
            CgroupNode::PidsMax => CgroupStateView { pids_max: Some(c), ..s },
            CgroupNode::NotifyOnRelease => CgroupStateView { notify: Some(c), ..s },
            CgroupNode::Procs => CgroupStateView { procs: s.procs.push(c), ..s },
        },
        CgroupActionView::SetMode(m) => match op.node {
            CgroupNode::SubgroupDir => CgroupStateView { dir_mode: Some(m), ..s },
            CgroupNode::PidsMax => CgroupStateView { max_mode: Some(m), ..s },
            CgroupNode::NotifyOnRelease => CgroupStateView { notify_mode: Some(m), ..s },
            CgroupNode::Procs => CgroupStateView { procs_mode: Some(m), ..s },
        },
    }
}

/// The hierarchy after the operations from index `i` on have run, in
/// order.
pub open spec fn apply_ops_from(s: CgroupStateView, ops: Seq<CgroupOpView>, i: int) -> CgroupStateView
    decreases ops.len() - i,
{
    if i < 0 || i >= ops.len() {
        s
    } else {
        apply_ops_from(apply_op_view(s, ops[i]), ops, i + 1)
    }
}

/// The hierarchy after the whole operation list has run.
pub open spec fn apply_ops_view(s: CgroupStateView, ops: Seq<CgroupOpView>) -> CgroupStateView {
    apply_ops_from(s, ops, 0)
}

/// An executable image of the hierarchy, so that the planned setup can
/// be exercised without a kernel.
pub struct CgroupState {
    pub dir_exists: bool,
    pub pids_max: Option<Vec<u8>>,
    pub notify: Option<Vec<u8>>,
    pub procs: Vec<Vec<u8>>,
    pub dir_mode: Option<u32>,
    pub max_mode: Option<u32>,
    pub notify_mode: Option<u32>,
    pub procs_mode: Option<u32>,
}

impl View for CgroupState {
    type V = CgroupStateView;

    open spec fn view(&self) -> CgroupStateView {
        CgroupStateView {
            dir_exists: self.dir_exists,
            pids_max: match self.pids_max {
                Some(v) => Some(v@),
                None => None,
            },
            notify: match self.notify {
                Some(v) => Some(v@),
                None => None,
            },
            procs: self.procs@.map_values(|v: Vec<u8>| v@),
            dir_mode: self.dir_mode,
            max_mode: self.max_mode,
            notify_mode: self.notify_mode,
            procs_mode: self.procs_mode,
        }
    }
}

impl CgroupState {
    /// A hierarchy on which nothing has been set up yet.
    pub fn pristine() -> (s: CgroupState)
        ensures
            s@ == (CgroupStateView {
                dir_exists: false,
                pids_max: None,
                notify: None,
                procs: Seq::<Seq<u8>>::empty(),
                dir_mode: None,
                max_mode: None,
                notify_mode: None,
                procs_mode: None,
            }),
    {
        let s = CgroupState {
            dir_exists: false,
            pids_max: None,
            notify: None,
            procs: Vec::new(),
            dir_mode: None,
            max_mode: None,
            notify_mode: None,
            procs_mode: None,
        };
        proof {
            assert(s@.procs =~= Seq::<Seq<u8>>::empty());
        }
        s
    }

    /// Performs one planned operation on the image.
    pub fn apply_op(&mut self, op: &CgroupOp)
        ensures
            final(self)@ == apply_op_view(old(self)@, op@),
    {
        match &op.action {
            CgroupAction::EnsureDir => {
                self.dir_exists = true;
            },
            CgroupAction::OpenFile => {},
            CgroupAction::WriteBytes(c) => match op.node {
                CgroupNode::SubgroupDir => {},
                CgroupNode::PidsMax => {
                    self.pids_max = Some(copy_bytes(c));
                },
                CgroupNode::NotifyOnRelease => {
                    self.notify = Some(copy_bytes(c));
                },
                CgroupNode::Procs => {
                    self.procs.push(copy_bytes(c));
                    proof {
                        assert(self@.procs =~= old(self)@.procs.push(c@));
                    }
                },
            },
            CgroupAction::SetMode(m) => match op.node {
                CgroupNode::SubgroupDir => {
                    self.dir_mode = Some(*m);
                },
                CgroupNode::PidsMax => {
                    self.max_mode = Some(*m);
                },
                CgroupNode::NotifyOnRelease => {
                    self.notify_mode = Some(*m);
                },
                CgroupNode::Procs => {
                    self.procs_mode = Some(*m);
                },
            },
        }
    }

    /// Performs a whole operation list on the image, in order.
    pub fn apply_plan(&mut self, plan: &Vec<CgroupOp>)
        ensures
            final(self)@ == apply_ops_view(old(self)@, plan@.map_values(|op: CgroupOp| op@)),
    {
        let ghost all = plan@.map_values(|op: CgroupOp| op@);
        let ghost s0 = self@;
        let mut idx: usize = 0;
        while idx < plan.len()
            invariant
                idx <= plan.len(),
                all == plan@.map_values(|op: CgroupOp| op@),
                apply_ops_from(self@, all, idx as int) == apply_ops_from(s0, all, 0),
            decreases plan.len() - idx,
        {
            proof {
                assert(all[idx as int] == plan@[idx as int]@);
            }
            self.apply_op(&plan[idx]);
            idx = idx + 1;
        }
    }
}

/// Copies a byte string, element by element.
fn copy_bytes(v: &Vec<u8>) -> (r: Vec<u8>)
    ensures
        r@ == v@,
{
    let mut r: Vec<u8> = Vec::new();
    let mut i: usize = 0;
    while i < v.len()
        invariant
            i <= v.len(),
            r@ == v@.subrange(0, i as int),
        decreases v.len() - i,
    {
        r.push(v[i]);
        i = i + 1;
        proof {
            assert(r@ =~= v@.subrange(0, i as int));
        }
    }
    proof {
        assert(r@ =~= v@);
    }
    r
}

/// One run of the setup, on any starting hierarchy: afterwards the
/// subgroup exists, its ceiling and flag hold the fixed values, the
/// permission bits are as chosen, and the membership list has gained
/// exactly this invocation's own record.
pub proof fn lemma_cgroup_setup_effect(s0: CgroupStateView, pid: u32)
    ensures
        ({
            let s1 = apply_ops_view(s0, spec_cgroup_plan(pid));
            &&& s1.dir_exists
            &&& s1.pids_max == Some(pids_max_bytes())
            &&& s1.notify == Some(notify_bytes())
            &&& s1.dir_mode == Some(0o755u32)
            &&& s1.max_mode == Some(0o755u32)
            &&& s1.notify_mode == Some(0o700u32)
            &&& s1.procs_mode == Some(0o700u32)
            &&& s1.procs == s0.procs.push(pid_record_bytes(pid))
        }),
{
    reveal_with_fuel(apply_ops_from, 13);
}

/// Running the setup twice in a row is harmless: the second run leaves
/// the directory, the ceiling, the flag and every permission bit
/// exactly as the first run left them, and appends exactly its own
/// membership record after the first run's.
pub proof fn lemma_cgroup_setup_idempotent(s0: CgroupStateView, pid1: u32, pid2: u32)
    ensures
        ({
            let s1 = apply_ops_view(s0, spec_cgroup_plan(pid1));
            let s2 = apply_ops_view(s1, spec_cgroup_plan(pid2));
            &&& s1.dir_exists && s2.dir_exists
            &&& s2.pids_max == s1.pids_max
            &&& s2.notify == s1.notify
            &&& s2.dir_mode == s1.dir_mode
            &&& s2.max_mode == s1.max_mode
            &&& s2.notify_mode == s1.notify_mode
            &&& s2.procs_mode == s1.procs_mode
            &&& s2.procs == s1.procs.push(pid_record_bytes(pid2))
        }),
{
    lemma_cgroup_setup_effect(s0, pid1);
    lemma_cgroup_setup_effect(apply_ops_view(s0, spec_cgroup_plan(pid1)), pid2);
}

} // verus!
