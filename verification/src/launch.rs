use vstd::prelude::*;

verus! {

/// The workload captured from the caller: the program to run inside the
/// container and the arguments handed to it. Immutable once built; the
/// driver passes it through to the spawn step unchanged.
pub struct ContainerRequest {
    pub program: String,
    pub args: Vec<String>,
}

impl ContainerRequest {
    pub fn new(program: String, args: Vec<String>) -> (r: ContainerRequest)
        ensures
            r.program == program,
            r.args == args,
    {
        ContainerRequest { program, args }
    }
}

/// Splits the argument list handed to the child-mode process into the
/// workload: the first entry names the program, the rest are its
/// arguments. `None` exactly when no program was named, which the
/// caller must treat as a fatal usage error.
pub fn split_request(args: Vec<String>) -> (r: Option<ContainerRequest>)
    ensures
        r is None <==> args@.len() == 0,
        r matches Some(req) ==> {
            &&& req.program == args@[0]
            &&& req.args@ == args@.subrange(1, args@.len() as int)
        },
{
    if args.len() == 0 {
        None
    } else {
        let mut rest = args;
        let program = rest.remove(0);
        Some(ContainerRequest { program, args: rest })
    }
}

/// Builds the argument list for the re-exec of this binary: the
/// child-mode marker first, then the caller's arguments unchanged, in
/// order.
pub fn launch_argv(forwarded: Vec<String>) -> (argv: Vec<String>)
    ensures
        argv@.len() == forwarded@.len() + 1,
        argv@[0]@ == "child"@,
        forall|i: int| 0 <= i < forwarded@.len() ==> argv@[i + 1] == forwarded@[i],
{
    let mut argv = forwarded;
    argv.insert(0, String::from_str("child"));
    argv
}

/// The exit status the outer process surfaces once its child-mode
/// process is gone: the child's own status, propagated unchanged, or
/// one when the child could not be started or waited for, or a signal
/// ended it and left no status.
pub fn launch_exit_code(child_status: Option<i32>) -> (code: i32)
    ensures
        child_status matches Some(st) ==> code == st,
        child_status is None ==> code == 1,
{
    match child_status {
        Some(st) => st,
        None => 1,
    }
}

/// Clone-flag bit for a new UTS (hostname) namespace, as Linux defines it.
pub const NEWUTS_FLAG: u32 = 0x0400_0000;

/// Clone-flag bit for a new PID namespace, as Linux defines it.
pub const NEWPID_FLAG: u32 = 0x2000_0000;

/// Clone-flag bit for a new mount namespace, as Linux defines it.
pub const NEWNS_FLAG: u32 = 0x0002_0000;

/// The namespace set requested for the child image: UTS, PID and mount,
/// and nothing else. The set is fixed by design; no invocation may pick
/// another one. The mask fits in a signed 32-bit flags argument.
pub fn namespace_mask() -> (mask: u32)
    ensures
        mask == NEWUTS_FLAG | NEWPID_FLAG | NEWNS_FLAG,
        mask & NEWUTS_FLAG == NEWUTS_FLAG,
        mask & NEWPID_FLAG == NEWPID_FLAG,
        mask & NEWNS_FLAG == NEWNS_FLAG,
        mask == 0x2402_0000,
        mask < 0x8000_0000,
{
    proof {
        assert((0x0400_0000u32 | 0x2000_0000u32 | 0x0002_0000u32) == 0x2402_0000u32)
            by (bit_vector);
        assert(0x2402_0000u32 & 0x0400_0000u32 == 0x0400_0000u32) by (bit_vector);
        assert(0x2402_0000u32 & 0x2000_0000u32 == 0x2000_0000u32) by (bit_vector);
        assert(0x2402_0000u32 & 0x0002_0000u32 == 0x0002_0000u32) by (bit_vector);
    }
    NEWUTS_FLAG | NEWPID_FLAG | NEWNS_FLAG
}

} // verus!
