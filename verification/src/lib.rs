//! A minimal process-isolation primitive: given a command and its
//! arguments, launch it inside a fresh UTS/PID/mount namespace set, a
//! chrooted filesystem root and a process-count-limited control group,
//! wait for it, and tear down the mounts that were created.
//!
//! Every operating-system step (namespace request, hostname change,
//! chroot, mount, cgroup file writes, process spawn) is a blocking call
//! that an unverified driver performs. This library holds the verified
//! part: what each step writes, the order the steps must run in, how a
//! step's failure is classified, and what exit status is surfaced.

pub mod cgroup;
pub mod launch;
pub mod session;
