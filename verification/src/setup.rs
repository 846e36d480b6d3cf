//! The sandbox builder's plan.
//!
//! Turning a process and an unpacked root directory into a running
//! in-sandbox init is a fixed sequence of namespace, mount and identity
//! operations whose order carries the correctness: the id-map barrier must
//! stand between entering the user namespace and the first operation that
//! needs a mapped identity, and only the process that is PID 1 of the new
//! pid namespace may exec the init.  The sequences and their ordering laws
//! live here; the process that walks them performs each step and aborts
//! with the reserved status when one fails.

use vstd::prelude::*;
use vstd::string::StrSliceExecFns;
use vstd::utf8::encode_utf8;

use crate::num::{dec_string, spec_dec_digits};

verus! {

/// Clone flags of the namespaces the sandbox enters (Linux ABI values).
pub const CLONE_NEWNS: u64 = 0x00020000;

pub const CLONE_NEWUTS: u64 = 0x04000000;

pub const CLONE_NEWIPC: u64 = 0x08000000;

pub const CLONE_NEWUSER: u64 = 0x10000000;

pub const CLONE_NEWPID: u64 = 0x20000000;

/// Mount flags (Linux ABI values).
pub const MS_NOSUID: u64 = 0x2;

pub const MS_REMOUNT: u64 = 0x20;

pub const MS_BIND: u64 = 0x1000;

pub const MS_REC: u64 = 0x4000;

pub const MS_PRIVATE: u64 = 0x40000;

/// umount2 flag for a lazy detach (Linux ABI value).
pub const MNT_DETACH: u64 = 0x2;

/// Exit status of the fork parent when the child's wait status was not a
/// plain exit.
pub const EXIT_BAD_WAIT: i32 = 66;

/// Exit status of a child whose setup failed.
pub const EXIT_SETUP_FAILED: i32 = 67;

/// Mode of the init binary the host copies into the sandbox root.
pub const INIT_FILE_MODE: u32 = 0o755;

/// One operation of the setup sequence.  The executor maps each variant to
/// its syscall; the variants that mention no path operate on the fixed
/// names they describe, relative to the sandbox root after `EnterRoot`.
#[derive(Copy, Clone, Debug, PartialEq, Eq, Structural)]
pub enum SetupStep {
    /// Reopen descriptor 0 from /dev/null, severing the inherited stdin.
    ReopenStdinNull,
    /// unshare(2) with these clone flags: fresh IPC, mount, pid, user and
    /// UTS namespaces, atomically.
    Unshare { flags: u64 },
    /// Set mount propagation of / to recursive-private.
    MakeRootRecPrivate { flags: u64 },
    /// Bind-mount the sandbox root onto itself.
    BindRootOnSelf { flags: u64 },
    /// Change directory into the sandbox root.
    EnterRoot,
    /// Remove and recreate `.host-proc` as a mount point, with this mode.
    MakeHostProcDir { mode: u32 },
    /// Bind the host's /proc onto `.host-proc`; without a visible proc the
    /// kernel refuses the later fresh proc mount.
    BindHostProc { flags: u64 },
    /// Bind the host's /sys onto `sys`.
    BindSys { flags: u64 },
    /// Create an empty `dev/null` file to mount onto.
    TouchDevNull,
    /// Bind the host's /dev/null onto `dev/null`.
    BindDevNull { flags: u64 },
    /// Send the map request and block until the map reply: the host runs
    /// the id-mapping helpers while this barrier holds.
    AwaitIdMaps,
    /// setresuid: real, effective and saved uid all to this id.
    SetResUid { uid: u64 },
    /// setresgid: real, effective and saved gid all to this id.
    SetResGid { gid: u64 },
    /// Install this single supplementary group.
    SetGroups { gid: u64 },
    /// Remove and recreate `old` as a mount point, with this mode.
    MakeOldDir { mode: u32 },
    /// pivot_root(".", "old").
    PivotIntoRoot,
    /// Lazily detach the `old` mount.
    DetachOld { flags: u64 },
    /// Remove the `old` directory.
    RemoveOldDir,
    /// Fork.  The parent waits for the child and exits with the child's
    /// status (or `EXIT_BAD_WAIT`); the child is PID 1 of the new pid
    /// namespace and walks the pid-1 steps.
    ForkAndWait,
    /// Abort unless getpid() reports 1.
    RequirePidOne,
    /// Abort unless /bin is a directory of the pivoted root.
    RequireBinDir,
    /// Abort unless /bin/finit is a regular file.
    RequireInitFile,
    /// chmod /tmp to this mode.
    FixTmpMode { mode: u32 },
    /// chmod /var/tmp to this mode.
    FixVarTmpMode { mode: u32 },
    /// Mount a fresh proc filesystem on /proc.
    MountProc { flags: u64 },
    /// Lazily detach `.host-proc`.
    DetachHostProc { flags: u64 },
    /// Remove the `.host-proc` directory.
    RemoveHostProcDir,
    /// Remount / to finalise its flags.
    RemountRoot { flags: u64 },
    /// dup both pipe ends (stripping close-on-exec) and exec /bin/finit
    /// with the two descriptor numbers as decimal argv.
    ExecInit,
}

/// The steps of the first-fork child, from severing stdin up to the second
/// fork, in the order they must run.
pub open spec fn spec_first_child_steps() -> Seq<SetupStep> {
    seq![
        SetupStep::ReopenStdinNull,
        SetupStep::Unshare {
            flags: CLONE_NEWIPC | CLONE_NEWNS | CLONE_NEWPID | CLONE_NEWUSER | CLONE_NEWUTS,
        },
        SetupStep::MakeRootRecPrivate { flags: MS_REC | MS_PRIVATE },
        SetupStep::BindRootOnSelf { flags: MS_BIND | MS_NOSUID },
        SetupStep::EnterRoot,
        SetupStep::MakeHostProcDir { mode: 0o644 },
        SetupStep::BindHostProc { flags: MS_BIND | MS_REC },
        SetupStep::BindSys { flags: MS_BIND | MS_REC },
        SetupStep::TouchDevNull,
        SetupStep::BindDevNull { flags: MS_BIND },
        SetupStep::AwaitIdMaps,
        SetupStep::SetResUid { uid: 0 },
        SetupStep::SetResGid { gid: 0 },
        SetupStep::SetGroups { gid: 0 },
        SetupStep::MakeOldDir { mode: 0o644 },
        SetupStep::PivotIntoRoot,
        SetupStep::DetachOld { flags: MNT_DETACH },
        SetupStep::RemoveOldDir,
        SetupStep::ForkAndWait,
    ]
}

/// The steps of the inner child, which is PID 1 of the new pid namespace,
/// up to and including the exec of the init binary.
pub open spec fn spec_pid_one_steps() -> Seq<SetupStep> {
    seq![
        SetupStep::RequirePidOne,
        SetupStep::RequireBinDir,
        SetupStep::RequireInitFile,
        SetupStep::FixTmpMode { mode: 0o1777 },
        SetupStep::FixVarTmpMode { mode: 0o1777 },
        SetupStep::MountProc { flags: MS_NOSUID },
        SetupStep::DetachHostProc { flags: MNT_DETACH },
        SetupStep::RemoveHostProcDir,
        SetupStep::RemountRoot { flags: MS_BIND | MS_NOSUID | MS_REMOUNT },
        SetupStep::ExecInit,
    ]
}

/// The first-fork child's plan.
pub fn first_child_steps() -> (r: Vec<SetupStep>)
    ensures
        r@ == spec_first_child_steps(),
{
    let mut r: Vec<SetupStep> = Vec::new();
    r.push(SetupStep::ReopenStdinNull);
    r.push(
        SetupStep::Unshare {
            flags: CLONE_NEWIPC | CLONE_NEWNS | CLONE_NEWPID | CLONE_NEWUSER | CLONE_NEWUTS,
        },
    );
    r.push(SetupStep::MakeRootRecPrivate { flags: MS_REC | MS_PRIVATE });
    r.push(SetupStep::BindRootOnSelf { flags: MS_BIND | MS_NOSUID });
    r.push(SetupStep::EnterRoot);
    r.push(SetupStep::MakeHostProcDir { mode: 0o644 });
    r.push(SetupStep::BindHostProc { flags: MS_BIND | MS_REC });
    r.push(SetupStep::BindSys { flags: MS_BIND | MS_REC });
    r.push(SetupStep::TouchDevNull);
    r.push(SetupStep::BindDevNull { flags: MS_BIND });
    r.push(SetupStep::AwaitIdMaps);
    r.push(SetupStep::SetResUid { uid: 0 });
    r.push(SetupStep::SetResGid { gid: 0 });
    r.push(SetupStep::SetGroups { gid: 0 });
    r.push(SetupStep::MakeOldDir { mode: 0o644 });
    r.push(SetupStep::PivotIntoRoot);
    r.push(SetupStep::DetachOld { flags: MNT_DETACH });
    r.push(SetupStep::RemoveOldDir);
    r.push(SetupStep::ForkAndWait);
    proof {
        assert(r@ =~= spec_first_child_steps());
    }
    r
}

/// The inner (PID 1) child's plan.
pub fn pid_one_steps() -> (r: Vec<SetupStep>)
    ensures
        r@ == spec_pid_one_steps(),
{
    let mut r: Vec<SetupStep> = Vec::new();
    r.push(SetupStep::RequirePidOne);
    r.push(SetupStep::RequireBinDir);
    r.push(SetupStep::RequireInitFile);
    r.push(SetupStep::FixTmpMode { mode: 0o1777 });
    r.push(SetupStep::FixVarTmpMode { mode: 0o1777 });
    r.push(SetupStep::MountProc { flags: MS_NOSUID });
    r.push(SetupStep::DetachHostProc { flags: MNT_DETACH });
    r.push(SetupStep::RemoveHostProcDir);
    r.push(SetupStep::RemountRoot { flags: MS_BIND | MS_NOSUID | MS_REMOUNT });
    r.push(SetupStep::ExecInit);
    proof {
        assert(r@ =~= spec_pid_one_steps());
    }
    r
}

/// The steps that presume the id mapping is installed: operations that need
/// a resolved uid inside the fresh user namespace.
pub open spec fn spec_needs_mapped_identity(step: SetupStep) -> bool {
    ||| step is SetResUid
    ||| step is SetResGid
    ||| step is SetGroups
    ||| step is PivotIntoRoot
    ||| step is ForkAndWait
}

/// Ordering invariant of the first-fork child: the namespaces are entered
/// first (the user namespace among them), the id-map barrier follows, and
/// every operation that needs a mapped identity comes only after the
/// barrier.  The barrier appears exactly once.
pub proof fn lemma_barrier_between_unshare_and_identity()
    ensures
        ({
            let s = spec_first_child_steps();
            &&& s[1] matches SetupStep::Unshare { flags } && flags & CLONE_NEWUSER != 0
            &&& s[10] == SetupStep::AwaitIdMaps
            &&& forall|k: int| 0 <= k < s.len() && k != 10 ==> s[k] != SetupStep::AwaitIdMaps
            &&& forall|k: int|
                0 <= k < s.len() && spec_needs_mapped_identity(#[trigger] s[k]) ==> k > 10
        }),
{
    let s = spec_first_child_steps();
    assert((0x08000000u64 | 0x00020000u64 | 0x20000000u64 | 0x10000000u64 | 0x04000000u64)
        & 0x10000000u64 != 0) by (bit_vector);
    assert forall|k: int| 0 <= k < s.len() && k != 10 implies s[k] != SetupStep::AwaitIdMaps by {
        assert(s.len() == 19);
    }
    assert forall|k: int|
        0 <= k < s.len() && spec_needs_mapped_identity(#[trigger] s[k]) implies k > 10 by {
        assert(s.len() == 19);
    }
}

/// Only the inner child execs the init: the first-fork plan never execs,
/// the PID 1 plan begins by asserting it is PID 1 and ends with the exec,
/// and execs nowhere earlier.  This is what makes the process that loads
/// the init binary PID 1 of the sandbox.
pub proof fn lemma_exec_only_as_pid_one()
    ensures
        forall|k: int|
            0 <= k < spec_first_child_steps().len() ==> #[trigger] spec_first_child_steps()[k]
                != SetupStep::ExecInit,
        spec_pid_one_steps()[0] == SetupStep::RequirePidOne,
        spec_pid_one_steps().last() == SetupStep::ExecInit,
        forall|k: int|
            0 <= k < spec_pid_one_steps().len() && #[trigger] spec_pid_one_steps()[k]
                == SetupStep::ExecInit ==> k == spec_pid_one_steps().len() - 1,
{
    let s = spec_first_child_steps();
    let p = spec_pid_one_steps();
    assert forall|k: int| 0 <= k < s.len() implies #[trigger] s[k] != SetupStep::ExecInit by {
        assert(s.len() == 19);
    }
    assert forall|k: int|
        0 <= k < p.len() && #[trigger] p[k] == SetupStep::ExecInit implies k == p.len() - 1 by {
        assert(p.len() == 10);
    }
}

/// The four bytes the first-fork child sends to ask for its id maps.
pub open spec fn spec_map_request() -> Seq<u8> {
    encode_utf8("map?"@)
}

/// The four bytes the host sends back once the maps are installed.
pub open spec fn spec_map_reply() -> Seq<u8> {
    encode_utf8("map!"@)
}

pub fn map_request_bytes() -> (r: Vec<u8>)
    ensures
        r@ == spec_map_request(),
{
    "map?".as_bytes_vec()
}

pub fn map_reply_bytes() -> (r: Vec<u8>)
    ensures
        r@ == spec_map_reply(),
{
    "map!".as_bytes_vec()
}

fn bytes_eq(a: &Vec<u8>, b: &Vec<u8>) -> (r: bool)
    ensures
        r == (a@ == b@),
{
    if a.len() != b.len() {
        proof {
            assert(a@ != b@);
        }
        return false;
    }
    let mut i: usize = 0;
    while i < a.len()
        invariant
            a@.len() == b@.len(),
            i <= a@.len(),
            forall|j: int| 0 <= j < i ==> a@[j] == b@[j],
        decreases a@.len() - i,
    {
        if a[i] != b[i] {
            return false;
        }
        i = i + 1;
    }
    proof {
        assert(a@ =~= b@);
    }
    true
}

/// Whether four bytes read on the host side are the map request.
pub fn is_map_request(buf: &Vec<u8>) -> (r: bool)
    ensures
        r == (buf@ == spec_map_request()),
{
    let expected = map_request_bytes();
    bytes_eq(buf, &expected)
}

/// Whether four bytes read on the child side are the map reply.
pub fn is_map_reply(buf: &Vec<u8>) -> (r: bool)
    ensures
        r == (buf@ == spec_map_reply()),
{
    let expected = map_reply_bytes();
    bytes_eq(buf, &expected)
}

/// The nameserver line the host writes into the sandbox root as
/// etc/resolv.conf before launch.
pub fn resolv_conf_content() -> (r: Vec<u8>)
    ensures
        r@ == encode_utf8("nameserver 127.0.0.53"@),
{
    "nameserver 127.0.0.53".as_bytes_vec()
}

/// The argv tail of the init: the receive and send descriptor numbers in
/// decimal.  `crate::num::lemma_dec_round_trip` guarantees the init parses
/// back exactly these numbers.
pub fn init_argv(recv_fd: u64, send_fd: u64) -> (r: Vec<String>)
    ensures
        r@.len() == 2,
        r@[0]@ == spec_dec_digits(recv_fd as nat),
        r@[1]@ == spec_dec_digits(send_fd as nat),
{
    let mut r: Vec<String> = Vec::new();
    r.push(dec_string(recv_fd));
    r.push(dec_string(send_fd));
    r
}

/// What the parent of the second fork exits with: the inner child's own
/// exit status when it exited, `EXIT_BAD_WAIT` for any other wait result.
pub fn outer_exit_status(inner: Option<i32>) -> (r: i32)
    ensures
        match inner {
            Some(c) => r == c,
            None => r == EXIT_BAD_WAIT,
        },
{
    match inner {
        Some(c) => c,
        None => EXIT_BAD_WAIT,
    }
}

} // verus!
