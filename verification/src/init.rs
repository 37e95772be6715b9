//! The guest init program's decisions: environment parsing, argv assembly,
//! and exit-code propagation from the reap loop.
//!
//! Mounting pseudo-filesystems, the loopback ioctls, forking and waiting are
//! raw system calls made outside; their outcomes come back as plain values.

use vstd::prelude::*;

use crate::text::push_char;

verus! {

/// The position of the first `=` in a string; its length when there is none.
pub open spec fn first_eq(s: Seq<char>) -> int
    decreases s.len(),
{
    if s.len() == 0 {
        0
    } else if s[0] == '=' {
        0
    } else {
        1 + first_eq(s.subrange(1, s.len() as int))
    }
}

proof fn lemma_first_eq_at(s: Seq<char>, i: int)
    requires
        0 <= i < s.len(),
        s[i] == '=',
        forall|j: int| 0 <= j < i ==> s[j] != '=',
    ensures
        first_eq(s) == i,
    decreases s.len(),
{
    if i > 0 {
        let t = s.subrange(1, s.len() as int);
        assert(t[i - 1] == s[i]);
        assert forall|j: int| 0 <= j < i - 1 implies t[j] != '=' by {
            assert(t[j] == s[j + 1]);
        }
        lemma_first_eq_at(t, i - 1);
    }
}

proof fn lemma_first_eq_none(s: Seq<char>)
    requires
        forall|j: int| 0 <= j < s.len() ==> s[j] != '=',
    ensures
        first_eq(s) == s.len(),
    decreases s.len(),
{
    if s.len() > 0 {
        let t = s.subrange(1, s.len() as int);
        assert forall|j: int| 0 <= j < t.len() implies t[j] != '=' by {
            assert(t[j] == s[j + 1]);
        }
        lemma_first_eq_none(t);
    }
}

/// Splits an environment entry at its first `=`: the key before it, the
/// value after it. An entry without `=` is ignored by the caller.
pub fn split_env(var: &str) -> (r: Option<(String, String)>)
    ensures
        r is Some <==> first_eq(var@) < var@.len(),
        r matches Some(kv) ==> kv.0@ == var@.subrange(0, first_eq(var@)) && kv.1@ == var@.subrange(
            first_eq(var@) + 1,
            var@.len() as int,
        ),
{
    let n = var.unicode_len();
    let mut i: usize = 0;
    while i < n
        invariant
            0 <= i <= n,
            n == var@.len(),
            forall|j: int| 0 <= j < i ==> var@[j] != '=',
        decreases n - i,
    {
        if var.get_char(i) == '=' {
            proof {
                lemma_first_eq_at(var@, i as int);
            }
            let key = String::from_str(var.substring_char(0, i));
            let val = String::from_str(var.substring_char(i + 1, n));
            return Some((key, val));
        }
        i += 1;
    }
    proof {
        lemma_first_eq_none(var@);
    }
    None
}

/// The workload's argv: the entrypoint followed by the command, or the
/// default shell when both are empty.
pub fn build_argv(entrypoint: Vec<String>, cmd: Vec<String>) -> (r: Vec<String>)
    ensures
        entrypoint@.len() + cmd@.len() == 0 ==> (r@.len() == 1 && r@[0]@ == "/bin/sh"@),
        entrypoint@.len() + cmd@.len() > 0 ==> r@ == entrypoint@ + cmd@,
{
    let mut argv = entrypoint;
    let mut rest = cmd;
    argv.append(&mut rest);
    if argv.len() == 0 {
        argv.push(String::from_str("/bin/sh"));
    }
    argv
}

/// One answer from waiting on any child.
#[derive(Clone, Copy, Debug, PartialEq, Eq, Structural)]
pub enum WaitEvent {
    /// A child exited with a code.
    Exited { pid: i32, code: i32 },
    /// A child was killed by a signal.
    Signaled { pid: i32, signal: i32 },
    /// Some other status: an orphan was reaped, keep going.
    OtherStatus,
    /// No children remain.
    NoChildren,
    /// Waiting itself failed.
    WaitError,
}

/// What the init loop does next.
#[derive(Clone, Copy, Debug, PartialEq, Eq, Structural)]
pub enum ReapAction {
    /// Leave with this exit code.
    ExitWith(i32),
    /// Keep reaping.
    Continue,
}

/// Drives the PID-1 reap loop one step: the tracked workload's exit code is
/// propagated as-is, death by signal becomes `128 + signal`, reaped orphans
/// keep the loop going, and an empty nursery exits cleanly.
pub fn reap_step(event: WaitEvent, child_pid: i32) -> (r: ReapAction)
    requires
        event matches WaitEvent::Signaled { pid, signal } ==> 0 <= signal <= 64,
    ensures
        event matches WaitEvent::Exited { pid, code } ==> r == (if pid == child_pid {
            ReapAction::ExitWith(code)
        } else {
            ReapAction::Continue
        }),
        event matches WaitEvent::Signaled { pid, signal } ==> r == (if pid == child_pid {
            ReapAction::ExitWith((128 + signal) as i32)
        } else {
            ReapAction::Continue
        }),
        event == WaitEvent::OtherStatus ==> r == ReapAction::Continue,
        event == WaitEvent::NoChildren ==> r == ReapAction::ExitWith(0),
        event == WaitEvent::WaitError ==> r == ReapAction::ExitWith(1),
{
    match event {
        WaitEvent::Exited { pid, code } => {
            if pid == child_pid {
                ReapAction::ExitWith(code)
            } else {
                ReapAction::Continue
            }
        },
        WaitEvent::Signaled { pid, signal } => {
            if pid == child_pid {
                ReapAction::ExitWith(128 + signal)
            } else {
                ReapAction::Continue
            }
        },
        WaitEvent::OtherStatus => ReapAction::Continue,
        WaitEvent::NoChildren => ReapAction::ExitWith(0),
        WaitEvent::WaitError => ReapAction::ExitWith(1),
    }
}

/// The path of the config file the init program reads at boot.
pub fn init_config_path() -> (r: String)
    ensures
        r@ == "/.qarax-config.json"@,
{
    String::from_str("/.qarax-config.json")
}

} // verus!
