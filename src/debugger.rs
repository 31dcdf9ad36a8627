//! The syscall tracer: its allow-list, its known descendants, and the answer
//! to each event that the monitoring loop reports.
use vstd::prelude::*;
use std::collections::BTreeSet;
use crate::process::Process;
use crate::verdict::MarkResult;

verus! {

broadcast use vstd::std_specs::btree::group_btree_axioms;

/// Kill signal (Linux numbering).
pub const SIGKILL: i32 = 9;

/// Trace trap signal (Linux numbering).
pub const SIGTRAP: i32 = 5;

/// CPU-time limit signal (Linux numbering).
pub const SIGXCPU: i32 = 24;

/// Stop signal of a syscall-boundary stop once the tracing options are set:
/// the trace trap with the high bit set.
pub const SYSCALL_STOP: i32 = 0x85;

/// Number of the process-replacement syscall (Linux x86-64).
pub const SYS_EXECVE: u64 = 59;

/// Trace events that announce a new child (fork, vfork, clone).
pub const PTRACE_EVENT_FORK: i32 = 1;
pub const PTRACE_EVENT_VFORK: i32 = 2;
pub const PTRACE_EVENT_CLONE: i32 = 3;

/// Whether a wait status says that the process exited normally.
pub open spec fn exited(status: i32) -> bool {
    status & 0x7f == 0
}

/// Whether a wait status says that the process was ended by a signal: its low
/// seven bits are neither 0 (an exit) nor 0x7f (a stop).
pub open spec fn signaled(status: i32) -> bool {
    status & 0x7f != 0 && status & 0x7f != 0x7f
}

/// The signal that ended the process.
pub open spec fn term_sig(status: i32) -> i32 {
    status & 0x7f
}

/// The signal that stopped the process.
pub open spec fn stop_sig(status: i32) -> i32 {
    (status >> 8) & 0xff
}

/// The trace event carried by a stop status.
pub open spec fn event_of(status: i32) -> i32 {
    status >> 16
}

/// Relies on libc::WIFEXITED: low seven bits of the status are zero.
pub assume_specification[ libc::WIFEXITED ](status: libc::c_int) -> (r: bool)
    ensures
        r == exited(status),
;

/// Relies on libc::WIFSIGNALED: `((status & 0x7f) + 1) as i8 >= 2`, that is, the
/// low seven bits are neither 0 nor 0x7f.
pub assume_specification[ libc::WIFSIGNALED ](status: libc::c_int) -> (r: bool)
    ensures
        r == signaled(status),
;

/// Relies on libc::WTERMSIG: the low seven bits of the status.
pub assume_specification[ libc::WTERMSIG ](status: libc::c_int) -> (r: libc::c_int)
    ensures
        r == term_sig(status),
;

/// Relies on libc::WSTOPSIG: the second byte of the status.
pub assume_specification[ libc::WSTOPSIG ](status: libc::c_int) -> (r: libc::c_int)
    ensures
        r == stop_sig(status),
;

/// The tracer's state, as the contracts see it.
pub struct TracerModel {
    /// The traced process, leader of its own process group.
    pub leader: Option<i32>,
    /// Syscall numbers the subject may call.
    pub allowed: Set<u64>,
    /// Known descendants, in the order they were announced.
    pub children: Seq<i32>,
    /// Processes stopped between the entry and the exit of a syscall.
    pub in_syscall: Set<i32>,
    /// No event has been answered yet.
    pub first: bool,
    /// The one process replacement that loads the subject has completed.
    pub spawned: bool,
    /// The first syscall found outside the allow-list.
    pub blocked: Option<u64>,
}

/// What the monitoring loop does next.
#[derive(Debug)]
pub enum Next {
    /// Monitoring is over with this verdict.
    Finish(MarkResult),
    /// Read the syscall number of this stopped process and hand it to `on_syscall`.
    ReadSyscall(i32),
    /// Read the new child's id from this process's event and hand it to `on_new_child`.
    ReadEventMsg(i32),
    /// Resume this process until its next syscall boundary or other stop,
    /// delivering `signal` (0: none). Every resume asks for syscall stops, so
    /// that no syscall of the subject escapes the allow-list.
    Resume { pid: i32, signal: i32 },
    /// Wait for the next event without resuming anything.
    Wait,
}

/// The actions that answer one event, in this order: the kills, the tracing
/// options, then `next`.
pub struct Step {
    /// Processes to send the kill signal.
    pub kill: Vec<i32>,
    /// Process group to send the kill signal.
    pub kill_group: Option<i32>,
    /// Process on which to install the tracing options.
    pub set_options: Option<i32>,
    pub next: Next,
}

/// A step, as the contracts see it.
pub struct StepModel {
    pub kill: Seq<i32>,
    pub kill_group: Option<i32>,
    pub set_options: Option<i32>,
    pub next: Next,
}

impl View for Step {
    type V = StepModel;

    open spec fn view(&self) -> StepModel {
        StepModel {
            kill: self.kill@,
            kill_group: self.kill_group,
            set_options: self.set_options,
            next: self.next,
        }
    }
}

/// A plain step: nothing killed, no options installed.
pub open spec fn plain(next: Next) -> StepModel {
    StepModel { kill: seq![], kill_group: None, set_options: None, next }
}

/// The signal passed on when resuming after a signal-delivery stop with
/// `sig`: that signal, except on the very first resume.
pub open spec fn resume_signal(s: TracerModel, sig: i32) -> i32 {
    if s.first {
        0
    } else {
        sig
    }
}

pub open spec fn other_than(x: i32) -> spec_fn(i32) -> bool {
    |c: i32| c != x
}

pub open spec fn announces_child(event: i32) -> bool {
    event == PTRACE_EVENT_FORK || event == PTRACE_EVENT_VFORK || event == PTRACE_EVENT_CLONE
}

/// The verdict when the traced process ends with this status, before any
/// re-check of the measured time.
pub open spec fn end_verdict(s: TracerModel, status: i32, sec: i64, usec: i64) -> MarkResult {
    match s.blocked {
        Some(n) => MarkResult::PolicyViolation(n),
        None => if status == 0 {
            MarkResult::Success(sec, usec)
        } else if signaled(status) && (term_sig(status) == SIGKILL || term_sig(status) == SIGXCPU) {
            MarkResult::TimeLimitExceeded
        } else {
            MarkResult::RuntimeError
        },
    }
}

/// The answer to a state change reported by the group-wide wait: `pid` changed
/// state with `status`, and its user CPU time so far is `sec` s and `usec` µs.
pub open spec fn wait_step(s: TracerModel, pid: i32, status: i32, sec: i64, usec: i64) -> (TracerModel, StepModel) {
    let ended = exited(status) || signaled(status);
    if ended && (s.leader == Some(pid) || s.first) {
        (
            TracerModel { children: seq![], ..s },
            StepModel {
                kill: s.children,
                kill_group: None,
                set_options: None,
                next: Next::Finish(end_verdict(s, status, sec, usec)),
            },
        )
    } else if ended {
        (
            TracerModel { children: s.children.filter(other_than(pid)), in_syscall: s.in_syscall.remove(pid), ..s },
            plain(Next::Wait),
        )
    } else {
        let options = if s.first { Some(pid) } else { None };
        let sig = stop_sig(status);
        if sig == SYSCALL_STOP {
            (s, StepModel { set_options: options, ..plain(Next::ReadSyscall(pid)) })
        } else if sig == SIGTRAP && announces_child(event_of(status)) {
            (s, StepModel { set_options: options, ..plain(Next::ReadEventMsg(pid)) })
        } else {
            let pass = if sig == SIGTRAP { 0 } else { resume_signal(s, sig) };
            (
                TracerModel { first: false, ..s },
                StepModel {
                    set_options: options,
                    ..plain(Next::Resume { pid, signal: pass })
                },
            )
        }
    }
}

/// The answer to a syscall-boundary stop of `pid` at syscall `nr`.
pub open spec fn syscall_step(s: TracerModel, pid: i32, nr: u64) -> (TracerModel, StepModel) {
    let entering = !s.in_syscall.contains(pid);
    let toggled = if entering { s.in_syscall.insert(pid) } else { s.in_syscall.remove(pid) };
    if nr == SYS_EXECVE && !s.spawned {
        (
            TracerModel { in_syscall: toggled, spawned: !entering, first: false, ..s },
            plain(Next::Resume { pid, signal: 0 }),
        )
    } else if entering && !s.allowed.contains(nr) {
        (
            TracerModel {
                in_syscall: toggled,
                blocked: if s.blocked is None { Some(nr) } else { s.blocked },
                first: false,
                ..s
            },
            StepModel {
                kill_group: s.leader,
                ..plain(Next::Resume { pid, signal: 0 })
            },
        )
    } else {
        (
            TracerModel { in_syscall: toggled, first: false, ..s },
            plain(Next::Resume { pid, signal: 0 }),
        )
    }
}

/// The answer to a fork, vfork or clone event of `pid` whose new child is `child`.
pub open spec fn child_step(s: TracerModel, pid: i32, child: u64) -> (TracerModel, StepModel) {
    let c = child as i32;
    (
        TracerModel {
            children: if s.children.contains(c) { s.children } else { s.children.push(c) },
            first: false,
            ..s
        },
        plain(Next::Resume { pid, signal: 0 }),
    )
}

/// The syscalls every program needs to start, read, write and exit (Linux
/// x86-64): read, write, close, fstat, mmap, mprotect, munmap, brk, access,
/// arch_prctl, exit_group, openat.
pub open spec fn baseline() -> Seq<u64> {
    seq![0u64, 1, 3, 5, 9, 10, 11, 12, 21, 158, 231, 257]
}

/// Entering a syscall outside the allow-list, other than the one process
/// replacement that loads the subject, records a policy violation carrying that
/// syscall's number (unless one is already recorded) and kills the whole
/// process group.
pub proof fn lemma_violation_detected(s: TracerModel, pid: i32, nr: u64)
    requires
        !s.in_syscall.contains(pid),
        !s.allowed.contains(nr),
        !(nr == SYS_EXECVE && !s.spawned),
    ensures
        syscall_step(s, pid, nr).0.blocked == (if s.blocked is None { Some(nr) } else { s.blocked }),
        syscall_step(s, pid, nr).1.kill_group == s.leader,
{
}

/// An event the monitoring loop hands to the tracer.
pub enum Event {
    /// A state change reported by the group-wide wait.
    Wait { pid: i32, status: i32, sec: i64, usec: i64 },
    /// The syscall number read at a syscall-boundary stop.
    Syscall { pid: i32, nr: u64 },
    /// The new child read from a fork, vfork or clone event.
    NewChild { pid: i32, child: u64 },
}

/// The answer to one event.
pub open spec fn event_step(s: TracerModel, e: Event) -> (TracerModel, StepModel) {
    match e {
        Event::Wait { pid, status, sec, usec } => wait_step(s, pid, status, sec, usec),
        Event::Syscall { pid, nr } => syscall_step(s, pid, nr),
        Event::NewChild { pid, child } => child_step(s, pid, child),
    }
}

/// The tracer's state after a sequence of events.
pub open spec fn after_events(s: TracerModel, events: Seq<Event>) -> TracerModel
    decreases events.len(),
{
    if events.len() == 0 {
        s
    } else {
        after_events(event_step(s, events[0]).0, events.drop_first())
    }
}

/// Once a violation is recorded, it survives every later sequence of events,
/// and whenever monitoring then ends the verdict is that policy violation, with
/// every known descendant killed and forgotten.
pub proof fn lemma_violation_is_final(s: TracerModel, n: u64, events: Seq<Event>, last: Event)
    requires
        s.blocked == Some(n),
    ensures
        after_events(s, events).blocked == Some(n),
        event_step(after_events(s, events), last).1.next matches Next::Finish(v) ==> v
            == MarkResult::PolicyViolation(n) && event_step(after_events(s, events), last).1.kill
            == after_events(s, events).children && event_step(after_events(s, events), last).0.children.len()
            == 0,
    decreases events.len(),
{
    if events.len() > 0 {
        lemma_violation_is_final(event_step(s, events[0]).0, n, events.drop_first(), last);
    }
}

/// Traces one process and its descendants, and decides what each reported
/// event calls for.
pub struct Debugger {
    leader: Option<i32>,
    handlers: BTreeSet<u64>,
    children: Vec<i32>,
    in_syscall: BTreeSet<i32>,
    first: bool,
    spawned: bool,
    blocked: Option<u64>,
}

impl View for Debugger {
    type V = TracerModel;

    closed spec fn view(&self) -> TracerModel {
        TracerModel {
            leader: self.leader,
            allowed: self.handlers@,
            children: self.children@,
            in_syscall: self.in_syscall@,
            first: self.first,
            spawned: self.spawned,
            blocked: self.blocked,
        }
    }
}

fn contains_pid(v: &Vec<i32>, x: i32) -> (r: bool)
    ensures
        r == v@.contains(x),
{
    let mut i: usize = 0;
    while i < v.len()
        invariant
            0 <= i <= v.len(),
            forall|j: int| 0 <= j < i ==> v@[j] != x,
        decreases v.len() - i,
    {
        if v[i] == x {
            return true;
        }
        i = i + 1;
    }
    false
}

fn without_pid(v: &Vec<i32>, x: i32) -> (r: Vec<i32>)
    ensures
        r@ == v@.filter(other_than(x)),
{
    let mut r: Vec<i32> = Vec::new();
    let mut i: usize = 0;
    while i < v.len()
        invariant
            0 <= i <= v.len(),
            r@ == v@.subrange(0, i as int).filter(other_than(x)),
        decreases v.len() - i,
    {
        proof {
            reveal(Seq::filter);
            assert(v@.subrange(0, i + 1).drop_last() =~= v@.subrange(0, i as int));
        }
        if v[i] != x {
            r.push(v[i]);
        }
        i = i + 1;
    }
    assert(v@.subrange(0, v.len() as int) =~= v@);
    r
}

impl Debugger {
    /// A tracer for `process` with an empty allow-list.
    pub fn new(process: &Process) -> (r: Debugger)
        ensures
            r@ == (TracerModel {
                leader: process@.pid,
                allowed: Set::empty(),
                children: seq![],
                in_syscall: Set::empty(),
                first: true,
                spawned: false,
                blocked: None,
            }),
    {
        Debugger {
            leader: process.pid(),
            handlers: BTreeSet::new(),
            children: Vec::new(),
            in_syscall: BTreeSet::new(),
            first: true,
            spawned: false,
            blocked: None,
        }
    }

    /// Adds syscall numbers to the allow-list.
    pub fn add_handler(&mut self, handlers: &[u64])
        ensures
            final(self)@ == (TracerModel { allowed: old(self)@.allowed + handlers@.to_set(), ..old(self)@ }),
    {
        let mut i: usize = 0;
        while i < handlers.len()
            invariant
                0 <= i <= handlers.len(),
                self@ == (TracerModel { allowed: self.handlers@, ..old(self)@ }),
                forall|x: u64| self.handlers@.contains(x) <==> (old(self)@.allowed.contains(x)
                    || exists|j: int| 0 <= j < i && handlers@[j] == x),
            decreases handlers.len() - i,
        {
            self.handlers.insert(handlers[i]);
            i = i + 1;
        }
        assert(self.handlers@ =~= old(self)@.allowed + handlers@.to_set());
    }

    /// A tracer for `process` whose allow-list is the baseline.
    pub fn standard(process: &Process) -> (r: Debugger)
        ensures
            r@ == (TracerModel {
                leader: process@.pid,
                allowed: baseline().to_set(),
                children: seq![],
                in_syscall: Set::empty(),
                first: true,
                spawned: false,
                blocked: None,
            }),
    {
        let mut d = Debugger::new(process);
        let v: Vec<u64> = vec![0u64, 1, 3, 5, 9, 10, 11, 12, 21, 158, 231, 257];
        assert(v@ == baseline());
        d.add_handler(v.as_slice());
        assert(Set::<u64>::empty() + baseline().to_set() =~= baseline().to_set());
        d
    }

    /// The traced process.
    pub fn leader(&self) -> (r: Option<i32>)
        ensures
            r == self@.leader,
    {
        self.leader
    }

    /// Forgets every known descendant and returns them, to be killed.
    pub fn kill_children(&mut self) -> (r: Vec<i32>)
        ensures
            r@ == old(self)@.children,
            final(self)@ == (TracerModel { children: seq![], ..old(self)@ }),
    {
        let mut v: Vec<i32> = Vec::new();
        std::mem::swap(&mut self.children, &mut v);
        v
    }

    /// Answers a state change reported by the group-wide wait: `pid` changed
    /// state with `status`, and `utime_sec` / `utime_usec` is the user CPU time
    /// reported with it.
    pub fn on_wait(&mut self, pid: i32, status: i32, utime_sec: i64, utime_usec: i64) -> (r: Step)
        ensures
            (final(self)@, r@) == wait_step(old(self)@, pid, status, utime_sec, utime_usec),
    {
        let ended = libc::WIFEXITED(status) || libc::WIFSIGNALED(status);
        if ended && (self.leader == Some(pid) || self.first) {
            let kill = self.kill_children();
            let verdict = match self.blocked {
                Some(n) => MarkResult::PolicyViolation(n),
                None => if status == 0 {
                    MarkResult::Success(utime_sec, utime_usec)
                } else if libc::WIFSIGNALED(status) && (libc::WTERMSIG(status) == SIGKILL
                    || libc::WTERMSIG(status) == SIGXCPU) {
                    MarkResult::TimeLimitExceeded
                } else {
                    MarkResult::RuntimeError
                },
            };
            return Step { kill, kill_group: None, set_options: None, next: Next::Finish(verdict) };
        }
        if ended {
            self.children = without_pid(&self.children, pid);
            self.in_syscall.remove(&pid);
            return Step { kill: Vec::new(), kill_group: None, set_options: None, next: Next::Wait };
        }
        let options = if self.first {
            Some(pid)
        } else {
            None
        };
        let sig = libc::WSTOPSIG(status);
        if sig == SYSCALL_STOP {
            return Step { kill: Vec::new(), kill_group: None, set_options: options, next: Next::ReadSyscall(pid) };
        }
        let event = status >> 16;
        if sig == SIGTRAP && (event == PTRACE_EVENT_FORK || event == PTRACE_EVENT_VFORK
            || event == PTRACE_EVENT_CLONE) {
            return Step { kill: Vec::new(), kill_group: None, set_options: options, next: Next::ReadEventMsg(pid) };
        }
        let signal = if sig == SIGTRAP || self.first {
            0
        } else {
            sig
        };
        self.first = false;
        Step {
            kill: Vec::new(),
            kill_group: None,
            set_options: options,
            next: Next::Resume { pid, signal },
        }
    }

    /// Answers a syscall-boundary stop of `pid` at syscall `nr`.
    pub fn on_syscall(&mut self, pid: i32, nr: u64) -> (r: Step)
        ensures
            (final(self)@, r@) == syscall_step(old(self)@, pid, nr),
    {
        let entering = !self.in_syscall.contains(&pid);
        if entering {
            self.in_syscall.insert(pid);
        } else {
            self.in_syscall.remove(&pid);
        }
        if nr == SYS_EXECVE && !self.spawned {
            if !entering {
                self.spawned = true;
            }
            self.first = false;
            return Step {
                kill: Vec::new(),
                kill_group: None,
                set_options: None,
                next: Next::Resume { pid, signal: 0 },
            };
        }
        let mut kill_group = None;
        if entering && !self.handlers.contains(&nr) {
            if self.blocked.is_none() {
                self.blocked = Some(nr);
            }
            kill_group = self.leader;
        }
        self.first = false;
        Step { kill: Vec::new(), kill_group, set_options: None, next: Next::Resume { pid, signal: 0 } }
    }

    /// Answers a fork, vfork or clone event of `pid` whose new child is `child`.
    pub fn on_new_child(&mut self, pid: i32, child: u64) -> (r: Step)
        ensures
            (final(self)@, r@) == child_step(old(self)@, pid, child),
    {
        let c = child as i32;
        if !contains_pid(&self.children, c) {
            self.children.push(c);
        }
        self.first = false;
        Step { kill: Vec::new(), kill_group: None, set_options: None, next: Next::Resume { pid, signal: 0 } }
    }
}

} // verus!
