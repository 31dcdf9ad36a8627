//! A program to run in the sandbox.
use vstd::prelude::*;

verus! {

/// What a launched program is, as the contracts see it.
pub struct ProcessModel {
    pub exe: Seq<char>,
    pub args: Seq<Seq<char>>,
    pub pid: Option<i32>,
    pub stdin: i32,
    pub stdout: i32,
    pub m_time: Option<u64>,
}

/// One program to run under the tracer: its executable and arguments, the
/// CPU-time ceiling, and once it is spawned its process id and the parent's
/// ends of its standard input and output pipes.
pub struct Process {
    exe: String,
    args: Vec<String>,
    pid: Option<i32>,
    /// Write end of the pipe feeding the child's standard input.
    pub stdin: i32,
    /// Read end of the pipe carrying the child's standard output.
    pub stdout: i32,
    /// CPU-time ceiling in seconds.
    pub m_time: Option<u64>,
}

impl View for Process {
    type V = ProcessModel;

    closed spec fn view(&self) -> ProcessModel {
        ProcessModel {
            exe: self.exe@,
            args: self.args@.map_values(|a: String| a@),
            pid: self.pid,
            stdin: self.stdin,
            stdout: self.stdout,
            m_time: self.m_time,
        }
    }
}

/// The CPU-time resource limit for a ceiling: the soft bound is the ceiling,
/// the hard bound one second more (saturating at the largest value, which the
/// kernel reads as no limit).
pub open spec fn cpu_limit_of(m_time: Option<u64>) -> Option<(u64, u64)> {
    match m_time {
        Some(t) => Some((t, if t == u64::MAX { u64::MAX } else { (t + 1) as u64 })),
        None => None,
    }
}

impl Process {
    /// Records what to run; nothing is spawned yet.
    pub fn new(file: String, args: Vec<String>, max_time: Option<u64>) -> (r: Process)
        ensures
            r@.exe == file@,
            r@.args == args@.map_values(|a: String| a@),
            r@.pid is None,
            r@.stdin == 0,
            r@.stdout == 0,
            r@.m_time == max_time,
    {
        Process { exe: file, args, pid: None, stdin: 0, stdout: 0, m_time: max_time }
    }

    /// The executable's path.
    pub fn exe(&self) -> (r: &String)
        ensures
            r@ == self@.exe,
    {
        &self.exe
    }

    /// The argument vector handed to the program.
    pub fn args(&self) -> (r: &Vec<String>)
        ensures
            r@.map_values(|a: String| a@) == self@.args,
    {
        &self.args
    }

    /// The process id, once spawned.
    pub fn pid(&self) -> (r: Option<i32>)
        ensures
            r == self@.pid,
    {
        self.pid
    }

    /// The soft and hard CPU-time limits that the child sets on itself.
    pub fn cpu_limit(&self) -> (r: Option<(u64, u64)>)
        ensures
            r == cpu_limit_of(self@.m_time),
    {
        match self.m_time {
            Some(t) => Some((t, t.saturating_add(1))),
            None => None,
        }
    }

    /// Records a successful spawn: the child's id and the parent's pipe ends.
    pub fn spawned(&mut self, pid: i32, stdin: i32, stdout: i32)
        ensures
            final(self)@ == (ProcessModel { pid: Some(pid), stdin, stdout, ..old(self)@ }),
    {
        self.pid = Some(pid);
        self.stdin = stdin;
        self.stdout = stdout;
    }
}

} // verus!
