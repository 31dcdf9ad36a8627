//! Language descriptors and their command lines.
use vstd::prelude::*;
use crate::process::Process;

verus! {

/// How one language is built and run: where the source text goes, the
/// optional build command, the command that runs the program (`run`), and the syscalls
/// its runtime needs beyond the baseline.
pub struct Executor {
    pub filename: String,
    pub pre_exec: Option<String>,
    pub run: String,
    pub additional_syscalls: Vec<u64>,
}

/// Unicode `White_Space`.
pub open spec fn is_white(c: char) -> bool {
    let n = c as u32;
    (0x9 <= n <= 0xd) || n == 0x20 || n == 0x85 || n == 0xa0 || n == 0x1680 || (0x2000 <= n
        <= 0x200a) || n == 0x2028 || n == 0x2029 || n == 0x202f || n == 0x205f || n == 0x3000
}

/// The words of `s` after the partial word `cur`: maximal runs of characters
/// that are not white space, in order.
pub open spec fn split_words(s: Seq<char>, cur: Seq<char>) -> Seq<Seq<char>>
    decreases s.len(),
{
    if s.len() == 0 {
        if cur.len() == 0 {
            seq![]
        } else {
            seq![cur]
        }
    } else if is_white(s[0]) {
        (if cur.len() == 0 {
            seq![]
        } else {
            seq![cur]
        }) + split_words(s.drop_first(), seq![])
    } else {
        split_words(s.drop_first(), cur.push(s[0]))
    }
}

/// The words of a command line.
pub open spec fn words(s: Seq<char>) -> Seq<Seq<char>> {
    split_words(s, seq![])
}

/// Relies on str::split_whitespace: the maximal runs of characters that are not
/// Unicode white space, in order.
#[verifier::external_body]
fn split_whitespace(s: &str) -> (r: Vec<String>)
    ensures
        r@.map_values(|w: String| w@) == words(s@),
{
    s.split_whitespace().map(|w| w.to_string()).collect()
}

/// A command line split into the program and its arguments; `None` when the
/// line holds no word.
pub fn command_of(line: &String) -> (r: Option<(String, Vec<String>)>)
    ensures
        r is None <==> words(line@).len() == 0,
        r matches Some((p, a)) ==> p@ == words(line@)[0] && a@.map_values(|w: String| w@)
            == words(line@).drop_first(),
{
    let mut w = split_whitespace(line.as_str());
    if w.len() == 0 {
        return None;
    }
    let program = w.remove(0);
    assert(w@.map_values(|x: String| x@) =~= words(line@).drop_first());
    Some((program, w))
}

impl Executor {
    /// The program that runs one test case, under the given CPU-time ceiling;
    /// `None` when the run command holds no word.
    pub fn launch(&self, max_time: Option<u64>) -> (r: Option<Process>)
        ensures
            r is None <==> words(self.run@).len() == 0,
            r matches Some(p) ==> p@.exe == words(self.run@)[0] && p@.args == words(
                self.run@,
            ).drop_first() && p@.pid is None && p@.stdin == 0 && p@.stdout == 0 && p@.m_time == max_time,
    {
        match command_of(&self.run) {
            Some((program, args)) => Some(Process::new(program, args, max_time)),
            None => None,
        }
    }
}

} // verus!
