//! The shared runtime record and the reader-loop logic around it.
//!
//! One record holds what the startup routine resolves: the port the worker
//! announced and the data directory handed to it. The record is written by
//! the supervisor's reader loop and read by the application shell's query
//! handlers; the host wraps it in a lock and hands lines and probe outcomes
//! in as plain values.

use vstd::prelude::*;
use vstd::string::*;

use crate::paths::joined;
use crate::paths::last_component;
use crate::paths::parent_of;
use crate::paths::lemma_parent_shorter;
use crate::paths::ends_with_component;
use crate::paths::pop_component;
use crate::protocol::is_port_line;
use crate::protocol::port_of_line;
use crate::protocol::parse_port_line;

verus! {

/// The record shared between the supervisor and the query handlers.
///
/// `port` moves at most from nothing to a value and is only ever replaced by
/// another announced value, never cleared; `data_dir` is resolved once at
/// startup.
pub struct RuntimeState {
    pub port: Option<u16>,
    pub data_dir: Option<String>,
}

impl RuntimeState {
    /// A fresh record: nothing resolved yet.
    pub fn new() -> (s: Self)
        ensures
            s.port is None,
            s.data_dir is None,
    {
        RuntimeState { port: None, data_dir: None }
    }

    /// Record the data directory chosen at startup.
    pub fn set_data_dir(&mut self, dir: String)
        ensures
            final(self).data_dir == Some(dir),
            final(self).port == old(self).port,
    {
        self.data_dir = Some(dir);
    }

    /// Record an announced port.
    pub fn publish_port(&mut self, port: u16)
        ensures
            final(self).port == Some(port),
            final(self).data_dir == old(self).data_dir,
    {
        self.port = Some(port);
    }

    /// The port query: the announced port, or a not-ready failure while no
    /// readiness line has been processed. It never blocks or waits; callers
    /// poll it again later.
    pub fn get_worker_port(&self) -> (r: Result<u16, String>)
        ensures
            self.port matches Some(p) ==> r == Ok::<u16, String>(p),
            self.port is None ==> (r matches Err(e) && e@ == "Worker not ready yet"@),
    {
        match self.port {
            Some(p) => Ok(p),
            None => Err(String::from_str("Worker not ready yet")),
        }
    }

    /// Feed one line of worker output through the readiness protocol: a
    /// readiness line replaces the published port, every other line changes
    /// nothing and never fails.
    pub fn process_line(&mut self, line: &str)
        ensures
            final(self).port == (if is_port_line(line@) {
                Some(port_of_line(line@))
            } else {
                old(self).port
            }),
            final(self).data_dir == old(self).data_dir,
    {
        match parse_port_line(line) {
            Some(p) => {
                self.port = Some(p);
            },
            None => {},
        }
    }

    /// Feed a whole sequence of output lines, in order.
    pub fn process_lines(&mut self, lines: &Vec<String>)
        ensures
            final(self).port == port_after(old(self).port, line_views(lines@)),
            final(self).data_dir == old(self).data_dir,
    {
        let ghost init_port = self.port;
        let ghost init_dir = self.data_dir;
        let mut i: usize = 0;
        while i < lines.len()
            invariant
                i <= lines@.len(),
                self.port == port_after(init_port, line_views(lines@).take(i as int)),
                self.data_dir == init_dir,
            decreases lines@.len() - i,
        {
            self.process_line(lines[i].as_str());
            proof {
                let all = line_views(lines@);
                assert(all.take(i + 1).drop_last() =~= all.take(i as int));
                assert(all.take(i + 1).last() == all[i as int]);
                assert(all[i as int] == lines@[i as int]@);
            }
            i = i + 1;
        }
        proof {
            assert(line_views(lines@).take(lines@.len() as int) =~= line_views(lines@));
        }
    }

    /// The directory the worker's artifacts are written to, as text:
    /// `output` under the data directory, or under the given working
    /// directory while no data directory was ever recorded. The caller
    /// creates the directory; creation of an already existing one is not an
    /// error.
    pub fn output_dir(&self, cwd: &str) -> (r: String)
        ensures
            r@ == spec_output_dir(self, cwd@),
    {
        match &self.data_dir {
            Some(d) => crate::paths::join(d.as_str(), "output"),
            None => crate::paths::join(cwd, "output"),
        }
    }
}

/// The views of a vector of lines.
pub open spec fn line_views(lines: Seq<String>) -> Seq<Seq<char>> {
    lines.map_values(|l: String| l@)
}

/// The port published after a sequence of output lines has been processed,
/// starting from `init`: the last readiness line wins, and without one the
/// port stays as it was.
pub open spec fn port_after(init: Option<u16>, lines: Seq<Seq<char>>) -> Option<u16>
    decreases lines.len(),
{
    if lines.len() == 0 {
        init
    } else if is_port_line(lines.last()) {
        Some(port_of_line(lines.last()))
    } else {
        port_after(init, lines.drop_last())
    }
}

/// The output directory as a function of the record and the working
/// directory.
pub open spec fn spec_output_dir(s: &RuntimeState, cwd: Seq<char>) -> Seq<char> {
    match s.data_dir {
        Some(d) => joined(d@, "output"@),
        None => joined(cwd, "output"@),
    }
}

/// Lines that announce nothing change nothing: processing any sequence of
/// non-readiness lines leaves the published port exactly as it was. In
/// particular a port, once published, keeps its value however much further
/// chatter arrives, and when the worker never announced — or was never even
/// spawned — the query keeps failing with the not-ready error and nothing
/// else.
pub proof fn lemma_port_stable(init: Option<u16>, lines: Seq<Seq<char>>)
    requires
        forall|i: int| 0 <= i < lines.len() ==> !is_port_line(#[trigger] lines[i]),
    ensures
        port_after(init, lines) == init,
    decreases lines.len(),
{
    if lines.len() > 0 {
        assert(!is_port_line(lines.last()));
        lemma_port_stable(init, lines.drop_last());
    }
}

/// The last readiness line wins: whatever came before it and whatever
/// non-readiness chatter follows it, the published port is the one of the
/// last readiness line in the stream.
pub proof fn lemma_last_port_line_wins(init: Option<u16>, lines: Seq<Seq<char>>, i: int)
    requires
        0 <= i < lines.len(),
        is_port_line(lines[i]),
        forall|j: int| i < j < lines.len() ==> !is_port_line(#[trigger] lines[j]),
    ensures
        port_after(init, lines) == Some(port_of_line(lines[i])),
    decreases lines.len(),
{
    if i == lines.len() - 1 {
        assert(is_port_line(lines.last()));
    } else {
        assert(!is_port_line(lines.last()));
        lemma_last_port_line_wins(init, lines.drop_last(), i);
    }
}

/// A worker that was never spawned, or exited without announcing, leaves
/// the query failing for the whole run: from an empty record, chatter alone
/// never produces a port.
pub proof fn lemma_not_ready_without_announcement(lines: Seq<Seq<char>>)
    requires
        forall|i: int| 0 <= i < lines.len() ==> !is_port_line(#[trigger] lines[i]),
    ensures
        port_after(None, lines) is None,
{
    lemma_port_stable(None, lines);
}

/// The published port moves at most once from empty to a value: once some
/// readiness line has been processed, no later output line — well-formed,
/// malformed or plain chatter — ever clears it again; readers never observe
/// a transition back to empty.
pub proof fn lemma_port_never_cleared(init: Option<u16>, lines: Seq<Seq<char>>)
    requires
        init is Some,
    ensures
        port_after(init, lines) is Some,
    decreases lines.len(),
{
    if lines.len() > 0 && !is_port_line(lines.last()) {
        lemma_port_never_cleared(init, lines.drop_last());
    }
}

/// The output-directory query is idempotent in the record: it answers the
/// same path however often it is asked, and a second call finds the
/// directory already created rather than failing.
pub proof fn lemma_output_dir_stable(s: &RuntimeState, cwd: Seq<char>, r1: Seq<char>, r2: Seq<
    char>)
    requires
        r1 == spec_output_dir(s, cwd),
        r2 == spec_output_dir(s, cwd),
    ensures
        r1 == r2,
{
}

/// The argument vector the worker is spawned with: the transcoder path when
/// one was found, and always the data directory.
pub fn worker_args(transcoder: &Option<String>, data_dir: &str) -> (v: Vec<String>)
    ensures
        transcoder matches Some(t) ==> {
            &&& v@.len() == 4
            &&& v@[0]@ == "--transcoder-path"@
            &&& v@[1]@ == t@
            &&& v@[2]@ == "--data-dir"@
            &&& v@[3]@ == data_dir@
        },
        transcoder is None ==> {
            &&& v@.len() == 2
            &&& v@[0]@ == "--data-dir"@
            &&& v@[1]@ == data_dir@
        },
{
    let mut v: Vec<String> = Vec::new();
    match transcoder {
        Some(t) => {
            v.push(String::from_str("--transcoder-path"));
            v.push(t.clone());
        },
        None => {},
    }
    v.push(String::from_str("--data-dir"));
    v.push(String::from_str(data_dir));
    v
}

/// The project root seen from a working directory in the development
/// layout: walk upward while the final path component is one of the known
/// project subdirectory names.
pub open spec fn spec_project_root(p: Seq<char>) -> Seq<char>
    decreases p.len(),
    via spec_project_root_decreases
{
    if p.len() > 0 && (last_component(p) == "src-tauri"@ || last_component(p) == "app"@) {
        spec_project_root(parent_of(p))
    } else {
        p
    }
}

#[via_fn]
proof fn spec_project_root_decreases(p: Seq<char>) {
    if p.len() > 0 {
        lemma_parent_shorter(p);
    }
}

/// Walk upward from `cwd` to the project root: strip the final component
/// while it is a known project subdirectory name.
pub fn project_root(cwd: &str) -> (r: String)
    ensures
        r@ == spec_project_root(cwd@),
{
    let mut cur = String::from_str(cwd);
    loop
        invariant
            spec_project_root(cur@) == spec_project_root(cwd@),
        ensures
            cur@ == spec_project_root(cwd@),
        decreases cur@.len(),
    {
        let in_src_tauri = ends_with_component(cur.as_str(), "src-tauri");
        let in_app = ends_with_component(cur.as_str(), "app");
        if !(in_src_tauri || in_app) {
            break ;
        }
        proof {
            if cur@.len() > 0 {
                lemma_parent_shorter(cur@);
            }
        }
        if cur.as_str().unicode_len() == 0 {
            break ;
        }
        let next = pop_component(cur.as_str());
        cur = next;
    }
    cur
}

/// The data directory chosen once at startup: in development builds the
/// project root above the working directory, in production the per-user
/// application data directory, with the working directory as the fallback
/// when the platform offers none.
pub fn choose_data_dir(dev: bool, cwd: &str, app_data: Option<&str>) -> (r: String)
    ensures
        dev ==> r@ == spec_project_root(cwd@),
        !dev ==> r@ == (match app_data {
            Some(d) => d@,
            None => cwd@,
        }),
{
    if dev {
        project_root(cwd)
    } else {
        match app_data {
            Some(d) => String::from_str(d),
            None => String::from_str(cwd),
        }
    }
}

} // verus!
