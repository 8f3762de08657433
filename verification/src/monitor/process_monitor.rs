//! The process probe: is a process with a given id, or with a name that
//! contains a given text, alive?

use vstd::prelude::*;
use sysinfo::System;
use crate::database::models::opt_text;
use crate::text::{
    contains_text, decimal, decimal_text, is_substring, lowercase, parse_unsigned,
    parse_unsigned_text, push_decimal,
};

verus! {

/// `sysinfo::System`: the process list of the machine, as it was read last.
/// The monitor sees nothing inside it but through the items below.
#[verifier::external_type_specification]
#[verifier::external_body]
pub struct ExSystem(System);

/// The processes that a `sysinfo::System` holds since its last refresh: the
/// name of each, by its id.
pub uninterp spec fn live_processes(system: System) -> Map<u32, Seq<char>>;

/// `System::new_all` makes a system with everything loaded. Nothing is claimed
/// of what it holds.
pub assume_specification[ System::new_all ]() -> System;

/// `System::refresh_processes` reads the process list anew. Nothing is claimed
/// of what the system holds afterwards.
pub assume_specification[ System::refresh_processes ](system: &mut System);

/// What a process monitor looks for.
#[derive(Debug, Clone)]
pub enum ProcessTarget {
    /// Any process whose name contains this text, whatever the case.
    Name(String),
    /// The process with this id.
    Pid(u32),
}

/// A [`ProcessTarget`] with its text as a sequence.
pub enum ProcessTargetView {
    Name(Seq<char>),
    Pid(u32),
}

impl View for ProcessTarget {
    type V = ProcessTargetView;

    open spec fn view(&self) -> ProcessTargetView {
        match self {
            ProcessTarget::Name(name) => ProcessTargetView::Name(name@),
            ProcessTarget::Pid(pid) => ProcessTargetView::Pid(*pid),
        }
    }
}

/// The target that a text stands for: a process id where the text is a
/// number that fits 32 bits, a name otherwise.
pub open spec fn target_of(text: Seq<char>) -> ProcessTargetView {
    match parse_unsigned(text, u32::MAX as nat) {
        Some(pid) => ProcessTargetView::Pid(pid as u32),
        None => ProcessTargetView::Name(text),
    }
}

/// The text that a target is stored as.
pub open spec fn target_text(target: ProcessTargetView) -> Seq<char> {
    match target {
        ProcessTargetView::Name(name) => name,
        ProcessTargetView::Pid(pid) => decimal(pid as nat),
    }
}

impl ProcessTarget {
    /// Reads a target: a number is a process id, anything else a name.
    pub fn from_string(target: &str) -> (out: Self)
        ensures
            out@ == target_of(target@),
    {
        match parse_unsigned_text(target, u32::MAX) {
            Some(pid) => ProcessTarget::Pid(pid),
            None => ProcessTarget::Name(String::from_str(target)),
        }
    }

    /// Writes the target for storage.
    pub fn to_string(&self) -> (out: String)
        ensures
            out@ == target_text(self@),
    {
        match self {
            ProcessTarget::Name(name) => name.clone(),
            ProcessTarget::Pid(pid) => decimal_text(*pid as u64),
        }
    }
}

/// One row of the process table.
#[derive(Debug, Clone, PartialEq, Eq)]
pub struct ProcessEntry {
    pub pid: u32,
    pub name: String,
}

/// `table` lists the processes of `live`: each once, in some order.
pub open spec fn lists_processes(table: Seq<ProcessEntry>, live: Map<u32, Seq<char>>) -> bool {
    &&& forall|i: int|
        0 <= i < table.len() ==> live.contains_key(#[trigger] table[i].pid) && live[table[i].pid]
            == table[i].name@
    &&& forall|pid: u32|
        live.contains_key(pid) ==> exists|i: int|
            0 <= i < table.len() && #[trigger] table[i].pid == pid
    &&& forall|i: int, j: int|
        0 <= i < j < table.len() ==> #[trigger] table[i].pid != #[trigger] table[j].pid
}

/// The process table of `system`, from `System::processes`: one row for
/// each process that the system holds, with the process id as `Pid::as_u32`
/// gives it and the name as `Process::name` gives it. The order of the rows
/// is that in which the map is walked, of which nothing is claimed.
#[verifier::external_body]
fn process_table(system: &System) -> (table: Vec<ProcessEntry>)
    ensures
        lists_processes(table@, live_processes(*system)),
{
    system.processes().values().map(
        |p| ProcessEntry { pid: p.pid().as_u32(), name: p.name().to_string() },
    ).collect()
}

/// The process `pid`, named `name`, is what `target` looks for.
pub open spec fn matches_process(target: ProcessTargetView, pid: u32, name: Seq<char>) -> bool {
    match target {
        ProcessTargetView::Pid(wanted) => pid == wanted,
        ProcessTargetView::Name(wanted) => is_substring(lowercase(wanted), lowercase(name)),
    }
}

/// Some live process is what `target` looks for.
pub open spec fn process_found(target: ProcessTargetView, live: Map<u32, Seq<char>>) -> bool {
    exists|pid: u32| live.contains_key(pid) && matches_process(target, pid, #[trigger] live[pid])
}

/// Some row of `table` is what `target` looks for.
pub open spec fn found_in(target: ProcessTargetView, table: Seq<ProcessEntry>) -> bool {
    exists|i: int|
        0 <= i < table.len() && matches_process(
            target,
            (#[trigger] table[i]).pid,
            table[i].name@,
        )
}

/// The ids of the rows that `target` looks for, in the order of the table.
pub open spec fn matching_pids(target: ProcessTargetView, table: Seq<ProcessEntry>) -> Seq<u32>
    decreases table.len(),
{
    if table.len() == 0 {
        Seq::empty()
    } else {
        let before = matching_pids(target, table.drop_last());
        if matches_process(target, table.last().pid, table.last().name@) {
            before.push(table.last().pid)
        } else {
            before
        }
    }
}

/// The name in the first row with the id `pid`.
pub open spec fn name_of(table: Seq<ProcessEntry>, pid: u32) -> Option<Seq<char>>
    decreases table.len(),
{
    if table.len() == 0 {
        None
    } else if table[0].pid == pid {
        Some(table[0].name@)
    } else {
        name_of(table.drop_first(), pid)
    }
}

/// Process ids in decimal, with `", "` between them.
pub open spec fn joined_pids(pids: Seq<u32>) -> Seq<char>
    decreases pids.len(),
{
    if pids.len() == 0 {
        Seq::empty()
    } else if pids.len() == 1 {
        decimal(pids[0] as nat)
    } else {
        joined_pids(pids.drop_last()) + ", "@ + decimal(pids.last() as nat)
    }
}

/// The description of the processes found by name.
pub open spec fn name_info(name: Seq<char>, pids: Seq<u32>) -> Seq<char> {
    "Found "@ + decimal(pids.len()) + " process(es) matching '"@ + name + "': PIDs ["@
        + joined_pids(pids) + "]"@
}

/// The description of the process found by id.
pub open spec fn pid_info(pid: u32, name: Seq<char>) -> Seq<char> {
    "Process PID "@ + decimal(pid as nat) + " ("@ + name + "): running"@
}

/// The description of what `target` finds in `table`, if it finds anything.
pub open spec fn info_for(target: ProcessTargetView, table: Seq<ProcessEntry>) -> Option<
    Seq<char>,
> {
    match target {
        ProcessTargetView::Name(name) => {
            let pids = matching_pids(target, table);
            if pids.len() == 0 {
                None
            } else {
                Some(name_info(name, pids))
            }
        },
        ProcessTargetView::Pid(pid) => match name_of(table, pid) {
            Some(name) => Some(pid_info(pid, name)),
            None => None,
        },
    }
}

/// A table that lists the live processes finds what is alive.
pub proof fn lemma_table_finds_live(
    target: ProcessTargetView,
    table: Seq<ProcessEntry>,
    live: Map<u32, Seq<char>>,
)
    requires
        lists_processes(table, live),
    ensures
        found_in(target, table) == process_found(target, live),
{
    if found_in(target, table) {
        let i = choose|i: int|
            0 <= i < table.len() && matches_process(
                target,
                (#[trigger] table[i]).pid,
                table[i].name@,
            );
        assert(live.contains_key(table[i].pid));
        assert(matches_process(target, table[i].pid, live[table[i].pid]));
    }
    if process_found(target, live) {
        let pid = choose|pid: u32|
            live.contains_key(pid) && matches_process(target, pid, #[trigger] live[pid]);
        let i = choose|i: int| 0 <= i < table.len() && #[trigger] table[i].pid == pid;
        assert(matches_process(target, table[i].pid, table[i].name@));
    }
}

/// The rows that a target finds are none exactly where it finds nothing, and
/// a row with a given id has a name exactly where the id is found.
pub proof fn lemma_info_iff_found(target: ProcessTargetView, table: Seq<ProcessEntry>)
    ensures
        info_for(target, table) is Some <==> found_in(target, table),
    decreases table.len(),
{
    match target {
        ProcessTargetView::Name(_) => {
            lemma_matching_pids(target, table);
        },
        ProcessTargetView::Pid(pid) => {
            lemma_name_of(table, pid);
            if name_of(table, pid) is Some {
                let i = choose|i: int| 0 <= i < table.len() && (#[trigger] table[i]).pid == pid;
                assert(matches_process(target, table[i].pid, table[i].name@));
            }
        },
    }
}

proof fn lemma_matching_pids(target: ProcessTargetView, table: Seq<ProcessEntry>)
    ensures
        matching_pids(target, table).len() > 0 <==> found_in(target, table),
        matching_pids(target, table).len() <= table.len(),
    decreases table.len(),
{
    if table.len() > 0 {
        let shorter = table.drop_last();
        lemma_matching_pids(target, shorter);
        if found_in(target, shorter) {
            let i = choose|i: int|
                0 <= i < shorter.len() && matches_process(
                    target,
                    (#[trigger] shorter[i]).pid,
                    shorter[i].name@,
                );
            assert(shorter[i] == table[i]);
        }
        if found_in(target, table) && !matches_process(
            target,
            table.last().pid,
            table.last().name@,
        ) {
            let i = choose|i: int|
                0 <= i < table.len() && matches_process(
                    target,
                    (#[trigger] table[i]).pid,
                    table[i].name@,
                );
            assert(shorter[i] == table[i]);
        }
    }
}

proof fn lemma_name_of(table: Seq<ProcessEntry>, pid: u32)
    ensures
        name_of(table, pid) is Some <==> exists|i: int|
            0 <= i < table.len() && (#[trigger] table[i]).pid == pid,
    decreases table.len(),
{
    if table.len() > 0 && table[0].pid != pid {
        let rest = table.drop_first();
        lemma_name_of(rest, pid);
        if name_of(rest, pid) is Some {
            let i = choose|i: int| 0 <= i < rest.len() && (#[trigger] rest[i]).pid == pid;
            assert(table[i + 1] == rest[i]);
        }
        if exists|i: int| 0 <= i < table.len() && (#[trigger] table[i]).pid == pid {
            let i = choose|i: int| 0 <= i < table.len() && (#[trigger] table[i]).pid == pid;
            assert(rest[i - 1] == table[i]);
        }
    }
}

/// Whether the process of `entry` is what `target` looks for.
pub fn entry_matches(target: &ProcessTarget, entry: &ProcessEntry) -> (r: bool)
    ensures
        r == matches_process(target@, entry.pid, entry.name@),
{
    match target {
        ProcessTarget::Pid(wanted) => entry.pid == *wanted,
        ProcessTarget::Name(wanted) => {
            let name = entry.name.as_str().to_lowercase();
            let needle = wanted.as_str().to_lowercase();
            contains_text(name.as_str(), needle.as_str())
        },
    }
}

/// Whether some row of `table` is what `target` looks for.
pub fn find_in_table(target: &ProcessTarget, table: &Vec<ProcessEntry>) -> (found: bool)
    ensures
        found == found_in(target@, table@),
{
    let mut i: usize = 0;
    while i < table.len()
        invariant
            i <= table.len(),
            forall|k: int|
                0 <= k < i ==> !matches_process(
                    target@,
                    (#[trigger] table@[k]).pid,
                    table@[k].name@,
                ),
        decreases table.len() - i,
    {
        if entry_matches(target, &table[i]) {
            return true;
        }
        i += 1;
    }
    false
}

/// Appends the process ids, in decimal, with `", "` between them.
fn push_joined(out: &mut String, pids: &Vec<u32>)
    ensures
        final(out)@ == old(out)@ + joined_pids(pids@),
{
    let mut i: usize = 0;
    assert(pids@.take(0).len() == 0);
    assert(out@ =~= old(out)@ + joined_pids(pids@.take(0)));
    while i < pids.len()
        invariant
            i <= pids.len(),
            out@ == old(out)@ + joined_pids(pids@.take(i as int)),
        decreases pids.len() - i,
    {
        let ghost before = out@;
        let ghost longer = pids@.take(i + 1);
        assert(longer.drop_last() =~= pids@.take(i as int));
        assert(longer.last() == pids@[i as int]);
        if i > 0 {
            out.append(", ");
        }
        push_decimal(out, pids[i] as u64);
        assert(out@ =~= old(out)@ + joined_pids(longer));
        i += 1;
    }
    assert(pids@.take(pids.len() as int) =~= pids@);
}

/// The description of what `target` finds in `table`, if it finds anything.
pub fn describe_in_table(target: &ProcessTarget, table: &Vec<ProcessEntry>) -> (info: Option<
    String,
>)
    ensures
        opt_text(info) == info_for(target@, table@),
{
    match target {
        ProcessTarget::Name(name) => {
            let mut pids: Vec<u32> = Vec::new();
            let mut i: usize = 0;
            assert(table@.take(0).len() == 0);
            while i < table.len()
                invariant
                    i <= table.len(),
                    pids@ == matching_pids(target@, table@.take(i as int)),
                decreases table.len() - i,
            {
                let ghost longer = table@.take(i + 1);
                assert(longer.drop_last() =~= table@.take(i as int));
                assert(longer.last() == table@[i as int]);
                if entry_matches(target, &table[i]) {
                    pids.push(table[i].pid);
                }
                i += 1;
            }
            assert(table@.take(table.len() as int) =~= table@);
            if pids.len() == 0 {
                None
            } else {
                let mut out = String::from_str("Found ");
                push_decimal(&mut out, pids.len() as u64);
                out.append(" process(es) matching '");
                out.append(name.as_str());
                out.append("': PIDs [");
                push_joined(&mut out, &pids);
                out.append("]");
                Some(out)
            }
        },
        ProcessTarget::Pid(pid) => {
            let mut i: usize = 0;
            assert(table@.skip(0) =~= table@);
            while i < table.len()
                invariant
                    i <= table.len(),
                    target@ == ProcessTargetView::Pid(*pid),
                    name_of(table@, *pid) == name_of(table@.skip(i as int), *pid),
                decreases table.len() - i,
            {
                let ghost rest = table@.skip(i as int);
                assert(rest[0] == table@[i as int]);
                assert(rest.drop_first() =~= table@.skip(i + 1));
                if table[i].pid == *pid {
                    let mut out = String::from_str("Process PID ");
                    push_decimal(&mut out, *pid as u64);
                    out.append(" (");
                    out.append(table[i].name.as_str());
                    out.append("): running");
                    assert(name_of(rest, *pid) == Some(table@[i as int].name@));
                    assert(out@ =~= pid_info(*pid, table@[i as int].name@));
                    return Some(out);
                }
                i += 1;
            }
            assert(table@.skip(table.len() as int).len() == 0);
            None
        },
    }
}

/// The process probe. It holds a `sysinfo::System` and reads the process list
/// anew for every check.
pub struct ProcessMonitor {
    system: System,
}

impl ProcessMonitor {
    /// The processes that the monitor saw at its last check: the name of
    /// each, by its id.
    pub closed spec fn processes(&self) -> Map<u32, Seq<char>> {
        live_processes(self.system)
    }

    pub fn new() -> Self {
        Self { system: System::new_all() }
    }

    /// Reads the process list anew and says whether what `target` looks for
    /// is in it: the process with that id, or a process whose name contains
    /// that text, whatever the case of either.
    pub fn check_process(&mut self, target: &ProcessTarget) -> (found: bool)
        ensures
            found == process_found(target@, final(self).processes()),
    {
        self.system.refresh_processes();
        let table = process_table(&self.system);
        proof {
            lemma_table_finds_live(target@, table@, self.processes());
        }
        find_in_table(target, &table)
    }

    /// Reads the process list anew and describes what `target` finds in it:
    /// nothing where no process is found, else the ids of the processes found
    /// by name, in the order of some listing of the live processes, or the
    /// name of the process found by id.
    pub fn get_process_info(&mut self, target: &ProcessTarget) -> (info: Option<String>)
        ensures
            info is Some <==> process_found(target@, final(self).processes()),
            exists|table: Seq<ProcessEntry>|
                lists_processes(table, final(self).processes()) && opt_text(info) == info_for(
                    target@,
                    table,
                ),
    {
        self.system.refresh_processes();
        let table = process_table(&self.system);
        proof {
            lemma_table_finds_live(target@, table@, self.processes());
            lemma_info_iff_found(target@, table@);
        }
        describe_in_table(target, &table)
    }
}

impl Default for ProcessMonitor {
    fn default() -> Self {
        Self::new()
    }
}

} // verus!
