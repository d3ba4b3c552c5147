//! Which processes are the supervised helper, and what a sweep reports.
use vstd::prelude::*;

verus! {

/// One row of the operating system's process table.
#[derive(Debug)]
pub struct ProcessEntry {
    pub pid: u32,
    pub name: String,
}

/// A point-in-time view of the helper: computed afresh on every check.
#[derive(Debug)]
pub struct ProcessStatus {
    pub running: bool,
    pub matched_pids: Vec<u32>,
}

/// The processes that a stop sweep could not terminate.
#[derive(Debug)]
pub struct StopError {
    pub failed_pids: Vec<u32>,
}

/// What `str::to_lowercase` makes of `s`.
pub uninterp spec fn lower_of(s: Seq<char>) -> Seq<char>;

/// Relies on `str::to_lowercase`: the lowercase form of every character.
#[verifier::external_body]
fn lowercase(s: &str) -> (r: String)
    ensures
        r@ == lower_of(s@),
{
    s.to_lowercase()
}

/// Whether `lowered` is one of the aliases.
pub open spec fn is_alias(aliases: Seq<String>, lowered: Seq<char>) -> bool {
    exists|i: int| 0 <= i < aliases.len() && (#[trigger] aliases[i])@ == lowered
}

/// Whether a process of this name, as `to_lowercase` gives it, is one of the aliases.
pub open spec fn is_helper_process(aliases: Seq<String>, name: Seq<char>) -> bool {
    is_alias(aliases, lower_of(name))
}

/// The pids in `table` whose name is one of the aliases, in table order.
pub open spec fn helper_pids(aliases: Seq<String>, table: Seq<ProcessEntry>) -> Seq<u32>
    decreases table.len(),
{
    if table.len() == 0 {
        Seq::empty()
    } else {
        let rest = helper_pids(aliases, table.drop_last());
        if is_helper_process(aliases, table.last().name@) {
            rest.push(table.last().pid)
        } else {
            rest
        }
    }
}

/// The pids whose termination failed, in sweep order.
pub open spec fn failed_pids(pids: Seq<u32>, killed: Seq<bool>) -> Seq<u32>
    decreases pids.len(),
{
    if pids.len() == 0 || killed.len() == 0 {
        Seq::empty()
    } else {
        let rest = failed_pids(pids.drop_last(), killed.drop_last());
        if !killed.last() {
            rest.push(pids.last())
        } else {
            rest
        }
    }
}

/// Whether two texts are the same characters.
pub fn same_text(a: &str, b: &str) -> (r: bool)
    ensures
        r == (a@ == b@),
{
    let n = a.unicode_len();
    if n != b.unicode_len() {
        return false;
    }
    let mut i: usize = 0;
    while i < n
        invariant
            n == a@.len(),
            n == b@.len(),
            0 <= i <= n,
            forall|j: int| 0 <= j < i ==> a@[j] == b@[j],
        decreases n - i,
    {
        if a.get_char(i) != b.get_char(i) {
            return false;
        }
        i = i + 1;
    }
    assert(a@ =~= b@);
    true
}

/// The helper's executable names, in lowercase: the 32-bit and 64-bit
/// builds and the generic one.
pub fn helper_aliases() -> (r: Vec<String>)
    ensures
        r@.len() == 3,
        r@[0]@ == "caffeine32.exe"@,
        r@[1]@ == "caffeine64.exe"@,
        r@[2]@ == "caffeine.exe"@,
{
    vec![
        String::from_str("caffeine32.exe"),
        String::from_str("caffeine64.exe"),
        String::from_str("caffeine.exe"),
    ]
}

/// Whether an already lowercased executable name is one of the aliases.
pub fn is_alias_lowered(aliases: &Vec<String>, lowered: &str) -> (r: bool)
    ensures
        r == is_alias(aliases@, lowered@),
{
    let mut i: usize = 0;
    while i < aliases.len()
        invariant
            0 <= i <= aliases@.len(),
            forall|j: int| 0 <= j < i ==> (#[trigger] aliases@[j])@ != lowered@,
        decreases aliases@.len() - i,
    {
        if same_text(aliases[i].as_str(), lowered) {
            return true;
        }
        i = i + 1;
    }
    false
}

/// Whether a process name is one of the aliases, ignoring case. The aliases
/// are given in lowercase.
pub fn is_helper_process_name(aliases: &Vec<String>, name: &str) -> (r: bool)
    ensures
        r == is_helper_process(aliases@, name@),
{
    let lowered = lowercase(name);
    is_alias_lowered(aliases, lowered.as_str())
}

/// The status of the processes named by any alias in a process table:
/// their pids, and whether there are any.
pub fn process_status(table: &Vec<ProcessEntry>, aliases: &Vec<String>) -> (r: ProcessStatus)
    ensures
        r.matched_pids@ == helper_pids(aliases@, table@),
        r.running == (helper_pids(aliases@, table@).len() > 0),
{
    let mut pids: Vec<u32> = Vec::new();
    let mut i: usize = 0;
    while i < table.len()
        invariant
            0 <= i <= table@.len(),
            pids@ == helper_pids(aliases@, table@.subrange(0, i as int)),
        decreases table@.len() - i,
    {
        let ghost prefix = table@.subrange(0, i as int + 1);
        assert(prefix.drop_last() =~= table@.subrange(0, i as int));
        assert(prefix.last() == table@[i as int]);
        if is_helper_process_name(aliases, table[i].name.as_str()) {
            pids.push(table[i].pid);
        }
        i = i + 1;
    }
    assert(table@.subrange(0, table@.len() as int) =~= table@);
    let running = pids.len() > 0;
    ProcessStatus { running, matched_pids: pids }
}

/// The outcome of a stop sweep that tried every pid in turn: an error that
/// lists each pid that could not be terminated, if there is one.
pub fn stop_outcome(pids: &Vec<u32>, killed: &Vec<bool>) -> (r: Result<(), StopError>)
    requires
        pids@.len() == killed@.len(),
    ensures
        r is Ok <==> failed_pids(pids@, killed@).len() == 0,
        r matches Err(e) ==> e.failed_pids@ == failed_pids(pids@, killed@),
{
    let mut failed: Vec<u32> = Vec::new();
    let mut i: usize = 0;
    while i < pids.len()
        invariant
            pids@.len() == killed@.len(),
            0 <= i <= pids@.len(),
            failed@ == failed_pids(pids@.subrange(0, i as int), killed@.subrange(0, i as int)),
        decreases pids@.len() - i,
    {
        assert(pids@.subrange(0, i as int + 1).drop_last() =~= pids@.subrange(0, i as int));
        assert(killed@.subrange(0, i as int + 1).drop_last() =~= killed@.subrange(0, i as int));
        if !killed[i] {
            failed.push(pids[i]);
        }
        i = i + 1;
    }
    assert(pids@.subrange(0, pids@.len() as int) =~= pids@);
    assert(killed@.subrange(0, killed@.len() as int) =~= killed@);
    if failed.len() == 0 {
        Ok(())
    } else {
        Err(StopError { failed_pids: failed })
    }
}

/// The helper's executable for this build: the 64-bit one on x86-64, else
/// the 32-bit one.
pub fn helper_executable(x86_64: bool) -> (r: String)
    ensures
        x86_64 ==> r@ == "caffeine64.exe"@,
        !x86_64 ==> r@ == "caffeine32.exe"@,
{
    if x86_64 {
        String::from_str("caffeine64.exe")
    } else {
        String::from_str("caffeine32.exe")
    }
}

} // verus!
