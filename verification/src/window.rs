//! State of the attach-to-process picker: which processes are on offer, the
//! name filter, and whether the picker is open.  Drawing the picker and
//! enumerating processes belong to the surrounding application; this module
//! owns only the state they act on.

use vstd::prelude::*;
use vstd::string::StrSliceExecFns;

verus! {

/// ASCII case folding: uppercase letters map to their lowercase counterpart,
/// every other character is unchanged.
pub open spec fn fold_char(c: char) -> char {
    if 'A' <= c && c <= 'Z' {
        (((c as u32) + 32) as char)
    } else {
        c
    }
}

/// Whether `filter` occurs in `name` starting at position `i`, comparing
/// characters case-insensitively.
pub open spec fn filter_matches_at(name: Seq<char>, filter: Seq<char>, i: int) -> bool {
    &&& 0 <= i
    &&& i + filter.len() <= name.len()
    &&& forall|j: int|
        0 <= j < filter.len() ==> fold_char(name[i + j]) == fold_char(#[trigger] filter[j])
}

/// Whether `name` passes `filter`: an empty filter passes every name, any
/// other filter must occur somewhere in the name, case-insensitively.
pub open spec fn filter_matches(name: Seq<char>, filter: Seq<char>) -> bool {
    filter.len() == 0 || exists|i: int| #[trigger] filter_matches_at(name, filter, i)
}

fn lower_char(c: char) -> (r: char)
    ensures
        r == fold_char(c),
{
    if 'A' <= c && c <= 'Z' {
        (((c as u8) + 32) as char)
    } else {
        c
    }
}

/// Compares the filter against the name at one starting position, character
/// by character and case-insensitively.
fn match_at(name: &str, filter: &str, i: usize, n: usize, m: usize) -> (r: bool)
    requires
        n == name@.len(),
        m == filter@.len(),
        i + m <= n,
    ensures
        r == filter_matches_at(name@, filter@, i as int),
{
    let mut j: usize = 0;
    while j < m
        invariant
            n == name@.len(),
            m == filter@.len(),
            i + m <= n,
            j <= m,
            forall|j2: int|
                0 <= j2 < j ==> fold_char(name@[i + j2]) == fold_char(#[trigger] filter@[j2]),
        decreases m - j,
    {
        let a = lower_char(name.get_char(i + j));
        let b = lower_char(filter.get_char(j));
        if a != b {
            proof {
                assert(fold_char(name@[i + j]) != fold_char(filter@[j as int]));
            }
            return false;
        }
        j = j + 1;
    }
    true
}

/// Decides whether a process name passes the picker's name filter: true iff
/// the filter is empty or occurs in the name, ignoring ASCII case.
pub fn name_matches_filter(name: &str, filter: &str) -> (r: bool)
    ensures
        r == filter_matches(name@, filter@),
{
    let n = name.unicode_len();
    let m = filter.unicode_len();
    if m == 0 {
        return true;
    }
    if m > n {
        assert(forall|i: int| !filter_matches_at(name@, filter@, i));
        return false;
    }
    let mut i: usize = 0;
    while i <= n - m
        invariant
            0 < m <= n,
            n == name@.len(),
            m == filter@.len(),
            i <= n - m + 1,
            forall|k: int| 0 <= k < i ==> !filter_matches_at(name@, filter@, k),
        decreases n - m - i + 1,
    {
        if match_at(name, filter, i, n, m) {
            return true;
        }
        i = i + 1;
    }
    proof {
        assert forall|k: int| !filter_matches_at(name@, filter@, k) by {
            if 0 <= k <= n - m {
                assert(!filter_matches_at(name@, filter@, k));
            }
        }
    }
    false
}

/// One process on offer in the picker.
pub struct ProcessEntry {
    /// Id of the process.
    pub id: u32,
    /// Display name of the process.
    pub name: String,
}

/// State of the attach-to-process picker window.
pub struct ProcessAttachWindow {
    shown: bool,
    filter: String,
    processes: Vec<ProcessEntry>,
}

impl ProcessAttachWindow {
    /// Whether the picker is currently open.
    pub closed spec fn shown(&self) -> bool {
        self.shown
    }

    /// The name filter's text.
    pub closed spec fn filter_spec(&self) -> Seq<char> {
        self.filter@
    }

    /// The processes currently on offer.
    pub closed spec fn process_view(&self) -> Seq<ProcessEntry> {
        self.processes@
    }

    /// A closed picker with an empty filter and no processes on offer yet.
    pub fn new() -> (r: ProcessAttachWindow)
        ensures
            !r.shown(),
            r.filter_spec() == Seq::<char>::empty(),
            r.process_view() == Seq::<ProcessEntry>::empty(),
    {
        ProcessAttachWindow { shown: false, filter: String::new(), processes: Vec::new() }
    }

    /// Whether the picker is currently open.
    pub fn is_shown(&self) -> (r: bool)
        ensures
            r == self.shown(),
    {
        self.shown
    }

    /// How many processes are currently on offer.
    pub fn process_count(&self) -> (r: usize)
        ensures
            r == self.process_view().len(),
    {
        self.processes.len()
    }

    /// Opens the picker if it was closed and closes it if it was open,
    /// touching nothing else.  Returns whether the picker is now open: when
    /// it is, the caller refreshes the offered processes.
    pub fn toggle(&mut self) -> (r: bool)
        ensures
            final(self).shown() == !old(self).shown(),
            r == final(self).shown(),
            final(self).filter_spec() == old(self).filter_spec(),
            final(self).process_view() == old(self).process_view(),
    {
        self.shown = !self.shown;
        self.shown
    }

    /// Replaces the name filter's text, touching nothing else.
    pub fn set_filter(&mut self, filter: String)
        ensures
            final(self).filter_spec() == filter@,
            final(self).shown() == old(self).shown(),
            final(self).process_view() == old(self).process_view(),
    {
        self.filter = filter;
    }

    /// Whether a process of this name is offered under the current filter:
    /// true iff the filter is empty or occurs in the name, ignoring ASCII
    /// case.
    pub fn filter_allows(&self, name: &str) -> (r: bool)
        ensures
            r == filter_matches(name@, self.filter_spec()),
    {
        name_matches_filter(name, self.filter.as_str())
    }

    /// Replaces the offered processes with a freshly enumerated list,
    /// touching nothing else.
    pub fn update_processes(&mut self, processes: Vec<ProcessEntry>)
        ensures
            final(self).process_view() == processes@,
            final(self).shown() == old(self).shown(),
            final(self).filter_spec() == old(self).filter_spec(),
    {
        self.processes = processes;
    }
}

} // verus!
