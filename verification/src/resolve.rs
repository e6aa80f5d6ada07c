//! Name resolution: which processes of a snapshot a name denotes.

use vstd::prelude::*;
use vstd::string::*;
use crate::host::{entries_of, ProcessEntry};
use crate::text::{lower_text, starts_with, str_eq, to_lower};

verus! {

/// True when a lower-case executable name is the lower-case target name,
/// bare or with the executable suffix appended.
pub open spec fn lowered_match(exe: Seq<char>, target: Seq<char>) -> bool {
    exe == target || exe == target + ".exe"@
}

/// True when an executable name matches a target name, letter case aside.
pub open spec fn name_match(exe: Seq<char>, target: Seq<char>) -> bool {
    lowered_match(lower_text(exe), lower_text(target))
}

/// The identifiers of the entries whose name matches `target`, in snapshot order.
pub open spec fn matching_pids(entries: Seq<(u32, Seq<char>)>, target: Seq<char>) -> Seq<u32>
    decreases entries.len(),
{
    if entries.len() == 0 {
        Seq::empty()
    } else {
        let rest = matching_pids(entries.drop_last(), target);
        if name_match(entries.last().1, target) {
            rest.push(entries.last().0)
        } else {
            rest
        }
    }
}

/// What is kept of the matches: all of them, or the first one only.
pub open spec fn selected(matches: Seq<u32>, all: bool) -> Seq<u32> {
    if all || matches.len() <= 1 {
        matches
    } else {
        matches.take(1)
    }
}

/// Compares a lower-case executable name with a lower-case target name: equal,
/// or equal once the executable suffix is appended to the target.
pub fn name_matches(exe: &str, target: &str) -> (r: bool)
    ensures
        r == lowered_match(exe@, target@),
{
    if str_eq(exe, target) {
        return true;
    }
    let n: usize = exe.unicode_len();
    let m: usize = target.unicode_len();
    proof {
        reveal_strlit(".exe");
    }
    if n < 4 || n - 4 != m {
        assert((target@ + ".exe"@).len() == m + 4);
        return false;
    }
    let tail: &str = exe.substring_char(m, n);
    let r = starts_with(exe, target) && str_eq(tail, ".exe");
    proof {
        if r {
            assert(exe@ =~= exe@.take(m as int) + exe@.subrange(m as int, n as int));
        }
        if exe@ == target@ + ".exe"@ {
            assert(exe@.take(m as int) =~= target@);
            assert(exe@.subrange(m as int, n as int) =~= ".exe"@);
        }
    }
    r
}

/// Collects, in snapshot order, the identifier of every process whose
/// executable name matches `name`, letter case aside, bare or with the
/// executable suffix.
pub fn find_processes_by_name(snapshot: &Vec<ProcessEntry>, name: &str) -> (r: Vec<u32>)
    ensures
        r@ == matching_pids(entries_of(snapshot@), name@),
{
    let ghost e = entries_of(snapshot@);
    let target = to_lower(name);
    let mut found: Vec<u32> = Vec::new();
    let mut i: usize = 0;
    assert(e.take(0) =~= Seq::<(u32, Seq<char>)>::empty());
    while i < snapshot.len()
        invariant
            e == entries_of(snapshot@),
            i <= snapshot@.len(),
            target@ == lower_text(name@),
            found@ == matching_pids(e.take(i as int), name@),
        decreases snapshot@.len() - i,
    {
        let exe = to_lower(snapshot[i].exe_name.as_str());
        proof {
            assert(e.take(i + 1).drop_last() =~= e.take(i as int));
            assert(e.take(i + 1).last() == snapshot@[i as int]@);
        }
        if name_matches(exe.as_str(), target.as_str()) {
            found.push(snapshot[i].pid);
        }
        i += 1;
    }
    assert(e.take(i as int) =~= e);
    found
}

/// Keeps all the matches, or the first one only.
pub fn select_matches(matches: Vec<u32>, all: bool) -> (r: Vec<u32>)
    ensures
        r@ == selected(matches@, all),
{
    if all || matches.len() <= 1 {
        matches
    } else {
        let mut first: Vec<u32> = Vec::new();
        first.push(matches[0]);
        assert(first@ =~= matches@.take(1));
        first
    }
}

/// A name resolved without the all-matches flag denotes at most one process.
pub proof fn lemma_single_match(matches: Seq<u32>)
    ensures
        selected(matches, false).len() <= 1,
        matches.len() > 0 ==> selected(matches, false) == seq![matches[0]],
        selected(matches, true) == matches,
{
    if matches.len() > 1 {
        assert(matches.take(1) =~= seq![matches[0]]);
    } else if matches.len() == 1 {
        assert(matches =~= seq![matches[0]]);
    }
}


/// What a name resolves to in a snapshot: nothing where no process matches,
/// else the matching identifiers in snapshot order, all of them or the first.
pub open spec fn resolved(entries: Seq<(u32, Seq<char>)>, name: Seq<char>, all: bool) -> Option<
    Seq<u32>,
> {
    if matching_pids(entries, name).len() == 0 {
        None
    } else {
        Some(selected(matching_pids(entries, name), all))
    }
}

/// Resolves a name against a snapshot. A name that no process has resolves
/// to nothing, which is not the same as an empty list: what is returned
/// otherwise is never empty.
pub fn resolve_name(snapshot: &Vec<ProcessEntry>, name: &str, all: bool) -> (r: Option<Vec<u32>>)
    ensures
        match resolved(entries_of(snapshot@), name@, all) {
            None => r.is_none(),
            Some(pids) => r.is_some() && r.unwrap()@ == pids && pids.len() > 0,
        },
        !all && r.is_some() ==> r.unwrap()@.len() == 1,
{
    let found = find_processes_by_name(snapshot, name);
    if found.len() == 0 {
        None
    } else {
        proof {
            lemma_single_match(found@);
        }
        Some(select_matches(found, all))
    }
}

} // verus!
