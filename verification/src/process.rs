//! The process table and the view derived from it: the entries that match the search
//! query, busiest first.

use crate::ranking::{
    descending, lemma_ranked, lemma_ranked_keeps_pids_distinct, lemma_ranked_of_descending,
    lemma_ranking_members, pids_distinct, rank_by_cpu, ranked,
};
use crate::text::{contains_ignoring_case, name_matches};
use vstd::prelude::*;

verus! {

/// How many entries the view shows when no search query narrows it.
pub const VIEW_CAP: usize = 50;

/// One process, as the view shows it.
#[derive(Debug, PartialEq, Eq)]
pub struct ProcessInfo {
    /// Identifier, unique within one snapshot.
    pub pid: u32,
    /// Name of the program, as the host reports it.
    pub name: String,
    /// CPU usage as an unsigned code. The view only compares usages, so the sampler is
    /// free to pick any encoding under which a busier process has the larger code.
    pub cpu: u32,
    /// Resident memory in bytes.
    pub memory: u64,
}

impl Clone for ProcessInfo {
    fn clone(&self) -> (copy: Self)
        ensures
            copy == *self,
    {
        ProcessInfo {
            pid: self.pid,
            name: self.name.clone(),
            cpu: self.cpu,
            memory: self.memory,
        }
    }
}

/// The test "named so that it matches `query`", as a predicate on entries.
pub open spec fn matches_query(query: Seq<char>) -> spec_fn(ProcessInfo) -> bool {
    |entry: ProcessInfo| name_matches(entry.name@, query)
}

/// The entries of `table` whose name matches `query`, in the order of `table`.
pub open spec fn matching(table: Seq<ProcessInfo>, query: Seq<char>) -> Seq<ProcessInfo> {
    table.filter(matches_query(query))
}

/// The first `cap` entries, or all of them where there are no more than `cap`.
pub open spec fn capped(entries: Seq<ProcessInfo>, cap: nat) -> Seq<ProcessInfo> {
    if entries.len() <= cap {
        entries
    } else {
        entries.subrange(0, cap as int)
    }
}

/// The view of `table` under `query`. Without a query it is the `VIEW_CAP` busiest
/// entries; with one it is every entry whose name matches, however many there are.
pub open spec fn process_view(table: Seq<ProcessInfo>, query: Seq<char>) -> Seq<ProcessInfo> {
    if query.len() == 0 {
        capped(ranked(table), VIEW_CAP as nat)
    } else {
        ranked(matching(table, query))
    }
}

/// Keeps the entries whose name contains `query`, ignoring case, and drops the rest.
pub fn retain_matching(table: Vec<ProcessInfo>, query: &str) -> (kept: Vec<ProcessInfo>)
    ensures
        kept@ == matching(table@, query@),
{
    broadcast use vstd::std_specs::vec::axiom_spec_into_iter;
    let ghost all = table@;
    let mut kept: Vec<ProcessInfo> = Vec::new();
    for entry in it: table.into_iter()
        invariant
            it.seq() == all,
            kept@ == matching(all.take(it.index() as int), query@),
    {
        proof {
            let before = all.take(it.index() as int);
            let after = all.take(it.index() + 1);
            assert(after.drop_last() =~= before);
            reveal(Seq::filter);
        }
        if contains_ignoring_case(entry.name.as_str(), query) {
            kept.push(entry);
        }
    }
    assert(all.take(all.len() as int) =~= all);
    kept
}

/// Builds the view that is shown for `table` while `query` is the search query.
pub fn build_process_view(table: Vec<ProcessInfo>, query: &str) -> (view: Vec<ProcessInfo>)
    ensures
        view@ == process_view(table@, query@),
        descending(view@),
        query@.len() == 0 ==> view@.len() <= VIEW_CAP,
        query@.len() > 0 ==> forall|i: int|
            0 <= i < view@.len() ==> name_matches((#[trigger] view@[i]).name@, query@),
{
    proof {
        if query@.len() == 0 {
            lemma_view_without_query(table@, query@);
        } else {
            lemma_view_with_query(table@, query@);
        }
    }
    if query.is_empty() {
        let mut view = rank_by_cpu(table);
        view.truncate(VIEW_CAP);
        view
    } else {
        rank_by_cpu(retain_matching(table, query))
    }
}

/// Without a search query the view is busiest first, holds `VIEW_CAP` entries or the
/// whole table if that is smaller, and leaves out no entry that is busier than one it
/// shows.
pub proof fn lemma_view_without_query(table: Seq<ProcessInfo>, query: Seq<char>)
    requires
        query.len() == 0,
    ensures
        process_view(table, query).len() <= VIEW_CAP,
        process_view(table, query).len() == if table.len() <= VIEW_CAP {
            table.len()
        } else {
            VIEW_CAP as nat
        },
        descending(process_view(table, query)),
        forall|i: int, j: int|
            #![trigger process_view(table, query)[i], table[j]]
            0 <= i < process_view(table, query).len() && 0 <= j < table.len()
                && !process_view(table, query).contains(table[j]) ==> process_view(
                table,
                query,
            )[i].cpu >= table[j].cpu,
{
    let all = ranked(table);
    let view = process_view(table, query);
    lemma_ranked(table);
    lemma_ranking_members(table, all);
    assert forall|i: int, j: int|
        #![trigger view[i], table[j]]
        0 <= i < view.len() && 0 <= j < table.len() && !view.contains(
            table[j],
        ) implies view[i].cpu >= table[j].cpu by {
        let k: int = choose|k: int| 0 <= k < all.len() && all[k] == table[j];
        if k < view.len() {
            assert(view[k] == table[j]);
        }
    }
}

/// With a search query the view is busiest first and holds the entries whose name
/// contains the query, ignoring case: all of them, however many, and no others.
pub proof fn lemma_view_with_query(table: Seq<ProcessInfo>, query: Seq<char>)
    requires
        query.len() > 0,
    ensures
        descending(process_view(table, query)),
        process_view(table, query).len() == matching(table, query).len(),
        forall|i: int|
            0 <= i < process_view(table, query).len() ==> name_matches(
                (#[trigger] process_view(table, query)[i]).name@,
                query,
            ),
        forall|j: int|
            0 <= j < table.len() && name_matches((#[trigger] table[j]).name@, query)
                ==> process_view(table, query).contains(table[j]),
{
    let pred = matches_query(query);
    let kept = matching(table, query);
    let view = process_view(table, query);
    lemma_ranked(kept);
    lemma_ranking_members(kept, view);
    assert forall|j: int|
        0 <= j < table.len() && name_matches(
            (#[trigger] table[j]).name@,
            query,
        ) implies view.contains(table[j]) by {
        table.lemma_filter_contains(pred, j);
        let k: int = choose|k: int| 0 <= k < kept.len() && kept[k] == table[j];
        assert(view.contains(kept[k]));
    }
}

/// Every entry of the view is an entry of the table it was built from, whatever the
/// query. A process that has left the table is therefore in no later view.
pub proof fn lemma_view_entries_come_from_table(table: Seq<ProcessInfo>, query: Seq<char>)
    ensures
        forall|i: int|
            0 <= i < process_view(table, query).len() ==> table.contains(
                #[trigger] process_view(table, query)[i],
            ),
{
    let view = process_view(table, query);
    if query.len() == 0 {
        lemma_ranked(table);
        lemma_ranking_members(table, ranked(table));
    } else {
        let kept = matching(table, query);
        lemma_ranked(kept);
        lemma_ranking_members(kept, view);
        assert forall|i: int| 0 <= i < view.len() implies table.contains(#[trigger] view[i]) by {
            table.lemma_filter_contains_rev(matches_query(query), view[i]);
        }
    }
}

/// Where every process of the table has an identifier of its own, so does every entry
/// of the view: no process is shown twice.
pub proof fn lemma_view_keeps_pids_distinct(table: Seq<ProcessInfo>, query: Seq<char>)
    requires
        pids_distinct(table),
    ensures
        pids_distinct(process_view(table, query)),
{
    if query.len() == 0 {
        lemma_ranked_keeps_pids_distinct(table);
    } else {
        lemma_matching_keeps_pids_distinct(table, query);
        lemma_ranked_keeps_pids_distinct(matching(table, query));
    }
}

/// Building a view from a view changes nothing: it is filtered, ranked and cut already.
pub proof fn lemma_view_of_view(table: Seq<ProcessInfo>, query: Seq<char>)
    ensures
        process_view(process_view(table, query), query) == process_view(table, query),
{
    let view = process_view(table, query);
    if query.len() == 0 {
        lemma_view_without_query(table, query);
        lemma_ranked_of_descending(view);
    } else {
        lemma_view_with_query(table, query);
        lemma_filter_all(view, matches_query(query));
        lemma_ranked_of_descending(view);
    }
}

/// The view depends on the table and the query alone: two builds from the same table
/// under the same query give the same view.
pub proof fn lemma_view_repeatable(
    table: Seq<ProcessInfo>,
    query: Seq<char>,
    first: Seq<ProcessInfo>,
    second: Seq<ProcessInfo>,
)
    requires
        first == process_view(table, query),
        second == process_view(table, query),
    ensures
        first == second,
{
}

proof fn lemma_filter_all(entries: Seq<ProcessInfo>, pred: spec_fn(ProcessInfo) -> bool)
    requires
        forall|i: int| 0 <= i < entries.len() ==> pred(entries[i]),
    ensures
        entries.filter(pred) == entries,
    decreases entries.len(),
{
    reveal(Seq::filter);
    if entries.len() > 0 {
        lemma_filter_all(entries.drop_last(), pred);
    }
}

proof fn lemma_matching_keeps_pids_distinct(table: Seq<ProcessInfo>, query: Seq<char>)
    requires
        pids_distinct(table),
    ensures
        pids_distinct(matching(table, query)),
    decreases table.len(),
{
    reveal(Seq::filter);
    if table.len() > 0 {
        let shorter = table.drop_last();
        let kept = matching(shorter, query);
        lemma_matching_keeps_pids_distinct(shorter, query);
        assert forall|i: int| 0 <= i < kept.len() implies (#[trigger] kept[i]).pid
            != table.last().pid by {
            shorter.lemma_filter_contains_rev(matches_query(query), kept[i]);
            let k: int = choose|k: int| 0 <= k < shorter.len() && shorter[k] == kept[i];
            assert(table[k] == kept[i]);
        }
    }
}

} // verus!
