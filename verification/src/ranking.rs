//! Ranking by CPU usage: what it means for a sequence to be the ranking of a table, that
//! every table has exactly one, and the function that computes it.

use crate::process::ProcessInfo;
use vstd::prelude::*;

verus! {

/// The test "has CPU usage `cpu`", as a predicate on entries.
pub open spec fn has_cpu(cpu: u32) -> spec_fn(ProcessInfo) -> bool {
    |entry: ProcessInfo| entry.cpu == cpu
}

/// The entries of `entries` whose CPU usage is `cpu`, in the order of `entries`.
pub open spec fn with_cpu(entries: Seq<ProcessInfo>, cpu: u32) -> Seq<ProcessInfo> {
    entries.filter(has_cpu(cpu))
}

/// No entry is busier than one that stands before it.
pub open spec fn descending(entries: Seq<ProcessInfo>) -> bool {
    forall|i: int, j: int| 0 <= i < j < entries.len() ==> entries[i].cpu >= entries[j].cpu
}

/// `ranking` holds the entries of `table` busiest first, and entries of equal usage
/// stand in it in the order in which `table` has them.
pub open spec fn is_ranking(table: Seq<ProcessInfo>, ranking: Seq<ProcessInfo>) -> bool {
    &&& ranking.len() == table.len()
    &&& descending(ranking)
    &&& forall|cpu: u32| #[trigger] with_cpu(ranking, cpu) == with_cpu(table, cpu)
}

/// The ranking of `table`. There is exactly one: see `lemma_ranked` and
/// `lemma_ranking_unique`.
pub open spec fn ranked(table: Seq<ProcessInfo>) -> Seq<ProcessInfo> {
    choose|ranking: Seq<ProcessInfo>| is_ranking(table, ranking)
}

/// Where a new entry of usage `cpu` goes into a ranking: behind every entry that is at
/// least as busy.
pub open spec fn insertion_point(ranking: Seq<ProcessInfo>, cpu: u32) -> int
    decreases ranking.len(),
{
    if ranking.len() == 0 {
        0
    } else if ranking.last().cpu >= cpu {
        ranking.len() as int
    } else {
        insertion_point(ranking.drop_last(), cpu)
    }
}

/// Ranks the entries busiest first. Entries of equal usage keep the order they came in.
pub fn rank_by_cpu(table: Vec<ProcessInfo>) -> (ranking: Vec<ProcessInfo>)
    ensures
        ranking@ == ranked(table@),
        is_ranking(table@, ranking@),
{
    broadcast use vstd::std_specs::vec::axiom_spec_into_iter;
    let ghost all = table@;
    let mut ranking: Vec<ProcessInfo> = Vec::new();
    assert(all.take(0) =~= ranking@);
    for entry in it: table.into_iter()
        invariant
            it.seq() == all,
            is_ranking(all.take(it.index() as int), ranking@),
    {
        let mut at: usize = ranking.len();
        while at > 0 && ranking[at - 1].cpu < entry.cpu
            invariant
                at <= ranking.len(),
                forall|i: int| at <= i < ranking.len() ==> ranking[i].cpu < entry.cpu,
            decreases at,
        {
            at -= 1;
        }
        proof {
            lemma_insert_keeps_ranking(all.take(it.index() as int), ranking@, entry, at as int);
            assert(all.take(it.index() as int).push(entry) =~= all.take(it.index() + 1));
        }
        ranking.insert(at, entry);
    }
    proof {
        assert(all.take(all.len() as int) =~= all);
        lemma_ranking_unique(all, ranking@);
    }
    ranking
}

/// `ranked(table)` is a ranking of `table`.
pub proof fn lemma_ranked(table: Seq<ProcessInfo>)
    ensures
        is_ranking(table, ranked(table)),
{
    let witness = lemma_ranking_exists(table);
}

/// A table has one ranking only.
pub proof fn lemma_ranking_unique(table: Seq<ProcessInfo>, ranking: Seq<ProcessInfo>)
    requires
        is_ranking(table, ranking),
    ensures
        ranking == ranked(table),
{
    let other = ranked(table);
    lemma_descending_determined(ranking, other);
}

/// An entry added at the end of the table goes into the ranking behind every entry
/// that is at least as busy, and the rest of the ranking stays as it was.
pub proof fn lemma_ranked_push(table: Seq<ProcessInfo>, entry: ProcessInfo)
    ensures
        ranked(table.push(entry)) == ranked(table).insert(
            insertion_point(ranked(table), entry.cpu),
            entry,
        ),
{
    lemma_ranked(table);
    lemma_insertion_point(ranked(table), entry.cpu);
    let at: int = insertion_point(ranked(table), entry.cpu);
    lemma_insert_keeps_ranking(table, ranked(table), entry, at);
    lemma_ranking_unique(table.push(entry), ranked(table).insert(at, entry));
}

/// A sequence that is busiest first already is its own ranking.
pub proof fn lemma_ranked_of_descending(entries: Seq<ProcessInfo>)
    requires
        descending(entries),
    ensures
        ranked(entries) == entries,
{
    lemma_ranking_unique(entries, entries);
}

/// A ranking holds the entries of its table: nothing is added and nothing is lost.
pub proof fn lemma_ranking_members(table: Seq<ProcessInfo>, ranking: Seq<ProcessInfo>)
    requires
        is_ranking(table, ranking),
    ensures
        forall|i: int| 0 <= i < ranking.len() ==> table.contains(#[trigger] ranking[i]),
        forall|j: int| 0 <= j < table.len() ==> ranking.contains(#[trigger] table[j]),
{
    assert forall|i: int| 0 <= i < ranking.len() implies table.contains(
        #[trigger] ranking[i],
    ) by {
        let pred = has_cpu(ranking[i].cpu);
        assert(with_cpu(ranking, ranking[i].cpu) == with_cpu(table, ranking[i].cpu));
        table.lemma_filter_contains_rev(pred, ranking[i]);
    }
    assert forall|j: int| 0 <= j < table.len() implies ranking.contains(#[trigger] table[j]) by {
        let pred = has_cpu(table[j].cpu);
        assert(with_cpu(ranking, table[j].cpu) == with_cpu(table, table[j].cpu));
        ranking.lemma_filter_contains_rev(pred, table[j]);
    }
}

/// No two entries have the same identifier.
pub open spec fn pids_distinct(entries: Seq<ProcessInfo>) -> bool {
    forall|i: int, j: int|
        0 <= i < entries.len() && 0 <= j < entries.len() && i != j ==> entries[i].pid
            != entries[j].pid
}

/// Ranking keeps identifiers apart: where no two entries of the table share one, no two
/// entries of the ranking do.
pub proof fn lemma_ranked_keeps_pids_distinct(table: Seq<ProcessInfo>)
    requires
        pids_distinct(table),
    ensures
        pids_distinct(ranked(table)),
    decreases table.len(),
{
    lemma_ranked(table);
    if table.len() > 0 {
        // The ranking of the table is that of the table without its last entry, with
        // the last entry put in; and that entry's identifier is new to it.
        let shorter = table.drop_last();
        let entry = table.last();
        lemma_ranked_keeps_pids_distinct(shorter);
        lemma_ranked(shorter);
        lemma_ranking_members(shorter, ranked(shorter));
        lemma_insertion_point(ranked(shorter), entry.cpu);
        assert(shorter.push(entry) =~= table);
        lemma_ranked_push(shorter, entry);
    }
}

proof fn lemma_insertion_point(ranking: Seq<ProcessInfo>, cpu: u32)
    requires
        descending(ranking),
    ensures
        0 <= insertion_point(ranking, cpu) <= ranking.len(),
        forall|i: int| 0 <= i < insertion_point(ranking, cpu) ==> ranking[i].cpu >= cpu,
        forall|i: int| insertion_point(ranking, cpu) <= i < ranking.len() ==> ranking[i].cpu < cpu,
    decreases ranking.len(),
{
    if ranking.len() > 0 {
        let shorter = ranking.drop_last();
        if ranking.last().cpu < cpu {
            lemma_insertion_point(shorter, cpu);
            assert forall|i: int| 0 <= i < insertion_point(ranking, cpu) implies ranking[i].cpu
                >= cpu by {
                assert(shorter[i] == ranking[i]);
            }
            assert forall|i: int|
                insertion_point(ranking, cpu) <= i < ranking.len() implies ranking[i].cpu
                < cpu by {
                if i < shorter.len() {
                    assert(shorter[i] == ranking[i]);
                }
            }
        }
    }
}

proof fn lemma_filter_none(entries: Seq<ProcessInfo>, pred: spec_fn(ProcessInfo) -> bool)
    requires
        forall|i: int| 0 <= i < entries.len() ==> !pred(entries[i]),
    ensures
        entries.filter(pred).len() == 0,
    decreases entries.len(),
{
    reveal(Seq::filter);
    if entries.len() > 0 {
        lemma_filter_none(entries.drop_last(), pred);
    }
}

proof fn lemma_filter_some(entries: Seq<ProcessInfo>, pred: spec_fn(ProcessInfo) -> bool) -> (at: int)
    requires
        entries.filter(pred).len() > 0,
    ensures
        0 <= at < entries.len(),
        pred(entries[at]),
    decreases entries.len(),
{
    reveal(Seq::filter);
    if pred(entries.last()) {
        entries.len() - 1
    } else {
        lemma_filter_some(entries.drop_last(), pred)
    }
}

/// Putting `entry` into a ranking of `table`, behind the entries at least as busy and
/// before the less busy ones, gives a ranking of `table` with `entry` added at its end.
proof fn lemma_insert_keeps_ranking(
    table: Seq<ProcessInfo>,
    ranking: Seq<ProcessInfo>,
    entry: ProcessInfo,
    at: int,
)
    requires
        is_ranking(table, ranking),
        0 <= at <= ranking.len(),
        forall|i: int| 0 <= i < at ==> ranking[i].cpu >= entry.cpu,
        forall|i: int| at <= i < ranking.len() ==> ranking[i].cpu < entry.cpu,
    ensures
        is_ranking(table.push(entry), ranking.insert(at, entry)),
{
    let grown = ranking.insert(at, entry);
    let front = ranking.subrange(0, at);
    let back = ranking.subrange(at, ranking.len() as int);
    assert(ranking =~= front + back);
    assert forall|cpu: u32| #[trigger] with_cpu(grown, cpu) == with_cpu(table.push(entry), cpu) by {
        // Of its own usage the new entry is the last: all behind it are less busy.
        let pred = has_cpu(cpu);
        assert(with_cpu(ranking, cpu) == with_cpu(table, cpu));
        assert(table.push(entry).drop_last() =~= table);
        assert(front.push(entry).drop_last() =~= front);
        reveal(Seq::filter);
        if cpu == entry.cpu {
            lemma_filter_none(back, pred);
        }
    }
}

/// Every table has a ranking.
proof fn lemma_ranking_exists(table: Seq<ProcessInfo>) -> (ranking: Seq<ProcessInfo>)
    ensures
        is_ranking(table, ranking),
    decreases table.len(),
{
    if table.len() == 0 {
        table
    } else {
        let shorter = lemma_ranking_exists(table.drop_last());
        let entry = table.last();
        lemma_insertion_point(shorter, entry.cpu);
        let at: int = insertion_point(shorter, entry.cpu);
        lemma_insert_keeps_ranking(table.drop_last(), shorter, entry, at);
        assert(table.drop_last().push(entry) =~= table);
        shorter.insert(at, entry)
    }
}

/// Two sequences, each busiest first, that hold the same entries of every usage in the
/// same order, are one and the same.
proof fn lemma_descending_determined(a: Seq<ProcessInfo>, b: Seq<ProcessInfo>)
    requires
        a.len() == b.len(),
        descending(a),
        descending(b),
        forall|cpu: u32| #[trigger] with_cpu(a, cpu) == with_cpu(b, cpu),
    ensures
        a == b,
    decreases a.len(),
{
    if a.len() > 0 {
        reveal(Seq::filter);
        // The last entries are the least busy ones. Each occurs in the other sequence
        // too, so they are equally busy, and each is the last of its usage.
        let low_a: u32 = a.last().cpu;
        let low_b: u32 = b.last().cpu;
        assert(with_cpu(a, low_a) == with_cpu(b, low_a));
        assert(with_cpu(a, low_b) == with_cpu(b, low_b));
        let in_b: int = lemma_filter_some(b, has_cpu(low_a));
        let in_a: int = lemma_filter_some(a, has_cpu(low_b));
        assert(b[in_b].cpu == low_a && a[in_a].cpu == low_b);
        assert(low_a == low_b);
        assert(with_cpu(a, low_a).last() == a.last());
        assert(with_cpu(b, low_a).last() == b.last());
        // What stands before them agrees by induction.
        let a0 = a.drop_last();
        let b0 = b.drop_last();
        assert forall|cpu: u32| #[trigger] with_cpu(a0, cpu) == with_cpu(b0, cpu) by {
            assert(with_cpu(a, cpu) == with_cpu(b, cpu));
            if cpu == low_a {
                assert(with_cpu(a0, cpu) =~= with_cpu(a, cpu).drop_last());
                assert(with_cpu(b0, cpu) =~= with_cpu(b, cpu).drop_last());
            }
        }
        lemma_descending_determined(a0, b0);
        assert(b =~= b0.push(b.last()));
    }
}

} // verus!
