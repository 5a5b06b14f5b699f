//! What a log holds after a batch of reads, whatever order they arrive in.
//!
//! Reads issued together reach the log one at a time, in an order the
//! callers do not control. The lemmas here show that the order is all that
//! can vary: every read leaves exactly one entry.

use vstd::prelude::*;
use vstd::seq_lib::{
    lemma_multiset_commutative, to_multiset_build, to_multiset_contains, to_multiset_len,
    to_multiset_remove,
};

use crate::storage::logging::{entry_of, Entries, FetchKind};

verus! {

/// One read: its kind and the identifier asked for.
pub type FetchRequest = (FetchKind, Seq<char>);

/// The entries that a sequence of reads leaves, in the same order.
pub open spec fn entries_of(requests: Seq<FetchRequest>) -> Entries {
    requests.map_values(|request: FetchRequest| entry_of(request.0, request.1))
}

/// The log after the reads `arrivals` were recorded on `log`, first to last.
pub open spec fn after_fetches(log: Entries, arrivals: Seq<FetchRequest>) -> Entries
    decreases arrivals.len(),
{
    if arrivals.len() == 0 {
        log
    } else {
        after_fetches(log, arrivals.drop_last()).push(
            entry_of(arrivals.last().0, arrivals.last().1),
        )
    }
}

/// One more read extends the log by the entry that recording it appends.
pub proof fn lemma_fetch_extends(
    log: Entries,
    arrivals: Seq<FetchRequest>,
    kind: FetchKind,
    id: Seq<char>,
)
    ensures
        after_fetches(log, arrivals.push((kind, id))) == after_fetches(log, arrivals).push(
            entry_of(kind, id),
        ),
{
    assert(arrivals.push((kind, id)).drop_last() =~= arrivals);
}

/// Recording reads one after another appends their entries in arrival order
/// and leaves what the log held before in place.
pub proof fn lemma_fetches_append(log: Entries, arrivals: Seq<FetchRequest>)
    ensures
        after_fetches(log, arrivals) == log + entries_of(arrivals),
    decreases arrivals.len(),
{
    if arrivals.len() == 0 {
        assert(log + entries_of(arrivals) =~= log);
    } else {
        lemma_fetches_append(log, arrivals.drop_last());
        assert(log + entries_of(arrivals) =~= (log + entries_of(arrivals.drop_last())).push(
            entry_of(arrivals.last().0, arrivals.last().1),
        ));
    }
}

/// Two orderings of the same reads leave the same entries, up to order.
proof fn lemma_reordered_entries(issued: Seq<FetchRequest>, arrived: Seq<FetchRequest>)
    requires
        arrived.to_multiset() == issued.to_multiset(),
    ensures
        entries_of(arrived).to_multiset() == entries_of(issued).to_multiset(),
    decreases issued.len(),
{
    to_multiset_len(issued);
    to_multiset_len(arrived);
    if issued.len() == 0 {
        assert(entries_of(arrived) =~= entries_of(issued));
    } else {
        let last = issued.last();
        let rest = issued.drop_last();
        assert(issued =~= rest.push(last));
        to_multiset_build(rest, last);
        to_multiset_contains(arrived, last);
        let at = choose|at: int| 0 <= at < arrived.len() && arrived[at] == last;
        let others = arrived.remove(at);
        to_multiset_remove(arrived, at);
        assert(others.to_multiset() =~= rest.to_multiset());
        lemma_reordered_entries(rest, others);

        let entry = entry_of(last.0, last.1);
        assert(entries_of(issued) =~= entries_of(rest).push(entry));
        to_multiset_build(entries_of(rest), entry);
        assert(entries_of(arrived).remove(at) =~= entries_of(others));
        to_multiset_remove(entries_of(arrived), at);
        to_multiset_contains(entries_of(arrived), entry);
        assert(entries_of(arrived)[at] == entry);
        assert(entries_of(arrived).to_multiset() =~= entries_of(issued).to_multiset());
    }
}

/// Reads that are issued together may reach the log in any order. Whatever
/// the order, the log keeps what it held, gains exactly one entry for each
/// read, and the entries gained are those of the reads issued: none is
/// lost and none is logged twice.
pub proof fn lemma_interleaved_fetches_are_all_logged(
    log: Entries,
    issued: Seq<FetchRequest>,
    arrived: Seq<FetchRequest>,
)
    requires
        arrived.to_multiset() == issued.to_multiset(),
    ensures
        after_fetches(log, arrived).len() == log.len() + issued.len(),
        after_fetches(log, arrived).take(log.len() as int) == log,
        after_fetches(log, arrived).skip(log.len() as int).to_multiset() == entries_of(
            issued,
        ).to_multiset(),
        after_fetches(log, arrived).to_multiset() == log.to_multiset().add(
            entries_of(issued).to_multiset(),
        ),
{
    let after = after_fetches(log, arrived);
    lemma_fetches_append(log, arrived);
    lemma_reordered_entries(issued, arrived);
    to_multiset_len(issued);
    to_multiset_len(arrived);
    assert(after.take(log.len() as int) =~= log);
    assert(after.skip(log.len() as int) =~= entries_of(arrived));
    lemma_multiset_commutative(log, entries_of(arrived));
}

/// Reads issued together on identifiers that all differ leave, in whatever
/// order they arrive, exactly one entry each among the entries gained.
pub proof fn lemma_distinct_fetches_are_logged_once(
    log: Entries,
    issued: Seq<FetchRequest>,
    arrived: Seq<FetchRequest>,
    call: int,
)
    requires
        arrived.to_multiset() == issued.to_multiset(),
        forall|i: int, j: int| 0 <= i < j < issued.len() ==> issued[i].1 != issued[j].1,
        0 <= call < issued.len(),
    ensures
        after_fetches(log, arrived).len() == log.len() + issued.len(),
        after_fetches(log, arrived).skip(log.len() as int).to_multiset().count(
            entry_of(issued[call].0, issued[call].1),
        ) == 1,
{
    lemma_interleaved_fetches_are_all_logged(log, issued, arrived);
    let gained = entries_of(issued);
    assert(gained.no_duplicates()) by {
        assert forall|i: int, j: int|
            0 <= i < gained.len() && 0 <= j < gained.len() && i != j implies gained[i]
            != gained[j] by {
            if i < j {
                assert(issued[i].1 != issued[j].1);
            } else {
                assert(issued[j].1 != issued[i].1);
            }
        }
    }
    gained.lemma_multiset_has_no_duplicates();
    let entry = entry_of(issued[call].0, issued[call].1);
    assert(gained[call] == entry);
    assert(gained.contains(entry));
    to_multiset_contains(gained, entry);
}

} // verus!
