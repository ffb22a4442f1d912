//! Properties of the work queue and the request/response bridge that hold
//! for every handle table and every sequence of work items.
use vstd::prelude::*;
use crate::actor::{answers, query_ids, replies_match, run, TableView};
use crate::notify::{Answer, BridgeError, Message, Query, Reply, WorkItem};

verus! {

/// Running the items of two drains one after the other leaves the handle
/// table as running all of them, in enqueue order, in a single pass: every
/// item is executed against the table exactly in the order it was enqueued.
pub proof fn lemma_run_in_enqueue_order(table: TableView, first: Seq<WorkItem>, second: Seq<WorkItem>)
    ensures
        run(table, first + second) == run(run(table, first), second),
    decreases second.len(),
{
    if second.len() == 0 {
        assert(first + second =~= first);
    } else {
        lemma_run_in_enqueue_order(table, first, second.drop_last());
        assert((first + second).drop_last() =~= first + second.drop_last());
        assert((first + second).last() == second.last());
    }
}

/// The replies of a drain are one per query, in the order of the queries,
/// each addressed to the slot of its own query.
pub proof fn lemma_replies_follow_queries(
    table: TableView,
    panes: Map<u64, Seq<char>>,
    items: Seq<WorkItem>,
    replies: Seq<Reply>,
)
    requires
        replies_match(table, panes, items, replies),
    ensures
        replies.len() == query_ids(items).len(),
        forall|j: int| 0 <= j < replies.len() ==> #[trigger] replies[j].id == query_ids(items)[j],
    decreases items.len(),
{
    if items.len() > 0 {
        match items.last().message {
            Message::Query { .. } => {
                lemma_replies_follow_queries(table, panes, items.drop_last(), replies.drop_last());
                assert forall|j: int| 0 <= j < replies.len() implies #[trigger] replies[j].id
                    == query_ids(items)[j] by {
                    if j < replies.len() - 1 {
                        assert(replies[j] == replies.drop_last()[j]);
                    }
                }
            },
            Message::Command(_) => {
                lemma_replies_follow_queries(table, panes, items.drop_last(), replies);
            },
        }
    }
}

/// Queries issued concurrently, with distinct reply slots, each receive
/// exactly one reply, and that reply is the outcome computed for the query's
/// own work item, against the handle table as it stood when that item ran.
pub proof fn lemma_each_query_gets_its_own_reply(
    table: TableView,
    panes: Map<u64, Seq<char>>,
    items: Seq<WorkItem>,
    replies: Seq<Reply>,
)
    requires
        replies_match(table, panes, items, replies),
        query_ids(items).no_duplicates(),
    ensures
        forall|i: int|
            0 <= i < items.len() && #[trigger] items[i].is_query() ==> exists|j: int|
                0 <= j < replies.len() && replies[j].id == items[i].query_id(),
        forall|j: int, k: int|
            0 <= j < replies.len() && 0 <= k < replies.len() && #[trigger] replies[j].id
                == #[trigger] replies[k].id ==> j == k,
        forall|j: int|
            0 <= j < replies.len() ==> exists|i: int|
                0 <= i < items.len() && #[trigger] items[i].is_query() && items[i].query_id()
                    == replies[j].id && owed(table, panes, items, i, #[trigger] replies[j]),
    decreases items.len(),
{
    lemma_replies_follow_queries(table, panes, items, replies);
    if items.len() > 0 {
        let before = items.drop_last();
        let last = items.last();
        lemma_query_ids_of_prefix(before, last);
        match last.message {
            Message::Query { id, query } => {
                let rest = replies.drop_last();
                assert(query_ids(items) == query_ids(before).push(id));
                lemma_no_dup_prefix(query_ids(before), id);
                lemma_each_query_gets_its_own_reply(table, panes, before, rest);
                assert forall|i: int| 0 <= i < items.len() && #[trigger] items[i].is_query()
                    implies exists|j: int| 0 <= j < replies.len() && replies[j].id
                    == items[i].query_id() by {
                    if i < items.len() - 1 {
                        assert(items[i] == before[i]);
                        let j = choose|j: int| 0 <= j < rest.len() && rest[j].id
                            == before[i].query_id();
                        assert(replies[j] == rest[j]);
                    } else {
                        assert(replies[replies.len() - 1].id == id);
                    }
                }
                assert forall|j: int|
                    0 <= j < replies.len() implies exists|i: int|
                    0 <= i < items.len() && #[trigger] items[i].is_query() && items[i].query_id()
                        == replies[j].id && owed(table, panes, items, i, #[trigger] replies[j]) by {
                    if j < replies.len() - 1 {
                        assert(replies[j] == rest[j]);
                        let i = choose|i: int|
                            0 <= i < before.len() && #[trigger] before[i].is_query()
                                && before[i].query_id() == rest[j].id && owed(
                                table,
                                panes,
                                before,
                                i,
                                rest[j],
                            );
                        assert(items[i] == before[i]);
                        assert(items.take(i) =~= before.take(i));
                    } else {
                        let i = items.len() - 1;
                        assert(items.take(i) =~= before);
                        assert(items[i].is_query());
                        assert(owed(table, panes, items, i, replies[j]));
                    }
                }
            },
            Message::Command(_) => {
                lemma_each_query_gets_its_own_reply(table, panes, before, replies);
                assert forall|i: int| 0 <= i < items.len() && #[trigger] items[i].is_query()
                    implies exists|j: int| 0 <= j < replies.len() && replies[j].id
                    == items[i].query_id() by {
                    assert(i < items.len() - 1);
                    assert(items[i] == before[i]);
                }
                assert forall|j: int|
                    0 <= j < replies.len() implies exists|i: int|
                    0 <= i < items.len() && #[trigger] items[i].is_query() && items[i].query_id()
                        == replies[j].id && owed(table, panes, items, i, #[trigger] replies[j]) by {
                    let i = choose|i: int|
                        0 <= i < before.len() && #[trigger] before[i].is_query()
                            && before[i].query_id() == replies[j].id && owed(
                            table,
                            panes,
                            before,
                            i,
                            replies[j],
                        );
                    assert(items[i] == before[i]);
                    assert(items.take(i) =~= before.take(i));
                }
            },
        }
    }
}

/// Whether `reply` is the outcome owed to the query at position `i` of
/// `items`, given the table that the items before it left.
pub open spec fn owed(table: TableView, panes: Map<u64, Seq<char>>, items: Seq<WorkItem>, i: int, reply: Reply) -> bool {
    match items[i].message {
        Message::Query { query, .. } => answers(
            run(table, items.take(i)),
            panes,
            items[i].window,
            query,
            reply.outcome,
        ),
        Message::Command(_) => false,
    }
}

proof fn lemma_query_ids_of_prefix(before: Seq<WorkItem>, last: WorkItem)
    ensures
        query_ids(before.push(last)) == match last.message {
            Message::Query { id, .. } => query_ids(before).push(id),
            Message::Command(_) => query_ids(before),
        },
{
    assert(before.push(last).drop_last() =~= before);
}

proof fn lemma_no_dup_prefix(s: Seq<u64>, x: u64)
    requires
        s.push(x).no_duplicates(),
    ensures
        s.no_duplicates(),
        !s.contains(x),
{
    assert forall|a: int, b: int| 0 <= a < s.len() && 0 <= b < s.len() && a != b implies s[a]
        != s[b] by {
        assert(s.push(x)[a] == s[a] && s.push(x)[b] == s[b]);
    }
    if s.contains(x) {
        let a = choose|a: int| 0 <= a < s.len() && s[a] == x;
        assert(s.push(x)[a] == s.push(x)[s.len() as int]);
    }
}

/// A query addressed to a window that is gone by the time its work item runs
/// is still answered: its one outcome is `WindowGone`, whatever the query.
pub proof fn lemma_query_on_gone_window_resolves(
    table: TableView,
    panes: Map<u64, Seq<char>>,
    window: u64,
    query: Query,
    outcome: Result<Answer, BridgeError>,
)
    requires
        !table.contains_key(window),
    ensures
        answers(table, panes, window, query, outcome) <==> outcome matches Err(
            BridgeError::WindowGone,
        ),
{
}

} // verus!
