//! The event-loop actor: it owns the handle table and is the only code that
//! executes work items against window records.
use vstd::prelude::*;
use std::collections::HashMap;
use crate::notify::{Answer, BridgeError, Command, Message, Query, Reply, WorkItem};
use crate::record::{RecordView, WindowRecord};

verus! {

broadcast use vstd::std_specs::hash::group_hash_axioms;

/// The view of the handle table: window handle to window record.
pub type TableView = Map<u64, RecordView>;

/// An event that polling the native message queue produced.
#[derive(Clone, Copy, Debug, PartialEq, Eq, Structural)]
pub enum NativeEvent {
    /// The quit message: the loop must end.
    Quit,
    /// Any other message, identified by its native message number.
    Other(u32),
}

/// What the native message loop does next after one poll.
#[derive(Clone, Copy, Debug, PartialEq, Eq, Structural)]
pub enum LoopAction {
    /// Return from the loop; the handle table has been cleared.
    Exit,
    /// Hand the polled message to the native dispatcher.
    Dispatch,
    /// Block until a native message arrives or the work queue is signalled.
    Wait,
}

/// The UI subsystem: the handle table, and the content registry that
/// selection queries read.
pub struct Connection {
    pub windows: HashMap<u64, WindowRecord>,
    /// Pane identifier to the text currently selected in that pane.
    pub panes: HashMap<u64, String>,
}

/// The handle table after one work item was executed.
pub open spec fn step(table: TableView, item: WorkItem) -> TableView {
    match item.message {
        Message::Command(cmd) => if table.contains_key(item.window) {
            table.insert(item.window, table[item.window].after(cmd))
        } else {
            table
        },
        Message::Query { .. } => table,
    }
}

/// The handle table after the work items were executed one after another,
/// first to last.
pub open spec fn run(table: TableView, items: Seq<WorkItem>) -> TableView
    decreases items.len(),
{
    if items.len() == 0 {
        table
    } else {
        step(run(table, items.drop_last()), items.last())
    }
}

/// Whether `outcome` is the reply owed to `query` on window `window`, given
/// the handle table and the content registry at the time the query runs.
pub open spec fn answers(
    table: TableView,
    panes: Map<u64, Seq<char>>,
    window: u64,
    query: Query,
    outcome: Result<Answer, BridgeError>,
) -> bool {
    if !table.contains_key(window) {
        outcome matches Err(BridgeError::WindowGone)
    } else {
        let r = table[window];
        match query {
            Query::GetDimensions => match outcome {
                Ok(Answer::Dimensions(d)) => d == r.dimensions(),
                _ => false,
            },
            Query::GetSelectionForPane { pane_id } => if panes.contains_key(pane_id) {
                match outcome {
                    Ok(Answer::Text(t)) => t@ == panes[pane_id],
                    _ => false,
                }
            } else {
                match outcome {
                    Err(BridgeError::PaneNotFound(p)) => p == pane_id,
                    _ => false,
                }
            },
            Query::GetEffectiveConfig => match outcome {
                Ok(Answer::Text(t)) => t@ == r.effective_config,
                _ => false,
            },
            Query::GetConfigOverrides => match outcome {
                Ok(Answer::Text(t)) => t@ == r.config_overrides,
                _ => false,
            },
            Query::LeaderIsActive => match outcome {
                Ok(Answer::Flag(b)) => b == r.leader_active,
                _ => false,
            },
            Query::CompositionStatus => match outcome {
                Ok(Answer::MaybeText(t)) => crate::record::opt_text(t) == r.composition,
                _ => false,
            },
            Query::ActiveKeyTable => match outcome {
                Ok(Answer::MaybeText(t)) => crate::record::opt_text(t) == r.active_key_table,
                _ => false,
            },
        }
    }
}

/// Whether `replies` are, in order, the replies owed to the queries among
/// `items` when the items run one after another from `table`.
pub open spec fn replies_match(
    table: TableView,
    panes: Map<u64, Seq<char>>,
    items: Seq<WorkItem>,
    replies: Seq<Reply>,
) -> bool
    decreases items.len(),
{
    if items.len() == 0 {
        replies.len() == 0
    } else {
        let before = items.drop_last();
        match items.last().message {
            Message::Query { id, query } => {
                &&& replies.len() > 0
                &&& replies.last().id == id
                &&& answers(
                    run(table, before),
                    panes,
                    items.last().window,
                    query,
                    replies.last().outcome,
                )
                &&& replies_match(table, panes, before, replies.drop_last())
            },
            Message::Command(_) => replies_match(table, panes, before, replies),
        }
    }
}

/// The reply identifiers of the queries among `items`, in order.
pub open spec fn query_ids(items: Seq<WorkItem>) -> Seq<u64>
    decreases items.len(),
{
    if items.len() == 0 {
        Seq::empty()
    } else {
        let rest = query_ids(items.drop_last());
        match items.last().message {
            Message::Query { id, .. } => rest.push(id),
            Message::Command(_) => rest,
        }
    }
}

fn clone_opt(o: &Option<String>) -> (r: Option<String>)
    ensures
        crate::record::opt_text(r) == crate::record::opt_text(*o),
{
    match o {
        Some(s) => Some(s.clone()),
        None => None,
    }
}

impl Connection {
    /// The handle table as a map of record views.
    pub open spec fn table(&self) -> TableView {
        self.windows@.map_values(|r: WindowRecord| r@)
    }

    /// The content registry as a map of selected texts.
    pub open spec fn pane_texts(&self) -> Map<u64, Seq<char>> {
        self.panes@.map_values(|t: String| t@)
    }

    /// A connection with no window and no pane.
    pub fn new() -> (r: Connection)
        ensures
            r.table() == TableView::empty(),
            r.pane_texts() == Map::<u64, Seq<char>>::empty(),
    {
        let r = Connection { windows: HashMap::new(), panes: HashMap::new() };
        assert(r.table() =~= TableView::empty());
        assert(r.pane_texts() =~= Map::<u64, Seq<char>>::empty());
        r
    }

    /// Enters a realized window into the handle table, replacing any record
    /// that the handle had.
    pub fn realize(&mut self, window: u64, record: WindowRecord)
        ensures
            final(self).table() == old(self).table().insert(window, record@),
            final(self).pane_texts() == old(self).pane_texts(),
    {
        let ghost v = record@;
        self.windows.insert(window, record);
        assert(self.table() =~= old(self).table().insert(window, v));
    }

    /// Removes a destroyed window from the handle table.
    pub fn destroy(&mut self, window: u64)
        ensures
            final(self).table() == old(self).table().remove(window),
            final(self).pane_texts() == old(self).pane_texts(),
    {
        self.windows.remove(&window);
        assert(self.table() =~= old(self).table().remove(window));
    }

    /// Records the selected text of a pane in the content registry.
    pub fn set_pane(&mut self, pane_id: u64, selection: String)
        ensures
            final(self).table() == old(self).table(),
            final(self).pane_texts() == old(self).pane_texts().insert(pane_id, selection@),
    {
        let ghost v = selection@;
        self.panes.insert(pane_id, selection);
        assert(self.pane_texts() =~= old(self).pane_texts().insert(pane_id, v));
    }

    /// Removes a pane from the content registry.
    pub fn remove_pane(&mut self, pane_id: u64)
        ensures
            final(self).table() == old(self).table(),
            final(self).pane_texts() == old(self).pane_texts().remove(pane_id),
    {
        self.panes.remove(&pane_id);
        assert(self.pane_texts() =~= old(self).pane_texts().remove(pane_id));
    }

    /// Computes the reply to a query on one window, without changing anything.
    pub fn answer(&self, window: u64, query: Query) -> (r: Result<Answer, BridgeError>)
        ensures
            answers(self.table(), self.pane_texts(), window, query, r),
    {
        match self.windows.get(&window) {
            None => Err(BridgeError::WindowGone),
            Some(rec) => {
                assert(self.table()[window] == rec@);
                match query {
                    Query::GetDimensions => Ok(Answer::Dimensions(rec.dimensions())),
                    Query::GetSelectionForPane { pane_id } => match self.panes.get(&pane_id) {
                        Some(t) => Ok(Answer::Text(t.clone())),
                        None => Err(BridgeError::PaneNotFound(pane_id)),
                    },
                    Query::GetEffectiveConfig => Ok(Answer::Text(rec.effective_config.clone())),
                    Query::GetConfigOverrides => Ok(Answer::Text(rec.config_overrides.clone())),
                    Query::LeaderIsActive => Ok(Answer::Flag(rec.leader_active)),
                    Query::CompositionStatus => Ok(Answer::MaybeText(clone_opt(&rec.composition))),
                    Query::ActiveKeyTable => Ok(Answer::MaybeText(clone_opt(&rec.active_key_table))),
                }
            },
        }
    }

    /// Executes one work item. A command is applied to its window, and is
    /// dropped without effect where the handle no longer resolves. A query
    /// always yields exactly one reply, addressed to its own slot: the
    /// answer, or `WindowGone` where the handle no longer resolves.
    pub fn execute(&mut self, item: WorkItem) -> (r: Option<Reply>)
        ensures
            final(self).table() == step(old(self).table(), item),
            final(self).pane_texts() == old(self).pane_texts(),
            match item.message {
                Message::Command(_) => r is None,
                Message::Query { id, query } => r matches Some(reply) && reply.id == id
                    && answers(old(self).table(), old(self).pane_texts(), item.window, query, reply.outcome),
            },
    {
        let window = item.window;
        match item.message {
            Message::Command(cmd) => {
                let ghost c = cmd;
                match self.windows.remove(&window) {
                    Some(mut rec) => {
                        assert(old(self).table()[window] == rec@);
                        rec.apply(cmd);
                        let ghost v = rec@;
                        self.windows.insert(window, rec);
                        assert(self.table() =~= old(self).table().insert(
                            window,
                            old(self).table()[window].after(c),
                        ));
                    },
                    None => {
                        assert(self.table() =~= old(self).table());
                    },
                }
                None
            },
            Message::Query { id, query } => {
                let outcome = self.answer(window, query);
                Some(Reply { id, outcome })
            },
        }
    }

    /// Executes the drained work items in the order given and returns the
    /// replies to the queries among them, in the same order.
    pub fn run_items(&mut self, items: Vec<WorkItem>) -> (replies: Vec<Reply>)
        ensures
            final(self).table() == run(old(self).table(), items@),
            final(self).pane_texts() == old(self).pane_texts(),
            replies_match(old(self).table(), old(self).pane_texts(), items@, replies@),
    {
        let ghost all = items@;
        let ghost t0 = self.table();
        let ghost panes0 = self.pane_texts();
        let mut items = items;
        let mut replies: Vec<Reply> = Vec::new();
        let mut k: usize = 0;
        assert(all.len() == items.len());
        assert(all.take(0) =~= Seq::<WorkItem>::empty());
        while items.len() > 0
            invariant
                k <= all.len(),
                all.len() <= usize::MAX,
                items@ == all.subrange(k as int, all.len() as int),
                self.table() == run(t0, all.take(k as int)),
                self.pane_texts() == panes0,
                replies_match(t0, panes0, all.take(k as int), replies@),
            decreases items.len(),
        {
            let item = items.remove(0);
            assert(item == all[k as int]);
            let ghost before = replies@;
            let r = self.execute(item);
            proof {
                let taken = all.take(k as int + 1);
                assert(taken.drop_last() =~= all.take(k as int));
                assert(taken.last() == all[k as int]);
            }
            match r {
                Some(reply) => {
                    replies.push(reply);
                    assert(replies@.drop_last() =~= before);
                },
                None => {},
            }
            k = k + 1;
            assert(items@ =~= all.subrange(k as int, all.len() as int));
        }
        assert(all.take(k as int) =~= all);
        replies
    }

    /// Decides what the native message loop does with the result of one
    /// non-blocking poll. On the quit message every window record is dropped
    /// before the loop is told to return, so that no record's teardown runs
    /// inside native dispatch.
    pub fn on_poll(&mut self, polled: Option<NativeEvent>) -> (action: LoopAction)
        ensures
            action == spec_on_poll(polled),
            polled == Some(NativeEvent::Quit) ==> final(self).table() == TableView::empty(),
            polled != Some(NativeEvent::Quit) ==> final(self).table() == old(self).table(),
            final(self).pane_texts() == old(self).pane_texts(),
    {
        match polled {
            Some(NativeEvent::Quit) => {
                self.windows.clear();
                assert(self.table() =~= TableView::empty());
                LoopAction::Exit
            },
            Some(NativeEvent::Other(_)) => LoopAction::Dispatch,
            None => LoopAction::Wait,
        }
    }
}

/// The process-scoped UI subsystem: absent until `init`, absent again after
/// `shutdown`. Work addressed to it while absent fails with
/// `NotInitialized` instead of panicking.
pub struct Subsystem {
    pub conn: Option<Connection>,
}

impl Subsystem {
    pub fn new() -> (r: Subsystem)
        ensures
            r.conn.is_none(),
    {
        Subsystem { conn: None }
    }

    /// Creates the connection, once: a second call keeps the first one.
    pub fn init(&mut self)
        ensures
            final(self).conn.is_some(),
            old(self).conn.is_some() ==> final(self).conn == old(self).conn,
            old(self).conn.is_none() ==> final(self).conn.unwrap().table() == TableView::empty()
                && final(self).conn.unwrap().pane_texts() == Map::<u64, Seq<char>>::empty(),
    {
        if self.conn.is_none() {
            self.conn = Some(Connection::new());
        }
    }

    /// Drops the connection and every window record it held.
    pub fn shutdown(&mut self)
        ensures
            final(self).conn.is_none(),
    {
        self.conn = None;
    }

    /// Executes one work item against the connection, if there is one.
    pub fn execute(&mut self, item: WorkItem) -> (r: Result<Option<Reply>, BridgeError>)
        ensures
            old(self).conn.is_none() ==> final(self).conn.is_none() && r matches Err(
                BridgeError::NotInitialized,
            ),
            old(self).conn.is_some() ==> {
                let before = old(self).conn.unwrap();
                let after = final(self).conn.unwrap();
                &&& final(self).conn.is_some()
                &&& after.table() == step(before.table(), item)
                &&& after.pane_texts() == before.pane_texts()
                &&& r matches Ok(reply) && match item.message {
                    Message::Command(_) => reply is None,
                    Message::Query { id, query } => reply matches Some(rp) && rp.id == id
                        && answers(before.table(), before.pane_texts(), item.window, query, rp.outcome),
                }
            },
    {
        match &mut self.conn {
            None => Err(BridgeError::NotInitialized),
            Some(conn) => Ok(conn.execute(item)),
        }
    }
}

/// The loop's decision for one poll result.
pub open spec fn spec_on_poll(polled: Option<NativeEvent>) -> LoopAction {
    match polled {
        Some(NativeEvent::Quit) => LoopAction::Exit,
        Some(NativeEvent::Other(_)) => LoopAction::Dispatch,
        None => LoopAction::Wait,
    }
}

} // verus!
