//! The window proxy that remote callers hold: a window handle and the
//! work items that address it.
use vstd::prelude::*;
use crate::notify::{Command, Message, Query, WorkItem};

verus! {

/// A cloneable capability bound to one window. It holds no window state.
#[derive(Clone, Copy, Debug, PartialEq, Eq, Structural)]
pub struct GuiWin {
    pub mux_window_id: u64,
    pub window: u64,
}

impl GuiWin {
    pub fn new(mux_window_id: u64, window: u64) -> (r: GuiWin)
        ensures
            r.mux_window_id == mux_window_id,
            r.window == window,
    {
        GuiWin { mux_window_id, window }
    }

    /// A command addressed to this window.
    pub fn command(&self, cmd: Command) -> (r: WorkItem)
        ensures
            r.window == self.window,
            r.message == Message::Command(cmd),
    {
        WorkItem { window: self.window, message: Message::Command(cmd) }
    }

    /// A query addressed to this window, whose reply goes to slot `id`.
    pub fn query(&self, id: u64, query: Query) -> (r: WorkItem)
        ensures
            r.window == self.window,
            r.message == (Message::Query { id, query }),
    {
        WorkItem { window: self.window, message: Message::Query { id, query } }
    }

    pub fn set_inner_size(&self, width: usize, height: usize) -> (r: WorkItem)
        ensures
            r.window == self.window,
            r.message == Message::Command(Command::SetInnerSize { width, height }),
    {
        self.command(Command::SetInnerSize { width, height })
    }

    pub fn set_position(&self, x: i64, y: i64) -> (r: WorkItem)
        ensures
            r.window == self.window,
            r.message == Message::Command(Command::SetPosition { x, y }),
    {
        self.command(Command::SetPosition { x, y })
    }

    pub fn get_dimensions(&self, id: u64) -> (r: WorkItem)
        ensures
            r.window == self.window,
            r.message == (Message::Query { id, query: Query::GetDimensions }),
    {
        self.query(id, Query::GetDimensions)
    }

    pub fn get_selection_text_for_pane(&self, id: u64, pane_id: u64) -> (r: WorkItem)
        ensures
            r.window == self.window,
            r.message == (Message::Query { id, query: Query::GetSelectionForPane { pane_id } }),
    {
        self.query(id, Query::GetSelectionForPane { pane_id })
    }
}

} // verus!
