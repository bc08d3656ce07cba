//! The one-line status summary: outstanding background tasks and feed size.

use vstd::prelude::*;

use crate::bounding_box::BoundingBox;
use crate::component::{Input, Render};
use crate::draw::{is_print, Color, Colors, DrawOp};
use crate::events::{KeyEvent, UiAction};
use crate::store::Store;
use crate::text::{chars_to_string, dec_chars, push_usize};

verus! {

/// The status line a bottom bar prints: `"[* N] "` while `tasks` background
/// tasks are outstanding, then the feed size as `"L tweets"`.
pub open spec fn status_chars(tasks: int, feed_len: int) -> Seq<char> {
    let count = dec_chars(feed_len) + seq![' ', 't', 'w', 'e', 'e', 't', 's'];
    if tasks > 0 {
        seq!['[', '*', ' '] + dec_chars(tasks) + seq![']', ' '] + count
    } else {
        count
    }
}

/// The draw operations of one status-bar paint: one line at the region's
/// origin in black on white, then the default colors restored and the rest
/// of the row cleared.
pub open spec fn status_ops_ok(ops: Seq<DrawOp>, tasks: int, feed_len: int, bb: BoundingBox) -> bool {
    &&& ops.len() == 5
    &&& ops[0] == DrawOp::MoveTo(bb.left, bb.top)
    &&& ops[1] == DrawOp::SetColors(Colors { foreground: Color::Black, background: Color::White })
    &&& is_print(ops[2], status_chars(tasks, feed_len))
    &&& ops[3] == DrawOp::ResetColor
    &&& ops[4] == DrawOp::ClearUntilNewLine
}

/// The status bar at the bottom of the screen.
#[derive(Debug)]
pub struct BottomBar {
    num_tasks_in_flight: usize,
    should_render: bool,
}

impl BottomBar {
    /// The count of outstanding background tasks being displayed.
    pub closed spec fn tasks_in_flight(self) -> int {
        self.num_tasks_in_flight as int
    }

    /// Whether a repaint is owed.
    pub closed spec fn is_dirty(self) -> bool {
        self.should_render
    }

    pub fn new() -> (r: Self)
        ensures
            r.tasks_in_flight() == 0,
            r.is_dirty(),
    {
        Self { num_tasks_in_flight: 0, should_render: true }
    }

    /// Records the new count of outstanding background tasks and marks the
    /// bar dirty.
    pub fn set_num_tasks_in_flight(&mut self, n: usize)
        ensures
            final(self).tasks_in_flight() == n,
            final(self).is_dirty(),
    {
        self.num_tasks_in_flight = n;
        self.should_render = true;
    }

    /// The draw operations for the status line.
    fn render_ops(&self, store: &Store, bounding_box: BoundingBox) -> (ops: Vec<DrawOp>)
        ensures
            status_ops_ok(
                ops@,
                self.tasks_in_flight(),
                store.feed().len() as int,
                bounding_box,
            ),
    {
        let feed_length = store.feed_len();
        let mut text: Vec<char> = Vec::new();
        if self.num_tasks_in_flight > 0 {
            text.push('[');
            text.push('*');
            text.push(' ');
            push_usize(&mut text, self.num_tasks_in_flight);
            text.push(']');
            text.push(' ');
        }
        push_usize(&mut text, feed_length);
        text.push(' ');
        text.push('t');
        text.push('w');
        text.push('e');
        text.push('e');
        text.push('t');
        text.push('s');
        proof {
            assert(text@ =~= status_chars(self.tasks_in_flight(), store.feed().len() as int));
        }

        let mut ops: Vec<DrawOp> = Vec::new();
        ops.push(DrawOp::MoveTo(bounding_box.left, bounding_box.top));
        ops.push(DrawOp::SetColors(Colors { foreground: Color::Black, background: Color::White }));
        ops.push(DrawOp::Print(chars_to_string(&text)));
        ops.push(DrawOp::ResetColor);
        ops.push(DrawOp::ClearUntilNewLine);
        ops
    }
}

impl Render for BottomBar {
    open spec fn dirty(&self) -> bool {
        self.is_dirty()
    }

    fn should_render(&self) -> (r: bool) {
        self.should_render
    }

    fn invalidate(&mut self) {
        self.should_render = true;
    }

    /// A paint prints the status summary — the outstanding task count while
    /// any tasks run, then the feed size — and clears the dirty flag.
    open spec fn render_post(
        pre: BottomBar,
        post: BottomBar,
        store: Store,
        bounding_box: BoundingBox,
        ops: Seq<DrawOp>,
    ) -> bool {
        &&& post.tasks_in_flight() == pre.tasks_in_flight()
        &&& !post.is_dirty()
        &&& status_ops_ok(ops, pre.tasks_in_flight(), store.feed().len() as int, bounding_box)
    }

    fn render(&mut self, store: &Store, bounding_box: BoundingBox) -> (ops: Vec<DrawOp>) {
        let ops = self.render_ops(store, bounding_box);
        self.should_render = false;
        ops
    }

    open spec fn cursor(&self) -> (u16, u16) {
        (0u16, 0u16)
    }

    fn get_cursor(&self) -> (r: (u16, u16)) {
        (0, 0)
    }
}

impl Input for BottomBar {
    /// Receiving focus changes nothing here.
    open spec fn focus_post(pre: BottomBar, post: BottomBar) -> bool {
        post == pre
    }

    fn handle_focus(&mut self) {
    }

    /// The status bar consumes no input.
    open spec fn key_post(
        pre: BottomBar,
        post: BottomBar,
        pre_store: Store,
        post_store: Store,
        event: KeyEvent,
        handled: bool,
        actions: Seq<UiAction>,
    ) -> bool {
        &&& post == pre
        &&& post_store == pre_store
        &&& !handled
        &&& actions.len() == 0
    }

    fn handle_key_event(&mut self, store: &mut Store, event: &KeyEvent) -> (r: (
        bool,
        Vec<UiAction>,
    )) {
        (false, Vec::new())
    }
}

} // verus!
