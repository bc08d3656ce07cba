//! A one-line text-entry field with a caret.

use vstd::prelude::*;

use crate::bounding_box::BoundingBox;
use crate::component::{Input, Render};
use crate::draw::{is_print, DrawOp};
use crate::events::{KeyCode, KeyEvent, UiAction};
use crate::store::Store;
use crate::text::{chars_to_string, make_spaces, spaces};

verus! {

/// How one inserted character leaves the bar: the character stands at the
/// old caret and the caret sits just past it.
pub open spec fn char_inserted(pre: SearchBar, post: SearchBar, ch: char) -> bool {
    &&& post.wf()
    &&& post.is_dirty()
    &&& pre.wf() ==> post.text() == pre.text().insert(pre.caret(), ch) && post.caret()
        == pre.caret() + 1
}

/// How deleting at the caret leaves the bar: the character under the caret
/// is removed when there is one, and nothing changes otherwise.
pub open spec fn char_deleted_at(pre: SearchBar, post: SearchBar) -> bool {
    &&& post.caret() == pre.caret()
    &&& pre.wf() ==> post.wf()
    &&& pre.caret() < pre.text().len() ==> post.text() == pre.text().remove(pre.caret())
        && post.is_dirty()
    &&& pre.caret() >= pre.text().len() ==> post.text() == pre.text() && post.is_dirty()
        == pre.is_dirty()
}

/// How deleting before the caret leaves the bar: the character before the
/// caret is removed and the caret moves back, unless the caret is at the
/// start.
pub open spec fn char_deleted_before(pre: SearchBar, post: SearchBar) -> bool {
    &&& pre.wf() ==> post.wf()
    &&& pre.wf() && pre.caret() > 0 ==> post.text() == pre.text().remove(pre.caret() - 1)
        && post.caret() == pre.caret() - 1 && post.is_dirty()
    &&& pre.caret() == 0 ==> post.text() == pre.text() && post.caret() == 0 && post.is_dirty()
        == pre.is_dirty()
}

/// How a caret move leaves the bar: shifted by `delta` when the result stays
/// within the text, untouched otherwise.
pub open spec fn caret_moved(pre: SearchBar, post: SearchBar, delta: int) -> bool {
    &&& post.text() == pre.text()
    &&& pre.wf() ==> post.wf()
    &&& pre.wf() ==> {
        if 0 <= pre.caret() + delta <= pre.text().len() {
            post.caret() == pre.caret() + delta && post.is_dirty()
        } else {
            post.caret() == pre.caret() && post.is_dirty() == pre.is_dirty()
        }
    }
}

/// The draw operations of one search-bar paint: the prompt at the region's
/// origin, the cleared remainder of the row, then the entered text after the
/// two-column prompt.
pub open spec fn search_bar_ops_ok(ops: Seq<DrawOp>, text: Seq<char>, bb: BoundingBox) -> bool {
    &&& ops.len() == 5
    &&& ops[0] == DrawOp::MoveTo(bb.left, bb.top)
    &&& is_print(ops[1], "> "@)
    &&& is_print(
        ops[2],
        spaces(
            if bb.width >= 2 {
                bb.width - 2
            } else {
                0
            },
        ),
    )
    &&& ops[3] == DrawOp::MoveTo(crate::component::sat_add_u16(bb.left, 2), bb.top)
    &&& is_print(ops[4], text)
}

/// The search-entry field: its text, the caret position within it, and the
/// dirty flag.
#[derive(Debug)]
pub struct SearchBar {
    text_input: Vec<char>,
    caret_position: usize,
    should_render: bool,
}

impl SearchBar {
    /// The entered text.
    pub closed spec fn text(self) -> Seq<char> {
        self.text_input@
    }

    /// The caret position, in characters from the start of the text.
    pub closed spec fn caret(self) -> int {
        self.caret_position as int
    }

    /// Whether a repaint is owed.
    pub closed spec fn is_dirty(self) -> bool {
        self.should_render
    }

    /// The caret stays within the text.
    pub open spec fn wf(self) -> bool {
        0 <= self.caret() <= self.text().len()
    }

    pub fn new() -> (r: Self)
        ensures
            r.text().len() == 0,
            r.caret() == 0,
            r.is_dirty(),
            r.wf(),
    {
        Self { text_input: Vec::new(), caret_position: 0, should_render: true }
    }

    /// The entered text, as a string.
    pub fn get_text(&self) -> (r: String)
        ensures
            r@ == self.text(),
    {
        chars_to_string(&self.text_input)
    }

    /// Empties the text and resets the caret.
    pub fn clear(&mut self)
        ensures
            final(self).text().len() == 0,
            final(self).caret() == 0,
            final(self).is_dirty(),
            final(self).wf(),
    {
        self.text_input.clear();
        self.caret_position = 0;
        self.should_render = true;
    }

    /// Inserts `ch` at the caret (clamped to the text) and advances the
    /// caret past it.
    pub fn insert_char_at_caret(&mut self, ch: char)
        ensures
            char_inserted(*old(self), *final(self), ch),
    {
        let pos: usize = if self.caret_position <= self.text_input.len() {
            self.caret_position
        } else {
            self.text_input.len()
        };
        self.text_input.insert(pos, ch);
        let len_after = self.text_input.len();
        self.caret_position = if pos < len_after {
            pos + 1
        } else {
            len_after
        };
        self.should_render = true;
    }

    /// Removes the character at the caret, if the caret is not at the end.
    pub fn delete_char_at_caret(&mut self)
        ensures
            char_deleted_at(*old(self), *final(self)),
    {
        if self.caret_position < self.text_input.len() {
            let _ = self.text_input.remove(self.caret_position);
            self.should_render = true;
        }
    }

    /// Removes the character before the caret and moves the caret back, if
    /// the caret is not at the start.
    pub fn delete_char_before_caret(&mut self)
        ensures
            char_deleted_before(*old(self), *final(self)),
    {
        if self.caret_position > 0 {
            self.caret_position = self.caret_position - 1;
            self.delete_char_at_caret();
        }
    }

    /// Moves the caret by `delta` characters if the result stays within the
    /// text, and does nothing otherwise.
    pub fn move_caret(&mut self, delta: isize)
        ensures
            caret_moved(*old(self), *final(self), delta as int),
    {
        if delta >= 0 {
            let d = delta as usize;
            if self.caret_position <= self.text_input.len() && d <= self.text_input.len()
                - self.caret_position {
                self.caret_position = self.caret_position + d;
                self.should_render = true;
            }
        } else {
            let m: usize = if delta == isize::MIN {
                (isize::MAX as usize) + 1
            } else {
                (-delta) as usize
            };
            if m <= self.caret_position {
                self.caret_position = self.caret_position - m;
                self.should_render = true;
            }
        }
    }

    /// The draw operations for the bar: the prompt, a cleared remainder of
    /// the row, then the entered text.
    fn render_ops(&self, bounding_box: BoundingBox) -> (ops: Vec<DrawOp>)
        ensures
            search_bar_ops_ok(ops@, self.text(), bounding_box),
    {
        let mut ops: Vec<DrawOp> = Vec::new();
        ops.push(DrawOp::MoveTo(bounding_box.left, bounding_box.top));
        ops.push(DrawOp::Print("> ".to_owned()));
        let clear_width: usize = if bounding_box.width >= 2 {
            (bounding_box.width - 2) as usize
        } else {
            0
        };
        ops.push(DrawOp::Print(make_spaces(clear_width)));
        ops.push(
            DrawOp::MoveTo(
                crate::component::sat_add_u16_exec(bounding_box.left, 2),
                bounding_box.top,
            ),
        );
        ops.push(DrawOp::Print(chars_to_string(&self.text_input)));
        ops
    }
}

impl Render for SearchBar {
    open spec fn dirty(&self) -> bool {
        self.is_dirty()
    }

    fn should_render(&self) -> (r: bool) {
        self.should_render
    }

    fn invalidate(&mut self) {
        self.should_render = true;
    }

    /// A paint leaves the bar untouched and draws the prompt, the cleared
    /// row, and the entered text.
    open spec fn render_post(
        pre: SearchBar,
        post: SearchBar,
        store: Store,
        bounding_box: BoundingBox,
        ops: Seq<DrawOp>,
    ) -> bool {
        &&& post == pre
        &&& search_bar_ops_ok(ops, pre.text(), bounding_box)
    }

    fn render(&mut self, store: &Store, bounding_box: BoundingBox) -> (ops: Vec<DrawOp>) {
        self.render_ops(bounding_box)
    }

    open spec fn cursor(&self) -> (u16, u16) {
        (
            if self.caret() + 2 <= u16::MAX {
                (self.caret() + 2) as u16
            } else {
                u16::MAX
            },
            0u16,
        )
    }

    fn get_cursor(&self) -> (r: (u16, u16)) {
        let x: u16 = if self.caret_position <= (u16::MAX - 2) as usize {
            (self.caret_position as u16) + 2
        } else {
            u16::MAX
        };
        (x, 0)
    }
}

impl Input for SearchBar {
    /// Receiving focus changes nothing here.
    open spec fn focus_post(pre: SearchBar, post: SearchBar) -> bool {
        post == pre
    }

    fn handle_focus(&mut self) {
    }

    /// The bar edits at the caret and never touches the store or asks for
    /// outside work: character keys insert, the arrows move the caret,
    /// backspace and delete remove; everything else is left unhandled.
    open spec fn key_post(
        pre: SearchBar,
        post: SearchBar,
        pre_store: Store,
        post_store: Store,
        event: KeyEvent,
        handled: bool,
        actions: Seq<UiAction>,
    ) -> bool {
        &&& post_store == pre_store
        &&& actions.len() == 0
        &&& match event.code {
            KeyCode::Char(ch) => handled && char_inserted(pre, post, ch),
            KeyCode::Left => handled && caret_moved(pre, post, -1),
            KeyCode::Right => handled && caret_moved(pre, post, 1),
            KeyCode::Backspace => handled && char_deleted_before(pre, post),
            KeyCode::Delete => handled && char_deleted_at(pre, post),
            _ => !handled && post == pre,
        }
    }

    fn handle_key_event(&mut self, store: &mut Store, event: &KeyEvent) -> (r: (
        bool,
        Vec<UiAction>,
    )) {
        let actions: Vec<UiAction> = Vec::new();
        let handled = match event.code {
            KeyCode::Char(ch) => {
                self.insert_char_at_caret(ch);
                true
            },
            KeyCode::Left => {
                self.move_caret(-1);
                true
            },
            KeyCode::Right => {
                self.move_caret(1);
                true
            },
            KeyCode::Backspace => {
                self.delete_char_before_caret();
                true
            },
            KeyCode::Delete => {
                self.delete_char_at_caret();
                true
            },
            _ => false,
        };
        (handled, actions)
    }
}

} // verus!
