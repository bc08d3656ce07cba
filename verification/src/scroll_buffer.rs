//! A virtualized store of styled lines with a cursor and a visible window.
//!
//! The window is adjusted by a minimal-movement rule: moving the cursor above
//! the window makes the target the new top; moving it below puts the target
//! exactly at the bottom edge; any other movement leaves the window alone.

use vstd::prelude::*;

use crate::bounding_box::BoundingBox;
use crate::draw::{is_print, DrawOp, TextAttributes, TextSegment};
use crate::events::{KeyCode, KeyEvent};
use crate::text::{make_spaces, spaces};

verus! {

/// The cursor target clamped to the stored lines: `min(line_no, len - 1)`,
/// or `0` when the buffer is empty.
pub open spec fn target_line(len: int, line_no: int) -> int {
    let cap = if len == 0 { 0 } else { len - 1 };
    if line_no <= cap {
        line_no
    } else {
        cap
    }
}

/// The window offset after moving the cursor to line `t`: the minimal shift
/// that brings `t` into a window of height `h` starting at `off`.
pub open spec fn shifted_offset(off: int, h: int, t: int) -> int {
    if t < off {
        t
    } else if t >= off + h {
        let s = t - h + 1;
        if s > usize::MAX {
            usize::MAX as int
        } else {
            s
        }
    } else {
        off
    }
}

/// A scrollable buffer of styled lines.
#[derive(Debug)]
pub struct ScrollBuffer {
    lines: Vec<Vec<TextSegment>>,
    display_height: usize,
    display_offset: usize,
    cursor_position: (usize, usize),
    should_render: bool,
    last_bounding_box: BoundingBox,
}

impl ScrollBuffer {
    /// The stored lines.
    pub closed spec fn lines(self) -> Seq<Vec<TextSegment>> {
        self.lines@
    }

    /// The height of the visible window.
    pub closed spec fn display_height(self) -> int {
        self.display_height as int
    }

    /// The index of the first visible line.
    pub closed spec fn offset(self) -> int {
        self.display_offset as int
    }

    /// The cursor column.
    pub closed spec fn cursor_x(self) -> int {
        self.cursor_position.0 as int
    }

    /// The cursor line index (into the stored lines, not the window).
    pub closed spec fn cursor_line(self) -> int {
        self.cursor_position.1 as int
    }

    /// Whether a repaint is owed.
    pub closed spec fn dirty(self) -> bool {
        self.should_render
    }

    /// The region this buffer was last rendered into.
    pub closed spec fn last_box(self) -> BoundingBox {
        self.last_bounding_box
    }

    /// The window invariant: whenever the window has positive height, the
    /// cursor line is visible.
    pub open spec fn wf(self) -> bool {
        self.display_height() >= 1 ==> self.offset() <= self.cursor_line() < self.offset()
            + self.display_height()
    }

    /// Relates the buffer after a cursor move to the buffer before it.
    pub open spec fn moved_to(self, post: ScrollBuffer, x: int, line_no: int) -> bool {
        let t = target_line(self.lines().len() as int, line_no);
        let off2 = shifted_offset(self.offset(), self.display_height(), t);
        &&& post.cursor_x() == x
        &&& post.cursor_line() == t
        &&& post.offset() == off2
        &&& post.dirty() == (self.dirty() || off2 != self.offset())
        &&& post.lines() == self.lines()
        &&& post.display_height() == self.display_height()
        &&& post.last_box() == self.last_box()
    }

    pub fn new() -> (r: Self)
        ensures
            r.lines().len() == 0,
            r.display_height() == 0,
            r.offset() == 0,
            r.cursor_x() == 0,
            r.cursor_line() == 0,
            r.dirty(),
            r.wf(),
    {
        Self {
            lines: Vec::new(),
            display_height: 0,
            display_offset: 0,
            cursor_position: (0, 0),
            should_render: true,
            last_bounding_box: BoundingBox::default(),
        }
    }

    /// Appends a styled line and marks the buffer dirty.
    pub fn push(&mut self, line: Vec<TextSegment>)
        ensures
            final(self).lines() == old(self).lines().push(line),
            final(self).dirty(),
            final(self).display_height() == old(self).display_height(),
            final(self).offset() == old(self).offset(),
            final(self).cursor_x() == old(self).cursor_x(),
            final(self).cursor_line() == old(self).cursor_line(),
            final(self).last_box() == old(self).last_box(),
            old(self).wf() ==> final(self).wf(),
    {
        self.lines.push(line);
        self.should_render = true;
    }

    /// Appends an empty line.
    pub fn push_newline(&mut self)
        ensures
            final(self).lines().len() == old(self).lines().len() + 1,
            final(self).lines().take(old(self).lines().len() as int) == old(self).lines(),
            final(self).lines().last()@.len() == 0,
            final(self).dirty(),
            final(self).display_height() == old(self).display_height(),
            final(self).offset() == old(self).offset(),
            final(self).cursor_x() == old(self).cursor_x(),
            final(self).cursor_line() == old(self).cursor_line(),
            final(self).last_box() == old(self).last_box(),
            old(self).wf() ==> final(self).wf(),
    {
        let line: Vec<TextSegment> = Vec::new();
        self.push(line);
        proof {
            assert(self.lines().take(old(self).lines().len() as int) =~= old(self).lines());
        }
    }

    /// Moves every line of `more` to the end of the buffer and marks it dirty.
    pub fn append(&mut self, more: &mut Vec<Vec<TextSegment>>)
        ensures
            final(self).lines() == old(self).lines() + old(more)@,
            final(more)@.len() == 0,
            final(self).dirty(),
            final(self).display_height() == old(self).display_height(),
            final(self).offset() == old(self).offset(),
            final(self).cursor_x() == old(self).cursor_x(),
            final(self).cursor_line() == old(self).cursor_line(),
            final(self).last_box() == old(self).last_box(),
            old(self).wf() ==> final(self).wf(),
    {
        self.lines.append(more);
        self.should_render = true;
    }

    /// Empties the stored lines and marks the buffer dirty; the cursor and
    /// window are left as they are.
    pub fn clear(&mut self)
        ensures
            final(self).lines().len() == 0,
            final(self).dirty(),
            final(self).display_height() == old(self).display_height(),
            final(self).offset() == old(self).offset(),
            final(self).cursor_x() == old(self).cursor_x(),
            final(self).cursor_line() == old(self).cursor_line(),
            final(self).last_box() == old(self).last_box(),
            old(self).wf() ==> final(self).wf(),
    {
        self.lines.clear();
        self.should_render = true;
    }

    /// The number of stored lines.
    pub fn height(&self) -> (r: usize)
        ensures
            r == self.lines().len(),
    {
        self.lines.len()
    }

    /// Moves the cursor to `line_no` (clamped to the stored lines) in column
    /// `x_offset`, shifting the window minimally if the target would fall
    /// outside it; the buffer is marked dirty only when the window changes.
    pub fn move_cursor_to(&mut self, x_offset: usize, line_no: usize)
        ensures
            old(self).moved_to(*final(self), x_offset as int, line_no as int),
            final(self).wf(),
    {
        let len = self.lines.len();
        let cap: usize = if len == 0 { 0 } else { len - 1 };
        let new_offset: usize = if line_no <= cap { line_no } else { cap };

        if new_offset < self.display_offset {
            self.display_offset = new_offset;
            self.should_render = true;
        } else if new_offset - self.display_offset >= self.display_height {
            let shifted: usize = if self.display_height == 0 {
                if new_offset == usize::MAX {
                    usize::MAX
                } else {
                    new_offset + 1
                }
            } else {
                new_offset - (self.display_height - 1)
            };
            if shifted != self.display_offset {
                self.display_offset = shifted;
                self.should_render = true;
            }
        }

        self.cursor_position = (x_offset, new_offset);
    }

    /// Moves the cursor by `delta` lines, clamping at the ends of the buffer.
    pub fn move_cursor(&mut self, delta: isize)
        ensures
            old(self).moved_to(
                *final(self),
                old(self).cursor_x(),
                moved_target(old(self).cursor_line(), delta as int),
            ),
            final(self).wf(),
    {
        let cur = self.cursor_position.1;
        let x = self.cursor_position.0;
        let line_no: usize = if delta >= 0 {
            let d = delta as usize;
            if cur > usize::MAX - d {
                usize::MAX
            } else {
                cur + d
            }
        } else {
            let m: usize = if delta == isize::MIN {
                (isize::MAX as usize) + 1
            } else {
                (-delta) as usize
            };
            if cur >= m {
                cur - m
            } else {
                0
            }
        };
        self.move_cursor_to(x, line_no);
    }

    /// The line index the cursor is on.
    pub fn get_cursor_line(&self) -> (r: usize)
        ensures
            r == self.cursor_line(),
    {
        self.cursor_position.1
    }

    /// The cursor line relative to the window top, saturating at zero.
    pub open spec fn rel_cursor_line(self) -> int {
        if self.cursor_line() >= self.offset() {
            self.cursor_line() - self.offset()
        } else {
            0
        }
    }

    /// The window-relative cursor position, capped to the terminal's cell
    /// type.
    pub open spec fn cursor_view(self) -> (u16, u16) {
        (sat_u16(self.cursor_x()), sat_u16(self.rel_cursor_line()))
    }

    /// The cursor position relative to the visible window.
    pub fn get_cursor(&self) -> (r: (u16, u16))
        ensures
            r == self.cursor_view(),
    {
        let rel: usize = if self.cursor_position.1 >= self.display_offset {
            self.cursor_position.1 - self.display_offset
        } else {
            0
        };
        let x: u16 = if self.cursor_position.0 <= u16::MAX as usize {
            self.cursor_position.0 as u16
        } else {
            u16::MAX
        };
        let y: u16 = if rel <= u16::MAX as usize {
            rel as u16
        } else {
            u16::MAX
        };
        (x, y)
    }

    /// Whether a repaint is owed.
    pub fn should_render(&self) -> (r: bool)
        ensures
            r == self.dirty(),
    {
        self.should_render
    }

    /// Forces the next render to repaint.
    pub fn invalidate(&mut self)
        ensures
            final(self).dirty(),
            final(self).lines() == old(self).lines(),
            final(self).display_height() == old(self).display_height(),
            final(self).offset() == old(self).offset(),
            final(self).cursor_x() == old(self).cursor_x(),
            final(self).cursor_line() == old(self).cursor_line(),
            final(self).last_box() == old(self).last_box(),
            old(self).wf() ==> final(self).wf(),
    {
        self.should_render = true;
    }

    /// Repaints the visible slice of the buffer into `bounding_box`, if a
    /// repaint is owed or the region changed; otherwise does nothing. A
    /// height change recomputes the window by the minimal-movement rule.
    pub fn render(&mut self, bounding_box: BoundingBox) -> (ops: Vec<DrawOp>)
        requires
            bounding_box.top + bounding_box.height <= u16::MAX,
        ensures
            old(self).wf() ==> final(self).wf(),
            !(old(self).dirty() || bounding_box != old(self).last_box()) ==> *final(self) == *old(self) && ops@.len() == 0,
            (old(self).dirty() || bounding_box != old(self).last_box()) ==> {
                let moved = old(self).display_height() != bounding_box.height as int;
                let t = target_line(old(self).lines().len() as int, old(self).cursor_line());
                let off2 = shifted_offset(
                    old(self).offset(),
                    bounding_box.height as int,
                    t,
                );
                &&& final(self).lines() == old(self).lines()
                &&& final(self).last_box() == bounding_box
                &&& final(self).display_height() == bounding_box.height as int
                &&& !final(self).dirty()
                &&& final(self).cursor_x() == old(self).cursor_x()
                &&& final(self).cursor_line() == (if moved {
                    t
                } else {
                    old(self).cursor_line()
                })
                &&& final(self).offset() == (if moved {
                    off2
                } else {
                    old(self).offset()
                })
                &&& rows_ops_ok(
                    ops@,
                    final(self).lines(),
                    visible_from(final(self).offset(), final(self).lines().len() as int),
                    visible_to(
                        final(self).offset(),
                        final(self).display_height(),
                        final(self).lines().len() as int,
                    ),
                    bounding_box.left,
                    bounding_box.top,
                    spaces(bounding_box.width as int),
                )
            },
    {
        if !(bounding_box == self.last_bounding_box) {
            self.last_bounding_box = bounding_box;
            self.should_render = true;
        }

        let mut ops: Vec<DrawOp> = Vec::new();

        if self.should_render {
            if self.display_height != bounding_box.height as usize {
                self.display_height = bounding_box.height as usize;
                let x = self.cursor_position.0;
                let line = self.cursor_position.1;
                self.move_cursor_to(x, line);
            }

            let str_clear = make_spaces(bounding_box.width as usize);
            let len = self.lines.len();
            let from: usize = if self.display_offset < len {
                self.display_offset
            } else {
                len
            };
            let rem = len - from;
            let to: usize = if rem < self.display_height {
                len
            } else {
                from + self.display_height
            };

            let mut line_no = from;
            while line_no < to
                invariant
                    from <= line_no <= to <= self.lines@.len(),
                    to - from <= self.display_height,
                    self.display_height as int == bounding_box.height as int,
                    bounding_box.top + bounding_box.height <= u16::MAX,
                    str_clear@ == spaces(bounding_box.width as int),
                    rows_ops_ok(
                        ops@,
                        self.lines@,
                        from as int,
                        line_no as int,
                        bounding_box.left,
                        bounding_box.top,
                        spaces(bounding_box.width as int),
                    ),
                decreases to - line_no,
            {
                let delta = (line_no - from) as u16;
                let row = bounding_box.top + delta;
                let ghost prev_ops = ops@;
                let mut row_ops = render_row(
                    &self.lines[line_no],
                    bounding_box.left,
                    row,
                    &str_clear,
                );
                let ghost row_snap = row_ops@;
                ops.append(&mut row_ops);
                line_no = line_no + 1;
                proof {
                    let rl = 5 + 3 * self.lines@[line_no - 1]@.len();
                    assert(ops@.len() - rl == prev_ops.len());
                    assert(ops@.take(ops@.len() - rl) =~= prev_ops);
                    assert(ops@.skip(ops@.len() - rl) =~= row_snap);
                    assert((bounding_box.top + (line_no - 1 - from)) as u16 == row);
                    assert(rows_ops_ok(
                        ops@,
                        self.lines@,
                        from as int,
                        line_no as int,
                        bounding_box.left,
                        bounding_box.top,
                        spaces(bounding_box.width as int),
                    ));
                }
            }

            self.should_render = false;
        }

        ops
    }
}

impl ScrollBuffer {
    /// Reacts to a key: up and down move the cursor by one line; any other
    /// key is left unhandled.
    pub fn handle_key(&mut self, event: &KeyEvent) -> (r: bool)
        ensures
            event.code == KeyCode::Up ==> r && old(self).moved_to(
                *final(self),
                old(self).cursor_x(),
                moved_target(old(self).cursor_line(), -1),
            ) && final(self).wf(),
            event.code == KeyCode::Down ==> r && old(self).moved_to(
                *final(self),
                old(self).cursor_x(),
                moved_target(old(self).cursor_line(), 1),
            ) && final(self).wf(),
            event.code != KeyCode::Up && event.code != KeyCode::Down ==> !r && *final(self)
                == *old(self),
    {
        match event.code {
            KeyCode::Up => {
                self.move_cursor(-1);
                true
            },
            KeyCode::Down => {
                self.move_cursor(1);
                true
            },
            _ => false,
        }
    }
}

/// The window offset never changes while the cursor target is already
/// visible: scrolling happens only when the target would fall outside the
/// window.
pub proof fn lemma_offset_stable_when_visible(off: int, h: int, t: int)
    requires
        off <= t < off + h,
    ensures
        shifted_offset(off, h, t) == off,
{
}

/// For any window of positive height, the minimal shift makes the cursor
/// target visible: the new offset satisfies `offset <= t < offset + h`.
pub proof fn lemma_shift_restores_visibility(off: int, h: int, t: int)
    requires
        h >= 1,
        0 <= t <= usize::MAX,
    ensures
        shifted_offset(off, h, t) <= t < shifted_offset(off, h, t) + h,
{
}

/// A cell coordinate capped to the terminal's cell type.
pub open spec fn sat_u16(v: int) -> u16 {
    if v <= u16::MAX {
        v as u16
    } else {
        u16::MAX
    }
}

/// The cursor target after moving by `delta` from line `cur`, before
/// clamping to the stored lines.
pub open spec fn moved_target(cur: int, delta: int) -> int {
    let t = cur + delta;
    if t < 0 {
        0
    } else if t > usize::MAX {
        usize::MAX as int
    } else {
        t
    }
}

/// The first visible line index.
pub open spec fn visible_from(off: int, len: int) -> int {
    if off < len {
        off
    } else {
        len
    }
}

/// One past the last visible line index.
pub open spec fn visible_to(off: int, h: int, len: int) -> int {
    let from = visible_from(off, len);
    if len - from < h {
        len
    } else {
        from + h
    }
}

/// Holds when `ops` draws segment `seg`: its colors, its attributes, then
/// its text.
pub open spec fn seg_ops_ok(ops: Seq<DrawOp>, seg: TextSegment) -> bool {
    &&& ops.len() == 3
    &&& ops[0] == DrawOp::SetColors(seg.colors)
    &&& ops[1] == DrawOp::SetAttributes(seg.attributes)
    &&& is_print(ops[2], seg.text@)
}

/// Holds when `ops` draws the segments `segs` in order.
pub open spec fn segs_ops_ok(ops: Seq<DrawOp>, segs: Seq<TextSegment>) -> bool
    decreases segs.len(),
{
    if segs.len() == 0 {
        ops.len() == 0
    } else {
        &&& ops.len() >= 3
        &&& segs_ops_ok(ops.take(ops.len() - 3), segs.drop_last())
        &&& seg_ops_ok(ops.skip(ops.len() - 3), segs.last())
    }
}

/// Holds when `ops` repaints one row at (`left`, `row`): clear the row with
/// `clears`, return to its start, then draw the line's segments.
pub open spec fn row_ops_ok(
    ops: Seq<DrawOp>,
    line: Seq<TextSegment>,
    left: u16,
    row: u16,
    clears: Seq<char>,
) -> bool {
    &&& ops.len() == 5 + 3 * line.len()
    &&& ops[0] == DrawOp::MoveTo(left, row)
    &&& ops[1] == DrawOp::ResetColor
    &&& ops[2] == DrawOp::SetAttributes(TextAttributes { bits: 0u32 })
    &&& is_print(ops[3], clears)
    &&& ops[4] == DrawOp::MoveTo(left, row)
    &&& segs_ops_ok(ops.skip(5), line)
}

/// Holds when `ops` repaints rows `from..to` of `lines`, one row per
/// visible line, starting at terminal row `top`.
pub open spec fn rows_ops_ok(
    ops: Seq<DrawOp>,
    lines: Seq<Vec<TextSegment>>,
    from: int,
    to: int,
    left: u16,
    top: u16,
    clears: Seq<char>,
) -> bool
    decreases to - from,
{
    if to <= from {
        ops.len() == 0
    } else {
        let rl = 5 + 3 * lines[to - 1]@.len();
        &&& ops.len() >= rl
        &&& rows_ops_ok(ops.take(ops.len() - rl), lines, from, to - 1, left, top, clears)
        &&& row_ops_ok(
            ops.skip(ops.len() - rl),
            lines[to - 1]@,
            left,
            (top + (to - 1 - from)) as u16,
            clears,
        )
    }
}

/// Builds the draw operations for one row.
fn render_row(line: &Vec<TextSegment>, left: u16, row: u16, clear: &String) -> (ops: Vec<DrawOp>)
    ensures
        row_ops_ok(ops@, line@, left, row, clear@),
{
    let mut ops: Vec<DrawOp> = Vec::new();
    ops.push(DrawOp::MoveTo(left, row));
    ops.push(DrawOp::ResetColor);
    ops.push(DrawOp::SetAttributes(TextAttributes { bits: 0 }));
    ops.push(DrawOp::Print(clear.clone()));
    ops.push(DrawOp::MoveTo(left, row));

    let mut j: usize = 0;
    while j < line.len()
        invariant
            j <= line@.len(),
            ops@.len() == 5 + 3 * j,
            ops@[0] == DrawOp::MoveTo(left, row),
            ops@[1] == DrawOp::ResetColor,
            ops@[2] == DrawOp::SetAttributes(TextAttributes { bits: 0u32 }),
            is_print(ops@[3], clear@),
            ops@[4] == DrawOp::MoveTo(left, row),
            segs_ops_ok(ops@.skip(5), line@.take(j as int)),
        decreases line@.len() - j,
    {
        let ghost prev_ops = ops@;
        let seg = &line[j];
        ops.push(DrawOp::SetColors(seg.colors));
        ops.push(DrawOp::SetAttributes(seg.attributes));
        ops.push(DrawOp::Print(seg.text.clone()));
        j = j + 1;
        proof {
            let cur = ops@.skip(5);
            assert(cur.take(cur.len() - 3) =~= prev_ops.skip(5));
            assert(line@.take(j as int).drop_last() =~= line@.take(j - 1));
            assert(seg_ops_ok(cur.skip(cur.len() - 3), line@[j - 1]));
        }
    }
    proof {
        assert(line@.take(line@.len() as int) =~= line@);
    }
    ops
}

} // verus!
