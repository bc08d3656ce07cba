//! The render/input capability pair and the wrapper that composes a region,
//! a dirty flag, and a component.

use vstd::prelude::*;

use crate::bounding_box::BoundingBox;
use crate::draw::DrawOp;
use crate::events::{KeyEvent, UiAction};
use crate::store::Store;

verus! {

/// Adds two cell coordinates, capping at the edge of the terminal's
/// coordinate space.
pub open spec fn sat_add_u16(a: u16, b: u16) -> u16 {
    if a + b <= u16::MAX {
        (a + b) as u16
    } else {
        u16::MAX
    }
}

/// Something that can be painted into an assigned region.
pub trait Render: Sized {
    /// Whether a repaint is owed.
    spec fn dirty(&self) -> bool;

    fn should_render(&self) -> (r: bool)
        ensures
            r == self.dirty(),
    ;

    /// Forces the next render to repaint.
    fn invalidate(&mut self)
        ensures
            final(self).dirty(),
    ;

    /// What one paint of this component promises: how the new state and the
    /// returned terminal commands relate to the old state, the store, and
    /// the assigned region.
    spec fn render_post(pre: Self, post: Self, store: Store, bounding_box: BoundingBox, ops: Seq<
        DrawOp,
    >) -> bool;

    /// Paints the component into `bounding_box`, reading shared state from
    /// `store`, and returns the terminal commands to queue.
    fn render(&mut self, store: &Store, bounding_box: BoundingBox) -> (ops: Vec<DrawOp>)
        requires
            store.wf(),
            bounding_box.top + bounding_box.height <= u16::MAX,
            bounding_box.left + bounding_box.width <= u16::MAX,
        ensures
            Self::render_post(*old(self), *final(self), *store, bounding_box, ops@),
    ;

    /// The preferred cursor position, in region-relative coordinates.
    spec fn cursor(&self) -> (u16, u16);

    fn get_cursor(&self) -> (r: (u16, u16))
        ensures
            r == self.cursor(),
    ;
}

/// Something that can take focus and consume key events.
pub trait Input: Sized {
    /// What receiving focus promises: how the new state relates to the old.
    spec fn focus_post(pre: Self, post: Self) -> bool;

    /// Reacts to receiving focus.
    fn handle_focus(&mut self)
        ensures
            Self::focus_post(*old(self), *final(self)),
    ;

    /// What consuming one key event promises: how the new state, the new
    /// store, the handled flag and the requested work relate to the old
    /// state, the old store and the key.
    spec fn key_post(
        pre: Self,
        post: Self,
        pre_store: Store,
        post_store: Store,
        event: KeyEvent,
        handled: bool,
        actions: Seq<UiAction>,
    ) -> bool;

    /// Consumes a key event, possibly mutating shared state; returns whether
    /// the event was handled, plus the work this asks of the surroundings.
    fn handle_key_event(&mut self, store: &mut Store, event: &KeyEvent) -> (r: (
        bool,
        Vec<UiAction>,
    ))
        requires
            old(store).wf(),
        ensures
            final(store).wf(),
            Self::key_post(
                *old(self),
                *final(self),
                *old(store),
                *final(store),
                *event,
                r.0,
                r.1@,
            ),
    ;
}

/// A region, paired with the render/input-capable object assigned to it.
pub struct Component<T: Render + Input> {
    pub bounding_box: BoundingBox,
    pub component: T,
}

impl<T: Render + Input> Component<T> {
    pub fn new(component: T) -> (r: Self)
        ensures
            r.component == component,
            r.bounding_box == (BoundingBox { left: 0u16, top: 0u16, width: 0u16, height: 0u16 }),
    {
        Self { bounding_box: BoundingBox::default(), component }
    }

    /// Repaints the component only when it owes a repaint: when the dirty
    /// flag is clear this does nothing at all; when it is set, the paint
    /// meets the component's own render promise for the assigned region.
    pub fn render_if_necessary(&mut self, store: &Store) -> (ops: Vec<DrawOp>)
        requires
            store.wf(),
            old(self).bounding_box.top + old(self).bounding_box.height <= u16::MAX,
            old(self).bounding_box.left + old(self).bounding_box.width <= u16::MAX,
        ensures
            painted_if_dirty(*old(self), *final(self), *store, ops@),
    {
        if self.component.should_render() {
            let bounding_box = self.bounding_box;
            self.component.render(store, bounding_box)
        } else {
            Vec::new()
        }
    }

    /// The component's preferred cursor position translated into absolute
    /// coordinates by adding the region's origin.
    pub fn get_cursor(&self) -> (r: (u16, u16))
        ensures
            r.0 == sat_add_u16(self.bounding_box.left, self.component.cursor().0),
            r.1 == sat_add_u16(self.bounding_box.top, self.component.cursor().1),
    {
        let relative = self.component.get_cursor();
        (
            sat_add_u16_exec(self.bounding_box.left, relative.0),
            sat_add_u16_exec(self.bounding_box.top, relative.1),
        )
    }
}

/// How `render_if_necessary` leaves a wrapped component: untouched with no
/// output when its dirty flag was clear, and painted per the component's
/// render promise otherwise; the assigned region never changes.
pub open spec fn painted_if_dirty<T: Render + Input>(
    pre: Component<T>,
    post: Component<T>,
    store: Store,
    ops: Seq<DrawOp>,
) -> bool {
    &&& !pre.component.dirty() ==> post == pre && ops.len() == 0
    &&& pre.component.dirty() ==> T::render_post(
        pre.component,
        post.component,
        store,
        pre.bounding_box,
        ops,
    )
    &&& post.bounding_box == pre.bounding_box
}

/// Adds two cell coordinates, capping at the edge of the terminal's
/// coordinate space.
pub fn sat_add_u16_exec(a: u16, b: u16) -> (r: u16)
    ensures
        r == sat_add_u16(a, b),
{
    if a <= u16::MAX - b {
        a + b
    } else {
        u16::MAX
    }
}

} // verus!
