//! The event-loop brain: owns the store, composes the panes into a layout,
//! and decides how each event changes the state and what work the
//! surroundings must perform. The loop itself — waiting on terminal input,
//! the internal bus, and task completions — lives outside the library and
//! feeds events in one at a time.

use vstd::prelude::*;

use crate::api::{Tweet, User};
use crate::bottom_bar::BottomBar;
use crate::bounding_box::BoundingBox;
use crate::component::{painted_if_dirty, Component, Input, Render};
use crate::draw::DrawOp;
use crate::events::{InternalEvent, KeyCode, TerminalEvent, UiAction};
use crate::feed_pane::{load_requested, FeedPane};
use crate::store::{page_load_applied, Store};
use crate::user_config::UserConfig;

verus! {

/// The two display modes: normal terminal scrollback for diagnostics, and
/// the alternate-screen interactive view.
#[derive(Debug, Clone, Copy, PartialEq, Eq, Structural)]
pub enum Mode {
    Log,
    Interactive,
}

impl Default for Mode {
    fn default() -> (r: Self)
        ensures
            r == Mode::Log,
    {
        Mode::Log
    }
}

/// The whole interactive client: the store, the two top-level components,
/// the display mode, and the count of outstanding background tasks.
pub struct UI {
    mode: Mode,
    store: Store,
    feed_pane: Component<FeedPane>,
    bottom_bar: Component<BottomBar>,
    num_tasks_in_flight: usize,
}

impl UI {
    /// The current display mode.
    pub closed spec fn current_mode(self) -> Mode {
        self.mode
    }

    /// The shared store.
    pub closed spec fn store_state(self) -> Store {
        self.store
    }

    /// The count of outstanding background tasks.
    pub closed spec fn tasks_in_flight(self) -> int {
        self.num_tasks_in_flight as int
    }

    /// The store is consistent and the assigned regions fit the terminal's
    /// coordinate space.
    pub open spec fn wf(self) -> bool {
        &&& self.store_state().wf()
        &&& self.boxes_ok()
    }

    /// The region assigned to the feed pane.
    pub closed spec fn feed_region(self) -> BoundingBox {
        self.feed_pane.bounding_box
    }

    /// The region assigned to the bottom bar.
    pub closed spec fn bar_region(self) -> BoundingBox {
        self.bottom_bar.bounding_box
    }

    /// Whether the feed lines will be rebuilt on the next paint.
    pub closed spec fn feed_needs_rebuild(self) -> bool {
        self.feed_pane.component.needs_content_update()
    }

    /// The assigned regions fit the terminal's coordinate space.
    pub closed spec fn boxes_ok(self) -> bool {
        &&& self.feed_pane.bounding_box.top + self.feed_pane.bounding_box.height <= u16::MAX
        &&& self.feed_pane.bounding_box.left + self.feed_pane.bounding_box.width <= u16::MAX
        &&& self.bottom_bar.bounding_box.top + self.bottom_bar.bounding_box.height <= u16::MAX
        &&& self.bottom_bar.bounding_box.left + self.bottom_bar.bounding_box.width <= u16::MAX
    }

    /// Builds the client for an authenticated user with loaded preferences
    /// and assigns the initial layout.
    pub fn new(twitter_user: &User, user_config: UserConfig, cols: u16, rows: u16) -> (r: Self)
        requires
            user_config.wf(),
            rows >= 2,
        ensures
            r.wf(),
            r.current_mode() == Mode::Log,
            r.store_state().feed().len() == 0,
            r.store_state().in_flight() is None,
            r.store_state().page_token() is None,
            r.store_state().config() == user_config,
            r.store_state().current_user() == *twitter_user,
            r.tasks_in_flight() == 0,
    {
        let store = Store::new(twitter_user, user_config);
        let mut this = UI {
            mode: Mode::Log,
            store,
            feed_pane: Component::new(FeedPane::new()),
            bottom_bar: Component::new(BottomBar::new()),
            num_tasks_in_flight: 0,
        };
        this.resize(cols, rows);
        this
    }

    /// The current display mode.
    pub fn mode(&self) -> (r: Mode)
        ensures
            r == self.current_mode(),
    {
        self.mode
    }

    /// Read access to the store.
    pub fn store(&self) -> (r: &Store)
        ensures
            *r == self.store_state(),
    {
        &self.store
    }

    /// Write access to the store, for reporting fetch outcomes back.
    pub fn store_mut(&mut self) -> (r: &mut Store)
        ensures
            *r == old(self).store_state(),
            final(self).store_state() == *final(r),
            final(self).current_mode() == old(self).current_mode(),
            final(self).tasks_in_flight() == old(self).tasks_in_flight(),
            old(self).boxes_ok() ==> final(self).boxes_ok(),
    {
        &mut self.store
    }

    /// Switches the display mode and names the screen transition the
    /// surroundings must perform, if any.
    pub fn set_mode(&mut self, mode: Mode) -> (r: Option<UiAction>)
        ensures
            final(self).current_mode() == mode,
            final(self).store_state() == old(self).store_state(),
            final(self).tasks_in_flight() == old(self).tasks_in_flight(),
            old(self).boxes_ok() ==> final(self).boxes_ok(),
            old(self).current_mode() == Mode::Log && mode == Mode::Interactive ==> r == Some(
                UiAction::EnterAlternateScreen,
            ),
            old(self).current_mode() == Mode::Interactive && mode == Mode::Log ==> r == Some(
                UiAction::LeaveAlternateScreen,
            ),
            old(self).current_mode() == mode ==> r is None,
    {
        let prev_mode = self.mode;
        self.mode = mode;
        if prev_mode == Mode::Log && mode == Mode::Interactive {
            Some(UiAction::EnterAlternateScreen)
        } else if prev_mode == Mode::Interactive && mode == Mode::Log {
            Some(UiAction::LeaveAlternateScreen)
        } else {
            None
        }
    }

    /// Reassigns every child rectangle: the feed pane takes the whole screen
    /// above a one-row bottom bar on the last row.
    pub fn resize(&mut self, cols: u16, rows: u16)
        requires
            rows >= 2,
        ensures
            final(self).boxes_ok(),
            final(self).feed_region() == (BoundingBox {
                left: 0u16,
                top: 0u16,
                width: cols,
                height: (rows - 2) as u16,
            }),
            final(self).bar_region() == (BoundingBox {
                left: 0u16,
                top: (rows - 1) as u16,
                width: cols,
                height: 1u16,
            }),
            final(self).store_state() == old(self).store_state(),
            final(self).current_mode() == old(self).current_mode(),
            final(self).tasks_in_flight() == old(self).tasks_in_flight(),
    {
        self.feed_pane.bounding_box = BoundingBox::new(0, 0, cols, rows - 2);
        self.bottom_bar.bounding_box = BoundingBox::new(0, rows - 1, cols, 1);
    }

    /// How one render pass leaves the client: the store, mode and task count
    /// are untouched; the output is the feed pane's paint (empty when it is
    /// clean), then the bottom bar's (likewise), then one cursor move to the
    /// focused component's absolute position.
    pub closed spec fn render_effects(pre: UI, post: UI, ops: Seq<DrawOp>) -> bool {
        &&& post.store == pre.store
        &&& post.mode == pre.mode
        &&& post.num_tasks_in_flight == pre.num_tasks_in_flight
        &&& ops.len() >= 1
        &&& ops.last() == DrawOp::MoveTo(post.feed_pane_cursor().0, post.feed_pane_cursor().1)
        &&& exists|k: int|
            0 <= k <= ops.len() - 1 && painted_if_dirty(
                pre.feed_pane,
                post.feed_pane,
                pre.store,
                #[trigger] ops.subrange(0, k),
            ) && painted_if_dirty(
                pre.bottom_bar,
                post.bottom_bar,
                pre.store,
                ops.subrange(k, ops.len() - 1),
            )
    }

    /// One render pass: repaints only components whose dirty flag is set,
    /// then parks the terminal cursor at the focused component's position.
    pub fn render(&mut self) -> (ops: Vec<DrawOp>)
        requires
            old(self).wf(),
        ensures
            final(self).wf(),
            UI::render_effects(*old(self), *final(self), ops@),
    {
        let mut ops = self.feed_pane.render_if_necessary(&self.store);
        let ghost feed_snap = ops@;
        let ghost k = ops@.len() as int;
        let mut bar_ops = self.bottom_bar.render_if_necessary(&self.store);
        let ghost bar_snap = bar_ops@;
        ops.append(&mut bar_ops);
        let focus = self.feed_pane.get_cursor();
        ops.push(DrawOp::MoveTo(focus.0, focus.1));
        proof {
            assert(ops@.subrange(0, k) =~= feed_snap);
            assert(ops@.subrange(k, ops@.len() - 1) =~= bar_snap);
        }
        ops
    }

    /// The focused component's absolute cursor position.
    pub closed spec fn feed_pane_cursor(self) -> (u16, u16) {
        (
            crate::component::sat_add_u16(
                self.feed_pane.bounding_box.left,
                self.feed_pane.component.cursor().0,
            ),
            crate::component::sat_add_u16(
                self.feed_pane.bounding_box.top,
                self.feed_pane.component.cursor().1,
            ),
        )
    }

    /// Kicks off the first feed load and enters the interactive screen.
    pub fn initialize(&mut self) -> (r: Vec<UiAction>)
        requires
            old(self).wf(),
        ensures
            final(self).wf(),
            final(self).current_mode() == Mode::Interactive,
            load_requested(old(self).store_state(), final(self).store_state(), true, r@.take(1)),
            old(self).current_mode() == Mode::Log ==> r@.len() == 2 && r@[1]
                == UiAction::EnterAlternateScreen,
            old(self).current_mode() == Mode::Interactive ==> r@.len() == 1,
    {
        let mut actions = self.feed_pane.component.do_load_page_of_tweets(&mut self.store, true);
        match self.set_mode(Mode::Interactive) {
            Some(a) => actions.push(a),
            None => {},
        }
        actions
    }

    /// Observes the completion of one background task: the counter drops and
    /// the status bar is repainted.
    pub fn task_completed(&mut self)
        requires
            old(self).wf(),
        ensures
            final(self).wf(),
            final(self).tasks_in_flight() == (if old(self).tasks_in_flight() > 0 {
                old(self).tasks_in_flight() - 1
            } else {
                0
            }),
            final(self).store_state() == old(self).store_state(),
            final(self).current_mode() == old(self).current_mode(),
    {
        if self.num_tasks_in_flight > 0 {
            self.num_tasks_in_flight = self.num_tasks_in_flight - 1;
        }
        let n = self.num_tasks_in_flight;
        self.bottom_bar.component.set_num_tasks_in_flight(n);
    }

    /// Reacts to one internal-bus event: task registrations keep the task
    /// bookkeeping honest, log requests turn into pager or log-line work,
    /// and errors drop the display into log mode for one line.
    pub fn handle_internal_event(&mut self, event: InternalEvent) -> (r: Vec<UiAction>)
        requires
            old(self).wf(),
        ensures
            final(self).wf(),
            final(self).store_state() == old(self).store_state(),
            event is TaskRegistered ==> final(self).tasks_in_flight() == (if old(
                self,
            ).tasks_in_flight() < usize::MAX {
                old(self).tasks_in_flight() + 1
            } else {
                old(self).tasks_in_flight()
            }) && r@.len() == 0,
            event matches InternalEvent::LogTweet(id) ==> r@.len() == 1 && (
            r@[0] matches UiAction::ShowTweetInPager { tweet_id } && tweet_id@ == id@),
            event matches InternalEvent::LogError(msg) ==> final(self).current_mode() == Mode::Log
                && (r@.last() matches UiAction::PrintLogLine { message } && message@ == msg@),
    {
        let mut actions: Vec<UiAction> = Vec::new();
        match event {
            InternalEvent::TaskRegistered => {
                if self.num_tasks_in_flight < usize::MAX {
                    self.num_tasks_in_flight = self.num_tasks_in_flight + 1;
                }
                let n = self.num_tasks_in_flight;
                self.bottom_bar.component.set_num_tasks_in_flight(n);
            },
            InternalEvent::LogTweet(tweet_id) => {
                actions.push(UiAction::ShowTweetInPager { tweet_id });
            },
            InternalEvent::LogError(message) => {
                match self.set_mode(Mode::Log) {
                    Some(a) => actions.push(a),
                    None => {},
                }
                actions.push(UiAction::PrintLogLine { message });
            },
        }
        actions
    }

    /// Reports a finished page fetch: the page is merged into the store and
    /// the feed lines are flagged for a rebuild, so the next paint shows it.
    pub fn page_load_completed(&mut self, new_tweets: Vec<Tweet>, next_token: Option<String>)
        requires
            old(self).wf(),
            old(self).store_state().in_flight() is Some,
            forall|i: int| 0 <= i < new_tweets@.len() ==> (#[trigger] new_tweets@[i]).wf(),
        ensures
            final(self).wf(),
            page_load_applied(
                old(self).store_state(),
                final(self).store_state(),
                new_tweets@,
                match next_token {
                    Some(t) => Some(t@),
                    None => None::<Seq<char>>,
                },
            ),
            final(self).feed_needs_rebuild(),
            final(self).current_mode() == old(self).current_mode(),
            final(self).tasks_in_flight() == old(self).tasks_in_flight(),
    {
        self.store.complete_page_load(new_tweets, next_token);
        self.feed_pane.component.invalidate_content();
    }

    /// Reports a failed page fetch: nothing is merged, the continuation
    /// token is unchanged, and the pagination slot is released.
    pub fn page_load_failed(&mut self)
        requires
            old(self).wf(),
            old(self).store_state().in_flight() is Some,
        ensures
            final(self).wf(),
            final(self).store_state().in_flight() is None,
            final(self).store_state().tweets_map() == old(self).store_state().tweets_map(),
            final(self).store_state().feed() == old(self).store_state().feed(),
            final(self).store_state().page_token() == old(self).store_state().page_token(),
            final(self).store_state().config() == old(self).store_state().config(),
            final(self).current_mode() == old(self).current_mode(),
            final(self).tasks_in_flight() == old(self).tasks_in_flight(),
    {
        self.store.abort_page_load();
    }

    /// How one terminal event leaves the client: keys go to the focused pane
    /// first; when the pane leaves a key unhandled, escape re-enters the
    /// interactive screen and forces a full repaint and `q` asks to quit; a
    /// resize reassigns every child rectangle.
    pub closed spec fn terminal_event_effects(
        pre: UI,
        post: UI,
        event: TerminalEvent,
        actions: Seq<UiAction>,
    ) -> bool {
        match event {
            TerminalEvent::Key(key) => exists|handled: bool, mid: FeedPane, n: int|
                {
                    &&& 0 <= n <= actions.len()
                    &&& #[trigger] crate::feed_pane::FeedPane::key_post(
                        pre.feed_pane.component,
                        mid,
                        pre.store,
                        post.store,
                        key,
                        handled,
                        actions.subrange(0, n),
                    )
                    &&& (handled ==> post.feed_pane.component == mid && actions.len() == n
                        && post.mode == pre.mode)
                    &&& (!handled ==> (match key.code {
                        KeyCode::Esc => {
                            &&& post.mode == Mode::Interactive
                            &&& post.feed_pane.component.dirty()
                            &&& post.bottom_bar.component.dirty()
                            &&& (pre.mode == Mode::Log ==> actions.len() == n + 1 && actions[n]
                                == UiAction::EnterAlternateScreen)
                            &&& (pre.mode == Mode::Interactive ==> actions.len() == n)
                        },
                        KeyCode::Char('q') => actions.len() == n + 1 && actions[n]
                            == UiAction::Quit && post.mode == pre.mode
                            && post.feed_pane.component == mid,
                        _ => actions.len() == n && post.mode == pre.mode
                            && post.feed_pane.component == mid,
                    }))
                },
            TerminalEvent::Resize(cols, rows) => {
                &&& actions.len() == 0
                &&& post.store == pre.store
                &&& post.mode == pre.mode
                &&& (rows >= 2 ==> post.feed_region() == (BoundingBox {
                    left: 0u16,
                    top: 0u16,
                    width: cols,
                    height: (rows - 2) as u16,
                }) && post.bar_region() == (BoundingBox {
                    left: 0u16,
                    top: (rows - 1) as u16,
                    width: cols,
                    height: 1u16,
                }))
                &&& (rows < 2 ==> post == pre)
            },
            TerminalEvent::Other => post == pre && actions.len() == 0,
        }
    }

    /// Reacts to one terminal event: keys go to the focused pane first, with
    /// escape forcing a full repaint and `q` quitting; a resize reassigns
    /// every child rectangle.
    pub fn handle_terminal_event(&mut self, event: &TerminalEvent) -> (r: Vec<UiAction>)
        requires
            old(self).wf(),
        ensures
            final(self).wf(),
            UI::terminal_event_effects(*old(self), *final(self), *event, r@),
    {
        let mut actions: Vec<UiAction> = Vec::new();
        match event {
            TerminalEvent::Key(key_event) => {
                let (handled, mut key_actions) = self.feed_pane.component.handle_key_event(
                    &mut self.store,
                    key_event,
                );
                let ghost mid = self.feed_pane.component;
                let ghost key_snap = key_actions@;
                actions.append(&mut key_actions);
                if !handled {
                    match key_event.code {
                        KeyCode::Esc => {
                            match self.set_mode(Mode::Interactive) {
                                Some(a) => actions.push(a),
                                None => {},
                            }
                            self.feed_pane.component.invalidate();
                            self.bottom_bar.component.invalidate();
                        },
                        KeyCode::Char('q') => {
                            actions.push(UiAction::Quit);
                        },
                        _ => {},
                    }
                }
                proof {
                    let n = key_snap.len() as int;
                    assert(actions@.subrange(0, n) =~= key_snap);
                    assert(crate::feed_pane::FeedPane::key_post(
                        old(self).feed_pane.component,
                        mid,
                        old(self).store,
                        self.store,
                        *key_event,
                        handled,
                        actions@.subrange(0, n),
                    ));
                }
            },
            TerminalEvent::Resize(cols, rows) => {
                if *rows >= 2 {
                    self.resize(*cols, *rows);
                }
            },
            TerminalEvent::Other => {},
        }
        proof {
            match *event {
                TerminalEvent::Key(_) => {
                    assert(actions@.subrange(0, actions@.len() as int) =~= actions@);
                },
                _ => {},
            }
        }
        actions
    }
}

} // verus!
