//! The feed pane: renders the feed ordering through a scroll buffer, issues
//! page-load and search requests against the store, and reports selection
//! changes to the tweet detail pane.

use vstd::prelude::*;

use crate::bounding_box::BoundingBox;
use crate::component::{sat_add_u16, sat_add_u16_exec, Component, Input, Render};
use crate::search_bar::search_bar_ops_ok;
use crate::draw::{is_colored_segment, is_plain_segment, Color, Colors, DrawOp, TextSegment};
use crate::events::{KeyCode, KeyEvent, UiAction};
use crate::scroll_buffer::{rows_ops_ok, target_line, visible_from, visible_to, ScrollBuffer};
use crate::search_bar::SearchBar;
use crate::store::{FeedSelector, Store};
use crate::text::{
    chars_to_string, collapse_newlines, collapsed_newlines, is_handle_query, make_spaces,
    parse_twitter_handle, sat_sub, str_to_chars, truncated_first_line, wrap_lines, wrap_text,
};
use crate::tweet_pane::{handle_chars, TweetPane};
use vstd::pervasive::unreached;

verus! {

/// Which child of the pane has focus.
#[derive(Debug, Clone, Copy, PartialEq, Eq, Structural)]
pub enum Focus {
    FeedPane,
    TweetPaneStack,
    SearchBar,
}

/// The muted timestamp prefix of a feed line.
pub open spec fn time_prefix_chars(t: crate::api::Tweet) -> Seq<char> {
    t.created_at.short_chars() + "  >  "@
}

/// One feed line: the timestamp, the `@handle` (highlighted when the author
/// is starred), then the body collapsed to one line, word-wrapped to the
/// remaining width, and cut to a single display line with an ellipsis if it
/// would wrap.
pub open spec fn feed_line_ok(
    line: Seq<TextSegment>,
    t: crate::api::Tweet,
    starred: bool,
    width: int,
) -> bool {
    let time = time_prefix_chars(t);
    let author = handle_chars(t);
    let collapsed = collapsed_newlines(t.text@);
    let remaining = sat_sub(width, time.len() + author.len() as int);
    let w = wrap_lines(collapsed, remaining);
    &&& line.len() == (if w.len() == 0 {
        2int
    } else if w.len() == 1 {
        3int
    } else {
        4int
    })
    &&& is_colored_segment(
        line[0],
        time,
        Colors { foreground: Color::DarkGrey, background: Color::Reset },
    )
    &&& is_colored_segment(
        line[1],
        author,
        if starred {
            Colors { foreground: Color::Yellow, background: Color::Reset }
        } else {
            Colors { foreground: Color::DarkCyan, background: Color::Reset }
        },
    )
    &&& w.len() == 1 ==> is_plain_segment(line[2], w[0])
    &&& w.len() > 1 ==> is_plain_segment(
        line[2],
        truncated_first_line(collapsed, sat_sub(remaining, 1)),
    ) && is_plain_segment(line[3], seq!['\u{2026}'])
    &&& w.len() > 1 && remaining >= 1 ==> line[2].text@.len() + line[3].text@.len() <= remaining
}

/// Builds one feed line for `tweet`.
pub fn build_feed_line(tweet: &crate::api::Tweet, starred: bool, width: usize) -> (r: Vec<
    TextSegment,
>)
    requires
        tweet.wf(),
    ensures
        feed_line_ok(r@, *tweet, starred, width as int),
{
    let mut time_chars: Vec<char> = Vec::new();
    tweet.created_at.push_short(&mut time_chars);
    let mut time: String = chars_to_string(&time_chars);
    time.append("  >  ");

    let mut author: String = "@".to_owned();
    match &tweet.author_username {
        Some(u) => author.append(u.as_str()),
        None => author.append("[unknown]"),
    }
    author.append(" ");

    let mut r: Vec<TextSegment> = Vec::new();
    r.push(
        TextSegment::color(
            time.as_str(),
            Colors { foreground: Color::DarkGrey, background: Color::Reset },
        ),
    );
    r.push(
        TextSegment::color(
            author.as_str(),
            if starred {
                Colors { foreground: Color::Yellow, background: Color::Reset }
            } else {
                Colors { foreground: Color::DarkCyan, background: Color::Reset }
            },
        ),
    );

    let time_len = str_to_chars(time.as_str()).len();
    let author_len = str_to_chars(author.as_str()).len();
    let used: usize = if time_len <= usize::MAX - author_len {
        time_len + author_len
    } else {
        usize::MAX
    };
    let remaining: usize = if width >= used {
        width - used
    } else {
        0
    };

    let collapsed = collapse_newlines(tweet.text.as_str());
    let lines = wrap_text(collapsed.as_str(), remaining);
    if lines.len() == 1 {
        r.push(TextSegment::plain(lines[0].as_str()));
    } else if lines.len() > 1 {
        let rem2: usize = if remaining >= 1 {
            remaining - 1
        } else {
            0
        };
        let lines2 = wrap_text(collapsed.as_str(), rem2);
        let mut t: Vec<char> = if lines2.len() > 0 {
            str_to_chars(lines2[0].as_str())
        } else {
            Vec::new()
        };
        if t.len() > rem2 {
            t.truncate(rem2);
        }
        r.push(TextSegment::plain(chars_to_string(&t).as_str()));
        r.push(TextSegment::plain("\u{2026}"));
        proof {
            reveal_strlit("\u{2026}");
            assert("\u{2026}"@ =~= seq!['\u{2026}']);
        }
    }
    r
}

/// The width of the feed column: one less than half the pane, floored at
/// zero.
pub open spec fn half_width_of(width: u16) -> int {
    if width / 2 >= 1 {
        width / 2 - 1
    } else {
        0
    }
}

/// The region the feed's scroll buffer is painted into: below the search
/// entry when it has focus, the whole feed column otherwise.
pub open spec fn feed_region_of(bb: BoundingBox, focus: Focus) -> BoundingBox {
    let half = half_width_of(bb.width) as u16;
    if focus is SearchBar {
        BoundingBox {
            left: bb.left,
            top: sat_add_u16(bb.top, 2),
            width: half,
            height: if bb.height >= 2 {
                (bb.height - 2) as u16
            } else {
                0
            },
        }
    } else {
        BoundingBox { left: bb.left, top: bb.top, width: half, height: bb.height }
    }
}

/// The region the detail pane is assigned: the right half of the pane.
pub open spec fn detail_region_of(bb: BoundingBox) -> BoundingBox {
    let half = half_width_of(bb.width);
    let detail_left = sat_add_u16(sat_add_u16(bb.left, half as u16), 1);
    let detail_width: u16 = if half >= 2 {
        (half - 2) as u16
    } else {
        0
    };
    BoundingBox {
        left: detail_left,
        top: bb.top,
        width: if detail_left + detail_width <= u16::MAX {
            detail_width
        } else {
            0
        },
        height: bb.height,
    }
}

/// The region the search entry is assigned when it has focus: one row at the
/// pane's origin, as wide as the feed column.
pub open spec fn search_region_of(bb: BoundingBox) -> BoundingBox {
    BoundingBox {
        left: bb.left,
        top: bb.top,
        width: half_width_of(bb.width) as u16,
        height: if bb.height >= 1 {
            1u16
        } else {
            0u16
        },
    }
}

/// The feed lines a rebuild leaves in the buffer: one line per feed entry,
/// in feed order, each laid out per `feed_line_ok`.
pub open spec fn feed_content_ok(buf: ScrollBuffer, store: Store, width: int) -> bool {
    &&& buf.lines().len() == store.feed().len()
    &&& forall|i: int|
        0 <= i < store.feed().len() ==> feed_line_ok(
            (#[trigger] buf.lines()[i])@,
            store.tweets_map()[store.feed()[i]],
            store.config().starred().contains_key(store.tweets_map()[store.feed()[i]].author_id@),
            width,
        )
}

/// What requesting one page of the home feed does to the store and asks of
/// the surroundings: the data never changes here; contention and exhaustion
/// come back as one log line with the store untouched, and otherwise the
/// pagination slot is taken and one fetch is requested with the right
/// continuation token.
pub open spec fn load_requested(s0: Store, s1: Store, restart: bool, actions: Seq<UiAction>) -> bool {
    &&& s1.tweets_map() == s0.tweets_map()
    &&& s1.feed() == s0.feed()
    &&& s1.page_token() == s0.page_token()
    &&& s1.config() == s0.config()
    &&& s1.current_user() == s0.current_user()
    &&& actions.len() == 1
    &&& (s0.in_flight() is Some ==> s1 == s0 && (actions[0] matches UiAction::PrintLogLine {
        message,
    } && message@ == "Already in-flight"@))
    &&& (s0.in_flight() is None && !restart && s0.page_token() is None ==> s1 == s0 && (
    actions[0] matches UiAction::PrintLogLine { message } && message@ == "No more pages"@))
    &&& (s0.in_flight() is None && (restart || s0.page_token() is Some) ==> s1.in_flight() == Some(
        restart,
    ) && (actions[0] matches UiAction::FetchPage { selector, continuation_token } && selector
        is HomeTimeline && (match continuation_token {
        Some(t) => Some(t@),
        None => None,
    }) == (if restart {
        None::<Seq<char>>
    } else {
        s0.page_token()
    })))
}

/// What toggling the star of the tweet on line `line` does: nothing without
/// a selected tweet; otherwise the author's starred state flips and one
/// save of the preference record is requested.
pub open spec fn toggle_outcome(line: int, s0: Store, s1: Store, actions: Seq<UiAction>) -> bool {
    &&& s1.tweets_map() == s0.tweets_map()
    &&& s1.feed() == s0.feed()
    &&& s1.page_token() == s0.page_token()
    &&& s1.in_flight() == s0.in_flight()
    &&& s1.current_user() == s0.current_user()
    &&& (line >= s0.feed().len() ==> s1.config() == s0.config() && actions.len() == 0)
    &&& (line < s0.feed().len() ==> actions.len() == 1 && actions[0] is SaveUserConfig
        && starred_toggled(
        s0.config().starred(),
        s1.config().starred(),
        s0.tweets_map()[s0.feed()[line]],
    ))
}

/// What confirming the search term does: a recognized `@handle` asks for
/// that user's tweets, an empty term restarts the home feed, anything else
/// is reported as invalid; in every case the tweet set, the ordering and
/// the token are unchanged.
pub open spec fn search_outcome(term: Seq<char>, s0: Store, s1: Store, actions: Seq<UiAction>) -> bool {
    &&& s1.current_user() == s0.current_user()
    &&& (is_handle_query(term) ==> s1 == s0 && actions.len() == 1 && (
    actions[0] matches UiAction::ResolveUserAndLoadTweets { username } && username@ == term.skip(
        1,
    )))
    &&& (!is_handle_query(term) && term.len() == 0 ==> load_requested(s0, s1, true, actions))
    &&& (!is_handle_query(term) && term.len() > 0 ==> s1 == s0 && actions.len() == 1 && (
    actions[0] matches UiAction::PrintLogLine { message } && message@ == "Invalid search term: "@
        + term))
}

/// Relates the preference set after a star toggle to the set before it:
/// a starred author is removed; an unstarred author is inserted with the
/// tweet's author record, unknown fields filled with a placeholder.
pub open spec fn starred_toggled(
    pre: Map<Seq<char>, crate::api::User>,
    post: Map<Seq<char>, crate::api::User>,
    t: crate::api::Tweet,
) -> bool {
    let aid = t.author_id@;
    &&& (pre.contains_key(aid) ==> post == pre.remove(aid))
    &&& (!pre.contains_key(aid) ==> post.contains_key(aid) && post.remove(aid) == pre.remove(aid)
        && post[aid].id@ == aid && post[aid].username@ == (match t.author_username {
        Some(u) => u@,
        None => "[unknown]"@,
    }) && post[aid].name@ == (match t.author_name {
        Some(n) => n@,
        None => "[unknown]"@,
    }))
}

/// The feed pane and the children it composes.
pub struct FeedPane {
    scroll_buffer: ScrollBuffer,
    should_update_scroll_buffer: bool,
    should_render: bool,
    display_width: usize,
    focus: Focus,
    tweet_selected_id: String,
    tweet_pane: Component<TweetPane>,
    search_bar: Component<SearchBar>,
}

impl FeedPane {
    /// The line store behind the feed.
    pub closed spec fn buffer(self) -> ScrollBuffer {
        self.scroll_buffer
    }

    /// Whether the feed lines must be rebuilt before the next paint.
    pub closed spec fn needs_content_update(self) -> bool {
        self.should_update_scroll_buffer
    }

    /// The width the feed lines were built for.
    pub closed spec fn width(self) -> int {
        self.display_width as int
    }

    /// Which child has focus.
    pub closed spec fn focus(self) -> Focus {
        self.focus
    }

    /// The id of the tweet last reported as selected.
    pub closed spec fn selected_id(self) -> Seq<char> {
        self.tweet_selected_id@
    }

    /// The text currently entered in the search bar.
    pub closed spec fn search_text(self) -> Seq<char> {
        self.search_bar.component.text()
    }

    /// The wrapped detail pane.
    pub closed spec fn detail_pane(self) -> Component<TweetPane> {
        self.tweet_pane
    }

    /// The wrapped search entry.
    pub closed spec fn search_entry(self) -> Component<SearchBar> {
        self.search_bar
    }

    pub fn new() -> (r: Self)
        ensures
            r.needs_content_update(),
            r.focus() == Focus::FeedPane,
            r.selected_id() == "0"@,
            r.width() == 0,
    {
        Self {
            scroll_buffer: ScrollBuffer::new(),
            should_update_scroll_buffer: true,
            should_render: true,
            display_width: 0,
            focus: Focus::FeedPane,
            tweet_selected_id: "0".to_owned(),
            tweet_pane: Component::new(TweetPane::new("0")),
            search_bar: Component::new(SearchBar::new()),
        }
    }

    /// The id under the cursor, read from the feed ordering at the cursor's
    /// line index.
    pub fn get_selected_tweet_id(&self, store: &Store) -> (r: Option<String>)
        ensures
            r is Some <==> self.buffer().cursor_line() < store.feed().len(),
            r matches Some(id) ==> self.buffer().cursor_line() < store.feed().len() && id@
                == store.feed()[self.buffer().cursor_line()],
    {
        let line_no = self.scroll_buffer.get_cursor_line();
        store.feed_id_at(line_no)
    }

    /// Rebuilds the feed lines from the store: one line per feed entry, in
    /// feed order. The user's logical selection is preserved: the cursor
    /// stays on the same feed line, clamped only when the new feed is
    /// shorter.
    pub fn update_scroll_buffer(&mut self, store: &Store)
        requires
            store.wf(),
        ensures
            !final(self).needs_content_update(),
            feed_content_ok(final(self).buffer(), *store, old(self).width()),
            final(self).buffer().cursor_line() == target_line(
                store.feed().len() as int,
                old(self).buffer().cursor_line(),
            ),
            final(self).buffer().cursor_x() == 16,
            final(self).buffer().wf(),
            final(self).buffer().dirty(),
            final(self).width() == old(self).width(),
            final(self).focus() == old(self).focus(),
            final(self).selected_id() == old(self).selected_id(),
            final(self).detail_pane() == old(self).detail_pane(),
            final(self).search_entry() == old(self).search_entry(),
    {
        self.scroll_buffer.clear();

        let total = store.feed_len();
        let mut i: usize = 0;
        while i < total
            invariant
                i <= total,
                store.wf(),
                total == store.feed().len(),
                self.display_width == old(self).display_width,
                self.focus == old(self).focus,
                self.tweet_selected_id == old(self).tweet_selected_id,
                self.tweet_pane == old(self).tweet_pane,
                self.search_bar == old(self).search_bar,
                self.scroll_buffer.cursor_line() == old(self).buffer().cursor_line(),
                self.scroll_buffer.lines().len() == i,
                self.scroll_buffer.dirty(),
                forall|j: int|
                    0 <= j < i ==> feed_line_ok(
                        (#[trigger] self.scroll_buffer.lines()[j])@,
                        store.tweets_map()[store.feed()[j]],
                        store.config().starred().contains_key(
                            store.tweets_map()[store.feed()[j]].author_id@,
                        ),
                        old(self).width(),
                    ),
            decreases total - i,
        {
            let id = match store.feed_id_at(i) {
                Some(id) => id,
                None => unreached(),
            };
            let tweet = match store.get_tweet(id.as_str()) {
                Some(t) => t,
                None => unreached(),
            };
            let starred = store.is_starred(tweet.author_id.as_str());
            let line = build_feed_line(tweet, starred, self.display_width);
            self.scroll_buffer.push(line);
            i = i + 1;
        }

        let line = self.scroll_buffer.get_cursor_line();
        self.scroll_buffer.move_cursor_to(16, line);
        self.should_update_scroll_buffer = false;
    }

    /// Requests one page of the home feed: on success the fetch to perform
    /// comes back as an action; contention and exhaustion come back as a log
    /// line, leaving the store untouched.
    pub fn do_load_page_of_tweets(&self, store: &mut Store, restart: bool) -> (r: Vec<UiAction>)
        requires
            old(store).wf(),
        ensures
            final(store).wf(),
            load_requested(*old(store), *final(store), restart, r@),
    {
        let mut actions: Vec<UiAction> = Vec::new();
        match store.begin_page_load(restart) {
            Ok(token) => {
                actions.push(
                    UiAction::FetchPage {
                        selector: FeedSelector::HomeTimeline,
                        continuation_token: token,
                    },
                );
            },
            Err(e) => {
                actions.push(UiAction::PrintLogLine { message: e.message().to_owned() });
            },
        }
        actions
    }

    /// Toggles the starred state of the selected tweet's author and asks for
    /// the preference record to be persisted. Does nothing when no tweet is
    /// selected.
    pub fn do_toggle_selected_tweet_starred(&mut self, store: &mut Store) -> (r: Vec<UiAction>)
        requires
            old(store).wf(),
        ensures
            final(store).wf(),
            toggle_outcome(old(self).buffer().cursor_line(), *old(store), *final(store), r@),
            old(self).buffer().cursor_line() < old(store).feed().len() ==> final(self).needs_content_update(),
            final(self).buffer() == old(self).buffer(),
            final(self).focus() == old(self).focus(),
            final(self).selected_id() == old(self).selected_id(),
            final(self).width() == old(self).width(),
            old(self).buffer().cursor_line() >= old(store).feed().len() ==> *final(self) == *old(self),
    {
        let mut actions: Vec<UiAction> = Vec::new();
        let line_no = self.scroll_buffer.get_cursor_line();
        match store.feed_id_at(line_no) {
            Some(tweet_id) => {
                proof {
                    assert(0 <= line_no < old(store).feed().len());
                    assert(old(store).tweets_map().contains_key(
                        old(store).feed()[line_no as int],
                    ));
                }
                let (author, author_starred) = match store.get_tweet(tweet_id.as_str()) {
                    Some(tweet) => {
                        let author = tweet.author("[unknown]");
                        let starred = store.is_starred(tweet.author_id.as_str());
                        (author, starred)
                    },
                    None => unreached(),
                };
                let ghost aid = author.id@;
                let ghost pre_starred = store.config().starred();
                if author_starred {
                    store.unstar_account(&author);
                } else {
                    store.star_account(&author);
                    proof {
                        assert(pre_starred.insert(aid, author).remove(aid) =~= pre_starred.remove(
                            aid,
                        ));
                    }
                }
                actions.push(UiAction::SaveUserConfig);
                self.should_update_scroll_buffer = true;
            },
            None => {},
        }
        actions
    }

    /// Confirms the search entry: a recognized `@handle` term asks for that
    /// user's tweets, an empty term restarts the home feed, and anything
    /// else is reported as an invalid term.
    pub fn do_search(&self, store: &mut Store) -> (r: Vec<UiAction>)
        requires
            old(store).wf(),
        ensures
            final(store).wf(),
            search_outcome(self.search_text(), *old(store), *final(store), r@),
    {
        let search_term = self.search_bar.component.get_text();

        match parse_twitter_handle(search_term.as_str()) {
            Some(twitter_username) => {
                let mut actions: Vec<UiAction> = Vec::new();
                actions.push(UiAction::ResolveUserAndLoadTweets { username: twitter_username });
                actions
            },
            None => {
                if search_term.as_str().is_empty() {
                    self.do_load_page_of_tweets(store, true)
                } else {
                    let mut message: String = "Invalid search term: ".to_owned();
                    message.append(search_term.as_str());
                    let mut actions: Vec<UiAction> = Vec::new();
                    actions.push(UiAction::PrintLogLine { message });
                    actions
                }
            },
        }
    }

    /// Flags the feed lines for a rebuild on the next paint, as when a page
    /// load completed and the backing data changed.
    pub fn invalidate_content(&mut self)
        ensures
            final(self).needs_content_update(),
            final(self).buffer() == old(self).buffer(),
            final(self).focus() == old(self).focus(),
            final(self).selected_id() == old(self).selected_id(),
            final(self).width() == old(self).width(),
    {
        self.should_update_scroll_buffer = true;
    }

    /// Asks for the selected tweet to be shown in a pager-style log view.
    pub fn log_selected_tweet(&self) -> (r: Vec<UiAction>)
        ensures
            r@.len() == 1,
            r@[0] matches UiAction::ShowTweetInPager { tweet_id } && tweet_id@
                == self.selected_id(),
    {
        let mut actions: Vec<UiAction> = Vec::new();
        actions.push(UiAction::ShowTweetInPager { tweet_id: self.tweet_selected_id.clone() });
        actions
    }
}

impl Render for FeedPane {
    closed spec fn dirty(&self) -> bool {
        self.needs_content_update() || self.buffer().dirty() || self.tweet_pane.component.dirty()
            || self.search_bar.component.dirty() || self.should_render
    }

    fn should_render(&self) -> (r: bool) {
        self.should_update_scroll_buffer || self.scroll_buffer.should_render()
            || self.tweet_pane.component.should_render() || self.search_bar.component.should_render()
            || self.should_render
    }

    fn invalidate(&mut self) {
        self.scroll_buffer.invalidate();
        self.tweet_pane.component.invalidate();
        self.search_bar.component.invalidate();
        self.should_render = true;
    }

    /// A paint rebuilds the feed lines when the data or the width changed
    /// (keeping the logical selection), repaints the feed window and — when
    /// focused — the search entry, assigns the detail pane the right half of
    /// the region and repaints it when it owes a repaint.
    closed spec fn render_post(
        pre: FeedPane,
        post: FeedPane,
        store: Store,
        bounding_box: BoundingBox,
        ops: Seq<DrawOp>,
    ) -> bool {
        let half = half_width_of(bounding_box.width);
        let rebuilt = pre.needs_content_update() || pre.width() != half;
        let feed_box = feed_region_of(bounding_box, pre.focus());
        let detail_box = detail_region_of(bounding_box);
        &&& post.width() == half
        &&& !post.needs_content_update()
        &&& post.focus() == pre.focus()
        &&& post.selected_id() == pre.selected_id()
        &&& (rebuilt ==> feed_content_ok(post.buffer(), store, half) && post.buffer().cursor_line()
            == target_line(store.feed().len() as int, pre.buffer().cursor_line()))
        &&& (!rebuilt ==> post.buffer().lines() == pre.buffer().lines() && (post.buffer().cursor_line()
            == pre.buffer().cursor_line() || post.buffer().cursor_line() == target_line(
            post.buffer().lines().len() as int,
            pre.buffer().cursor_line(),
        )))
        &&& (rebuilt || pre.buffer().dirty() || feed_box != pre.buffer().last_box() ==> (exists|
            a: int,
            b: int,
        |
            0 <= a <= b <= ops.len() && rows_ops_ok(
                #[trigger] ops.subrange(a, b),
                post.buffer().lines(),
                visible_from(post.buffer().offset(), post.buffer().lines().len() as int),
                visible_to(
                    post.buffer().offset(),
                    post.buffer().display_height(),
                    post.buffer().lines().len() as int,
                ),
                feed_box.left,
                feed_box.top,
                crate::text::spaces(feed_box.width as int),
            )) && !post.buffer().dirty())
        &&& post.tweet_pane.bounding_box == detail_box
        &&& (!pre.tweet_pane.component.dirty() ==> post.tweet_pane.component
            == pre.tweet_pane.component)
        &&& (pre.tweet_pane.component.dirty() ==> (exists|a: int, b: int|
            0 <= a <= b <= ops.len() && TweetPane::render_post(
                pre.tweet_pane.component,
                post.tweet_pane.component,
                store,
                detail_box,
                #[trigger] ops.subrange(a, b),
            )))
        &&& (pre.focus() is SearchBar ==> post.search_bar.bounding_box == search_region_of(
            bounding_box,
        ) && (pre.search_bar.component.dirty() ==> (exists|a: int, b: int|
            0 <= a <= b <= ops.len() && search_bar_ops_ok(
                #[trigger] ops.subrange(a, b),
                pre.search_bar.component.text(),
                search_region_of(bounding_box),
            ))))
        &&& (pre.focus() !is SearchBar ==> post.search_bar == pre.search_bar)
    }

    #[verifier::rlimit(100)]
    fn render(&mut self, store: &Store, bounding_box: BoundingBox) -> (ops: Vec<DrawOp>) {
        let half_width: usize = {
            let h = (bounding_box.width / 2) as usize;
            if h >= 1 {
                h - 1
            } else {
                0
            }
        };

        if self.should_update_scroll_buffer || self.display_width != half_width {
            self.display_width = half_width;
            self.update_scroll_buffer(store);
        }

        let mut ops: Vec<DrawOp> = Vec::new();
        let ghost mut bar_lo: int = 0;
        let ghost mut bar_hi: int = 0;
        let ghost mut bar_part: Seq<DrawOp> = Seq::empty();
        let ghost mut feed_lo: int = 0;
        let ghost mut feed_hi: int = 0;
        let ghost mut feed_part: Seq<DrawOp> = Seq::empty();

        if self.focus == Focus::SearchBar {
            self.search_bar.bounding_box = BoundingBox {
                left: bounding_box.left,
                top: bounding_box.top,
                width: half_width as u16,
                height: if bounding_box.height >= 1 {
                    1
                } else {
                    0
                },
            };
            let mut bar_ops = self.search_bar.render_if_necessary(store);
            proof {
                bar_part = bar_ops@;
                bar_lo = 0;
                bar_hi = bar_ops@.len() as int;
            }
            ops.append(&mut bar_ops);

            if bounding_box.height >= 2 {
                ops.push(DrawOp::MoveTo(bounding_box.left, bounding_box.top + 1));
                ops.push(DrawOp::Print(make_spaces(half_width)));
            }

            let feed_box = BoundingBox {
                left: bounding_box.left,
                top: sat_add_u16_exec(bounding_box.top, 2),
                width: half_width as u16,
                height: if bounding_box.height >= 2 {
                    bounding_box.height - 2
                } else {
                    0
                },
            };
            let ghost before_feed = ops@.len() as int;
            let mut feed_ops = self.scroll_buffer.render(feed_box);
            proof {
                feed_part = feed_ops@;
                feed_lo = before_feed;
                feed_hi = before_feed + feed_ops@.len() as int;
            }
            ops.append(&mut feed_ops);
        } else {
            let feed_box = BoundingBox {
                left: bounding_box.left,
                top: bounding_box.top,
                width: half_width as u16,
                height: bounding_box.height,
            };
            let ghost before_feed = ops@.len() as int;
            let mut feed_ops = self.scroll_buffer.render(feed_box);
            proof {
                feed_part = feed_ops@;
                feed_lo = before_feed;
                feed_hi = before_feed + feed_ops@.len() as int;
            }
            ops.append(&mut feed_ops);
        }

        proof {
            assert(ops@.subrange(bar_lo, bar_hi) =~= bar_part);
            assert(ops@.subrange(feed_lo, feed_hi) =~= feed_part);
        }
        let ghost ops_mid = ops@;

        let detail_left = sat_add_u16_exec(
            sat_add_u16_exec(bounding_box.left, half_width as u16),
            1,
        );
        let detail_width: u16 = if half_width >= 2 {
            (half_width - 2) as u16
        } else {
            0
        };
        self.tweet_pane.bounding_box = BoundingBox {
            left: detail_left,
            top: bounding_box.top,
            width: if detail_left <= u16::MAX - detail_width {
                detail_width
            } else {
                0
            },
            height: bounding_box.height,
        };
        let ghost before_detail = ops@.len() as int;
        let mut detail_ops = self.tweet_pane.render_if_necessary(store);
        let ghost detail_snap = detail_ops@;
        ops.append(&mut detail_ops);
        proof {
            assert(ops@.subrange(before_detail, before_detail + detail_snap.len() as int)
                =~= detail_snap);
            assert(ops@.subrange(bar_lo, bar_hi) =~= ops_mid.subrange(bar_lo, bar_hi));
            assert(ops@.subrange(feed_lo, feed_hi) =~= ops_mid.subrange(feed_lo, feed_hi));
        }

        self.should_render = false;
        ops
    }

    closed spec fn cursor(&self) -> (u16, u16) {
        match self.focus {
            Focus::FeedPane => self.buffer().cursor_view(),
            Focus::TweetPaneStack => (
                sat_add_u16(self.tweet_pane.bounding_box.left, self.tweet_pane.component.cursor().0),
                sat_add_u16(self.tweet_pane.bounding_box.top, self.tweet_pane.component.cursor().1),
            ),
            Focus::SearchBar => (
                sat_add_u16(
                    self.search_bar.bounding_box.left,
                    self.search_bar.component.cursor().0,
                ),
                sat_add_u16(self.search_bar.bounding_box.top, self.search_bar.component.cursor().1),
            ),
        }
    }

    fn get_cursor(&self) -> (r: (u16, u16)) {
        match self.focus {
            Focus::FeedPane => self.scroll_buffer.get_cursor(),
            Focus::TweetPaneStack => self.tweet_pane.get_cursor(),
            Focus::SearchBar => self.search_bar.get_cursor(),
        }
    }
}

impl Input for FeedPane {
    /// Receiving focus changes nothing here or in the focused child.
    closed spec fn focus_post(pre: FeedPane, post: FeedPane) -> bool {
        post == pre
    }

    fn handle_focus(&mut self) {
        match self.focus {
            Focus::FeedPane => (),
            Focus::TweetPaneStack => self.tweet_pane.component.handle_focus(),
            Focus::SearchBar => self.search_bar.component.handle_focus(),
        }
    }

    /// The feed pane's key dispatch: Tab cycles focus between the feed and
    /// the detail pane; with feed focus, `n` and `r` request the next or a
    /// fresh page, `s` toggles the selected author's star, `i` asks for the
    /// pager, `/` enters search entry, and up/down move the selection and
    /// report it to the detail pane; with search focus, Enter confirms the
    /// term and Esc cancels, while other keys edit the entry.
    closed spec fn key_post(
        pre: FeedPane,
        post: FeedPane,
        pre_store: Store,
        post_store: Store,
        event: KeyEvent,
        handled: bool,
        actions: Seq<UiAction>,
    ) -> bool {
        if event.code == KeyCode::Tab {
            &&& handled
            &&& actions.len() == 0
            &&& post_store == pre_store
            &&& post.focus() == (match pre.focus() {
                Focus::FeedPane => Focus::TweetPaneStack,
                Focus::TweetPaneStack => Focus::FeedPane,
                Focus::SearchBar => Focus::SearchBar,
            })
        } else {
            match pre.focus() {
                Focus::FeedPane => match event.code {
                    KeyCode::Char('i') => handled && post_store == pre_store && actions.len() == 1
                        && (actions[0] matches UiAction::ShowTweetInPager { tweet_id } && tweet_id@
                        == pre.selected_id()),
                    KeyCode::Char('n') => handled && load_requested(
                        pre_store,
                        post_store,
                        false,
                        actions,
                    ),
                    KeyCode::Char('r') => handled && load_requested(
                        pre_store,
                        post_store,
                        true,
                        actions,
                    ),
                    KeyCode::Char('s') => handled && toggle_outcome(
                        pre.buffer().cursor_line(),
                        pre_store,
                        post_store,
                        actions,
                    ) && (pre.buffer().cursor_line() < pre_store.feed().len()
                        ==> post.needs_content_update()),
                    KeyCode::Char('/') => handled && post_store == pre_store && actions.len() == 0
                        && post.focus() == Focus::SearchBar,
                    _ => {
                        &&& post_store == pre_store
                        &&& actions.len() == 0
                        &&& handled == (event.code == KeyCode::Up || event.code == KeyCode::Down)
                        &&& (event.code == KeyCode::Up ==> pre.buffer().moved_to(
                            post.buffer(),
                            pre.buffer().cursor_x(),
                            crate::scroll_buffer::moved_target(pre.buffer().cursor_line(), -1),
                        ))
                        &&& (event.code == KeyCode::Down ==> pre.buffer().moved_to(
                            post.buffer(),
                            pre.buffer().cursor_x(),
                            crate::scroll_buffer::moved_target(pre.buffer().cursor_line(), 1),
                        ))
                        &&& (event.code != KeyCode::Up && event.code != KeyCode::Down
                            ==> post.buffer() == pre.buffer())
                        &&& (post.buffer().cursor_line() < pre_store.feed().len()
                            ==> post.selected_id() == pre_store.feed()[post.buffer().cursor_line()]
                            && post.tweet_pane.component.details().tweet_id@
                            == pre_store.feed()[post.buffer().cursor_line()])
                        &&& (post.buffer().cursor_line() >= pre_store.feed().len()
                            ==> post.selected_id() == pre.selected_id())
                    },
                },
                Focus::TweetPaneStack => TweetPane::key_post(
                    pre.tweet_pane.component,
                    post.tweet_pane.component,
                    pre_store,
                    post_store,
                    event,
                    handled,
                    actions,
                ) && post.focus() == pre.focus() && post.buffer() == pre.buffer()
                    && post.selected_id() == pre.selected_id(),
                Focus::SearchBar => match event.code {
                    KeyCode::Esc => handled && post_store == pre_store && actions.len() == 0
                        && post.focus() == Focus::FeedPane,
                    KeyCode::Enter => handled && search_outcome(
                        pre.search_text(),
                        pre_store,
                        post_store,
                        actions,
                    ) && post.search_text().len() == 0 && post.focus() == Focus::FeedPane,
                    _ => crate::search_bar::SearchBar::key_post(
                        pre.search_bar.component,
                        post.search_bar.component,
                        pre_store,
                        post_store,
                        event,
                        handled,
                        actions,
                    ) && post.focus() == pre.focus() && post.buffer() == pre.buffer()
                        && post.selected_id() == pre.selected_id(),
                },
            }
        }
    }

    fn handle_key_event(&mut self, store: &mut Store, event: &KeyEvent) -> (r: (
        bool,
        Vec<UiAction>,
    )) {
        let no_actions: Vec<UiAction> = Vec::new();
        match event.code {
            KeyCode::Tab => {
                let next_focus = match self.focus {
                    Focus::FeedPane => Focus::TweetPaneStack,
                    Focus::TweetPaneStack => Focus::FeedPane,
                    Focus::SearchBar => Focus::SearchBar,
                };
                self.focus = next_focus;
                self.handle_focus();
                (true, no_actions)
            },
            _ => {
                match self.focus {
                    Focus::FeedPane => {
                        match event.code {
                            KeyCode::Char('i') => (true, self.log_selected_tweet()),
                            KeyCode::Char('n') => (true, self.do_load_page_of_tweets(store, false)),
                            KeyCode::Char('r') => (true, self.do_load_page_of_tweets(store, true)),
                            KeyCode::Char('s') => (
                                true,
                                self.do_toggle_selected_tweet_starred(store),
                            ),
                            KeyCode::Char('/') => {
                                self.focus = Focus::SearchBar;
                                self.handle_focus();
                                self.should_render = true;
                                (true, no_actions)
                            },
                            _ => {
                                let handled = self.scroll_buffer.handle_key(event);
                                let line_no = self.scroll_buffer.get_cursor_line();
                                match store.feed_id_at(line_no) {
                                    Some(tweet_id) => {
                                        self.tweet_pane.component.set_tweet_id(&tweet_id);
                                        self.tweet_selected_id = tweet_id;
                                    },
                                    None => {},
                                }
                                (handled, no_actions)
                            },
                        }
                    },
                    Focus::TweetPaneStack => self.tweet_pane.component.handle_key_event(
                        store,
                        event,
                    ),
                    Focus::SearchBar => {
                        match event.code {
                            KeyCode::Esc => {
                                self.focus = Focus::FeedPane;
                                self.handle_focus();
                                (true, no_actions)
                            },
                            KeyCode::Enter => {
                                let actions = self.do_search(store);
                                self.search_bar.component.clear();
                                self.focus = Focus::FeedPane;
                                self.handle_focus();
                                (true, actions)
                            },
                            _ => self.search_bar.component.handle_key_event(store, event),
                        }
                    },
                }
            },
        }
    }
}

} // verus!
