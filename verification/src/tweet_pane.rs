//! The tweet detail pane: a focused tweet with its reply/quote context and a
//! circular sub-focus traversal.
//!
//! The focus order is a flat list rebuilt from the current data snapshot:
//! the "in-reply-to" ancestors (oldest first), the primary tweet, the quoted
//! or retweeted tweet if any, and the direct replies. A lookup table from
//! focus value to rendered position is rebuilt whenever content changes, and
//! the current focus is re-resolved against it, falling back to the primary
//! tweet, then to any available entry, then to a default position.

use vstd::prelude::*;

use crate::api::Tweet;
use crate::bounding_box::BoundingBox;
use crate::component::{Input, Render};
use crate::draw::{is_colored_segment, is_plain_segment, Color, Colors, DrawOp, TextSegment};
use crate::events::{KeyCode, KeyEvent, UiAction};
use crate::scroll_buffer::{rows_ops_ok, visible_from, visible_to, ScrollBuffer};
use crate::store::Store;
use crate::text::{
    chars_to_string, collapse_newlines, collapsed_newlines, make_spaces, sat_sub, str_to_chars,
    truncated_first_line, wrap_lines, wrap_text,
};
use vstd::arithmetic::div_mod::{
    lemma_add_mod_noop_right, lemma_mod_add_multiples_vanish, lemma_mod_division_less_than_divisor,
    lemma_small_mod, lemma_sub_mod_noop_right,
};

verus! {

/// The focused logical element within the pane.
#[derive(Debug, Clone, Copy, PartialEq, Eq, Structural)]
pub enum Focus {
    /// An "in-reply-to" ancestor, oldest first.
    InReplyTo(usize),
    /// The primary tweet.
    Tweet,
    /// A direct reply.
    Reply(usize),
    /// The quoted or retweeted tweet.
    Quote,
}

/// How the quoted tweet relates to the primary one.
#[derive(Debug, Clone, Copy, PartialEq, Eq, Structural)]
pub enum QuoteType {
    Retweet,
    QuoteTweet,
}

/// The context shown for one primary tweet; ids not yet fetched render as
/// placeholders.
#[derive(Debug)]
pub struct TweetDetails {
    pub in_reply_to_ids: Option<Vec<String>>,
    pub tweet_id: String,
    pub quote_id: Option<(QuoteType, String)>,
    pub reply_ids: Option<Vec<String>>,
}

impl TweetDetails {
    pub fn new(tweet_id: &str) -> (r: Self)
        ensures
            r.in_reply_to_ids is None,
            r.tweet_id@ == tweet_id@,
            r.quote_id is None,
            r.reply_ids is None,
    {
        Self {
            in_reply_to_ids: None,
            tweet_id: tweet_id.to_owned(),
            quote_id: None,
            reply_ids: None,
        }
    }
}

/// The number of "in-reply-to" ancestors known for `d`.
pub open spec fn n_ancestors(d: TweetDetails) -> int {
    match d.in_reply_to_ids {
        Some(v) => v@.len() as int,
        None => 0,
    }
}

/// The number of direct replies known for `d`.
pub open spec fn n_replies(d: TweetDetails) -> int {
    match d.reply_ids {
        Some(v) => v@.len() as int,
        None => 0,
    }
}

/// The flat focus traversal order for `d`: ancestors, the primary tweet, the
/// quote if any, then the replies.
pub open spec fn focus_order_spec(d: TweetDetails) -> Seq<Focus> {
    Seq::new(n_ancestors(d) as nat, |i: int| Focus::InReplyTo(i as usize)) + seq![Focus::Tweet]
        + (if d.quote_id is Some {
        seq![Focus::Quote]
    } else {
        Seq::<Focus>::empty()
    }) + Seq::new(n_replies(d) as nat, |i: int| Focus::Reply(i as usize))
}

/// The position stored for the first entry holding `f`, if any.
pub open spec fn find_focus(m: Seq<(Focus, (usize, usize))>, f: Focus) -> Option<(usize, usize)>
    decreases m.len(),
{
    if m.len() == 0 {
        None
    } else if m[0].0 == f {
        Some(m[0].1)
    } else {
        find_focus(m.skip(1), f)
    }
}

/// The focus and position a re-resolution settles on: the desired focus if
/// mapped, else the primary tweet if mapped, else any available entry, else
/// the primary tweet at the origin.
pub open spec fn chosen_focus(m: Seq<(Focus, (usize, usize))>, f: Focus) -> (Focus, (usize, usize)) {
    if find_focus(m, f) is Some {
        (f, find_focus(m, f)->Some_0)
    } else if find_focus(m, Focus::Tweet) is Some {
        (Focus::Tweet, find_focus(m, Focus::Tweet)->Some_0)
    } else if m.len() > 0 {
        m[0]
    } else {
        (Focus::Tweet, (0usize, 0usize))
    }
}

/// The index of the first occurrence of `f` in `order`, if any.
pub open spec fn find_index(order: Seq<Focus>, f: Focus) -> Option<int>
    decreases order.len(),
{
    if order.len() == 0 {
        None
    } else if order[0] == f {
        Some(0int)
    } else {
        match find_index(order.skip(1), f) {
            Some(i) => Some(i + 1),
            None => None,
        }
    }
}

/// `a` modulo `n`, in `[0, n)`.
pub open spec fn euclid_mod(a: int, n: int) -> int
    recommends
        n > 0,
{
    let r = a % n;
    if r < 0 {
        r + n
    } else {
        r
    }
}

/// `1` when `d` carries a quoted or retweeted tweet.
pub open spec fn n_quotes(d: TweetDetails) -> int {
    if d.quote_id is Some {
        1
    } else {
        0
    }
}

/// The id of the `i`th ancestor.
pub open spec fn ancestor_id(d: TweetDetails, i: int) -> Seq<char> {
    d.in_reply_to_ids->Some_0@[i]@
}

/// The id of the `j`th reply.
pub open spec fn reply_id(d: TweetDetails, j: int) -> Seq<char> {
    d.reply_ids->Some_0@[j]@
}

/// The id of the quoted or retweeted tweet.
pub open spec fn quote_tweet_id(d: TweetDetails) -> Seq<char> {
    d.quote_id->Some_0.1@
}

/// The keys of the rebuilt focus lookup table: one entry per ancestor, one
/// for the primary tweet, one for the quoted tweet when there is one, and
/// one per reply, in that order.
pub open spec fn focus_map_keys_ok(m: Seq<(Focus, (usize, usize))>, d: TweetDetails) -> bool {
    &&& m.len() == n_ancestors(d) + 1 + n_quotes(d) + n_replies(d)
    &&& forall|i: int| 0 <= i < n_ancestors(d) ==> (#[trigger] m[i]).0 == Focus::InReplyTo(
        i as usize,
    )
    &&& m[n_ancestors(d)].0 == Focus::Tweet
    &&& (d.quote_id is Some ==> m[n_ancestors(d) + 1].0 == Focus::Quote)
    &&& forall|j: int|
        0 <= j < n_replies(d) ==> (#[trigger] m[n_ancestors(d) + 1 + n_quotes(d) + j]).0
            == Focus::Reply(j as usize)
}

proof fn lemma_find_focus_at(m: Seq<(Focus, (usize, usize))>, f: Focus, i: int)
    requires
        0 <= i < m.len(),
        m[i].0 == f,
        forall|j: int| 0 <= j < i ==> (#[trigger] m[j]).0 != f,
    ensures
        find_focus(m, f) == Some(m[i].1),
    decreases m.len(),
{
    if i > 0 {
        assert(forall|j: int| 0 <= j < i - 1 ==> (#[trigger] m.skip(1)[j]).0 != f);
        lemma_find_focus_at(m.skip(1), f, i - 1);
    }
}

proof fn lemma_find_focus_none(m: Seq<(Focus, (usize, usize))>, f: Focus)
    requires
        forall|j: int| 0 <= j < m.len() ==> (#[trigger] m[j]).0 != f,
    ensures
        find_focus(m, f) is None,
    decreases m.len(),
{
    if m.len() > 0 {
        assert(forall|j: int| 0 <= j < m.skip(1).len() ==> (#[trigger] m.skip(1)[j]).0 != f);
        lemma_find_focus_none(m.skip(1), f);
    }
}

proof fn lemma_find_index_at(order: Seq<Focus>, f: Focus, i: int)
    requires
        0 <= i < order.len(),
        order[i] == f,
        forall|j: int| 0 <= j < i ==> order[j] != f,
    ensures
        find_index(order, f) == Some(i),
    decreases order.len(),
{
    if i > 0 {
        assert(forall|j: int| 0 <= j < i - 1 ==> order.skip(1)[j] != f);
        lemma_find_index_at(order.skip(1), f, i - 1);
    }
}

proof fn lemma_find_index_none(order: Seq<Focus>, f: Focus)
    requires
        forall|j: int| 0 <= j < order.len() ==> order[j] != f,
    ensures
        find_index(order, f) is None,
    decreases order.len(),
{
    if order.len() > 0 {
        assert(forall|j: int| 0 <= j < order.skip(1).len() ==> order.skip(1)[j] != f);
        lemma_find_index_none(order.skip(1), f);
    }
}


/// The flat focus traversal order for `d`.
fn build_focus_order(d: &TweetDetails) -> (r: Vec<Focus>)
    ensures
        r@ == focus_order_spec(*d),
        r@.len() >= 1,
{
    let mut focus_order: Vec<Focus> = Vec::new();

    let num_in_reply_to_ids: usize = match &d.in_reply_to_ids {
        Some(v) => v.len(),
        None => 0,
    };
    let num_reply_ids: usize = match &d.reply_ids {
        Some(v) => v.len(),
        None => 0,
    };
    let has_quote = d.quote_id.is_some();

    let mut i: usize = 0;
    while i < num_in_reply_to_ids
        invariant
            i <= num_in_reply_to_ids,
            focus_order@ =~= Seq::new(i as nat, |k: int| Focus::InReplyTo(k as usize)),
        decreases num_in_reply_to_ids - i,
    {
        focus_order.push(Focus::InReplyTo(i));
        i = i + 1;
        proof {
            assert(focus_order@ =~= Seq::new(i as nat, |k: int| Focus::InReplyTo(k as usize)));
        }
    }
    let ghost anc = focus_order@;
    focus_order.push(Focus::Tweet);
    if has_quote {
        focus_order.push(Focus::Quote);
    }
    proof {
        if has_quote {
            assert(focus_order@ =~= anc + seq![Focus::Tweet] + seq![Focus::Quote]);
        } else {
            assert(focus_order@ =~= anc + seq![Focus::Tweet] + Seq::<Focus>::empty());
        }
    }
    let ghost head = focus_order@;
    let base = focus_order.len();
    let mut j: usize = 0;
    while j < num_reply_ids
        invariant
            j <= num_reply_ids,
            base == head.len(),
            focus_order@.len() == base + j,
            focus_order@.take(base as int) == head,
            focus_order@.skip(base as int) =~= Seq::new(j as nat, |k: int| Focus::Reply(k as usize)),
        decreases num_reply_ids - j,
    {
        let ghost prev = focus_order@;
        focus_order.push(Focus::Reply(j));
        j = j + 1;
        proof {
            assert(focus_order@.take(base as int) =~= prev.take(base as int));
            assert(focus_order@.skip(base as int) =~= prev.skip(base as int).push(
                Focus::Reply((j - 1) as usize),
            ));
            assert(focus_order@.skip(base as int) =~= Seq::new(
                j as nat,
                |k: int| Focus::Reply(k as usize),
            ));
        }
    }

    proof {
        assert(focus_order@ =~= head + Seq::new(
            n_replies(*d) as nat,
            |k: int| Focus::Reply(k as usize),
        ));
        assert(focus_order@ =~= focus_order_spec(*d));
    }
    focus_order
}

/// Steps `idx` by `delta` within `[0, n)`, wrapping around at either end.
fn wrap_index(idx: usize, delta: isize, n: usize) -> (r: usize)
    requires
        n >= 1,
        idx < n,
    ensures
        r == euclid_mod(idx + delta, n as int),
        r < n,
{
    if delta >= 0 {
        let d: u128 = (delta as u128) % (n as u128);
        let sum: u128 = (idx as u128) + d;
        let wrapped: u128 = if sum >= n as u128 {
            sum - n as u128
        } else {
            sum
        };
        proof {
            lemma_mod_division_less_than_divisor(delta as int, n as int);
            lemma_add_mod_noop_right(idx as int, delta as int, n as int);
            if sum >= n as u128 {
                lemma_mod_add_multiples_vanish(sum as int - n as int, n as int);
                lemma_small_mod((sum - n as u128) as nat, n as nat);
            } else {
                lemma_small_mod(sum as nat, n as nat);
            }
        }
        wrapped as usize
    } else {
        let mag: u128 = if delta == isize::MIN {
            (isize::MAX as u128) + 1
        } else {
            (-delta) as u128
        };
        let mm: u128 = mag % (n as u128);
        let wrapped: u128 = if (idx as u128) >= mm {
            idx as u128 - mm
        } else {
            idx as u128 + n as u128 - mm
        };
        proof {
            lemma_mod_division_less_than_divisor(mag as int, n as int);
            lemma_sub_mod_noop_right(idx as int, mag as int, n as int);
            if (idx as u128) >= mm {
                lemma_small_mod((idx as u128 - mm) as nat, n as nat);
            } else {
                lemma_mod_add_multiples_vanish(idx as int - mm as int, n as int);
                lemma_small_mod((idx as u128 + n as u128 - mm) as nat, n as nat);
            }
        }
        wrapped as usize
    }
}

/// Finds the first entry holding `f` in the lookup table.
fn find_focus_exec(m: &Vec<(Focus, (usize, usize))>, f: Focus) -> (r: Option<usize>)
    ensures
        r is Some <==> find_focus(m@, f) is Some,
        r matches Some(i) ==> i < m@.len() && m@[i as int].0 == f && find_focus(m@, f) == Some(
            m@[i as int].1,
        ),
{
    let mut i: usize = 0;
    while i < m.len()
        invariant
            i <= m@.len(),
            forall|j: int| 0 <= j < i ==> (#[trigger] m@[j]).0 != f,
        decreases m@.len() - i,
    {
        if m[i].0 == f {
            proof {
                lemma_find_focus_at(m@, f, i as int);
            }
            return Some(i);
        }
        i = i + 1;
    }
    proof {
        lemma_find_focus_none(m@, f);
    }
    None
}


/// The width a tweet body is wrapped to inside a detail block: one column is
/// reserved.
pub open spec fn detail_wrap_width(width: int) -> int {
    sat_sub(width, 1)
}

/// `@handle ` with a placeholder for an unknown handle.
pub open spec fn handle_chars(t: Tweet) -> Seq<char> {
    "@"@ + (match t.author_username {
        Some(u) => u@,
        None => "[unknown]"@,
    }) + " "@
}

/// `@handle [display name]` with placeholders for unknown fields.
pub open spec fn detail_author_chars(t: Tweet) -> Seq<char> {
    "@"@ + (match t.author_username {
        Some(u) => u@,
        None => "[unknown]"@,
    }) + " ["@ + (match t.author_name {
        Some(n) => n@,
        None => "[unknown]"@,
    }) + "]"@
}

/// The placeholder line shown for a tweet that has not been fetched.
pub open spec fn tweet_id_chars(id: Seq<char>) -> Seq<char> {
    "<tweet id: "@ + id + ">"@
}

/// The lines of a fetched tweet's detail block, as `draw_tweet` lays them
/// out: the timestamp, the author, a blank line, then the wrapped body.
pub open spec fn tweet_block_ok(lines: Seq<Vec<TextSegment>>, t: Tweet, width: int) -> bool {
    let wrapped = wrap_lines(t.text@, detail_wrap_width(width));
    &&& lines.len() == 3 + wrapped.len()
    &&& lines[0]@.len() == 1 && is_plain_segment(lines[0]@[0], t.created_at.long_chars())
    &&& lines[1]@.len() == 1 && is_plain_segment(lines[1]@[0], detail_author_chars(t))
    &&& lines[2]@.len() == 0
    &&& forall|i: int|
        0 <= i < wrapped.len() ==> (#[trigger] lines[3 + i])@.len() == 1 && is_plain_segment(
            lines[3 + i]@[0],
            wrapped[i],
        )
}

/// The segments of a reply drawn on one line, as `draw_tweet_one_line` lays
/// them out: the indent, the handle, then the body collapsed to one line
/// with an ellipsis if it would wrap.
pub open spec fn one_line_ok(segs: Seq<TextSegment>, t: Tweet, width: int) -> bool {
    let author = handle_chars(t);
    let collapsed = collapsed_newlines(t.text@);
    let remaining = sat_sub(width, author.len() + 6int);
    let w = wrap_lines(collapsed, remaining);
    &&& segs.len() == (if w.len() == 0 {
        2int
    } else {
        3int
    })
    &&& is_plain_segment(segs[0], "    \u{21aa} "@)
    &&& is_colored_segment(
        segs[1],
        author,
        Colors { foreground: Color::DarkCyan, background: Color::Black },
    )
    &&& w.len() == 1 ==> is_plain_segment(segs[2], w[0])
    &&& w.len() > 1 ==> is_plain_segment(
        segs[2],
        truncated_first_line(collapsed, sat_sub(remaining, 1)) + seq!['\u{2026}'],
    )
    &&& w.len() > 1 && remaining >= 1 ==> segs[2].text@.len() <= remaining
        && segs[2].text@[segs[2].text@.len() - 1] == '\u{2026}'
}

/// The number of lines a tweet's block takes in the detail pane.
pub open spec fn block_line_count(store: Store, id: Seq<char>, width: int) -> int {
    if store.tweets_map().contains_key(id) {
        3 + wrap_lines(store.tweets_map()[id].text@, detail_wrap_width(width)).len() as int
    } else {
        1
    }
}

/// A tweet's block rendered starting at line `start`: its full block when it
/// has been fetched, or the one placeholder line naming the unresolved id.
pub open spec fn detail_block_at(
    lines: Seq<Vec<TextSegment>>,
    start: int,
    store: Store,
    id: Seq<char>,
    width: int,
) -> bool {
    &&& 0 <= start
    &&& start + block_line_count(store, id, width) <= lines.len()
    &&& if store.tweets_map().contains_key(id) {
        tweet_block_ok(
            lines.subrange(start, start + block_line_count(store, id, width)),
            store.tweets_map()[id],
            width,
        )
    } else {
        lines[start]@.len() == 1 && is_plain_segment(lines[start]@[0], tweet_id_chars(id))
    }
}

/// A reply rendered on the single line `row`: the indent, then the reply's
/// one-line form when it has been fetched or its placeholder otherwise.
pub open spec fn reply_line_at(
    lines: Seq<Vec<TextSegment>>,
    row: int,
    store: Store,
    id: Seq<char>,
    width: int,
) -> bool {
    &&& 0 <= row < lines.len()
    &&& ({
        let segs = lines[row]@;
        &&& segs.len() >= 1
        &&& is_plain_segment(segs[0], "    \u{21aa} "@)
        &&& if store.tweets_map().contains_key(id) {
            one_line_ok(segs.skip(1), store.tweets_map()[id], sat_sub(width, 6))
        } else {
            segs.len() == 2 && is_plain_segment(segs[1], tweet_id_chars(id))
        }
    })
}

/// A focus-table entry rendered where it points: the entry's column and the
/// block standing at its line match its focus value.
pub open spec fn focus_entry_rendered(
    e: (Focus, (usize, usize)),
    lines: Seq<Vec<TextSegment>>,
    store: Store,
    d: TweetDetails,
    width: int,
) -> bool {
    match e.0 {
        Focus::InReplyTo(i) => e.1.0 == 0 && (i as int) < n_ancestors(d) && detail_block_at(
            lines,
            e.1.1 as int,
            store,
            ancestor_id(d, i as int),
            width,
        ),
        Focus::Tweet => e.1.0 == 0 && detail_block_at(
            lines,
            e.1.1 as int,
            store,
            d.tweet_id@,
            width,
        ),
        Focus::Quote => e.1.0 == 0 && d.quote_id is Some && detail_block_at(
            lines,
            e.1.1 as int,
            store,
            quote_tweet_id(d),
            width,
        ),
        Focus::Reply(j) => e.1.0 == 6 && (j as int) < n_replies(d) && reply_line_at(
            lines,
            e.1.1 as int,
            store,
            reply_id(d, j as int),
            width,
        ),
    }
}

/// The rebuilt pane's content, as the builder leaves it: the focus table
/// holds exactly the context's entries, in order at ascending lines, and
/// each entry points at its rendered block; ids not yet fetched stand as
/// placeholder lines.
pub open spec fn content_synced(post: TweetPane, store: Store) -> bool {
    &&& focus_map_keys_ok(post.focus_map_view(), post.details())
    &&& forall|k: int|
        0 <= k < post.focus_map_view().len() ==> focus_entry_rendered(
            #[trigger] post.focus_map_view()[k],
            post.buffer().lines(),
            store,
            post.details(),
            post.width(),
        )
    &&& forall|k1: int, k2: int|
        0 <= k1 < k2 < post.focus_map_view().len() ==> (#[trigger] post.focus_map_view()[k1]).1.1
            < (#[trigger] post.focus_map_view()[k2]).1.1
}

/// A rendered block is untouched by appending more lines below it.
proof fn lemma_block_still_at(
    lines1: Seq<Vec<TextSegment>>,
    lines2: Seq<Vec<TextSegment>>,
    start: int,
    store: Store,
    id: Seq<char>,
    width: int,
)
    requires
        detail_block_at(lines1, start, store, id, width),
        lines2.len() >= lines1.len(),
        forall|i: int| 0 <= i < lines1.len() ==> lines2[i] == lines1[i],
    ensures
        detail_block_at(lines2, start, store, id, width),
{
    let len = block_line_count(store, id, width);
    if store.tweets_map().contains_key(id) {
        assert(lines2.subrange(start, start + len) =~= lines1.subrange(start, start + len));
    }
}

/// Every rendered focus entry is untouched by appending more lines below it.
proof fn lemma_entries_still_rendered(
    m: Seq<(Focus, (usize, usize))>,
    lines1: Seq<Vec<TextSegment>>,
    lines2: Seq<Vec<TextSegment>>,
    store: Store,
    d: TweetDetails,
    width: int,
)
    requires
        lines2.len() >= lines1.len(),
        forall|i: int| 0 <= i < lines1.len() ==> lines2[i] == lines1[i],
        forall|k: int|
            0 <= k < m.len() ==> focus_entry_rendered(#[trigger] m[k], lines1, store, d, width),
    ensures
        forall|k: int|
            0 <= k < m.len() ==> focus_entry_rendered(#[trigger] m[k], lines2, store, d, width),
{
    assert forall|k: int| 0 <= k < m.len() implies focus_entry_rendered(
        #[trigger] m[k],
        lines2,
        store,
        d,
        width,
    ) by {
        match m[k].0 {
            Focus::InReplyTo(i) => {
                lemma_block_still_at(
                    lines1,
                    lines2,
                    m[k].1.1 as int,
                    store,
                    ancestor_id(d, i as int),
                    width,
                );
            },
            Focus::Tweet => {
                lemma_block_still_at(lines1, lines2, m[k].1.1 as int, store, d.tweet_id@, width);
            },
            Focus::Quote => {
                lemma_block_still_at(
                    lines1,
                    lines2,
                    m[k].1.1 as int,
                    store,
                    quote_tweet_id(d),
                    width,
                );
            },
            Focus::Reply(j) => {
                assert(lines2[m[k].1.1 as int] == lines1[m[k].1.1 as int]);
            },
        }
    }
}

/// `@handle `, with the placeholder for an unknown handle.
fn author_handle_string(tweet: &Tweet) -> (r: String)
    ensures
        r@ == handle_chars(*tweet),
{
    let mut s: String = "@".to_owned();
    match &tweet.author_username {
        Some(u) => s.append(u.as_str()),
        None => s.append("[unknown]"),
    }
    s.append(" ");
    s
}

/// The placeholder block for a tweet that has not been fetched: one line
/// naming the unresolved id.
pub fn draw_tweet_id(width: usize, tweet_id: &str) -> (r: Vec<TextSegment>)
    ensures
        r@.len() == 1,
        is_plain_segment(r@[0], tweet_id_chars(tweet_id@)),
{
    let mut text: String = "<tweet id: ".to_owned();
    text.append(tweet_id);
    text.append(">");
    let mut r: Vec<TextSegment> = Vec::new();
    r.push(TextSegment::plain(text.as_str()));
    r
}

/// The full block for a fetched tweet: its timestamp, its author, a blank
/// line, then the body word-wrapped one column short of the pane.
pub fn draw_tweet(width: usize, tweet: &Tweet) -> (r: Vec<Vec<TextSegment>>)
    requires
        tweet.wf(),
    ensures
        tweet_block_ok(r@, *tweet, width as int),
{
    let mut buffer: Vec<Vec<TextSegment>> = Vec::new();

    let mut time_chars: Vec<char> = Vec::new();
    tweet.created_at.push_long(&mut time_chars);
    let mut time_line: Vec<TextSegment> = Vec::new();
    time_line.push(TextSegment::plain(chars_to_string(&time_chars).as_str()));
    buffer.push(time_line);

    let mut author: String = "@".to_owned();
    match &tweet.author_username {
        Some(u) => author.append(u.as_str()),
        None => author.append("[unknown]"),
    }
    author.append(" [");
    match &tweet.author_name {
        Some(n) => author.append(n.as_str()),
        None => author.append("[unknown]"),
    }
    author.append("]");
    let mut author_line: Vec<TextSegment> = Vec::new();
    author_line.push(TextSegment::plain(author.as_str()));
    buffer.push(author_line);

    buffer.push(Vec::new());

    let wrap_width: usize = if width >= 1 {
        width - 1
    } else {
        0
    };
    let lines = wrap_text(tweet.text.as_str(), wrap_width);
    let ghost wrapped = wrap_lines(tweet.text@, detail_wrap_width(width as int));
    let mut i: usize = 0;
    while i < lines.len()
        invariant
            i <= lines@.len(),
            lines.deep_view() == wrapped,
            buffer@.len() == 3 + i,
            buffer@[0]@.len() == 1 && is_plain_segment(
                buffer@[0]@[0],
                tweet.created_at.long_chars(),
            ),
            buffer@[1]@.len() == 1 && is_plain_segment(buffer@[1]@[0], detail_author_chars(*tweet)),
            buffer@[2]@.len() == 0,
            forall|j: int|
                0 <= j < i ==> (#[trigger] buffer@[3 + j])@.len() == 1 && is_plain_segment(
                    buffer@[3 + j]@[0],
                    wrapped[j],
                ),
        decreases lines@.len() - i,
    {
        let mut line: Vec<TextSegment> = Vec::new();
        line.push(TextSegment::plain(lines[i].as_str()));
        buffer.push(line);
        i = i + 1;
    }
    buffer
}

/// One feed-style line for a reply: indent, handle, then the body collapsed
/// to one line with an ellipsis if it would wrap.
pub fn draw_tweet_one_line(width: usize, tweet: &Tweet) -> (r: Vec<TextSegment>)
    ensures
        one_line_ok(r@, *tweet, width as int),
{
    let author = author_handle_string(tweet);
    let author_len = str_to_chars(author.as_str()).len();
    let remaining: usize = if author_len <= usize::MAX - 6 && width >= author_len + 6 {
        width - (author_len + 6)
    } else {
        0
    };

    let mut r: Vec<TextSegment> = Vec::new();
    r.push(TextSegment::plain("    \u{21aa} "));
    r.push(
        TextSegment::color(
            author.as_str(),
            Colors { foreground: Color::DarkCyan, background: Color::Black },
        ),
    );

    let collapsed = collapse_newlines(tweet.text.as_str());
    let lines = wrap_text(collapsed.as_str(), remaining);
    if lines.len() == 1 {
        r.push(TextSegment::plain(lines[0].as_str()));
    } else if lines.len() > 1 {
        let rem2: usize = if remaining >= 1 {
            remaining - 1
        } else {
            0
        };
        let lines2 = wrap_text(collapsed.as_str(), rem2);
        let mut t: Vec<char> = if lines2.len() > 0 {
            str_to_chars(lines2[0].as_str())
        } else {
            Vec::new()
        };
        if t.len() > rem2 {
            t.truncate(rem2);
        }
        let ghost base = t@;
        t.push('\u{2026}');
        proof {
            assert(t@ =~= base + seq!['\u{2026}']);
        }
        r.push(TextSegment::plain(chars_to_string(&t).as_str()));
    }
    r
}

/// Appends one tweet's block — the full block when the tweet is stored, the
/// placeholder line otherwise — at the end of the buffer.
fn append_block(buffer: &mut ScrollBuffer, store: &Store, id: &str, width: usize)
    requires
        store.wf(),
    ensures
        final(buffer).lines().len() > old(buffer).lines().len(),
        forall|i: int|
            0 <= i < old(buffer).lines().len() ==> final(buffer).lines()[i] == old(
                buffer,
            ).lines()[i],
        detail_block_at(
            final(buffer).lines(),
            old(buffer).lines().len() as int,
            *store,
            id@,
            width as int,
        ),
        final(buffer).dirty(),
        final(buffer).display_height() == old(buffer).display_height(),
        final(buffer).offset() == old(buffer).offset(),
        final(buffer).cursor_x() == old(buffer).cursor_x(),
        final(buffer).cursor_line() == old(buffer).cursor_line(),
        final(buffer).last_box() == old(buffer).last_box(),
{
    let ghost start = buffer.lines().len() as int;
    match store.get_tweet(id) {
        Some(tweet) => {
            let mut block = draw_tweet(width, tweet);
            let ghost blk = block@;
            buffer.append(&mut block);
            proof {
                assert(buffer.lines().subrange(start, start + blk.len() as int) =~= blk);
            }
        },
        None => {
            buffer.push(draw_tweet_id(width, id));
        },
    }
}

/// Recording one more rendered entry below every earlier one keeps the whole
/// table rendered, in bounds, and ascending.
proof fn lemma_entries_extended(
    prev: Seq<(Focus, (usize, usize))>,
    m: Seq<(Focus, (usize, usize))>,
    lines: Seq<Vec<TextSegment>>,
    store: Store,
    d: TweetDetails,
    width: int,
    bound0: int,
)
    requires
        m == prev.push(m.last()),
        m.len() == prev.len() + 1,
        forall|k: int|
            0 <= k < prev.len() ==> focus_entry_rendered(#[trigger] prev[k], lines, store, d, width),
        focus_entry_rendered(m.last(), lines, store, d, width),
        forall|k: int| 0 <= k < prev.len() ==> (#[trigger] prev[k]).1.1 < bound0,
        m.last().1.1 == bound0,
        bound0 < lines.len(),
        forall|k1: int, k2: int|
            0 <= k1 < k2 < prev.len() ==> (#[trigger] prev[k1]).1.1 < (#[trigger] prev[k2]).1.1,
    ensures
        forall|k: int|
            0 <= k < m.len() ==> focus_entry_rendered(#[trigger] m[k], lines, store, d, width),
        forall|k: int| 0 <= k < m.len() ==> (#[trigger] m[k]).1.1 < lines.len(),
        forall|k1: int, k2: int|
            0 <= k1 < k2 < m.len() ==> (#[trigger] m[k1]).1.1 < (#[trigger] m[k2]).1.1,
{
    assert forall|k: int| 0 <= k < m.len() implies focus_entry_rendered(
        #[trigger] m[k],
        lines,
        store,
        d,
        width,
    ) by {
        if k < prev.len() {
            assert(m[k] == prev[k]);
        } else {
            assert(m[k] == m.last());
        }
    }
    assert forall|k: int| 0 <= k < m.len() implies (#[trigger] m[k]).1.1 < lines.len() by {
        if k < prev.len() {
            assert(m[k] == prev[k]);
        } else {
            assert(m[k] == m.last());
        }
    }
    assert forall|k1: int, k2: int|
        0 <= k1 < k2 < m.len() implies (#[trigger] m[k1]).1.1 < (#[trigger] m[k2]).1.1 by {
        assert(m[k1] == prev[k1]);
        if k2 < prev.len() {
            assert(m[k2] == prev[k2]);
        } else {
            assert(m[k2] == m.last());
        }
    }
}

/// Relates the pane after a focus re-resolution to the pane before it: the
/// focus and cursor settle on `chosen_focus`, and the content is untouched.
pub open spec fn set_focus_post(pre: TweetPane, post: TweetPane, f: Focus) -> bool {
    let c = chosen_focus(pre.focus_map_view(), f);
    &&& post.focus() == c.0
    &&& pre.buffer().moved_to(post.buffer(), c.1.0 as int, c.1.1 as int)
    &&& post.buffer().wf()
    &&& post.focus_map_view() == pre.focus_map_view()
    &&& post.details() == pre.details()
    &&& post.width() == pre.width()
    &&& post.needs_content_update() == pre.needs_content_update()
}

/// The tweet detail pane.
#[derive(Debug)]
pub struct TweetPane {
    tweet_details: TweetDetails,
    scroll_buffer: ScrollBuffer,
    should_update_scroll_buffer: bool,
    display_width: usize,
    focus: Focus,
    focus_map: Vec<(Focus, (usize, usize))>,
}

impl TweetPane {
    /// The context being shown.
    pub closed spec fn details(self) -> TweetDetails {
        self.tweet_details
    }

    /// The line store behind the pane.
    pub closed spec fn buffer(self) -> ScrollBuffer {
        self.scroll_buffer
    }

    /// Whether the content must be rebuilt before the next paint.
    pub closed spec fn needs_content_update(self) -> bool {
        self.should_update_scroll_buffer
    }

    /// The width the content was built for.
    pub closed spec fn width(self) -> int {
        self.display_width as int
    }

    /// The current focus value.
    pub closed spec fn focus(self) -> Focus {
        self.focus
    }

    /// The lookup table from focus value to rendered position.
    pub closed spec fn focus_map_view(self) -> Seq<(Focus, (usize, usize))> {
        self.focus_map@
    }

    pub fn new(tweet_id: &str) -> (r: Self)
        ensures
            r.details().tweet_id@ == tweet_id@,
            r.details().in_reply_to_ids is None,
            r.details().quote_id is None,
            r.details().reply_ids is None,
            r.needs_content_update(),
            r.focus() == Focus::Tweet,
            r.focus_map_view().len() == 0,
            r.width() == 0,
    {
        Self {
            tweet_details: TweetDetails::new(tweet_id),
            scroll_buffer: ScrollBuffer::new(),
            should_update_scroll_buffer: true,
            display_width: 0,
            focus: Focus::Tweet,
            focus_map: Vec::new(),
        }
    }

    /// The current focus value.
    pub fn current_focus(&self) -> (r: Focus)
        ensures
            r == self.focus(),
    {
        self.focus
    }

    /// Replaces the whole context snapshot; the content is rebuilt on the
    /// next paint.
    pub fn set_details(&mut self, details: TweetDetails)
        ensures
            final(self).details() == details,
            final(self).needs_content_update(),
            final(self).focus() == old(self).focus(),
            final(self).buffer() == old(self).buffer(),
            final(self).focus_map_view() == old(self).focus_map_view(),
            final(self).width() == old(self).width(),
    {
        self.tweet_details = details;
        self.should_update_scroll_buffer = true;
    }

    /// Points the pane at another primary tweet; the content is rebuilt on
    /// the next paint.
    pub fn set_tweet_id(&mut self, tweet_id: &String)
        ensures
            final(self).details().tweet_id@ == tweet_id@,
            final(self).details().in_reply_to_ids == old(self).details().in_reply_to_ids,
            final(self).details().quote_id == old(self).details().quote_id,
            final(self).details().reply_ids == old(self).details().reply_ids,
            final(self).needs_content_update(),
            final(self).focus() == old(self).focus(),
            final(self).buffer() == old(self).buffer(),
            final(self).focus_map_view() == old(self).focus_map_view(),
            final(self).width() == old(self).width(),
    {
        self.tweet_details.tweet_id = tweet_id.clone();
        self.should_update_scroll_buffer = true;
    }


    /// Rebuilds the pane's lines and the focus lookup table from the current
    /// data snapshot — the ancestors, the primary tweet, the quoted tweet
    /// when there is one, then the replies — and re-resolves the focus
    /// against the new table. Tweets not yet fetched are shown as
    /// placeholders naming the id.
    pub fn update_scroll_buffer_and_focus_map(&mut self, store: &Store)
        requires
            store.wf(),
        ensures
            content_synced(*final(self), *store),
            final(self).details() == old(self).details(),
            final(self).width() == old(self).width(),
            !final(self).needs_content_update(),
            final(self).focus() == chosen_focus(
                final(self).focus_map_view(),
                old(self).focus(),
            ).0,
            final(self).buffer().wf(),
            final(self).buffer().dirty(),
    {
        let ghost d = self.tweet_details;
        let ghost w = self.display_width as int;

        self.scroll_buffer.clear();
        self.focus_map.clear();

        match &self.tweet_details.in_reply_to_ids {
            Some(ids) => {
                let mut i: usize = 0;
                while i < ids.len()
                    invariant
                        i <= ids@.len(),
                        self.tweet_details == old(self).tweet_details,
                        d == self.tweet_details,
                        w == self.display_width as int,
                        self.tweet_details.in_reply_to_ids matches Some(v) && v@ == ids@,
                        self.display_width == old(self).display_width,
                        self.focus == old(self).focus,
                        store.wf(),
                        self.focus_map@.len() == i,
                        forall|j: int|
                            0 <= j < i ==> (#[trigger] self.focus_map@[j]).0 == Focus::InReplyTo(
                                j as usize,
                            ),
                        forall|k: int|
                            0 <= k < self.focus_map@.len() ==> focus_entry_rendered(
                                #[trigger] self.focus_map@[k],
                                self.scroll_buffer.lines(),
                                *store,
                                d,
                                w,
                            ),
                        forall|k: int|
                            0 <= k < self.focus_map@.len() ==> (#[trigger] self.focus_map@[k]).1.1
                                < self.scroll_buffer.lines().len(),
                        forall|k1: int, k2: int|
                            0 <= k1 < k2 < self.focus_map@.len() ==> (
                            #[trigger] self.focus_map@[k1]).1.1 < (
                            #[trigger] self.focus_map@[k2]).1.1,
                        self.scroll_buffer.dirty(),
                    decreases ids@.len() - i,
                {
                    let ghost prev_m = self.focus_map@;
                    let ghost lines0 = self.scroll_buffer.lines();
                    let h = self.scroll_buffer.height();
                    self.focus_map.push((Focus::InReplyTo(i), (0, h)));
                    append_block(&mut self.scroll_buffer, store, ids[i].as_str(), self.display_width);
                    let ghost lines1 = self.scroll_buffer.lines();
                    self.scroll_buffer.push(vec![TextSegment::plain("\u{2196} in reply to")]);
                    let ghost lines2 = self.scroll_buffer.lines();
                    let blank: Vec<TextSegment> = Vec::new();
                    self.scroll_buffer.push(blank);
                    proof {
                        let cur = self.scroll_buffer.lines();
                        assert(forall|t: int| 0 <= t < lines2.len() ==> cur[t] == lines2[t]);
                        assert(forall|t: int| 0 <= t < lines1.len() ==> cur[t] == lines1[t]);
                        assert(forall|t: int| 0 <= t < lines0.len() ==> cur[t] == lines0[t]);
                        lemma_entries_still_rendered(prev_m, lines0, cur, *store, d, w);
                        assert(ancestor_id(d, i as int) == ids@[i as int]@);
                        lemma_block_still_at(lines1, cur, h as int, *store, ancestor_id(d, i as int), w);
                        assert(focus_entry_rendered(self.focus_map@.last(), cur, *store, d, w));
                        lemma_entries_extended(
                            prev_m,
                            self.focus_map@,
                            cur,
                            *store,
                            d,
                            w,
                            lines0.len() as int,
                        );
                    }
                    i = i + 1;
                }
            },
            None => {
                self.scroll_buffer.push(vec![TextSegment::plain("<in_reply_to?>")]);
                self.scroll_buffer.push_newline();
            },
        }

        let ghost n_anc = n_ancestors(d);
        proof {
            assert(self.focus_map@.len() == n_anc);
        }

        {
            let ghost prev_m = self.focus_map@;
            let ghost lines0 = self.scroll_buffer.lines();
            let h = self.scroll_buffer.height();
            self.focus_map.push((Focus::Tweet, (0, h)));
            append_block(
                &mut self.scroll_buffer,
                store,
                self.tweet_details.tweet_id.as_str(),
                self.display_width,
            );
            let ghost lines1 = self.scroll_buffer.lines();
            let blank: Vec<TextSegment> = Vec::new();
            self.scroll_buffer.push(blank);
            proof {
                let cur = self.scroll_buffer.lines();
                assert(forall|t: int| 0 <= t < lines1.len() ==> cur[t] == lines1[t]);
                assert(forall|t: int| 0 <= t < lines0.len() ==> cur[t] == lines0[t]);
                lemma_entries_still_rendered(prev_m, lines0, cur, *store, d, w);
                lemma_block_still_at(lines1, cur, h as int, *store, d.tweet_id@, w);
                assert(focus_entry_rendered(self.focus_map@.last(), cur, *store, d, w));
                lemma_entries_extended(
                    prev_m,
                    self.focus_map@,
                    cur,
                    *store,
                    d,
                    w,
                    lines0.len() as int,
                );
            }
        }

        match &self.tweet_details.quote_id {
            Some(quote) => {
                let ghost prev_m = self.focus_map@;
                let ghost lines0 = self.scroll_buffer.lines();
                let h = self.scroll_buffer.height();
                self.focus_map.push((Focus::Quote, (0, h)));
                append_block(&mut self.scroll_buffer, store, quote.1.as_str(), self.display_width);
                let ghost lines1 = self.scroll_buffer.lines();
                let blank: Vec<TextSegment> = Vec::new();
                self.scroll_buffer.push(blank);
                proof {
                    let cur = self.scroll_buffer.lines();
                    assert(forall|t: int| 0 <= t < lines1.len() ==> cur[t] == lines1[t]);
                    assert(forall|t: int| 0 <= t < lines0.len() ==> cur[t] == lines0[t]);
                    lemma_entries_still_rendered(prev_m, lines0, cur, *store, d, w);
                    assert(quote_tweet_id(d) == quote.1@);
                    lemma_block_still_at(lines1, cur, h as int, *store, quote_tweet_id(d), w);
                    assert(focus_entry_rendered(self.focus_map@.last(), cur, *store, d, w));
                    lemma_entries_extended(
                        prev_m,
                        self.focus_map@,
                        cur,
                        *store,
                        d,
                        w,
                        lines0.len() as int,
                    );
                }
            },
            None => {},
        }

        let ghost n_q = n_quotes(d);
        proof {
            assert(self.focus_map@.len() == n_anc + 1 + n_q);
        }

        match &self.tweet_details.reply_ids {
            Some(ids) => {
                let mut i: usize = 0;
                while i < ids.len()
                    invariant
                        i <= ids@.len(),
                        self.tweet_details == old(self).tweet_details,
                        d == self.tweet_details,
                        w == self.display_width as int,
                        self.tweet_details.reply_ids matches Some(v) && v@ == ids@,
                        self.display_width == old(self).display_width,
                        self.focus == old(self).focus,
                        store.wf(),
                        n_anc == n_ancestors(d),
                        n_q == n_quotes(d),
                        self.focus_map@.len() == n_anc + 1 + n_q + i,
                        forall|j: int|
                            0 <= j < n_anc ==> (#[trigger] self.focus_map@[j]).0
                                == Focus::InReplyTo(j as usize),
                        self.focus_map@[n_anc].0 == Focus::Tweet,
                        d.quote_id is Some ==> self.focus_map@[n_anc + 1].0 == Focus::Quote,
                        forall|j: int|
                            0 <= j < i ==> (#[trigger] self.focus_map@[n_anc + 1 + n_q + j]).0
                                == Focus::Reply(j as usize),
                        forall|k: int|
                            0 <= k < self.focus_map@.len() ==> focus_entry_rendered(
                                #[trigger] self.focus_map@[k],
                                self.scroll_buffer.lines(),
                                *store,
                                d,
                                w,
                            ),
                        forall|k: int|
                            0 <= k < self.focus_map@.len() ==> (#[trigger] self.focus_map@[k]).1.1
                                < self.scroll_buffer.lines().len(),
                        forall|k1: int, k2: int|
                            0 <= k1 < k2 < self.focus_map@.len() ==> (
                            #[trigger] self.focus_map@[k1]).1.1 < (
                            #[trigger] self.focus_map@[k2]).1.1,
                        self.scroll_buffer.dirty(),
                    decreases ids@.len() - i,
                {
                    let ghost prev_m = self.focus_map@;
                    let ghost lines0 = self.scroll_buffer.lines();
                    let h = self.scroll_buffer.height();
                    // The indent "    \u{21aa} " is six columns wide.
                    self.focus_map.push((Focus::Reply(i), (6, h)));

                    let rem_width: usize = if self.display_width >= 6 {
                        self.display_width - 6
                    } else {
                        0
                    };
                    let mut line: Vec<TextSegment> = Vec::new();
                    line.push(TextSegment::plain("    \u{21aa} "));
                    let ghost found = store.tweets_map().contains_key(ids@[i as int]@);
                    let mut rest = match store.get_tweet(ids[i].as_str()) {
                        Some(tweet) => draw_tweet_one_line(rem_width, tweet),
                        None => draw_tweet_id(rem_width, ids[i].as_str()),
                    };
                    let ghost rest_snap = rest@;
                    line.append(&mut rest);
                    let ghost line_snap = line@;
                    self.scroll_buffer.push(line);
                    proof {
                        let cur = self.scroll_buffer.lines();
                        assert(forall|t: int| 0 <= t < lines0.len() ==> cur[t] == lines0[t]);
                        lemma_entries_still_rendered(prev_m, lines0, cur, *store, d, w);
                        assert(reply_id(d, i as int) == ids@[i as int]@);
                        assert(cur[h as int]@ == line_snap);
                        assert(line_snap.skip(1) =~= rest_snap);
                        assert(reply_line_at(cur, h as int, *store, reply_id(d, i as int), w));
                        assert(focus_entry_rendered(self.focus_map@.last(), cur, *store, d, w));
                        lemma_entries_extended(
                            prev_m,
                            self.focus_map@,
                            cur,
                            *store,
                            d,
                            w,
                            lines0.len() as int,
                        );
                    }
                    i = i + 1;
                }
            },
            None => {
                let ghost prev_m = self.focus_map@;
                let ghost lines0 = self.scroll_buffer.lines();
                self.scroll_buffer.push(vec![TextSegment::plain("<reply_ids?>")]);
                let ghost lines_p = self.scroll_buffer.lines();
                let blank: Vec<TextSegment> = Vec::new();
                self.scroll_buffer.push(blank);
                proof {
                    let cur = self.scroll_buffer.lines();
                    assert(forall|t: int| 0 <= t < lines_p.len() ==> cur[t] == lines_p[t]);
                    assert(forall|t: int| 0 <= t < lines0.len() ==> cur[t] == lines0[t]);
                    lemma_entries_still_rendered(prev_m, lines0, cur, *store, d, w);
                }
            },
        }

        let current_focus = self.focus;
        self.set_focus(current_focus);
        self.should_update_scroll_buffer = false;
    }

    /// Re-resolves the focus against the lookup table: the desired value if
    /// mapped, else the primary tweet, else any available entry, else a
    /// default position; the cursor moves to the settled position.
    fn set_focus(&mut self, focus: Focus)
        ensures
            set_focus_post(*old(self), *final(self), focus),
    {
        match find_focus_exec(&self.focus_map, focus) {
            Some(i) => {
                self.focus = focus;
                let cur = self.focus_map[i].1;
                self.scroll_buffer.move_cursor_to(cur.0, cur.1);
            },
            None => {
                match find_focus_exec(&self.focus_map, Focus::Tweet) {
                    Some(i) => {
                        self.focus = Focus::Tweet;
                        let cur = self.focus_map[i].1;
                        self.scroll_buffer.move_cursor_to(cur.0, cur.1);
                    },
                    None => {
                        if self.focus_map.len() > 0 {
                            let entry = self.focus_map[0];
                            self.focus = entry.0;
                            self.scroll_buffer.move_cursor_to(entry.1.0, entry.1.1);
                        } else {
                            self.focus = Focus::Tweet;
                            self.scroll_buffer.move_cursor_to(0, 0);
                        }
                    },
                }
            },
        }
    }

    /// Moves the focus `delta` steps through the traversal order, wrapping
    /// around at either end, then re-resolves it against the lookup table.
    pub fn update_focus(&mut self, delta: isize)
        ensures
            ({
                let order = focus_order_spec(old(self).details());
                let idx = match find_index(order, old(self).focus()) {
                    Some(i) => i,
                    None => 0int,
                };
                let ni = euclid_mod(idx + delta, order.len() as int);
                set_focus_post(*old(self), *final(self), order[ni])
            }),
    {
        let focus_order = build_focus_order(&self.tweet_details);
        let n = focus_order.len();
        let idx: usize = match self.find_in_order(&focus_order) {
            Some(i) => i,
            None => 0,
        };
        let ni = wrap_index(idx, delta, n);
        let target = focus_order[ni];
        self.set_focus(target);
    }

    /// The index of the current focus in `order`, if present.
    fn find_in_order(&self, order: &Vec<Focus>) -> (r: Option<usize>)
        ensures
            r is Some <==> find_index(order@, self.focus()) is Some,
            r matches Some(i) ==> find_index(order@, self.focus()) == Some(i as int) && i
                < order@.len(),
    {
        let mut i: usize = 0;
        while i < order.len()
            invariant
                i <= order@.len(),
                forall|j: int| 0 <= j < i ==> order@[j] != self.focus(),
            decreases order@.len() - i,
        {
            if order[i] == self.focus {
                proof {
                    lemma_find_index_at(order@, self.focus(), i as int);
                }
                return Some(i);
            }
            i = i + 1;
        }
        proof {
            lemma_find_index_none(order@, self.focus());
        }
        None
    }
}


/// The draw operations that blank the first `rows` rows of a region: a move
/// to each row's origin followed by a full-width print of spaces.
pub open spec fn clear_rows_ok(ops: Seq<DrawOp>, bb: BoundingBox, rows: int) -> bool
    decreases rows,
{
    if rows <= 0 {
        ops.len() == 0
    } else {
        &&& ops.len() == 2 * rows
        &&& clear_rows_ok(ops.take(ops.len() - 2), bb, rows - 1)
        &&& ops[ops.len() - 2] == DrawOp::MoveTo(bb.left, (bb.top + (rows - 1)) as u16)
        &&& crate::draw::is_print(ops[ops.len() - 1], crate::text::spaces(bb.width as int))
    }
}

impl Render for TweetPane {
    open spec fn dirty(&self) -> bool {
        self.needs_content_update() || self.buffer().dirty()
    }

    fn should_render(&self) -> (r: bool) {
        self.should_update_scroll_buffer || self.scroll_buffer.should_render()
    }

    fn invalidate(&mut self) {
        self.scroll_buffer.invalidate();
    }

    /// A paint rebuilds the content and the focus table when the data
    /// changed or the width did, then — if any repaint was owed — blanks the
    /// region and repaints the visible slice of the rebuilt lines.
    closed spec fn render_post(
        pre: TweetPane,
        post: TweetPane,
        store: Store,
        bounding_box: BoundingBox,
        ops: Seq<DrawOp>,
    ) -> bool {
        let rebuilt = pre.needs_content_update() || pre.width() != bounding_box.width as int;
        let painted = rebuilt || pre.buffer().dirty();
        &&& post.width() == bounding_box.width as int
        &&& !post.needs_content_update()
        &&& post.details() == pre.details()
        &&& !post.buffer().dirty()
        &&& (rebuilt ==> content_synced(post, store) && post.focus() == chosen_focus(
            post.focus_map_view(),
            pre.focus(),
        ).0)
        &&& (!rebuilt ==> post.focus_map_view() == pre.focus_map_view() && post.buffer().lines()
            == pre.buffer().lines() && post.focus() == pre.focus())
        &&& (!painted ==> ops.len() == 0 && post.buffer() == pre.buffer())
        &&& (painted ==> ops.len() >= 2 * bounding_box.height && clear_rows_ok(
            ops.take(2 * bounding_box.height as int),
            bounding_box,
            bounding_box.height as int,
        ) && rows_ops_ok(
            ops.skip(2 * bounding_box.height as int),
            post.buffer().lines(),
            visible_from(
                post.buffer().offset(),
                post.buffer().lines().len() as int,
            ),
            visible_to(
                post.buffer().offset(),
                post.buffer().display_height(),
                post.buffer().lines().len() as int,
            ),
            bounding_box.left,
            bounding_box.top,
            crate::text::spaces(bounding_box.width as int),
        ))
    }

    fn render(&mut self, store: &Store, bounding_box: BoundingBox) -> (ops: Vec<DrawOp>) {
        if self.should_update_scroll_buffer || self.display_width != bounding_box.width as usize {
            self.display_width = bounding_box.width as usize;
            self.update_scroll_buffer_and_focus_map(store);
        }

        let mut ops: Vec<DrawOp> = Vec::new();
        if self.scroll_buffer.should_render() {
            let clear = make_spaces(bounding_box.width as usize);
            let mut y: u16 = 0;
            while y < bounding_box.height
                invariant
                    bounding_box.top + bounding_box.height <= u16::MAX,
                    y <= bounding_box.height,
                    clear@ == crate::text::spaces(bounding_box.width as int),
                    ops@.len() == 2 * y,
                    clear_rows_ok(ops@, bounding_box, y as int),
                decreases bounding_box.height - y,
            {
                let ghost prev_ops = ops@;
                ops.push(DrawOp::MoveTo(bounding_box.left, bounding_box.top + y));
                ops.push(DrawOp::Print(clear.clone()));
                y = y + 1;
                proof {
                    assert(ops@.take(ops@.len() - 2) =~= prev_ops);
                }
            }
            let ghost head = ops@;
            let mut row_ops = self.scroll_buffer.render(bounding_box);
            let ghost tail = row_ops@;
            ops.append(&mut row_ops);
            proof {
                assert(ops@.take(head.len() as int) =~= head);
                assert(ops@.skip(head.len() as int) =~= tail);
            }
        }
        ops
    }

    open spec fn cursor(&self) -> (u16, u16) {
        self.buffer().cursor_view()
    }

    fn get_cursor(&self) -> (r: (u16, u16)) {
        self.scroll_buffer.get_cursor()
    }
}

impl Input for TweetPane {
    /// Receiving focus changes nothing here.
    open spec fn focus_post(pre: TweetPane, post: TweetPane) -> bool {
        post == pre
    }

    fn handle_focus(&mut self) {
    }

    /// The pane consumes only the up and down keys, and as of this snapshot
    /// they change nothing: the store, the pane and the action list are left
    /// as they were.
    open spec fn key_post(
        pre: TweetPane,
        post: TweetPane,
        pre_store: Store,
        post_store: Store,
        event: KeyEvent,
        handled: bool,
        actions: Seq<UiAction>,
    ) -> bool {
        &&& post == pre
        &&& post_store == pre_store
        &&& actions.len() == 0
        &&& handled == (event.code == KeyCode::Up || event.code == KeyCode::Down)
    }

    fn handle_key_event(&mut self, store: &mut Store, event: &KeyEvent) -> (r: (
        bool,
        Vec<UiAction>,
    )) {
        let actions: Vec<UiAction> = Vec::new();
        match event.code {
            KeyCode::Up => (true, actions),
            KeyCode::Down => (true, actions),
            _ => {
                let handled = self.scroll_buffer.handle_key(event);
                (handled, actions)
            },
        }
    }
}

} // verus!
