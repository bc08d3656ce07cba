use twitter_tool_rs::api::{Timestamp, Tweet, User};
use twitter_tool_rs::feed_pane::build_feed_line;
use twitter_tool_rs::search_bar::SearchBar;
use twitter_tool_rs::store::Store;
use twitter_tool_rs::tweet_pane::{
    draw_tweet, draw_tweet_id, draw_tweet_one_line, Focus, QuoteType, TweetDetails, TweetPane,
};
use twitter_tool_rs::twitter_client::join_authors;
use twitter_tool_rs::user_config::UserConfig;

fn tweet(id: &str, text: &str) -> Tweet {
    Tweet {
        id: id.to_string(),
        text: text.to_string(),
        created_at: Timestamp::new(2023, 1, 5, 7, 9, 3),
        author_id: "u1".to_string(),
        author_username: Some("bob".to_string()),
        author_name: Some("Bob".to_string()),
        conversation_id: None,
        referenced_tweets: None,
        attachments: None,
        public_metrics: None,
    }
}

#[test]
fn test_focus_eq() {
    let l = Focus::InReplyTo(3);
    let r = Focus::InReplyTo(3);
    assert_eq!(l, r);
}

#[test]
fn feed_line_prefixes_time_and_handle() {
    // Body width: 34 - 19 (time) - 5 (handle) = 10 columns.
    let line = build_feed_line(&tweet("t1", "a\r\nb\nc"), false, 34);
    assert_eq!(line.len(), 3);
    assert_eq!(line[0].text, "01-05 07:09:03  >  ");
    assert_eq!(line[1].text, "@bob ");
    // Line breaks collapse to a single separator glyph before wrapping.
    assert_eq!(line[2].text, "a⏎ b⏎ c");
}

#[test]
fn wrapping_body_renders_one_line_with_ellipsis() {
    let line = build_feed_line(&tweet("t1", "hello world wonderful day"), false, 34);
    // The body wraps past one line at width 10, so it is re-wrapped one
    // column narrower and an ellipsis is appended as its own segment.
    assert_eq!(line.len(), 4);
    assert_eq!(line[2].text, "hello");
    assert_eq!(line[3].text, "…");
    let body_len = line[2].text.chars().count() + line[3].text.chars().count();
    assert!(body_len <= 10, "body takes {body_len} of 10 available columns");
}

#[test]
fn starred_author_changes_highlight() {
    let plain = build_feed_line(&tweet("t1", "hi"), false, 40);
    let starred = build_feed_line(&tweet("t1", "hi"), true, 40);
    assert_ne!(plain[1].colors, starred[1].colors);
}

#[test]
fn detail_block_shows_time_author_and_body() {
    let block = draw_tweet(30, &tweet("t1", "hello there"));
    assert_eq!(block[0][0].text, "2023-01-05 07:09:03");
    assert_eq!(block[1][0].text, "@bob [Bob]");
    assert!(block[2].is_empty());
    assert_eq!(block[3][0].text, "hello there");
}

#[test]
fn unresolved_tweet_renders_as_placeholder() {
    let line = draw_tweet_id(30, "12345");
    assert_eq!(line.len(), 1);
    assert_eq!(line[0].text, "<tweet id: 12345>");
}

#[test]
fn reply_line_collapses_to_one_line() {
    // 6 indent columns + 5 handle columns leave 9 of 20, re-wrapped to 8.
    let line = draw_tweet_one_line(20, &tweet("t1", "a long reply body"));
    assert_eq!(line.len(), 3);
    assert_eq!(line[0].text, "    ↪ ");
    assert_eq!(line[1].text, "@bob ");
    assert!(line[2].text.ends_with('…'));
    assert!(line[2].text.chars().count() <= 9);
}

#[test]
fn focus_traversal_cycles_through_context() {
    let store = Store::new(
        &User { id: "me".into(), name: "Me".into(), username: "me".into() },
        UserConfig::new(),
    );
    let mut pane = TweetPane::new("t0");
    pane.set_details(TweetDetails {
        in_reply_to_ids: Some(vec!["a1".to_string()]),
        tweet_id: "t0".to_string(),
        quote_id: None,
        reply_ids: Some(vec!["r1".to_string(), "r2".to_string()]),
    });
    pane.update_scroll_buffer_and_focus_map(&store);
    assert_eq!(pane.current_focus(), Focus::Tweet);

    pane.update_focus(1);
    assert_eq!(pane.current_focus(), Focus::Reply(0));
    pane.update_focus(1);
    assert_eq!(pane.current_focus(), Focus::Reply(1));
    pane.update_focus(1);
    assert_eq!(pane.current_focus(), Focus::InReplyTo(0), "traversal wraps around circularly");
    pane.update_focus(-1);
    assert_eq!(pane.current_focus(), Focus::Reply(1), "retreat wraps the other way");
}

#[test]
fn focus_falls_back_to_primary_tweet() {
    let store = Store::new(
        &User { id: "me".into(), name: "Me".into(), username: "me".into() },
        UserConfig::new(),
    );
    let mut pane = TweetPane::new("t0");
    pane.set_details(TweetDetails {
        in_reply_to_ids: Some(vec!["a1".to_string()]),
        tweet_id: "t0".to_string(),
        quote_id: None,
        reply_ids: Some(vec!["r1".to_string()]),
    });
    pane.update_scroll_buffer_and_focus_map(&store);
    pane.update_focus(-1);
    assert_eq!(pane.current_focus(), Focus::InReplyTo(0));

    // Rebuilding without ancestors drops the focused entry; the focus
    // re-resolves to the primary tweet.
    pane.set_details(TweetDetails {
        in_reply_to_ids: None,
        tweet_id: "t0".to_string(),
        quote_id: None,
        reply_ids: None,
    });
    pane.update_scroll_buffer_and_focus_map(&store);
    assert_eq!(pane.current_focus(), Focus::Tweet);
}

#[test]
fn search_bar_edits_at_the_caret() {
    let mut bar = SearchBar::new();
    for ch in "abc".chars() {
        bar.insert_char_at_caret(ch);
    }
    assert_eq!(bar.get_text(), "abc");
    bar.move_caret(-2);
    bar.insert_char_at_caret('x');
    assert_eq!(bar.get_text(), "axbc");
    bar.delete_char_at_caret();
    assert_eq!(bar.get_text(), "axc");
    bar.delete_char_before_caret();
    assert_eq!(bar.get_text(), "ac");
    bar.move_caret(10);
    bar.insert_char_at_caret('!');
    assert_eq!(bar.get_text(), "a!c", "an out-of-range caret move is ignored");
    bar.clear();
    assert_eq!(bar.get_text(), "");
}

#[test]
fn join_fills_author_fields_from_expansions() {
    let mut t = tweet("t1", "hi");
    t.author_username = None;
    t.author_name = None;
    let users = vec![User {
        id: "u1".to_string(),
        name: "Bob".to_string(),
        username: "bob".to_string(),
    }];
    let joined = join_authors(vec![t], &users);
    assert_eq!(joined[0].author_username, Some("bob".to_string()));
    assert_eq!(joined[0].author_name, Some("Bob".to_string()));

    let mut unknown = tweet("t2", "hi");
    unknown.author_id = "nobody".to_string();
    let joined = join_authors(vec![unknown], &users);
    assert_eq!(joined[0].author_username, None);
    assert_eq!(joined[0].author_name, None);
}

#[test]
fn author_record_fills_unknown_fields() {
    let mut t = tweet("t1", "hi");
    t.author_name = None;
    let author = t.author("[unknown]");
    assert_eq!(author.id, "u1");
    assert_eq!(author.username, "bob");
    assert_eq!(author.name, "[unknown]");
}

#[test]
fn quoted_tweet_is_mapped_and_traversed() {
    let store = Store::new(
        &User { id: "me".into(), name: "Me".into(), username: "me".into() },
        UserConfig::new(),
    );
    let mut pane = TweetPane::new("t0");
    pane.set_details(TweetDetails {
        in_reply_to_ids: None,
        tweet_id: "t0".to_string(),
        quote_id: Some((QuoteType::QuoteTweet, "q1".to_string())),
        reply_ids: Some(vec!["r1".to_string()]),
    });
    pane.update_scroll_buffer_and_focus_map(&store);
    assert_eq!(pane.current_focus(), Focus::Tweet);

    // The traversal order is primary tweet, quote, then the replies.
    pane.update_focus(1);
    assert_eq!(pane.current_focus(), Focus::Quote);
    pane.update_focus(1);
    assert_eq!(pane.current_focus(), Focus::Reply(0));
    pane.update_focus(-2);
    assert_eq!(pane.current_focus(), Focus::Tweet);
}
