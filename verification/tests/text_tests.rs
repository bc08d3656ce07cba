use twitter_tool_rs::api::Timestamp;
use twitter_tool_rs::text::{
    collapse_newlines, make_spaces, parse_twitter_handle, push_usize, wrap_text,
};

#[test]
fn feed_pane_test_regex() {
    let str = "Detected new closed trade\n\nTrader: @Burgerinnn\nSymbol: $ETH\nPosition: short ↘\u{fe0f}\nEntry: 1 500.6\nExit: 1 498.2\nProfit: 3 994\nLeverage: 10x\n\nEntry, take profit, stats, leaderboard can be found at https://t.co/EFjrCz4DgD";
    let result = collapse_newlines(str);
    let expected = "Detected new closed trade⏎ Trader: @Burgerinnn⏎ Symbol: $ETH⏎ Position: short ↘\u{fe0f}⏎ Entry: 1 500.6⏎ Exit: 1 498.2⏎ Profit: 3 994⏎ Leverage: 10x⏎ Entry, take profit, stats, leaderboard can be found at https://t.co/EFjrCz4DgD";
    assert_eq!(result, expected);
}

#[test]
fn tweets_pane_test_regex() {
    let str = "Detected new closed trade\n\nTrader: @Burgerinnn\nSymbol: $ETH\nPosition: short ↘\u{fe0f}\nEntry: 1 500.6\nExit: 1 498.2\nProfit: 3 994\nLeverage: 10x\n\nEntry, take profit, stats, leaderboard can be found at https://t.co/EFjrCz4DgD";
    let result = collapse_newlines(str);
    let expected = "Detected new closed trade⏎ Trader: @Burgerinnn⏎ Symbol: $ETH⏎ Position: short ↘\u{fe0f}⏎ Entry: 1 500.6⏎ Exit: 1 498.2⏎ Profit: 3 994⏎ Leverage: 10x⏎ Entry, take profit, stats, leaderboard can be found at https://t.co/EFjrCz4DgD";
    assert_eq!(result, expected);
}

#[test]
fn test_segmentation() {
    // NB: expectation is correct; reasoning may be subtle
    let str = "Why did the chicken cross the road?\n\nBecause he wanted to get to the other side.";
    let result = wrap_text(str, 20);
    assert_eq!(
        result,
        vec![
            "Why did the chicken",
            "cross the road?",
            "",
            "Because he wanted",
            "to get to the other",
            "side."
        ]
    );
}

#[test]
fn collapse_merges_break_runs_into_one_glyph() {
    assert_eq!(collapse_newlines("a\r\nb\nc"), "a⏎ b⏎ c");
}

#[test]
fn collapse_of_empty_text_is_empty() {
    assert_eq!(collapse_newlines(""), "");
}

#[test]
fn collapse_of_only_breaks_is_one_glyph() {
    assert_eq!(collapse_newlines("\r\n\r\n"), "⏎ ");
}

#[test]
fn handle_is_parsed_without_its_marker() {
    assert_eq!(parse_twitter_handle("@Some_user9"), Some("Some_user9".to_string()));
}

#[test]
fn empty_term_is_no_handle() {
    assert_eq!(parse_twitter_handle(""), None);
}

#[test]
fn bare_marker_is_no_handle() {
    assert_eq!(parse_twitter_handle("@"), None);
}

#[test]
fn term_without_marker_is_no_handle() {
    assert_eq!(parse_twitter_handle("someuser"), None);
}

#[test]
fn term_with_forbidden_character_is_no_handle() {
    assert_eq!(parse_twitter_handle("@a b"), None);
    assert_eq!(parse_twitter_handle("@na\u{ef}ve"), None);
}

#[test]
fn spaces_have_the_requested_width() {
    assert_eq!(make_spaces(0), "");
    assert_eq!(make_spaces(4), "    ");
}

#[test]
fn wrapping_an_empty_text_yields_one_empty_line() {
    let lines = wrap_text("", 10);
    assert_eq!(lines, vec![""]);
}

#[test]
fn decimal_rendering_is_exact() {
    for (n, expected) in [(0usize, "0"), (7, "7"), (12345, "12345")] {
        let mut out: Vec<char> = Vec::new();
        push_usize(&mut out, n);
        let got: String = out.iter().collect();
        assert_eq!(got, expected);
    }
}

#[test]
fn timestamps_render_zero_padded() {
    let ts = Timestamp::new(2023, 1, 5, 7, 9, 3);
    let mut short: Vec<char> = Vec::new();
    ts.push_short(&mut short);
    assert_eq!(short.iter().collect::<String>(), "01-05 07:09:03");
    let mut long: Vec<char> = Vec::new();
    ts.push_long(&mut long);
    assert_eq!(long.iter().collect::<String>(), "2023-01-05 07:09:03");
}
