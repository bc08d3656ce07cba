use twitter_tool_rs::api::{Timestamp, Tweet, User};
use twitter_tool_rs::bottom_bar::BottomBar;
use twitter_tool_rs::bounding_box::BoundingBox;
use twitter_tool_rs::component::{Component, Render};
use twitter_tool_rs::draw::DrawOp;
use twitter_tool_rs::events::{
    InternalEvent, KeyCode, KeyEvent, TerminalEvent, UiAction,
};
use twitter_tool_rs::search_bar::SearchBar;
use twitter_tool_rs::store::{FeedSelector, Store};
use twitter_tool_rs::ui::{Mode, UI};
use twitter_tool_rs::user_config::UserConfig;

fn me() -> User {
    User { id: "me".to_string(), name: "Me".to_string(), username: "me_online".to_string() }
}

fn key(code: KeyCode) -> TerminalEvent {
    TerminalEvent::Key(KeyEvent::new(code))
}

#[test]
fn initialize_starts_first_load_and_enters_alternate_screen() {
    let mut ui = UI::new(&me(), UserConfig::new(), 80, 24);
    assert_eq!(ui.mode(), Mode::Log);
    let actions = ui.initialize();
    assert_eq!(actions.len(), 2);
    assert!(matches!(
        &actions[0],
        UiAction::FetchPage { selector: FeedSelector::HomeTimeline, continuation_token: None }
    ));
    assert!(matches!(&actions[1], UiAction::EnterAlternateScreen));
    assert_eq!(ui.mode(), Mode::Interactive);
}

#[test]
fn quit_key_requests_exit() {
    let mut ui = UI::new(&me(), UserConfig::new(), 80, 24);
    let _ = ui.initialize();
    let actions = ui.handle_terminal_event(&key(KeyCode::Char('q')));
    assert!(matches!(&actions[actions.len() - 1], UiAction::Quit));
}

#[test]
fn next_page_key_reports_exhaustion_on_a_fresh_feed() {
    let mut ui = UI::new(&me(), UserConfig::new(), 80, 24);
    // No page was ever loaded, so there is no continuation token.
    let actions = ui.handle_terminal_event(&key(KeyCode::Char('n')));
    assert_eq!(actions.len(), 1);
    assert!(matches!(
        &actions[0],
        UiAction::PrintLogLine { message } if message == "No more pages"
    ));
}

#[test]
fn restart_key_fetches_the_first_page() {
    let mut ui = UI::new(&me(), UserConfig::new(), 80, 24);
    let actions = ui.handle_terminal_event(&key(KeyCode::Char('r')));
    assert_eq!(actions.len(), 1);
    assert!(matches!(
        &actions[0],
        UiAction::FetchPage { selector: FeedSelector::HomeTimeline, continuation_token: None }
    ));
    // A second restart while the first is outstanding hits the contention
    // condition and leaves the first load untouched.
    let actions = ui.handle_terminal_event(&key(KeyCode::Char('r')));
    assert!(matches!(
        &actions[0],
        UiAction::PrintLogLine { message } if message == "Already in-flight"
    ));
}

#[test]
fn error_events_drop_to_log_mode_for_one_line() {
    let mut ui = UI::new(&me(), UserConfig::new(), 80, 24);
    let _ = ui.initialize();
    let actions = ui.handle_internal_event(InternalEvent::LogError("boom".to_string()));
    assert_eq!(ui.mode(), Mode::Log);
    assert!(matches!(&actions[0], UiAction::LeaveAlternateScreen));
    assert!(matches!(&actions[1], UiAction::PrintLogLine { message } if message == "boom"));
}

#[test]
fn task_bookkeeping_counts_up_and_down() {
    let mut ui = UI::new(&me(), UserConfig::new(), 80, 24);
    let _ = ui.handle_internal_event(InternalEvent::TaskRegistered);
    let _ = ui.handle_internal_event(InternalEvent::TaskRegistered);
    ui.task_completed();
    ui.task_completed();
    ui.task_completed();
    // The counter never goes below zero; completions only decrement.
    let ops = ui.render();
    assert!(!ops.is_empty());
}

#[test]
fn render_parks_cursor_at_focused_component() {
    let mut ui = UI::new(&me(), UserConfig::new(), 80, 24);
    let ops = ui.render();
    assert!(matches!(ops[ops.len() - 1], DrawOp::MoveTo(_, _)));
    // A second pass with nothing dirty repaints nothing but still parks the
    // cursor.
    let ops = ui.render();
    assert_eq!(ops.len(), 1);
    assert!(matches!(ops[0], DrawOp::MoveTo(_, _)));
}

#[test]
fn status_line_counts_tasks_and_tweets() {
    let store = Store::new(&me(), UserConfig::new());
    let mut bar = BottomBar::new();
    bar.set_num_tasks_in_flight(2);
    let ops = bar.render(&store, BoundingBox::new(0, 23, 80, 1));
    let printed: Vec<&str> = ops
        .iter()
        .filter_map(|op| match op {
            DrawOp::Print(s) => Some(s.as_str()),
            _ => None,
        })
        .collect();
    assert_eq!(printed, vec!["[* 2] 0 tweets"]);
}

#[test]
fn component_translates_cursor_into_absolute_coordinates() {
    let mut component = Component::new(SearchBar::new());
    component.bounding_box = BoundingBox::new(5, 3, 20, 1);
    // The search bar's own cursor sits after its two-column prompt.
    assert_eq!(component.get_cursor(), (7, 3));
}

#[test]
fn component_skips_clean_children() {
    let store = Store::new(&me(), UserConfig::new());
    let mut component = Component::new(BottomBar::new());
    component.bounding_box = BoundingBox::new(0, 23, 80, 1);
    assert!(!component.render_if_necessary(&store).is_empty());
    // The repaint cleared the dirty flag: rendering again does nothing.
    assert!(component.render_if_necessary(&store).is_empty());
}

#[test]
fn completed_page_load_reaches_the_screen() {
    let mut ui = UI::new(&me(), UserConfig::new(), 80, 24);
    let _ = ui.initialize();
    // Drain the initial paint so everything is clean.
    let _ = ui.render();
    assert_eq!(ui.render().len(), 1, "nothing is dirty before the page lands");

    let tweet = Tweet {
        id: "t1".to_string(),
        text: "a freshly loaded tweet".to_string(),
        created_at: Timestamp::new(2023, 6, 1, 12, 0, 0),
        author_id: "u1".to_string(),
        author_username: Some("bob".to_string()),
        author_name: Some("Bob".to_string()),
        conversation_id: None,
        referenced_tweets: None,
        attachments: None,
        public_metrics: None,
    };
    ui.page_load_completed(vec![tweet], None);

    // The completed load flagged the feed for a rebuild: the next render
    // pass repaints it with the new line.
    let ops = ui.render();
    assert!(ops.len() > 1, "the landed page repaints the feed");
    let printed: Vec<String> = ops
        .iter()
        .filter_map(|op| match op {
            DrawOp::Print(s) => Some(s.clone()),
            _ => None,
        })
        .collect();
    // At this width the body wraps, so one line with an ellipsis is painted.
    assert!(
        printed.iter().any(|s| s.contains("@bob")),
        "the new tweet's author is painted"
    );
    assert!(
        printed.iter().any(|s| s.contains("a freshly")),
        "the new tweet's body is painted"
    );
}
