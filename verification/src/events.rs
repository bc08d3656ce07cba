//! Input events handed to the core, the cross-component bus events, and the
//! actions the core asks its surroundings to perform.

use vstd::prelude::*;

use crate::store::FeedSelector;

verus! {

/// A key, as the core reads it.
#[derive(Debug, Clone, Copy, PartialEq, Eq, Structural)]
pub enum KeyCode {
    Backspace,
    Enter,
    Left,
    Right,
    Up,
    Down,
    Tab,
    Delete,
    Esc,
    Char(char),
    Other,
}

/// A terminal key event.
#[derive(Debug, Clone, Copy, PartialEq, Eq, Structural)]
pub struct KeyEvent {
    pub code: KeyCode,
}

impl KeyEvent {
    pub fn new(code: KeyCode) -> (r: Self)
        ensures
            r == (KeyEvent { code }),
    {
        Self { code }
    }
}

/// A terminal event, as the core reads it.
#[derive(Debug, Clone, Copy, PartialEq, Eq, Structural)]
pub enum TerminalEvent {
    /// A key press.
    Key(KeyEvent),
    /// The terminal was resized to this many columns and rows.
    Resize(u16, u16),
    /// Any other terminal event.
    Other,
}

/// An event on the internal bus: background work reporting back to the loop.
#[derive(Debug)]
pub enum InternalEvent {
    /// A background task was spawned and must be awaited.
    TaskRegistered,
    /// Show the tweet with this id in a pager-style log view.
    LogTweet(String),
    /// A recoverable failure to print in the log.
    LogError(String),
}

/// Work the core cannot do itself and hands to its surroundings: I/O,
/// network fetches, and process control.
#[derive(Debug)]
pub enum UiAction {
    /// Fetch one page of the selected feed, sending this continuation token
    /// (none requests the first page), then report back through
    /// `complete_page_load` or `abort_page_load`.
    FetchPage { selector: FeedSelector, continuation_token: Option<String> },
    /// Resolve `username` to a user, then restart the feed with that user's
    /// tweets.
    ResolveUserAndLoadTweets { username: String },
    /// Persist the preference record.
    SaveUserConfig,
    /// Show the stored tweet with this id in a pager.
    ShowTweetInPager { tweet_id: String },
    /// Print one line in log mode.
    PrintLogLine { message: String },
    /// Enter the alternate screen and raw input.
    EnterAlternateScreen,
    /// Leave the alternate screen.
    LeaveAlternateScreen,
    /// Restore the terminal and exit.
    Quit,
}

} // verus!
