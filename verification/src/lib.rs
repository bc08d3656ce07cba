//! Core of an interactive terminal client for a paginated social-media feed:
//! rectangle geometry, a virtualized scroll buffer, a component/render
//! framework, the shared store that drives single-flight page loads, and the
//! panes that compose them.

pub mod api;
pub mod assoc;
pub mod bottom_bar;
pub mod bounding_box;
pub mod component;
pub mod draw;
pub mod events;
pub mod feed_pane;
pub mod scroll_buffer;
pub mod search_bar;
pub mod store;
pub mod text;
pub mod tweet_pane;
pub mod twitter_client;
pub mod ui;
pub mod user_config;

use vstd::prelude::*;

verus! {

} // verus!
