//! Blog aggregation: classifies content sources (git mirrors and Atom/RSS feeds),
//! normalizes their items into canonical posts and renders each post as a markdown
//! file with front matter.

pub mod batch;
pub mod config;
pub mod date;
pub mod error;
pub mod feed;
pub mod matter;
pub mod post;
pub mod source;
pub mod sync;
pub mod text;
