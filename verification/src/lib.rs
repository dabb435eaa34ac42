//! Verified core of a web-search launcher plugin: query handling, search
//! result extraction from result pages, and the task queue that serialises
//! searches.

pub mod text;
pub mod search;
pub mod browser_utils;
pub mod search_queue;
pub mod search_thread;
pub mod plugin;
pub mod bypass;
