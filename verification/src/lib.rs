//! A small narration pipeline: a batch of discussion-thread records is
//! fetched once, published to the presentation layer, and spoken line by
//! line, with a pause gate consulted before each title and a cooperative
//! cancellation token consulted between narration units.
//!
//! This crate holds the verified core: the data records, the narration
//! text, the narration step machine, the presentation state machine, and
//! the single-slot signal models. The surrounding process (window, HTTP
//! fetch, speech engine, timers) drives these machines from outside.

pub mod dto;
pub mod lines;
pub mod presentation;
pub mod runner;
pub mod signals;
pub mod trace;
pub mod tts_service;

pub use dto::RedditPost;
pub use dto::RedditPostsDTO;
pub use presentation::ThreadData;
pub use tts_service::TtsService;
