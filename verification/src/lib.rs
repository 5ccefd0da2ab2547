//! Link rewriting for a chat bot: find the links of a message that point at
//! `x.com` or `twitter.com`, rewrite each to `fxtwitter.com`, and compose the
//! reply that carries the rewritten links.
//!
//! Every function here is pure: it reads its arguments and nothing else, so any
//! number of messages can be handled at the same time.

pub mod text;
pub mod matcher;
pub mod rewriter;
pub mod composer;
pub mod handler;
