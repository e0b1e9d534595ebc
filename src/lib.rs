//! Comments attached to discussion topics, and a bounded list of the topics
//! that saw activity most recently.

pub mod recency;
pub mod pipeline;
pub mod comment;
pub mod redis;
pub mod response;
pub mod service;
