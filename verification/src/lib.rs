//! A concurrent web-crawling engine: bounded-concurrency fetch scheduling,
//! retry with exponential backoff, response materialization with charset
//! decoding, and an ordered two-stage extraction/dispatch pipeline.
//!
//! The asynchronous driver (HTTP client, task spawning, sleeping) lives
//! outside this library; every scheduling, retry, decoding and dispatch
//! decision is made here, by verified functions over plain values.

pub mod collector;
pub mod context;
pub mod crawler;
pub mod dispatch;
pub mod foo;
pub mod plugins;
pub mod respond;
pub mod retry;
