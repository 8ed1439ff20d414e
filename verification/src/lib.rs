//! Background-processing core of a community chat-platform bot.
//!
//! The platform glue (command dispatch, web dashboard, network I/O) lives
//! outside this crate; here are the state machines and rules the workers
//! follow: score/tier accounting, the pending-verification session store,
//! the bounded outbound-mail queue, the idempotent menu publisher, the feed
//! synchronizer, and the ephemeral voice-room registry.

pub mod dashboard;
pub mod feed;
pub mod mailq;
pub mod menu;
pub mod ordered_map;
pub mod progress;
pub mod records;
pub mod rooms;
pub mod sessions;
pub mod telemetry;
pub mod textutil;
