//! Motion events of a camera, as a typed and time-aware status stream.
//!
//! A listener turns the notifications of the camera into statuses and pushes
//! them into a bounded queue ([`listener`]). A session at the other end of
//! the queue answers whether motion is active now, or was a moment ago
//! ([`session`], [`status`]), and a debounce engine waits until motion has
//! started or stopped for good ([`debounce`]). The modules [`pipeline`],
//! [`draining`] and [`stability`] state what holds of every run of the three.
//!
//! Beside them stand the commands that arm the camera ([`command`]), the
//! clock ([`clock`]), and the writer in front of a media source that is
//! provided later ([`maybe_app_src`]).
//!
//! This crate decides and never waits: waiting on the queue, on a timer or
//! on the transport is left to its caller, who is told what to wait for and
//! reports what came of it.

pub mod clock;
pub mod command;
pub mod debounce;
pub mod draining;
pub mod listener;
pub mod maybe_app_src;
pub mod pipeline;
pub mod session;
pub mod stability;
pub mod status;
