//! A typed, fallible control interface over instrument sessions reached
//! through VISA, with every rule of it verified.
//!
//! The crate never talks to an instrument itself. It reaches the bus through a
//! [`transport::Transport`], of which nothing is assumed, wrapped in a
//! [`transport::Link`] that records what was exchanged. On top of that stand:
//!
//! - [`error`]: the classification of status codes into typed errors, at one
//!   choke point;
//! - [`attribute`]: the attribute kinds, their registry, and the codecs between
//!   raw values and typed values;
//! - [`session`], [`message`], [`subscription`]: the operations on an open
//!   session;
//! - [`event`]: event types, handlers, and the table of installed handlers;
//! - [`registry`] and [`task`]: the record of completed jobs and the pollable
//!   task that stands for one asynchronous transfer.
pub mod attribute;
pub mod bindings;
pub mod error;
pub mod event;
pub mod message;
pub mod registry;
pub mod resource_manager;
pub mod session;
pub mod subscription;
pub mod task;
pub mod text;
pub mod time;
pub mod transport;
