//! A verified server-side data and authorization layer for a multi-room
//! group-chat application.
//!
//! The library maintains users, group chats, memberships and messages in a
//! small relational model, and enforces who may join, rename, or post where.
//! Every state-transition operation (reducer) is an atomic, all-or-nothing
//! mutation of the model with a contract that pins down exactly when it
//! succeeds, which error it returns otherwise, and what changed.

pub mod laws;
pub mod model;
pub mod reducers;
