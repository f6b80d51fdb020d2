//! Decision logic for an automatic tiling helper.
//!
//! Given a snapshot of a window manager's node tree and an aspect-ratio
//! threshold, the library decides whether a `splitv` or `splith` command
//! should be issued so that the next window opens in the better direction.
//! All IPC (fetching the tree, sending commands, subscribing to events)
//! lives outside the library; the library works on plain values.

pub mod decision;
pub mod filter;
pub mod ratio;
pub mod runtime;
pub mod tree;
