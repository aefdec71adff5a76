//! A desktop gesture router: multi-touch gesture events arrive as small
//! integer codes, the identity of the focused window is kept as a snapshot,
//! and a fixed dispatch policy turns the pair into at most one outbound
//! action (a global shortcut, a desktop switch, a file-manager action on the
//! focused instance, or an injected key event).
//!
//! This crate holds the decision-making core. The transport around it (the
//! session bus, the key-injection subprocess) performs the actions that the
//! core selects and feeds it the events it consumes.

pub mod action;
pub mod context;
pub mod dispatch;
pub mod filemanager;
pub mod gesture;
pub mod laws;
pub mod text;
