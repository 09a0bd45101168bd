//! Forwarding of mouse-move events from a click-through overlay into a window
//! of another process: the decisions of the injection bridge and of the hook
//! pipeline, each stated as a contract over plain values.
pub mod geometry;
pub mod remote;
pub mod manager;
pub mod bridge;
pub mod listeners;
pub mod hook;
