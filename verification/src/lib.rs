//! Verified core of a volume-key listener: locating a named input device
//! among enumerated devices, classifying hardware key events into volume
//! actions, and planning the mixer/notification dispatch for each action.

pub mod events;
pub mod locator;
pub mod text;
pub mod volume;
