//! The screens. Each keeps to itself whether it is the one that is shown,
//! takes every action and every key, and answers a key with one action at most.

pub mod details;
pub mod download_popup;
pub mod home;
pub mod list;
pub mod selection;
