//! Interaction core of a husbandry-tracking chat bot: the action codec,
//! the per-chat conversation store, the recipient registry and the
//! decisions of the periodic alert scheduler.
use vstd::prelude::*;

pub mod action;
pub mod conversation;
pub mod dispatch;
pub mod keyboards;
pub mod models;
pub mod naming;
pub mod notify;
pub mod number;
pub mod registry;
