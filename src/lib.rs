//! A friend ledger: friends with running balances, and a split-bill engine
//! that divides a shared bill between the user and one selected friend.

pub mod money;
pub mod error;
pub mod friend;
pub mod registry;
pub mod selection;
pub mod add_form;
pub mod split;
pub mod ledger;
