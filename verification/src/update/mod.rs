//! The operations that keep the updater and NextUI up to date.

pub mod nextui;
pub mod release_check;
pub mod self_update;
pub mod startup;

pub use nextui::{do_update, update_nextui};
pub use release_check::do_nextui_release_check;
pub use self_update::{do_self_update, self_update};
