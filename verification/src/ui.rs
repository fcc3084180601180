//! The state behind the menus, the dialogs and the windows. Drawing them is
//! the caller's part.

pub mod dialogs;
pub mod layout;
pub mod menus;
