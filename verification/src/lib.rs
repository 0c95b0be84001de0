//! Verified decision logic of the hush prompt dialogs: the pinentry
//! front end, the keyring prompter and the polkit conversation window.

pub mod text;
pub mod info;
pub mod labels;
pub mod frontend;
pub mod dialog;
pub mod ui;
pub mod fade;
pub mod conversation;
pub mod prompt;
