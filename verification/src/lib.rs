//! Clipboard-to-keystroke utility core: settings, hotkey bindings, locale
//! lookup, clipboard history and the typing-session state machine.

pub mod app_config;
pub mod hotkey_config;
pub mod platform;
pub mod text;
pub mod catalog;
pub mod i18n;
pub mod builtin_catalogs;
pub mod session;
pub mod shared_state;
pub mod permissions;
pub mod shell;
pub mod worker_run;
