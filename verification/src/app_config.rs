//! Persisted user settings and the normalisation applied after loading them.

use crate::hotkey_config::HotkeyConfig;
use vstd::prelude::*;
use vstd::string::StringExecFns;

verus! {

/// What closing the main window does.
#[derive(Debug, Clone, Copy, PartialEq, Eq, Structural)]
pub enum CloseAction {
    /// Hide the window and keep running in the system tray.
    MinimizeToTray,
    /// Leave the program.
    ExitApp,
}

impl Default for CloseAction {
    fn default() -> (r: Self)
        ensures
            r == CloseAction::MinimizeToTray,
    {
        CloseAction::MinimizeToTray
    }
}

impl CloseAction {
    /// The label of this choice.
    pub open spec fn label(self) -> Seq<char> {
        match self {
            CloseAction::MinimizeToTray => "最小化到托盘"@,
            CloseAction::ExitApp => "退出程序"@,
        }
    }

    pub fn display(&self) -> (r: &'static str)
        ensures
            r@ == self.label(),
    {
        match self {
            CloseAction::MinimizeToTray => "最小化到托盘",
            CloseAction::ExitApp => "退出程序",
        }
    }
}

/// The history bound used when none, or zero, is configured.
pub const DEFAULT_HISTORY_MAX_ITEMS: u32 = 20;

/// The largest history bound that is kept.
pub const HISTORY_MAX_ITEMS_LIMIT: u32 = 100;

/// The per-character delay, in milliseconds, used when none is configured.
pub const DEFAULT_TYPING_DELAY: u64 = 20;

/// The effective history bound for a configured one: zero stands for the
/// default, anything above the limit for the limit.
pub open spec fn normalized_history_max(configured: u32) -> u32 {
    if configured == 0 {
        DEFAULT_HISTORY_MAX_ITEMS
    } else if configured > HISTORY_MAX_ITEMS_LIMIT {
        HISTORY_MAX_ITEMS_LIMIT
    } else {
        configured
    }
}

pub fn default_typing_delay() -> (r: u64)
    ensures
        r == DEFAULT_TYPING_DELAY,
{
    DEFAULT_TYPING_DELAY
}

pub fn default_typing_variance() -> (r: u64)
    ensures
        r == 0,
{
    0
}

pub fn default_language() -> (r: String)
    ensures
        r@ == "zh-CN"@,
{
    String::from_str("zh-CN")
}

pub fn default_history_max_items() -> (r: u32)
    ensures
        r == DEFAULT_HISTORY_MAX_ITEMS,
{
    DEFAULT_HISTORY_MAX_ITEMS
}

/// The persisted settings record.
#[derive(Debug, Clone)]
pub struct AppConfig {
    pub close_action: CloseAction,
    pub auto_start: bool,
    pub start_minimized: bool,
    /// Whether the user has already been asked about starting at login.
    pub autostart_asked: bool,
    pub show_console: bool,
    /// Base delay after each typed character, in milliseconds.
    pub typing_delay: u64,
    /// Upper bound of the random extra delay, in milliseconds.
    pub typing_variance: u64,
    pub typing_variance_enabled: bool,
    pub history_enabled: bool,
    pub history_max_items: u32,
    pub hotkey: HotkeyConfig,
    /// Language code of the interface.
    pub language: String,
}

impl Default for AppConfig {
    fn default() -> (r: Self)
        ensures
            r.is_builtin_default(),
    {
        AppConfig {
            close_action: CloseAction::MinimizeToTray,
            auto_start: false,
            start_minimized: false,
            autostart_asked: false,
            show_console: false,
            typing_delay: default_typing_delay(),
            typing_variance: default_typing_variance(),
            typing_variance_enabled: false,
            history_enabled: false,
            history_max_items: default_history_max_items(),
            hotkey: HotkeyConfig::default(),
            language: default_language(),
        }
    }
}

impl AppConfig {
    /// Whether every field holds its built-in default.
    pub open spec fn is_builtin_default(self) -> bool {
        &&& self.close_action == CloseAction::MinimizeToTray
        &&& !self.auto_start
        &&& !self.start_minimized
        &&& !self.autostart_asked
        &&& !self.show_console
        &&& self.typing_delay == DEFAULT_TYPING_DELAY
        &&& self.typing_variance == 0
        &&& !self.typing_variance_enabled
        &&& !self.history_enabled
        &&& self.history_max_items == DEFAULT_HISTORY_MAX_ITEMS
        &&& self.hotkey == HotkeyConfig::builtin_default()
        &&& self.language@ == "zh-CN"@
    }

    /// Whether the numeric bounds are within their ranges.
    pub open spec fn is_normalized(self) -> bool {
        1 <= self.history_max_items <= HISTORY_MAX_ITEMS_LIMIT
    }

    /// These settings with the history bound replaced by its effective value.
    pub open spec fn normalized(self) -> AppConfig {
        AppConfig { history_max_items: normalized_history_max(self.history_max_items), ..self }
    }

    /// These settings with the history bound brought into `[1, 100]`, as
    /// they are kept when the user saves them.
    pub open spec fn clamped(self) -> AppConfig {
        AppConfig {
            history_max_items: if self.history_max_items < 1 {
                1
            } else if self.history_max_items > HISTORY_MAX_ITEMS_LIMIT {
                HISTORY_MAX_ITEMS_LIMIT
            } else {
                self.history_max_items
            },
            ..self
        }
    }

    /// Brings the history bound into `[1, 100]` before edited settings are
    /// put into effect and saved.
    pub fn clamp_history_max_items(&mut self)
        ensures
            *final(self) == old(self).clamped(),
            final(self).is_normalized(),
    {
        if self.history_max_items < 1 {
            self.history_max_items = 1;
        } else if self.history_max_items > HISTORY_MAX_ITEMS_LIMIT {
            self.history_max_items = HISTORY_MAX_ITEMS_LIMIT;
        }
    }

    /// Finishes a load: `parsed` is the record read from the settings file,
    /// or `None` where the file could not be read or parsed. The built-in
    /// defaults stand in for a missing record, and the result is normalised.
    pub fn load(parsed: Option<AppConfig>) -> (r: AppConfig)
        ensures
            r.is_normalized(),
            parsed matches Some(c) ==> r == c.normalized(),
            parsed is None ==> r.is_builtin_default(),
    {
        let mut config = match parsed {
            Some(c) => c,
            None => AppConfig::default(),
        };
        config.normalize();
        config
    }

    /// Brings the history bound into `[1, 100]`, zero becoming the default.
    pub fn normalize(&mut self)
        ensures
            *final(self) == old(self).normalized(),
            final(self).is_normalized(),
    {
        if self.history_max_items == 0 {
            self.history_max_items = default_history_max_items();
        } else if self.history_max_items > HISTORY_MAX_ITEMS_LIMIT {
            self.history_max_items = HISTORY_MAX_ITEMS_LIMIT;
        }
    }
}

/// Reloading settings whose bounds were in range gives them back unchanged,
/// as it does for settings clamped before they were saved; normalising twice
/// is the same as normalising once; a bound of zero becomes the default.
pub proof fn lemma_reload_keeps_settings(c: AppConfig)
    ensures
        c.is_normalized() ==> c.normalized() == c,
        c.normalized().normalized() == c.normalized(),
        c.normalized().is_normalized(),
        c.history_max_items == 0 ==> c.normalized().history_max_items == DEFAULT_HISTORY_MAX_ITEMS,
        c.clamped().normalized() == c.clamped(),
{
}

} // verus!
