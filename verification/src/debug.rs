//! Debug logging of the browser SDK: the severity levels, the categories,
//! and which messages a logger passes on to its callback.
//!
//! The callback and the clock belong to the caller; a `Debug` holds whether
//! logging is enabled and the most verbose level it lets through, and
//! builds the message that the callback receives.
use vstd::prelude::*;

verus! {

/// Debug severity level, from the most to the least severe.
#[derive(Debug, Clone, Copy, PartialEq, Eq, Structural)]
pub enum DebugLevel {
    Error,
    Warn,
    Info,
    Debug,
}

/// The rank of a level: `Error` is 0, `Warn` 1, `Info` 2, `Debug` 3.
pub open spec fn level_rank(l: DebugLevel) -> int {
    match l {
        DebugLevel::Error => 0,
        DebugLevel::Warn => 1,
        DebugLevel::Info => 2,
        DebugLevel::Debug => 3,
    }
}

impl DebugLevel {
    /// The rank of the level (`Error` 0 to `Debug` 3).
    pub fn rank(&self) -> (r: u8)
        ensures
            r == level_rank(*self),
    {
        match self {
            DebugLevel::Error => 0,
            DebugLevel::Warn => 1,
            DebugLevel::Info => 2,
            DebugLevel::Debug => 3,
        }
    }
}

/// A debug log message, as handed to the callback.
#[derive(Debug)]
pub struct DebugMessage {
    /// Milliseconds since the Unix epoch.
    pub timestamp: u64,
    pub level: DebugLevel,
    pub category: String,
    pub message: String,
    pub data: Option<serde_json::Value>,
}

/// The debug logger's settings: enabled or not, and the most verbose level
/// it passes on.
pub struct Debug {
    level: DebugLevel,
    enabled: bool,
}

/// Abstract settings of a debug logger.
pub struct DebugState {
    pub level: DebugLevel,
    pub enabled: bool,
}

impl View for Debug {
    type V = DebugState;

    closed spec fn view(&self) -> DebugState {
        DebugState { level: self.level, enabled: self.enabled }
    }
}

/// Whether a logger with these settings passes on a message of `level`:
/// it is enabled and the message is no more verbose than its level.
pub open spec fn passes(s: DebugState, level: DebugLevel) -> bool {
    s.enabled && level_rank(level) <= level_rank(s.level)
}

impl Debug {
    /// A disabled logger at level `Error`.
    pub fn new() -> (r: Self)
        ensures
            !r@.enabled,
            r@.level == DebugLevel::Error,
    {
        Debug { level: DebugLevel::Error, enabled: false }
    }

    /// Set the most verbose level passed on.
    pub fn set_level(&mut self, level: DebugLevel)
        ensures
            final(self)@.level == level,
            final(self)@.enabled == old(self)@.enabled,
    {
        self.level = level;
    }

    /// Enable logging.
    pub fn enable(&mut self)
        ensures
            final(self)@.enabled,
            final(self)@.level == old(self)@.level,
    {
        self.enabled = true;
    }

    /// Disable logging.
    pub fn disable(&mut self)
        ensures
            !final(self)@.enabled,
            final(self)@.level == old(self)@.level,
    {
        self.enabled = false;
    }

    /// Apply the given settings, leaving the others as they are.
    pub fn configure(&mut self, enabled: Option<bool>, level: Option<DebugLevel>)
        ensures
            final(self)@.enabled == match enabled {
                Some(e) => e,
                None => old(self)@.enabled,
            },
            final(self)@.level == match level {
                Some(l) => l,
                None => old(self)@.level,
            },
    {
        if let Some(e) = enabled {
            if e {
                self.enable();
            } else {
                self.disable();
            }
        }
        if let Some(l) = level {
            self.set_level(l);
        }
    }

    /// Whether a message of `level` is passed on.
    pub fn should_log(&self, level: DebugLevel) -> (r: bool)
        ensures
            r == passes(self@, level),
    {
        self.enabled && level.rank() <= self.level.rank()
    }

    /// The message for the callback, when a message of `level` is passed on.
    pub fn write_log(
        &self,
        level: DebugLevel,
        category: &str,
        message: &str,
        data: Option<serde_json::Value>,
        timestamp: u64,
    ) -> (r: Option<DebugMessage>)
        ensures
            match r {
                Some(m) => passes(self@, level) && m.level == level && m.category@ == category@
                    && m.message@ == message@ && m.data == data && m.timestamp == timestamp,
                None => !passes(self@, level),
            },
    {
        if !self.should_log(level) {
            return None;
        }
        Some(
            DebugMessage {
                timestamp,
                level,
                category: String::from_str(category),
                message: String::from_str(message),
                data,
            },
        )
    }

    /// An error message for the callback, when errors are passed on.
    pub fn error(&self, category: &str, message: &str, data: Option<serde_json::Value>, timestamp: u64) -> (r:
        Option<DebugMessage>)
        ensures
            r is Some <==> self@.enabled,
            r matches Some(m) ==> m.level == DebugLevel::Error && m.category@ == category@ && m.message@
                == message@,
    {
        self.write_log(DebugLevel::Error, category, message, data, timestamp)
    }

    /// A warning for the callback, when warnings are passed on.
    pub fn warn(&self, category: &str, message: &str, data: Option<serde_json::Value>, timestamp: u64) -> (r:
        Option<DebugMessage>)
        ensures
            r is Some <==> passes(self@, DebugLevel::Warn),
            r matches Some(m) ==> m.level == DebugLevel::Warn && m.category@ == category@ && m.message@
                == message@,
    {
        self.write_log(DebugLevel::Warn, category, message, data, timestamp)
    }

    /// An informational message for the callback, when those are passed on.
    pub fn info(&self, category: &str, message: &str, data: Option<serde_json::Value>, timestamp: u64) -> (r:
        Option<DebugMessage>)
        ensures
            r is Some <==> passes(self@, DebugLevel::Info),
            r matches Some(m) ==> m.level == DebugLevel::Info && m.category@ == category@ && m.message@
                == message@,
    {
        self.write_log(DebugLevel::Info, category, message, data, timestamp)
    }

    /// A debug message for the callback, when those are passed on.
    pub fn debug(&self, category: &str, message: &str, data: Option<serde_json::Value>, timestamp: u64) -> (r:
        Option<DebugMessage>)
        ensures
            r is Some <==> passes(self@, DebugLevel::Debug),
            r matches Some(m) ==> m.level == DebugLevel::Debug && m.category@ == category@ && m.message@
                == message@,
    {
        self.write_log(DebugLevel::Debug, category, message, data, timestamp)
    }

    /// Same as `debug`.
    pub fn log(&self, category: &str, message: &str, data: Option<serde_json::Value>, timestamp: u64) -> (r:
        Option<DebugMessage>)
        ensures
            r is Some <==> passes(self@, DebugLevel::Debug),
            r matches Some(m) ==> m.level == DebugLevel::Debug && m.category@ == category@ && m.message@
                == message@,
    {
        self.write_log(DebugLevel::Debug, category, message, data, timestamp)
    }
}

/// A logger passes on every message at least as severe as one it passes on.
pub proof fn law_levels_nest(s: DebugState, more: DebugLevel, less: DebugLevel)
    requires
        level_rank(less) <= level_rank(more),
        passes(s, more),
    ensures
        passes(s, less),
{
}

/// Debug category names.
pub struct DebugCategory;

impl DebugCategory {
    pub const BROWSER_SDK: &'static str = "BrowserSDK";
    pub const PROVIDER_MANAGER: &'static str = "ProviderManager";
    pub const EMBEDDED_PROVIDER: &'static str = "EmbeddedProvider";
    pub const INJECTED_PROVIDER: &'static str = "InjectedProvider";
    pub const PHANTOM_CONNECT_AUTH: &'static str = "PhantomConnectAuth";
    pub const JWT_AUTH: &'static str = "JWTAuth";
    pub const STORAGE: &'static str = "Storage";
    pub const SESSION: &'static str = "Session";
}

/// A logger of the embedded provider: when disabled, every call is a no-op.
pub struct BrowserLogger {
    enabled: bool,
}

impl BrowserLogger {
    /// A logger, enabled or not.
    pub fn new(enabled: bool) -> (r: Self)
        ensures
            r.is_enabled() == enabled,
    {
        BrowserLogger { enabled }
    }

    /// Whether the logger emits anything.
    pub closed spec fn is_enabled(&self) -> bool {
        self.enabled
    }

    /// Whether a call emits an event: exactly when the logger is enabled.
    pub fn emits(&self) -> (r: bool)
        ensures
            r == self.is_enabled(),
    {
        self.enabled
    }
}

} // verus!
