//! The guard that refuses to change proxy and logging settings while the
//! service is live.

use crate::log::{collect_lines, in_order, shown_all, LogLevel, LogLine};
use vstd::prelude::*;

verus! {

/// The two groups of settings that the guard watches. Each is held in a
/// rendering that is equal exactly when the settings are equal; any other
/// setting is none of the guard's business and has no place here.
#[derive(Clone, Debug, PartialEq, Eq)]
pub struct ConfigSnapshot {
    pub proxy: String,
    pub logging: String,
}

/// A snapshot as the contracts see it.
pub struct SnapshotView {
    pub proxy: Seq<char>,
    pub logging: Seq<char>,
}

impl View for ConfigSnapshot {
    type V = SnapshotView;

    open spec fn view(&self) -> SnapshotView {
        SnapshotView { proxy: self.proxy@, logging: self.logging@ }
    }
}

/// The warning for proxy settings that differ from the snapshot.
pub open spec fn proxy_warning(held: SnapshotView, new: SnapshotView) -> Option<
    (LogLevel, Seq<char>),
> {
    if new.proxy != held.proxy {
        Some((LogLevel::Warn, "[ARTI] Cannot reconfigure proxy settings while running"@))
    } else {
        None
    }
}

/// The warning for logging settings that differ from the snapshot.
pub open spec fn logging_warning(held: SnapshotView, new: SnapshotView) -> Option<
    (LogLevel, Seq<char>),
> {
    if new.logging != held.logging {
        Some((LogLevel::Warn, "[ARTI] Cannot reconfigure logging while running"@))
    } else {
        None
    }
}

/// The application's own observer of configuration changes. It holds the
/// configuration that was in effect when the service was constructed and never
/// changes it.
pub struct Application {
    original_config: ConfigSnapshot,
}

impl Application {
    /// The configuration that the guard compares against.
    pub closed spec fn snapshot(&self) -> SnapshotView {
        self.original_config@
    }

    pub fn new(cfg: ConfigSnapshot) -> (app: Self)
        ensures
            app.snapshot() == cfg@,
    {
        Self { original_config: cfg }
    }

    /// Looks at a new configuration. A change to the proxy settings and a
    /// change to the logging settings are each answered with a warning, in this
    /// order; nothing is applied and nothing fails.
    pub fn reconfigure(&self, new: &ConfigSnapshot) -> (lines: Vec<LogLine>)
        ensures
            shown_all(lines@) == in_order(
                proxy_warning(self.snapshot(), new@),
                logging_warning(self.snapshot(), new@),
            ),
    {
        let held = &self.original_config;
        let proxy = if new.proxy == held.proxy {
            None
        } else {
            Some(
                LogLine::warn(
                    String::from_str("[ARTI] Cannot reconfigure proxy settings while running"),
                ),
            )
        };
        let logging = if new.logging == held.logging {
            None
        } else {
            Some(
                LogLine::warn(String::from_str("[ARTI] Cannot reconfigure logging while running")),
            )
        };
        collect_lines(proxy, logging)
    }
}

} // verus!
