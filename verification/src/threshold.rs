//! The threshold store: the one piece of state that logging shares.
//!
//! A store holds the most verbose severity that is emitted now, and
//! remembers whether a logger has been installed into it. It starts at
//! `Off`, so nothing is emitted until it is configured. The threshold may
//! be overwritten at any time; a logger is installed at most once, and a
//! second attempt is refused rather than obeyed.
//!
//! The store is a plain value. Whoever shares one between threads keeps it
//! behind a lock or in a single word, so that a reader sees the threshold
//! of before a write or that of after it, and nothing in between.

use vstd::prelude::*;

use crate::error::LogError;
use crate::level::Level;

verus! {

/// The threshold store.
#[derive(Clone, Copy, Debug)]
pub struct ThresholdStore {
    threshold: Level,
    installed: bool,
}

/// What a store holds, as a value.
pub struct StoreState {
    /// The most verbose severity that is emitted.
    pub threshold: Level,
    /// Whether a logger has been installed.
    pub installed: bool,
}

impl StoreState {
    /// The state in which every store starts.
    pub open spec fn initial() -> StoreState {
        StoreState { threshold: Level::Off, installed: false }
    }

    /// The state after the threshold has been overwritten with `level`.
    pub open spec fn with_threshold(self, level: Level) -> StoreState {
        StoreState { threshold: level, installed: self.installed }
    }

    /// The state after an attempt to install a logger of threshold `level`:
    /// unchanged where one was installed before.
    pub open spec fn after_install(self, level: Level) -> StoreState {
        if self.installed {
            self
        } else {
            StoreState { threshold: level, installed: true }
        }
    }
}

impl View for ThresholdStore {
    type V = StoreState;

    closed spec fn view(&self) -> StoreState {
        StoreState { threshold: self.threshold, installed: self.installed }
    }
}

impl ThresholdStore {
    /// A store at threshold `Off`, with no logger installed.
    pub fn new() -> (store: ThresholdStore)
        ensures
            store@ == StoreState::initial(),
    {
        ThresholdStore { threshold: Level::Off, installed: false }
    }

    /// The threshold now in force.
    pub fn current_threshold(&self) -> (level: Level)
        ensures
            level == self@.threshold,
    {
        self.threshold
    }

    /// Whether a logger has been installed.
    pub fn is_installed(&self) -> (installed: bool)
        ensures
            installed == self@.installed,
    {
        self.installed
    }

    /// Whether a line of the given severity is emitted now.
    pub fn is_enabled(&self, severity: Level) -> (enabled: bool)
        ensures
            enabled == severity.passes(self@.threshold),
    {
        severity.is_enabled(self.threshold)
    }

    /// Installs a logger of threshold `level`. The first attempt succeeds
    /// and sets the threshold; every later one fails with
    /// `AlreadyInitialized` and changes nothing.
    pub fn install(&mut self, level: Level) -> (r: Result<(), LogError>)
        ensures
            final(self)@ == old(self)@.after_install(level),
            r == (if old(self)@.installed {
                Err::<(), LogError>(LogError::AlreadyInitialized)
            } else {
                Ok::<(), LogError>(())
            }),
    {
        if self.installed {
            Err(LogError::AlreadyInitialized)
        } else {
            self.threshold = level;
            self.installed = true;
            Ok(())
        }
    }
}

impl Default for ThresholdStore {
    fn default() -> (store: ThresholdStore)
        ensures
            store@ == StoreState::initial(),
    {
        ThresholdStore::new()
    }
}

/// Overwrites the threshold of `store` with `lvl`, whatever it was.
pub fn set_log_level(store: &mut ThresholdStore, lvl: Level)
    ensures
        final(store)@ == old(store)@.with_threshold(lvl),
{
    store.threshold = lvl;
}

/// Setting a threshold twice in a row leaves the store as setting it once
/// does.
pub proof fn lemma_set_twice_is_set_once(state: StoreState, level: Level)
    ensures
        state.with_threshold(level).with_threshold(level) == state.with_threshold(level),
{
}

/// What was set is what is in force: of two thresholds set in a row the
/// second one stands, and whether a logger is installed is not touched.
pub proof fn lemma_last_threshold_stands(state: StoreState, first: Level, second: Level)
    ensures
        state.with_threshold(first).with_threshold(second) == state.with_threshold(second),
        state.with_threshold(second).threshold == second,
        state.with_threshold(second).installed == state.installed,
{
}

/// Once the threshold is set to `Off`, no severity but `Off` itself is
/// emitted.
pub proof fn lemma_threshold_off_is_silent(state: StoreState, severity: Level)
    requires
        severity != Level::Off,
    ensures
        !severity.passes(state.with_threshold(Level::Off).threshold),
{
}

/// Once the threshold is set to `Trace`, every severity is emitted.
pub proof fn lemma_threshold_trace_is_open(state: StoreState, severity: Level)
    ensures
        severity.passes(state.with_threshold(Level::Trace).threshold),
{
}

/// A fresh store emits nothing: its threshold is `Off`.
pub proof fn lemma_initial_store_is_silent(severity: Level)
    requires
        severity != Level::Off,
    ensures
        !severity.passes(StoreState::initial().threshold),
{
}

/// A logger is installed at most once: after any attempt one is installed,
/// and a further attempt changes nothing.
pub proof fn lemma_install_happens_once(state: StoreState, first: Level, second: Level)
    ensures
        state.after_install(first).installed,
        state.after_install(first).after_install(second) == state.after_install(first),
{
}

} // verus!
