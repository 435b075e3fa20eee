//! The console sink itself: a runtime-adjustable configuration whose derived
//! threshold is handed to the logging facade the moment it changes.

use vstd::prelude::*;
use crate::level::{Level, Threshold, spec_threshold, threshold};
use crate::render::{format_record, rendered_line};

verus! {

/// Returned by `try_init` when a sink is already installed in the facade.
#[derive(Clone, Copy, PartialEq, Eq, Structural, Debug)]
pub struct AlreadyInitializedError;

/// Mathematical state of the sink: the two configuration fields, whether the
/// sink has been installed into the facade, and the threshold most recently
/// published to the facade.
pub struct SinkView {
    pub quiet: bool,
    pub verbosity: nat,
    pub installed: bool,
    pub published: Threshold,
}

/// State transition of `set_quiet`: the flag is stored and the threshold
/// derived from the new configuration is published.
pub open spec fn set_quiet_transition(s: SinkView, enabled: bool) -> SinkView {
    SinkView { quiet: enabled, published: spec_threshold(enabled, s.verbosity), ..s }
}

/// State transition of `set_verbosity`: the knob is stored and the threshold
/// derived from the new configuration is published.
pub open spec fn set_verbosity_transition(s: SinkView, verbosity: nat) -> SinkView {
    SinkView { verbosity, published: spec_threshold(s.quiet, verbosity), ..s }
}

/// State transition of `try_init` and `init`: the current threshold is
/// published and the sink counts as installed; the configuration is kept.
pub open spec fn init_transition(s: SinkView) -> SinkView {
    SinkView { installed: true, published: spec_threshold(s.quiet, s.verbosity), ..s }
}

/// The published threshold matches the current configuration: the facade's
/// filter is not stale relative to any completed change.
pub open spec fn synced(s: SinkView) -> bool {
    s.published == spec_threshold(s.quiet, s.verbosity)
}

/// The state of a sink that has not been touched yet: default configuration,
/// not installed, and nothing published (the facade starts with `Off`).
pub open spec fn initial_sink() -> SinkView {
    SinkView { quiet: false, verbosity: 0, installed: false, published: Threshold::Off }
}

/// Recomputes the threshold for the given configuration and publishes it to
/// the logging facade, returning the published value.
pub fn update_max_level(quiet: bool, verbosity: usize) -> (t: Threshold)
    ensures
        t == spec_threshold(quiet, verbosity as nat),
{
    let t = threshold(quiet, verbosity);
    publish_max_level(t);
    t
}

/// Relies on `log::set_max_level`: stores the filter in the facade's global
/// maximum-level atomic, which the facade's macros consult before handing a
/// record to the installed sink.
#[verifier::external_body]
fn publish_max_level(t: Threshold) {
    log::set_max_level(match t {
        Threshold::Off => log::LevelFilter::Off,
        Threshold::Error => log::LevelFilter::Error,
        Threshold::Warn => log::LevelFilter::Warn,
        Threshold::Info => log::LevelFilter::Info,
        Threshold::Debug => log::LevelFilter::Debug,
        Threshold::Trace => log::LevelFilter::Trace,
    });
}

/// A console log sink with a runtime-adjustable verbosity threshold.
///
/// The sink holds the quiet flag and the verbosity knob, and republishes the
/// threshold derived from them to the logging facade before any setter
/// returns. The `installed` field mirrors the facade's single registration
/// point; a host wiring the sink into a process-wide facade keeps that flag
/// in step with the facade's own registration state.
pub struct ConsoleSink {
    quiet: bool,
    verbosity: usize,
    installed: bool,
    published: Ghost<Threshold>,
}

impl View for ConsoleSink {
    type V = SinkView;

    closed spec fn view(&self) -> SinkView {
        SinkView {
            quiet: self.quiet,
            verbosity: self.verbosity as nat,
            installed: self.installed,
            published: self.published@,
        }
    }
}

impl ConsoleSink {
    /// A sink in its initial state: not quiet, verbosity `0`, not installed.
    pub fn new() -> (s: ConsoleSink)
        ensures
            s@ == initial_sink(),
    {
        ConsoleSink { quiet: false, verbosity: 0, installed: false, published: Ghost(Threshold::Off) }
    }

    /// Publishes the current threshold, then installs the sink; fails if a
    /// sink is already installed, leaving the configuration as it was.
    pub fn try_init(&mut self) -> (r: Result<(), AlreadyInitializedError>)
        ensures
            final(self)@ == init_transition(old(self)@),
            r == (if old(self)@.installed {
                Err::<(), AlreadyInitializedError>(AlreadyInitializedError)
            } else {
                Ok::<(), AlreadyInitializedError>(())
            }),
    {
        let t = update_max_level(self.quiet, self.verbosity);
        self.published = Ghost(t);
        if self.installed {
            Err(AlreadyInitializedError)
        } else {
            self.installed = true;
            Ok(())
        }
    }

    /// Publishes the current threshold, then installs the sink. May be
    /// called at most once: a repeated call is ruled out up front, since it
    /// could only fail.
    pub fn init(&mut self)
        requires
            !old(self)@.installed,
        ensures
            final(self)@ == init_transition(old(self)@),
    {
        let _r = self.try_init();
    }

    /// Whether quiet mode is on.
    pub fn quiet(&self) -> (r: bool)
        ensures
            r == self@.quiet,
    {
        self.quiet
    }

    /// Turns quiet mode on or off, then republishes the derived threshold.
    /// While quiet mode is on, every record is suppressed.
    pub fn set_quiet(&mut self, enabled: bool)
        ensures
            final(self)@ == set_quiet_transition(old(self)@, enabled),
    {
        self.quiet = enabled;
        let t = update_max_level(self.quiet, self.verbosity);
        self.published = Ghost(t);
    }

    /// The current verbosity.
    pub fn verbosity(&self) -> (r: usize)
        ensures
            r == self@.verbosity,
    {
        self.verbosity
    }

    /// Sets the verbosity, then republishes the derived threshold. Verbosity
    /// `0` shows records up to `Warn`, `1` up to `Info`, `2` up to `Debug`,
    /// and any higher value shows everything.
    pub fn set_verbosity(&mut self, verbosity: usize)
        ensures
            final(self)@ == set_verbosity_transition(old(self)@, verbosity as nat),
    {
        self.verbosity = verbosity;
        let t = update_max_level(self.quiet, self.verbosity);
        self.published = Ghost(t);
    }

    /// The sink itself accepts every record handed to it: filtering happens
    /// in the facade, against the published threshold.
    pub fn enabled(&self) -> (r: bool)
        ensures
            r,
    {
        true
    }

    /// Renders an accepted record as the one line written to standard error.
    pub fn emit(&self, level: Level, message: &str) -> (line: String)
        ensures
            line@ == rendered_line(level, message@),
    {
        format_record(level, message)
    }

    /// Nothing is buffered, so there is nothing to flush.
    pub fn flush(&self) {
    }
}

/// Setting the verbosity twice to the same value leaves the sink in exactly
/// the state that setting it once does.
pub proof fn lemma_set_verbosity_idempotent(s: SinkView, n: nat)
    ensures
        set_verbosity_transition(set_verbosity_transition(s, n), n) == set_verbosity_transition(s, n),
{
}

/// After setting the verbosity to `n`, the verbosity reads back as `n`.
pub proof fn lemma_verbosity_round_trip(s: SinkView, n: nat)
    ensures
        set_verbosity_transition(s, n).verbosity == n,
{
}

/// After setting the quiet flag to `b`, the flag reads back as `b`.
pub proof fn lemma_quiet_round_trip(s: SinkView, b: bool)
    ensures
        set_quiet_transition(s, b).quiet == b,
{
}

/// A second initialization attempt after a successful one finds the sink
/// installed, so it fails, and it leaves the whole state unchanged: neither
/// the configuration nor the installed sink is altered.
pub proof fn lemma_init_exactly_once(s: SinkView)
    requires
        !s.installed,
    ensures
        ({
            let once = init_transition(s);
            once.installed && init_transition(once) == once
        }),
{
}

/// Every change publishes its threshold before returning: after any setter
/// or initialization, the published threshold matches the configuration.
pub proof fn lemma_changes_publish_synchronously(s: SinkView, enabled: bool, n: nat)
    ensures
        synced(set_quiet_transition(s, enabled)),
        synced(set_verbosity_transition(s, n)),
        synced(init_transition(s)),
{
}

} // verus!
