//! Severity levels and the mapping from the runtime configuration to the
//! maximum-severity threshold that the logging facade filters by.

use vstd::prelude::*;

verus! {

/// Severity of a log record, from most to least important.
#[derive(Clone, Copy, PartialEq, Eq, Structural, Debug)]
pub enum Level {
    Error,
    Warn,
    Info,
    Debug,
    Trace,
}

/// Maximum severity shown: `Off` suppresses everything, `Trace` shows all.
#[derive(Clone, Copy, PartialEq, Eq, Structural, Debug)]
pub enum Threshold {
    Off,
    Error,
    Warn,
    Info,
    Debug,
    Trace,
}

/// Rank of a record's severity: lower is more important.
pub open spec fn level_num(l: Level) -> nat {
    match l {
        Level::Error => 1,
        Level::Warn => 2,
        Level::Info => 3,
        Level::Debug => 4,
        Level::Trace => 5,
    }
}

/// Rank of a threshold: `Off` is below every severity.
pub open spec fn threshold_num(t: Threshold) -> nat {
    match t {
        Threshold::Off => 0,
        Threshold::Error => 1,
        Threshold::Warn => 2,
        Threshold::Info => 3,
        Threshold::Debug => 4,
        Threshold::Trace => 5,
    }
}

/// Whether the facade forwards a record of severity `l` to the sink under
/// threshold `t`: only records whose severity rank is at most the
/// threshold's rank pass the filter.
pub open spec fn admits(t: Threshold, l: Level) -> bool {
    level_num(l) <= threshold_num(t)
}

/// The threshold derived from the quiet flag and the verbosity knob: quiet
/// overrides everything else, and verbosity saturates at `Trace`.
pub open spec fn spec_threshold(quiet: bool, verbosity: nat) -> Threshold {
    if quiet {
        Threshold::Off
    } else if verbosity == 0 {
        Threshold::Warn
    } else if verbosity == 1 {
        Threshold::Info
    } else if verbosity == 2 {
        Threshold::Debug
    } else {
        Threshold::Trace
    }
}

/// Maps the quiet flag and the verbosity to the maximum severity shown.
pub fn threshold(quiet: bool, verbosity: usize) -> (t: Threshold)
    ensures
        t == spec_threshold(quiet, verbosity as nat),
{
    if quiet {
        Threshold::Off
    } else if verbosity == 0 {
        Threshold::Warn
    } else if verbosity == 1 {
        Threshold::Info
    } else if verbosity == 2 {
        Threshold::Debug
    } else {
        Threshold::Trace
    }
}

/// With quiet mode off, verbosity `0` shows up to `Warn`, `1` up to `Info`,
/// `2` up to `Debug`, and every higher value shows everything.
pub proof fn lemma_threshold_of_verbosity(v: nat)
    ensures
        spec_threshold(false, v) == (if v == 0 {
            Threshold::Warn
        } else if v == 1 {
            Threshold::Info
        } else if v == 2 {
            Threshold::Debug
        } else {
            Threshold::Trace
        }),
{
}

/// Quiet mode forces the `Off` threshold, whatever the verbosity is.
pub proof fn lemma_quiet_overrides(v: nat)
    ensures
        spec_threshold(true, v) == Threshold::Off,
{
}

/// Under the initial configuration (not quiet, verbosity `0`) the facade
/// forwards exactly the `Error` and `Warn` records to the sink.
pub proof fn lemma_default_threshold_filters(l: Level)
    ensures
        admits(spec_threshold(false, 0), l) <==> (l == Level::Error || l == Level::Warn),
{
}

} // verus!
