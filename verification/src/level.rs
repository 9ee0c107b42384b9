use vstd::prelude::*;

verus! {

/// Facade-side severity scale, ordered from most verbose (`Trace`) to most
/// important (`Error`).
#[derive(Clone, Copy, PartialEq, Eq, Structural, Debug, Hash)]
pub enum Severity {
    Trace,
    Debug,
    Info,
    Warn,
    Error,
}

/// Native type codes of the platform logging subsystem, ordered
/// `Debug < Info < Default < Error < Fault`, in the same relative order as
/// the facade severities they stand for.
#[derive(Clone, Copy, PartialEq, Eq, Structural, Debug, Hash)]
pub enum Level {
    Debug,
    Info,
    Default,
    Error,
    Fault,
}

/// Position of a severity on the facade scale: 0 for `Trace` up to 4 for
/// `Error`. A smaller rank used as a filter threshold is a more permissive
/// filter.
pub open spec fn spec_rank(s: Severity) -> u8 {
    match s {
        Severity::Trace => 0,
        Severity::Debug => 1,
        Severity::Info => 2,
        Severity::Warn => 3,
        Severity::Error => 4,
    }
}

/// A message at severity `s` passes a filter whose threshold is `t` when `s`
/// is at least as important as `t`.
pub open spec fn spec_passes(s: Severity, t: Severity) -> bool {
    spec_rank(s) >= spec_rank(t)
}

/// Threshold `a` is at least as permissive as threshold `b`: every message
/// that passes `b` also passes `a`.
pub open spec fn spec_at_least_as_permissive(a: Severity, b: Severity) -> bool {
    spec_rank(a) <= spec_rank(b)
}

/// The native counterpart of each facade severity. The mapping is total and
/// has no fallback branch: an unhandled severity would not compile.
pub open spec fn spec_native(s: Severity) -> Level {
    match s {
        Severity::Trace => Level::Debug,
        Severity::Debug => Level::Info,
        Severity::Info => Level::Default,
        Severity::Warn => Level::Error,
        Severity::Error => Level::Fault,
    }
}

/// The facade severity that each native type code stands for; the inverse of
/// `spec_native`.
pub open spec fn spec_facade(l: Level) -> Severity {
    match l {
        Level::Debug => Severity::Trace,
        Level::Info => Severity::Debug,
        Level::Default => Severity::Info,
        Level::Error => Severity::Warn,
        Level::Fault => Severity::Error,
    }
}

/// The numeric type code the native subsystem understands for each level.
pub open spec fn spec_code(l: Level) -> u8 {
    match l {
        Level::Debug => 0,
        Level::Info => 1,
        Level::Default => 2,
        Level::Error => 16,
        Level::Fault => 17,
    }
}

impl Severity {
    /// Executable form of `spec_rank`.
    pub fn rank(self) -> (r: u8)
        ensures
            r == spec_rank(self),
    {
        match self {
            Severity::Trace => 0,
            Severity::Debug => 1,
            Severity::Info => 2,
            Severity::Warn => 3,
            Severity::Error => 4,
        }
    }

    /// The native level this facade severity maps to.
    pub fn native_level(self) -> (l: Level)
        ensures
            l == spec_native(self),
    {
        match self {
            Severity::Trace => Level::Debug,
            Severity::Debug => Level::Info,
            Severity::Info => Level::Default,
            Severity::Warn => Level::Error,
            Severity::Error => Level::Fault,
        }
    }
}

impl Level {
    /// The numeric type code handed to the native primitives.
    pub fn code(self) -> (r: u8)
        ensures
            r == spec_code(self),
    {
        match self {
            Level::Debug => 0,
            Level::Info => 1,
            Level::Default => 2,
            Level::Error => 16,
            Level::Fault => 17,
        }
    }

    /// The facade severity this native level stands for.
    pub fn facade(self) -> (s: Severity)
        ensures
            s == spec_facade(self),
    {
        match self {
            Level::Debug => Severity::Trace,
            Level::Info => Severity::Debug,
            Level::Default => Severity::Info,
            Level::Error => Severity::Warn,
            Level::Fault => Severity::Error,
        }
    }
}

/// Law: the severity mapping is monotonic. For facade severities `a <= b`,
/// the mapped native type codes satisfy `code(native(a)) <= code(native(b))`.
pub proof fn lemma_native_code_monotonic(a: Severity, b: Severity)
    requires
        spec_rank(a) <= spec_rank(b),
    ensures
        spec_code(spec_native(a)) <= spec_code(spec_native(b)),
{
}

/// Law: the facade/native mapping is a bijection — every facade severity has
/// exactly one native counterpart and vice versa.
pub proof fn lemma_native_facade_round_trip(s: Severity, l: Level)
    ensures
        spec_facade(spec_native(s)) == s,
        spec_native(spec_facade(l)) == l,
{
}

} // verus!
