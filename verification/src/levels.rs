use vstd::prelude::*;

verus! {

/// Severity of a log call, and the threshold a logger is configured with.
/// `NONE` is a threshold only: no call carries it.
#[derive(Clone, Copy, Debug)]
pub enum Levels {
    DEBUG,
    INFO,
    WARN,
    ERROR,
    CRITICAL,
    NONE,
}

/// Where an emitted line is written.
#[derive(Clone, Copy, Debug)]
pub enum Stream {
    Stdout,
    Stderr,
}

impl Levels {
    /// The rank of a level: the five emitting levels count up from zero, and
    /// `NONE` sits at the top of the `u8` range, above anything a call can carry.
    pub open spec fn ordinal(self) -> nat {
        match self {
            Levels::DEBUG => 0,
            Levels::INFO => 1,
            Levels::WARN => 2,
            Levels::ERROR => 3,
            Levels::CRITICAL => 4,
            Levels::NONE => 255,
        }
    }

    /// The stream that lines of this level go to: the three milder levels to
    /// standard output, the two graver ones to standard error.
    pub open spec fn sink(self) -> Option<Stream> {
        match self {
            Levels::DEBUG | Levels::INFO | Levels::WARN => Some(Stream::Stdout),
            Levels::ERROR | Levels::CRITICAL => Some(Stream::Stderr),
            Levels::NONE => None,
        }
    }

    /// The rank of the level as a number that can be compared.
    pub fn as_u8(&self) -> (n: u8)
        ensures
            n == self.ordinal(),
    {
        match self {
            Levels::DEBUG => 0,
            Levels::INFO => 1,
            Levels::WARN => 2,
            Levels::ERROR => 3,
            Levels::CRITICAL => 4,
            Levels::NONE => u8::MAX,
        }
    }

    /// The stream for a line of this level, or nothing for `NONE`, at which
    /// no line is ever written.
    pub fn stream(&self) -> (target: Option<Stream>)
        ensures
            target == self.sink(),
    {
        match self {
            Levels::DEBUG => Some(Stream::Stdout),
            Levels::INFO => Some(Stream::Stdout),
            Levels::WARN => Some(Stream::Stdout),
            Levels::ERROR => Some(Stream::Stderr),
            Levels::CRITICAL => Some(Stream::Stderr),
            Levels::NONE => None,
        }
    }
}

/// The ranks order the levels strictly and totally, as DEBUG, INFO, WARN,
/// ERROR, CRITICAL, NONE: each stands below the next, no two levels share a
/// rank, and of two different levels one stands below the other.
pub proof fn law_ordinal_order(a: Levels, b: Levels)
    ensures
        Levels::DEBUG.ordinal() < Levels::INFO.ordinal(),
        Levels::INFO.ordinal() < Levels::WARN.ordinal(),
        Levels::WARN.ordinal() < Levels::ERROR.ordinal(),
        Levels::ERROR.ordinal() < Levels::CRITICAL.ordinal(),
        Levels::CRITICAL.ordinal() < Levels::NONE.ordinal(),
        Levels::NONE.ordinal() == u8::MAX,
        a.ordinal() == b.ordinal() <==> a == b,
        a != b ==> (a.ordinal() < b.ordinal()) != (b.ordinal() < a.ordinal()),
{
}

} // verus!
