//! The two ways of deciding that a multi-line reply has ended.
use vstd::prelude::*;

use crate::pattern::{regex_finds, Pattern};

verus! {

/// What a wait condition is, as a mathematical value.
pub enum WaitSpec {
    /// A line equal to this text, terminator included.
    Exact(Seq<char>),
    /// A line in which this expression finds a match.
    Matches(Seq<char>),
}

/// Whether `line` ends a wait on `w`. Each line is judged on its own.
pub open spec fn satisfies(w: WaitSpec, line: Seq<char>) -> bool {
    match w {
        WaitSpec::Exact(expected) => line == expected,
        WaitSpec::Matches(source) => regex_finds(source, line),
    }
}

/// The condition that ends the wait after a command.
pub enum WaitCondition {
    /// The reply ends with a line equal to this text, terminator included.
    Exact(String),
    /// The reply ends with the first line in which this pattern is found.
    Matches(Pattern),
}

impl View for WaitCondition {
    type V = WaitSpec;

    open spec fn view(&self) -> WaitSpec {
        match self {
            WaitCondition::Exact(s) => WaitSpec::Exact(s@),
            WaitCondition::Matches(p) => WaitSpec::Matches(p@),
        }
    }
}

impl WaitCondition {
    /// Whether `line` ends the wait: for `Exact`, equality including the
    /// line terminator; for `Matches`, a match anywhere in the line.
    pub fn is_satisfied_by(&self, line: &str) -> (r: bool)
        ensures
            r == satisfies(self@, line@),
    {
        match self {
            WaitCondition::Exact(expected) => {
                let received: String = line.to_owned();
                expected.eq(&received)
            },
            WaitCondition::Matches(p) => p.is_found_in(line),
        }
    }
}

} // verus!
