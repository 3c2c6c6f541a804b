//! Shared data model of the flight and ground computers, with its text,
//! storage and wire encodings.
use vstd::prelude::*;
use crate::codec::{same_text, Variant};

pub mod codec;
pub mod gui;
pub mod json;
pub mod sam;
pub mod wire;

verus! {

/// Which computer a board is attached to, and so where an action is sent.
#[derive(Clone, Copy, Debug, PartialEq, Eq, Hash, Structural)]
pub enum Computer {
    /// The flight computer.
    Flight,
    /// The ground computer.
    Ground,
}

impl Variant for Computer {
    open spec fn spec_name(&self) -> Seq<char> {
        match self {
            Computer::Flight => "flight"@,
            Computer::Ground => "ground"@,
        }
    }

    open spec fn spec_index(&self) -> u32 {
        match self {
            Computer::Flight => 0,
            Computer::Ground => 1,
        }
    }

    open spec fn spec_from_name(name: Seq<char>) -> Option<Computer> {
        if name == "flight"@ {
            Some(Computer::Flight)
        } else if name == "ground"@ {
            Some(Computer::Ground)
        } else {
            None
        }
    }

    open spec fn spec_from_index(index: u32) -> Option<Computer> {
        if index == 0 {
            Some(Computer::Flight)
        } else if index == 1 {
            Some(Computer::Ground)
        } else {
            None
        }
    }

    proof fn lemma_variant(&self) {
        reveal_strlit("flight");
        reveal_strlit("ground");
        assert("flight"@[0] != "ground"@[0]);
    }

    fn name(&self) -> (r: &'static str) {
        match self {
            Computer::Flight => "flight",
            Computer::Ground => "ground",
        }
    }

    fn index(&self) -> (r: u32) {
        match self {
            Computer::Flight => 0,
            Computer::Ground => 1,
        }
    }

    fn from_name(name: &str) -> (r: Option<Computer>) {
        if same_text(name, "flight") {
            Some(Computer::Flight)
        } else if same_text(name, "ground") {
            Some(Computer::Ground)
        } else {
            None
        }
    }

    fn from_index(index: u32) -> (r: Option<Computer>) {
        if index == 0 {
            Some(Computer::Flight)
        } else if index == 1 {
            Some(Computer::Ground)
        } else {
            None
        }
    }
}


/// A script that the flight computer runs on the operator's behalf.
///
/// The recipient runs the script as soon as it arrives, except for the
/// sequence named exactly `abort`: that one is stored, kept across a power
/// loss, and run only when an abort is requested.
#[derive(Clone, Debug, PartialEq)]
pub struct Sequence {
    /// The unique, human-readable name of the sequence.
    pub name: String,
    /// The script itself.
    pub script: String,
}

/// What the recipient of a sequence does with it.
#[derive(Clone, Copy, Debug, PartialEq, Eq, Structural)]
pub enum SequenceAction {
    /// Store it, across power loss, until an abort is requested.
    Persist,
    /// Run it now.
    Execute,
}

/// The name that marks the abort sequence.
pub open spec fn abort_name() -> Seq<char> {
    "abort"@
}

impl Sequence {
    /// What the recipient does with this sequence: it depends on the name alone.
    pub open spec fn spec_action(&self) -> SequenceAction {
        if self.name@ == abort_name() {
            SequenceAction::Persist
        } else {
            SequenceAction::Execute
        }
    }

    /// Whether this is the abort sequence.
    pub fn is_abort(&self) -> (r: bool)
        ensures
            r == (self.name@ == abort_name()),
    {
        same_text(self.name.as_str(), "abort")
    }

    /// What the recipient does with this sequence.
    pub fn action(&self) -> (r: SequenceAction)
        ensures
            r == self.spec_action(),
    {
        if self.is_abort() {
            SequenceAction::Persist
        } else {
            SequenceAction::Execute
        }
    }
}

/// Two sequences with the same name are handled alike, whatever their scripts.
pub proof fn lemma_action_by_name(a: Sequence, b: Sequence)
    requires
        a.name@ == b.name@,
    ensures
        a.spec_action() == b.spec_action(),
{
}

/// Only the sequence named `abort` is kept instead of run.
pub proof fn lemma_persist_only_abort(a: Sequence)
    ensures
        a.spec_action() == SequenceAction::Persist <==> a.name@ == abort_name(),
{
}

/// A script that the flight computer runs whenever a condition holds.
#[derive(Clone, Debug, PartialEq)]
pub struct Trigger {
    /// The unique, human-readable name of the trigger.
    pub name: String,
    /// The condition, itself a script, under which the trigger's script runs.
    pub condition: String,
    /// The script that runs when the condition holds.
    pub script: String,
    /// Whether the condition is evaluated; an inactive trigger stays registered.
    pub active: bool,
}

} // verus!
