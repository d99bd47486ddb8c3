//! What a pass does with the address it found.

use vstd::prelude::*;

verus! {

/// How a pass ends once the WAN address and the recorded address are known.
#[derive(Clone, Debug, PartialEq, Eq)]
pub enum Outcome {
    /// The record is current: nothing is printed and nothing is sent.
    NoChange,
    /// The address goes to standard output and the record is left alone.
    PrintOnly(String),
    /// The address is sent to the provider.
    Publish(String),
}

/// What an `Outcome` says, as mathematical text.
pub enum OutcomeText {
    NoChange,
    PrintOnly(Seq<char>),
    Publish(Seq<char>),
}

impl View for Outcome {
    type V = OutcomeText;

    open spec fn view(&self) -> OutcomeText {
        match self {
            Outcome::NoChange => OutcomeText::NoChange,
            Outcome::PrintOnly(address) => OutcomeText::PrintOnly(address@),
            Outcome::Publish(address) => OutcomeText::Publish(address@),
        }
    }
}

/// The decision table: no change where the record is current and no update is
/// forced; otherwise the resolved address is printed in standard-output mode and
/// published in any other.
pub open spec fn decision(
    resolved: Seq<char>,
    recorded: Seq<char>,
    force: bool,
    stdout_mode: bool,
) -> OutcomeText {
    if resolved == recorded && !force {
        OutcomeText::NoChange
    } else if stdout_mode {
        OutcomeText::PrintOnly(resolved)
    } else {
        OutcomeText::Publish(resolved)
    }
}

/// The address on record once an outcome has been carried out: a publish that
/// the provider accepted records the new address, and nothing else touches the
/// record.
pub open spec fn recorded_after(outcome: OutcomeText, recorded: Seq<char>, accepted: bool) -> Seq<
    char,
> {
    match outcome {
        OutcomeText::Publish(address) => if accepted {
            address
        } else {
            recorded
        },
        _ => recorded,
    }
}

/// Decides how the pass ends.
pub fn decide(resolved: &String, recorded: &String, force: bool, stdout_mode: bool) -> (outcome:
    Outcome)
    ensures
        outcome@ == decision(resolved@, recorded@, force, stdout_mode),
        resolved@ == recorded@ && !force ==> outcome@ == OutcomeText::NoChange,
        force && !stdout_mode ==> outcome@ == OutcomeText::Publish(resolved@),
        stdout_mode ==> outcome@ == OutcomeText::NoChange || outcome@ == OutcomeText::PrintOnly(
            resolved@,
        ),
{
    if *resolved == *recorded && !force {
        Outcome::NoChange
    } else if stdout_mode {
        Outcome::PrintOnly(resolved.clone())
    } else {
        Outcome::Publish(resolved.clone())
    }
}

/// A pass that finds the record current changes nothing, and so does every
/// unforced pass after it while the gateway and the record stay as they are.
pub proof fn lemma_current_record_stays(address: Seq<char>, stdout_mode: bool, accepted: bool)
    ensures
        decision(address, address, false, stdout_mode) == OutcomeText::NoChange,
        recorded_after(decision(address, address, false, stdout_mode), address, accepted)
            == address,
        decision(
            address,
            recorded_after(decision(address, address, false, stdout_mode), address, accepted),
            false,
            stdout_mode,
        ) == OutcomeText::NoChange,
{
}

/// Once the provider has accepted a published address the record is current:
/// the next unforced pass changes nothing, whatever was on record before.
pub proof fn lemma_published_address_settles(
    resolved: Seq<char>,
    recorded: Seq<char>,
    force: bool,
    stdout_mode: bool,
)
    requires
        decision(resolved, recorded, force, false) is Publish,
    ensures
        decision(
            resolved,
            recorded_after(decision(resolved, recorded, force, false), recorded, true),
            false,
            stdout_mode,
        ) == OutcomeText::NoChange,
{
}

} // verus!
