//! The ways in which a pass fails.

use vstd::prelude::*;

verus! {

/// Why a pass, or its last step, did not succeed.
#[derive(Clone, Debug, PartialEq, Eq)]
pub enum Failure {
    /// A secret was not in the environment; the variable's name is given.
    ConfigMissing(String),
    /// No address could be matched to the WAN interface: a walk gave nothing,
    /// or no candidate stands under a WAN index.
    DiscoveryFailed,
    /// The provider gave no zone for the domain.
    ZoneLookupFailed,
    /// The provider gave no address record for the zone.
    RecordLookupFailed,
    /// The provider turned the new address down; its answer is given.
    PublishFailed(String),
    /// An event came that the pass was not waiting for.
    OutOfTurn,
}

/// What a `Failure` says, as mathematical text.
pub enum FailureText {
    ConfigMissing(Seq<char>),
    DiscoveryFailed,
    ZoneLookupFailed,
    RecordLookupFailed,
    PublishFailed(Seq<char>),
    OutOfTurn,
}

impl View for Failure {
    type V = FailureText;

    open spec fn view(&self) -> FailureText {
        match self {
            Failure::ConfigMissing(variable) => FailureText::ConfigMissing(variable@),
            Failure::DiscoveryFailed => FailureText::DiscoveryFailed,
            Failure::ZoneLookupFailed => FailureText::ZoneLookupFailed,
            Failure::RecordLookupFailed => FailureText::RecordLookupFailed,
            Failure::PublishFailed(answer) => FailureText::PublishFailed(answer@),
            Failure::OutOfTurn => FailureText::OutOfTurn,
        }
    }
}

impl DeepView for Failure {
    type V = FailureText;

    open spec fn deep_view(&self) -> FailureText {
        self@
    }
}

impl FailureText {
    /// The failure in words.
    pub open spec fn message(self) -> Seq<char> {
        match self {
            FailureText::ConfigMissing(variable) => "environment variable "@ + variable
                + " not defined"@,
            FailureText::DiscoveryFailed => "could not get ip from device"@,
            FailureText::ZoneLookupFailed => "couldn't get zone id"@,
            FailureText::RecordLookupFailed => "couldn't get current ip address"@,
            FailureText::PublishFailed(answer) => "failed to publish new ip: "@ + answer,
            FailureText::OutOfTurn => "event out of turn"@,
        }
    }
}

impl Failure {
    /// The failure in words.
    pub fn message(&self) -> (message: String)
        ensures
            message@ == self@.message(),
    {
        match self {
            Failure::ConfigMissing(variable) => {
                let mut message = String::from_str("environment variable ");
                message.append(variable.as_str());
                message.append(" not defined");
                message
            },
            Failure::DiscoveryFailed => String::from_str("could not get ip from device"),
            Failure::ZoneLookupFailed => String::from_str("couldn't get zone id"),
            Failure::RecordLookupFailed => String::from_str("couldn't get current ip address"),
            Failure::PublishFailed(answer) => {
                let mut message = String::from_str("failed to publish new ip: ");
                message.append(answer.as_str());
                message
            },
            Failure::OutOfTurn => String::from_str("event out of turn"),
        }
    }
}

} // verus!
