//! One pass, step by step.
//!
//! A pass alternates between work on the outside (a walk of the gateway, a
//! request to the provider) and decisions on what came back. The decisions are
//! made here: `step` takes the stage the pass is in and the event that came,
//! and gives the next stage and what to do next. The caller does what it is
//! told and comes back with the event.

use crate::decision::{decide, decision, Outcome, OutcomeText};
use crate::discovery::{
    get_possible_indexes,
    get_possible_ips,
    get_wan_ip,
    possible_indexes,
    possible_ips,
    wan_ip,
    Candidate,
    CandidateText,
};
use crate::dns::{
    current_ip,
    get_current_ip,
    get_zone_id,
    notice,
    notify_new_ip,
    notify_request,
    notify_result,
    publish_new_ip,
    publish_result,
    record_lookup,
    record_request,
    record_update,
    result_text,
    update_request,
    zone_id,
    zone_lookup,
    zone_request,
    DnsInfo,
    DnsInfoText,
    DnsItem,
    DnsItemText,
    Envelope,
    EnvelopeText,
    Request,
    RequestText,
    ZoneIdItem,
    ZoneIdItemText,
};
use crate::failure::{Failure, FailureText};
use crate::walk::{
    address_walk,
    address_walk_of,
    description_walk,
    description_walk_of,
    Row,
    RowText,
    WalkRequest,
    WalkRequestText,
};
use vstd::prelude::*;

verus! {

/// The name of the variable that holds the token for reading.
pub const READ_TOKEN: &'static str = "READ_TOKEN";

/// The name of the variable that holds the token for writing.
pub const EDIT_TOKEN: &'static str = "EDIT_TOKEN";

/// The name of the variable that holds the one token of a pass that announces
/// the address.
pub const TOKEN: &'static str = "TOKEN";

/// How a new address is made known.
#[derive(Clone, Debug, PartialEq, Eq)]
pub enum Publisher {
    /// The record is updated at the provider.
    DirectUpdate,
    /// The address is announced under `subject` at `endpoint`.
    Notification { endpoint: String, subject: String },
}

/// What a `Publisher` says, as mathematical text.
pub enum PublisherText {
    DirectUpdate,
    Notification { endpoint: Seq<char>, subject: Seq<char> },
}

impl View for Publisher {
    type V = PublisherText;

    open spec fn view(&self) -> PublisherText {
        match self {
            Publisher::DirectUpdate => PublisherText::DirectUpdate,
            Publisher::Notification { endpoint, subject } => PublisherText::Notification {
                endpoint: endpoint@,
                subject: subject@,
            },
        }
    }
}

/// What the command line asks for.
#[derive(Clone, Debug, PartialEq, Eq)]
pub struct Options {
    /// Where the gateway answers.
    pub destination: String,
    /// The domain whose record follows the WAN address.
    pub domain: String,
    /// Print the address in place of publishing it.
    pub stdout: bool,
    /// Update the record even where it is current.
    pub force: bool,
    /// How a new address is made known.
    pub publisher: Publisher,
}

/// What `Options` say, as mathematical text.
pub struct OptionsText {
    pub destination: Seq<char>,
    pub domain: Seq<char>,
    pub stdout: bool,
    pub force: bool,
    pub publisher: PublisherText,
}

impl View for Options {
    type V = OptionsText;

    open spec fn view(&self) -> OptionsText {
        OptionsText {
            destination: self.destination@,
            domain: self.domain@,
            stdout: self.stdout,
            force: self.force,
            publisher: self.publisher@,
        }
    }
}

impl DeepView for Options {
    type V = OptionsText;

    open spec fn deep_view(&self) -> OptionsText {
        self@
    }
}

/// What a pass works with once it has started: the options and the two tokens.
/// A pass that announces the address has one token for both.
#[derive(Clone, Debug, PartialEq, Eq)]
pub struct Settings {
    pub options: Options,
    pub read_token: String,
    pub edit_token: String,
}

/// What `Settings` say, as mathematical text.
pub struct SettingsText {
    pub options: OptionsText,
    pub read_token: Seq<char>,
    pub edit_token: Seq<char>,
}

impl View for Settings {
    type V = SettingsText;

    open spec fn view(&self) -> SettingsText {
        SettingsText {
            options: self.options@,
            read_token: self.read_token@,
            edit_token: self.edit_token@,
        }
    }
}

impl DeepView for Settings {
    type V = SettingsText;

    open spec fn deep_view(&self) -> SettingsText {
        self@
    }
}

/// Where a pass stands: what it has found so far and what it waits for.
#[derive(Clone, Debug, PartialEq, Eq)]
pub enum Stage {
    /// Nothing has happened yet; the options and tokens are awaited.
    Start,
    /// The rows of the address walk are awaited.
    AddressWalk { settings: Settings },
    /// The rows of the description walk are awaited.
    DescriptionWalk { settings: Settings, candidates: Vec<Candidate> },
    /// The answer to the zone lookup is awaited.
    ZoneLookup { settings: Settings, wan_ip: String },
    /// The answer to the record lookup is awaited.
    RecordLookup { settings: Settings, wan_ip: String, zone_id: String },
    /// The answer to the update is awaited.
    Publishing { wan_ip: String },
    /// The answer to the announcement is awaited.
    Notifying { wan_ip: String },
    /// The pass is over.
    Done,
}

/// What a `Stage` says, as mathematical text.
pub enum StageText {
    Start,
    AddressWalk { settings: SettingsText },
    DescriptionWalk { settings: SettingsText, candidates: Seq<CandidateText> },
    ZoneLookup { settings: SettingsText, wan_ip: Seq<char> },
    RecordLookup { settings: SettingsText, wan_ip: Seq<char>, zone_id: Seq<char> },
    Publishing { wan_ip: Seq<char> },
    Notifying { wan_ip: Seq<char> },
    Done,
}

impl View for Stage {
    type V = StageText;

    open spec fn view(&self) -> StageText {
        match self {
            Stage::Start => StageText::Start,
            Stage::AddressWalk { settings } => StageText::AddressWalk { settings: settings@ },
            Stage::DescriptionWalk { settings, candidates } => StageText::DescriptionWalk {
                settings: settings@,
                candidates: candidates.deep_view(),
            },
            Stage::ZoneLookup { settings, wan_ip } => StageText::ZoneLookup {
                settings: settings@,
                wan_ip: wan_ip@,
            },
            Stage::RecordLookup { settings, wan_ip, zone_id } => StageText::RecordLookup {
                settings: settings@,
                wan_ip: wan_ip@,
                zone_id: zone_id@,
            },
            Stage::Publishing { wan_ip } => StageText::Publishing { wan_ip: wan_ip@ },
            Stage::Notifying { wan_ip } => StageText::Notifying { wan_ip: wan_ip@ },
            Stage::Done => StageText::Done,
        }
    }
}

/// What came back from the outside.
#[derive(Clone, Debug, PartialEq, Eq)]
pub enum Event {
    /// The pass begins: the options, and each token where the environment has
    /// it. A pass that announces the address has one token: it comes as
    /// `read_token`, and `edit_token` is not looked at.
    Started { options: Options, read_token: Option<String>, edit_token: Option<String> },
    /// A walk is over: its rows, or `None` where the gateway could not be reached
    /// or did not answer as the protocol asks.
    Walked(Option<Vec<Row>>),
    /// The zone lookup is over: the zones listed, or `None` where the answer
    /// could not be read.
    Zones(Option<Vec<ZoneIdItem>>),
    /// The record lookup is over: the records listed, or `None` where the answer
    /// could not be read.
    Records(Option<Vec<DnsItem>>),
    /// The update was sent: whether the provider accepted it, and the body of
    /// its answer where it did not and the body could be read.
    Sent { accepted: bool, answer: Option<String> },
    /// The announcement was posted: the envelope of the answer, or `None` where
    /// it could not be read.
    Notified(Option<Envelope>),
}

/// What an `Event` says, as mathematical text.
pub enum EventText {
    Started { options: OptionsText, read_token: Option<Seq<char>>, edit_token: Option<Seq<char>> },
    Walked(Option<Seq<RowText>>),
    Zones(Option<Seq<ZoneIdItemText>>),
    Records(Option<Seq<DnsItemText>>),
    Sent { accepted: bool, answer: Option<Seq<char>> },
    Notified(Option<EnvelopeText>),
}

impl View for Event {
    type V = EventText;

    open spec fn view(&self) -> EventText {
        match self {
            Event::Started { options, read_token, edit_token } => EventText::Started {
                options: options@,
                read_token: read_token.deep_view(),
                edit_token: edit_token.deep_view(),
            },
            Event::Walked(rows) => EventText::Walked(rows.deep_view()),
            Event::Zones(zones) => EventText::Zones(zones.deep_view()),
            Event::Records(records) => EventText::Records(records.deep_view()),
            Event::Sent { accepted, answer } => EventText::Sent {
                accepted: *accepted,
                answer: answer.deep_view(),
            },
            Event::Notified(reply) => EventText::Notified(reply.deep_view()),
        }
    }
}

/// How a pass ended.
#[derive(Clone, Debug, PartialEq, Eq)]
pub enum Ending {
    /// The record was current.
    NoChange,
    /// The address is to be printed, alone on its line; nothing was sent.
    Printed(String),
    /// The address was accepted.
    Published(String),
    /// The address was not accepted. Discovery and decision went well, so the
    /// pass still counts as a success.
    NotPublished(Failure),
    /// The pass failed before it could decide.
    Failed(Failure),
}

/// What an `Ending` says, as mathematical text.
pub enum EndingText {
    NoChange,
    Printed(Seq<char>),
    Published(Seq<char>),
    NotPublished(FailureText),
    Failed(FailureText),
}

impl View for Ending {
    type V = EndingText;

    open spec fn view(&self) -> EndingText {
        match self {
            Ending::NoChange => EndingText::NoChange,
            Ending::Printed(address) => EndingText::Printed(address@),
            Ending::Published(address) => EndingText::Published(address@),
            Ending::NotPublished(failure) => EndingText::NotPublished(failure@),
            Ending::Failed(failure) => EndingText::Failed(failure@),
        }
    }
}

impl EndingText {
    /// The exit code of the process: 1 where the pass failed, 0 otherwise.
    pub open spec fn exit_code(self) -> i32 {
        match self {
            EndingText::Failed(_) => 1,
            _ => 0,
        }
    }
}

impl Ending {
    /// The exit code of the process: 1 where the pass failed, 0 otherwise.
    pub fn exit_code(&self) -> (code: i32)
        ensures
            code == self@.exit_code(),
    {
        match self {
            Ending::Failed(_) => 1,
            _ => 0,
        }
    }
}

/// What the caller is to do next.
#[derive(Clone, Debug, PartialEq, Eq)]
pub enum Action {
    /// Walk the gateway and come back with `Event::Walked`.
    Walk(WalkRequest),
    /// Send the zone lookup and come back with `Event::Zones`.
    LookupZone(Request),
    /// Send the record lookup and come back with `Event::Records`.
    LookupRecords(Request),
    /// Send the update and come back with `Event::Sent`.
    Publish(Request),
    /// Post the announcement and come back with `Event::Notified`.
    Notify(Request),
    /// Stop: the pass has ended.
    Finish(Ending),
}

/// What an `Action` says, as mathematical text.
pub enum ActionText {
    Walk(WalkRequestText),
    LookupZone(RequestText),
    LookupRecords(RequestText),
    Publish(RequestText),
    Notify(RequestText),
    Finish(EndingText),
}

impl View for Action {
    type V = ActionText;

    open spec fn view(&self) -> ActionText {
        match self {
            Action::Walk(request) => ActionText::Walk(request@),
            Action::LookupZone(request) => ActionText::LookupZone(request@),
            Action::LookupRecords(request) => ActionText::LookupRecords(request@),
            Action::Publish(request) => ActionText::Publish(request@),
            Action::Notify(request) => ActionText::Notify(request@),
            Action::Finish(ending) => ActionText::Finish(ending@),
        }
    }
}

/// A pass that has failed: it is over, and the caller is told why.
pub open spec fn failed(failure: FailureText) -> (StageText, ActionText) {
    (StageText::Done, ActionText::Finish(EndingText::Failed(failure)))
}

/// The tokens of a pass, or the failure to get them. A pass that updates the
/// record needs both, the one for reading being looked at first; a pass that
/// announces the address needs its one token, which then serves for both.
pub open spec fn tokens(
    publisher: PublisherText,
    read_token: Option<Seq<char>>,
    edit_token: Option<Seq<char>>,
) -> Result<(Seq<char>, Seq<char>), FailureText> {
    match publisher {
        PublisherText::DirectUpdate => match (read_token, edit_token) {
            (None, _) => Err(FailureText::ConfigMissing(READ_TOKEN@)),
            (Some(_), None) => Err(FailureText::ConfigMissing(EDIT_TOKEN@)),
            (Some(read_token), Some(edit_token)) => Ok((read_token, edit_token)),
        },
        PublisherText::Notification { .. } => match read_token {
            None => Err(FailureText::ConfigMissing(TOKEN@)),
            Some(token) => Ok((token, token)),
        },
    }
}

/// The first step: without its tokens the pass has failed; with them, the
/// address walk is asked for.
pub open spec fn begin(
    options: OptionsText,
    read_token: Option<Seq<char>>,
    edit_token: Option<Seq<char>>,
) -> (StageText, ActionText) {
    match tokens(options.publisher, read_token, edit_token) {
        Err(failure) => failed(failure),
        Ok((read_token, edit_token)) => (
            StageText::AddressWalk { settings: SettingsText { options, read_token, edit_token } },
            ActionText::Walk(address_walk_of(options.destination)),
        ),
    }
}

/// After the address walk: without candidates discovery has failed, and the
/// description walk is not made; with candidates it is asked for.
pub open spec fn after_address_walk(settings: SettingsText, rows: Option<Seq<RowText>>) -> (
    StageText,
    ActionText,
) {
    let found = match rows {
        Some(rows) => possible_ips(rows),
        None => None,
    };
    match found {
        Some(candidates) => (
            StageText::DescriptionWalk { settings, candidates },
            ActionText::Walk(description_walk_of(settings.options.destination)),
        ),
        None => failed(FailureText::DiscoveryFailed),
    }
}

/// After the description walk: without a WAN address discovery has failed;
/// with one, the zone of the domain is looked up.
pub open spec fn after_description_walk(
    settings: SettingsText,
    candidates: Seq<CandidateText>,
    rows: Option<Seq<RowText>>,
) -> (StageText, ActionText) {
    let indexes = match rows {
        Some(rows) => possible_indexes(rows),
        None => None,
    };
    match wan_ip(Some(candidates), indexes) {
        Some(wan_ip) => (
            StageText::ZoneLookup { settings, wan_ip },
            ActionText::LookupZone(zone_lookup(settings.read_token, settings.options.domain)),
        ),
        None => failed(FailureText::DiscoveryFailed),
    }
}

/// After the zone lookup: without a zone the pass has failed; with one, its
/// address records are looked up.
pub open spec fn after_zone_lookup(
    settings: SettingsText,
    wan_ip: Seq<char>,
    reply: Option<Seq<ZoneIdItemText>>,
) -> (StageText, ActionText) {
    match zone_id(reply) {
        Some(zone_id) => (
            StageText::RecordLookup { settings, wan_ip, zone_id },
            ActionText::LookupRecords(record_lookup(settings.read_token, zone_id)),
        ),
        None => failed(FailureText::ZoneLookupFailed),
    }
}

/// After the record lookup: without a record the pass has failed; with one,
/// the decision is made, and the pass is over unless the address is to be
/// published.
pub open spec fn after_record_lookup(
    settings: SettingsText,
    wan_ip: Seq<char>,
    zone_id: Seq<char>,
    reply: Option<Seq<DnsItemText>>,
) -> (StageText, ActionText) {
    match current_ip(Some(zone_id), reply) {
        Err(failure) => failed(failure),
        Ok(info) => match decision(wan_ip, info.ip, settings.options.force, settings.options.stdout) {
            OutcomeText::NoChange => (StageText::Done, ActionText::Finish(EndingText::NoChange)),
            OutcomeText::PrintOnly(address) => (
                StageText::Done,
                ActionText::Finish(EndingText::Printed(address)),
            ),
            OutcomeText::Publish(address) => match settings.options.publisher {
                PublisherText::DirectUpdate => (
                    StageText::Publishing { wan_ip: address },
                    ActionText::Publish(
                        record_update(address, settings.edit_token, info, settings.options.domain),
                    ),
                ),
                PublisherText::Notification { endpoint, subject } => (
                    StageText::Notifying { wan_ip: address },
                    ActionText::Notify(notice(endpoint, subject, settings.options.domain, address)),
                ),
            },
        },
    }
}

/// After the update or the announcement: the pass is over, and has not failed
/// even where the address was turned down.
pub open spec fn after_publish(wan_ip: Seq<char>, result: Result<(), FailureText>) -> (
    StageText,
    ActionText,
) {
    match result {
        Ok(_) => (StageText::Done, ActionText::Finish(EndingText::Published(wan_ip))),
        Err(failure) => (StageText::Done, ActionText::Finish(EndingText::NotPublished(failure))),
    }
}

/// The next stage and the next action, from the stage and the event. An event
/// that the stage does not wait for ends the pass as a failure.
pub open spec fn step_of(stage: StageText, event: EventText) -> (StageText, ActionText) {
    match (stage, event) {
        (StageText::Start, EventText::Started { options, read_token, edit_token }) => begin(
            options,
            read_token,
            edit_token,
        ),
        (StageText::AddressWalk { settings }, EventText::Walked(rows)) => after_address_walk(
            settings,
            rows,
        ),
        (
            StageText::DescriptionWalk { settings, candidates },
            EventText::Walked(rows),
        ) => after_description_walk(settings, candidates, rows),
        (StageText::ZoneLookup { settings, wan_ip }, EventText::Zones(reply)) => after_zone_lookup(
            settings,
            wan_ip,
            reply,
        ),
        (
            StageText::RecordLookup { settings, wan_ip, zone_id },
            EventText::Records(reply),
        ) => after_record_lookup(settings, wan_ip, zone_id, reply),
        (StageText::Publishing { wan_ip }, EventText::Sent { accepted, answer }) => after_publish(
            wan_ip,
            publish_result(accepted, answer),
        ),
        (StageText::Notifying { wan_ip }, EventText::Notified(reply)) => after_publish(
            wan_ip,
            notify_result(reply),
        ),
        _ => failed(FailureText::OutOfTurn),
    }
}

/// Ends the pass as a failure.
fn fail(failure: Failure) -> (next: (Stage, Action))
    ensures
        (next.0@, next.1@) == failed(failure@),
{
    (Stage::Done, Action::Finish(Ending::Failed(failure)))
}

/// Ends the pass after the update or the announcement.
fn finish(wan_ip: String, result: Result<(), Failure>) -> (next: (Stage, Action))
    ensures
        (next.0@, next.1@) == after_publish(wan_ip@, result_text(result)),
{
    match result {
        Ok(_) => (Stage::Done, Action::Finish(Ending::Published(wan_ip))),
        Err(failure) => (Stage::Done, Action::Finish(Ending::NotPublished(failure))),
    }
}

/// Takes one step of a pass: from the stage it is in and the event that came to
/// the next stage and the next action.
pub fn step(stage: Stage, event: Event) -> (next: (Stage, Action))
    ensures
        (next.0@, next.1@) == step_of(stage@, event@),
{
    match stage {
        Stage::Start => match event {
            Event::Started { options, read_token, edit_token } => {
                let (read_token, edit_token) = match &options.publisher {
                    Publisher::DirectUpdate => {
                        let read_token = match read_token {
                            Some(token) => token,
                            None => {
                                return fail(Failure::ConfigMissing(String::from_str(READ_TOKEN)));
                            },
                        };
                        let edit_token = match edit_token {
                            Some(token) => token,
                            None => {
                                return fail(Failure::ConfigMissing(String::from_str(EDIT_TOKEN)));
                            },
                        };
                        (read_token, edit_token)
                    },
                    Publisher::Notification { .. } => {
                        match read_token {
                            Some(token) => (token.clone(), token),
                            None => {
                                return fail(Failure::ConfigMissing(String::from_str(TOKEN)));
                            },
                        }
                    },
                };
                let request = address_walk(&options.destination);
                (
                    Stage::AddressWalk { settings: Settings { options, read_token, edit_token } },
                    Action::Walk(request),
                )
            },
            _ => fail(Failure::OutOfTurn),
        },
        Stage::AddressWalk { settings } => match event {
            Event::Walked(rows) => {
                let found = match rows {
                    Some(rows) => get_possible_ips(&rows),
                    None => None,
                };
                match found {
                    Some(candidates) => {
                        let request = description_walk(&settings.options.destination);
                        (Stage::DescriptionWalk { settings, candidates }, Action::Walk(request))
                    },
                    None => fail(Failure::DiscoveryFailed),
                }
            },
            _ => fail(Failure::OutOfTurn),
        },
        Stage::DescriptionWalk { settings, candidates } => match event {
            Event::Walked(rows) => {
                let indexes = match rows {
                    Some(rows) => get_possible_indexes(&rows),
                    None => None,
                };
                match get_wan_ip(Some(candidates), indexes) {
                    Some(wan_ip) => {
                        let request = zone_request(&settings.read_token, &settings.options.domain);
                        (Stage::ZoneLookup { settings, wan_ip }, Action::LookupZone(request))
                    },
                    None => fail(Failure::DiscoveryFailed),
                }
            },
            _ => fail(Failure::OutOfTurn),
        },
        Stage::ZoneLookup { settings, wan_ip } => match event {
            Event::Zones(reply) => {
                match get_zone_id(reply) {
                    Some(zone_id) => {
                        let request = record_request(&settings.read_token, &zone_id);
                        (
                            Stage::RecordLookup { settings, wan_ip, zone_id },
                            Action::LookupRecords(request),
                        )
                    },
                    None => fail(Failure::ZoneLookupFailed),
                }
            },
            _ => fail(Failure::OutOfTurn),
        },
        Stage::RecordLookup { settings, wan_ip, zone_id } => match event {
            Event::Records(reply) => {
                match get_current_ip(Some(zone_id), reply) {
                    Err(failure) => fail(failure),
                    Ok(info) => {
                        match decide(
                            &wan_ip,
                            &info.ip,
                            settings.options.force,
                            settings.options.stdout,
                        ) {
                            Outcome::NoChange => (Stage::Done, Action::Finish(Ending::NoChange)),
                            Outcome::PrintOnly(address) => (
                                Stage::Done,
                                Action::Finish(Ending::Printed(address)),
                            ),
                            Outcome::Publish(address) => match &settings.options.publisher {
                                Publisher::DirectUpdate => {
                                    let request = update_request(
                                        &address,
                                        &settings.edit_token,
                                        &info,
                                        &settings.options.domain,
                                    );
                                    (Stage::Publishing { wan_ip: address }, Action::Publish(request))
                                },
                                Publisher::Notification { endpoint, subject } => {
                                    let request = notify_request(
                                        endpoint,
                                        subject,
                                        &settings.options.domain,
                                        &address,
                                    );
                                    (Stage::Notifying { wan_ip: address }, Action::Notify(request))
                                },
                            },
                        }
                    },
                }
            },
            _ => fail(Failure::OutOfTurn),
        },
        Stage::Publishing { wan_ip } => match event {
            Event::Sent { accepted, answer } => finish(wan_ip, publish_new_ip(accepted, answer)),
            _ => fail(Failure::OutOfTurn),
        },
        Stage::Notifying { wan_ip } => match event {
            Event::Notified(reply) => finish(wan_ip, notify_new_ip(reply)),
            _ => fail(Failure::OutOfTurn),
        },
        Stage::Done => fail(Failure::OutOfTurn),
    }
}

} // verus!
