//! The provider's side of a pass: what to ask of it and what its answers mean.
//!
//! Nothing here talks to the provider. A request is described, the caller
//! sends it, and the answer comes back as plain values.

use crate::failure::{Failure, FailureText};
use vstd::prelude::*;

verus! {

/// Where the provider keeps its zones.
pub const ZONES_URL: &'static str = "https://api.cloudflare.com/client/v4/zones";

/// The seconds for which a published address may be cached.
pub const TTL: u32 = 120;

/// The method of a request.
#[derive(Clone, Copy, Debug, PartialEq, Eq)]
pub enum Method {
    Get,
    Put,
    Post,
}

/// A name with its value: a parameter of a query, or a header.
#[derive(Clone, Debug, PartialEq, Eq)]
pub struct Field {
    pub name: String,
    pub value: String,
}

/// What a `Field` says, as mathematical text.
pub struct FieldText {
    pub name: Seq<char>,
    pub value: Seq<char>,
}

impl View for Field {
    type V = FieldText;

    open spec fn view(&self) -> FieldText {
        FieldText { name: self.name@, value: self.value@ }
    }
}

impl DeepView for Field {
    type V = FieldText;

    open spec fn deep_view(&self) -> FieldText {
        self@
    }
}

/// The new state of an address record, as the provider takes it.
#[derive(Clone, Debug, PartialEq, Eq)]
pub struct RecordUpdate {
    pub record_type: String,
    pub name: String,
    pub content: String,
    pub ttl: u32,
    pub proxied: bool,
}

/// What a `RecordUpdate` says, as mathematical text.
pub struct RecordUpdateText {
    pub record_type: Seq<char>,
    pub name: Seq<char>,
    pub content: Seq<char>,
    pub ttl: u32,
    pub proxied: bool,
}

impl View for RecordUpdate {
    type V = RecordUpdateText;

    open spec fn view(&self) -> RecordUpdateText {
        RecordUpdateText {
            record_type: self.record_type@,
            name: self.name@,
            content: self.content@,
            ttl: self.ttl,
            proxied: self.proxied,
        }
    }
}

impl DeepView for RecordUpdate {
    type V = RecordUpdateText;

    open spec fn deep_view(&self) -> RecordUpdateText {
        self@
    }
}

/// A new address, announced under a subject in place of a direct update.
#[derive(Clone, Debug, PartialEq, Eq)]
pub struct Notification {
    pub subject: String,
    pub message: String,
}

/// What a `Notification` says, as mathematical text.
pub struct NotificationText {
    pub subject: Seq<char>,
    pub message: Seq<char>,
}

impl View for Notification {
    type V = NotificationText;

    open spec fn view(&self) -> NotificationText {
        NotificationText { subject: self.subject@, message: self.message@ }
    }
}

impl DeepView for Notification {
    type V = NotificationText;

    open spec fn deep_view(&self) -> NotificationText {
        self@
    }
}

/// What a request carries.
#[derive(Clone, Debug, PartialEq, Eq)]
pub enum Body {
    Empty,
    Update(RecordUpdate),
    Notice(Notification),
}

/// What a `Body` says, as mathematical text.
pub enum BodyText {
    Empty,
    Update(RecordUpdateText),
    Notice(NotificationText),
}

impl View for Body {
    type V = BodyText;

    open spec fn view(&self) -> BodyText {
        match self {
            Body::Empty => BodyText::Empty,
            Body::Update(update) => BodyText::Update(update@),
            Body::Notice(notice) => BodyText::Notice(notice@),
        }
    }
}

impl DeepView for Body {
    type V = BodyText;

    open spec fn deep_view(&self) -> BodyText {
        self@
    }
}

/// A request, ready to be sent.
#[derive(Clone, Debug, PartialEq, Eq)]
pub struct Request {
    pub method: Method,
    pub url: String,
    pub query: Vec<Field>,
    pub headers: Vec<Field>,
    pub body: Body,
}

/// What a `Request` says, as mathematical text.
pub struct RequestText {
    pub method: Method,
    pub url: Seq<char>,
    pub query: Seq<FieldText>,
    pub headers: Seq<FieldText>,
    pub body: BodyText,
}

impl View for Request {
    type V = RequestText;

    open spec fn view(&self) -> RequestText {
        RequestText {
            method: self.method,
            url: self.url@,
            query: self.query.deep_view(),
            headers: self.headers.deep_view(),
            body: self.body@,
        }
    }
}

impl DeepView for Request {
    type V = RequestText;

    open spec fn deep_view(&self) -> RequestText {
        self@
    }
}

/// A zone in the provider's answer to a zone lookup.
#[derive(Clone, Debug, PartialEq, Eq)]
pub struct ZoneIdItem {
    pub id: String,
}

/// What a `ZoneIdItem` says, as mathematical text.
pub struct ZoneIdItemText {
    pub id: Seq<char>,
}

impl View for ZoneIdItem {
    type V = ZoneIdItemText;

    open spec fn view(&self) -> ZoneIdItemText {
        ZoneIdItemText { id: self.id@ }
    }
}

impl DeepView for ZoneIdItem {
    type V = ZoneIdItemText;

    open spec fn deep_view(&self) -> ZoneIdItemText {
        self@
    }
}

/// A record in the provider's answer to a record lookup.
#[derive(Clone, Debug, PartialEq, Eq)]
pub struct DnsItem {
    pub id: String,
    pub content: String,
}

/// What a `DnsItem` says, as mathematical text.
pub struct DnsItemText {
    pub id: Seq<char>,
    pub content: Seq<char>,
}

impl View for DnsItem {
    type V = DnsItemText;

    open spec fn view(&self) -> DnsItemText {
        DnsItemText { id: self.id@, content: self.content@ }
    }
}

impl DeepView for DnsItem {
    type V = DnsItemText;

    open spec fn deep_view(&self) -> DnsItemText {
        self@
    }
}

/// The state of the address record: the handles of its zone and of the record
/// itself, and the address on record.
#[derive(Clone, Debug, PartialEq, Eq)]
pub struct DnsInfo {
    pub zone: String,
    pub dns: String,
    pub ip: String,
}

/// What a `DnsInfo` says, as mathematical text.
pub struct DnsInfoText {
    pub zone: Seq<char>,
    pub dns: Seq<char>,
    pub ip: Seq<char>,
}

impl View for DnsInfo {
    type V = DnsInfoText;

    open spec fn view(&self) -> DnsInfoText {
        DnsInfoText { zone: self.zone@, dns: self.dns@, ip: self.ip@ }
    }
}

impl DeepView for DnsInfo {
    type V = DnsInfoText;

    open spec fn deep_view(&self) -> DnsInfoText {
        self@
    }
}

/// The two headers of every request: the token as a bearer credential, and the
/// content type under the name given.
pub open spec fn headers(token: Seq<char>, content_type: Seq<char>) -> Seq<FieldText> {
    seq![
        FieldText { name: "Authorization"@, value: "Bearer "@ + token },
        FieldText { name: content_type, value: "application/json"@ },
    ]
}

/// The lookup of the zone of `domain`.
pub open spec fn zone_lookup(token: Seq<char>, domain: Seq<char>) -> RequestText {
    RequestText {
        method: Method::Get,
        url: ZONES_URL@,
        query: seq![FieldText { name: "name"@, value: domain }],
        headers: headers(token, "Content-Type"@),
        body: BodyText::Empty,
    }
}

/// The lookup of the address records of a zone.
pub open spec fn record_lookup(token: Seq<char>, zone_id: Seq<char>) -> RequestText {
    RequestText {
        method: Method::Get,
        url: ZONES_URL@ + "/"@ + zone_id + "/dns_records"@,
        query: seq![FieldText { name: "type"@, value: "A"@ }],
        headers: headers(token, "Content-type"@),
        body: BodyText::Empty,
    }
}

/// The update that puts `new_ip` on record.
pub open spec fn record_update(
    new_ip: Seq<char>,
    token: Seq<char>,
    dns_info: DnsInfoText,
    domain: Seq<char>,
) -> RequestText {
    RequestText {
        method: Method::Put,
        url: ZONES_URL@ + "/"@ + dns_info.zone + "/dns_records/"@ + dns_info.dns,
        query: Seq::empty(),
        headers: headers(token, "Content-type"@),
        body: BodyText::Update(
            RecordUpdateText {
                record_type: "A"@,
                name: domain,
                content: new_ip,
                ttl: TTL,
                proxied: true,
            },
        ),
    }
}

/// The announcement of `new_ip` for `domain`: the message is the domain, a
/// colon and the address.
pub open spec fn notice(
    endpoint: Seq<char>,
    subject: Seq<char>,
    domain: Seq<char>,
    new_ip: Seq<char>,
) -> RequestText {
    RequestText {
        method: Method::Post,
        url: endpoint,
        query: Seq::empty(),
        headers: Seq::empty(),
        body: BodyText::Notice(NotificationText { subject, message: domain + ":"@ + new_ip }),
    }
}

/// The two headers of every request.
fn request_headers(token: &String, content_type: &str) -> (fields: Vec<Field>)
    ensures
        fields.deep_view() == headers(token@, content_type@),
{
    let mut bearer = String::from_str("Bearer ");
    bearer.append(token.as_str());
    let mut fields: Vec<Field> = Vec::new();
    fields.push(Field { name: String::from_str("Authorization"), value: bearer });
    fields.push(
        Field {
            name: String::from_str(content_type),
            value: String::from_str("application/json"),
        },
    );
    assert(fields.deep_view() =~= headers(token@, content_type@));
    fields
}

/// Describes the lookup of the zone of `domain`.
pub fn zone_request(token: &String, domain: &String) -> (request: Request)
    ensures
        request@ == zone_lookup(token@, domain@),
{
    let mut query: Vec<Field> = Vec::new();
    query.push(Field { name: String::from_str("name"), value: domain.clone() });
    assert(query.deep_view() =~= seq![FieldText { name: "name"@, value: domain@ }]);
    Request {
        method: Method::Get,
        url: String::from_str(ZONES_URL),
        query,
        headers: request_headers(token, "Content-Type"),
        body: Body::Empty,
    }
}

/// Describes the lookup of the address records of a zone.
pub fn record_request(token: &String, zone_id: &String) -> (request: Request)
    ensures
        request@ == record_lookup(token@, zone_id@),
{
    let mut url = String::from_str(ZONES_URL);
    url.append("/");
    url.append(zone_id.as_str());
    url.append("/dns_records");
    let mut query: Vec<Field> = Vec::new();
    query.push(Field { name: String::from_str("type"), value: String::from_str("A") });
    assert(query.deep_view() =~= seq![FieldText { name: "type"@, value: "A"@ }]);
    Request {
        method: Method::Get,
        url,
        query,
        headers: request_headers(token, "Content-type"),
        body: Body::Empty,
    }
}

/// Describes the update that puts `new_ip` on record.
pub fn update_request(new_ip: &String, token: &String, dns_info: &DnsInfo, domain: &String) -> (request:
    Request)
    ensures
        request@ == record_update(new_ip@, token@, dns_info@, domain@),
{
    let mut url = String::from_str(ZONES_URL);
    url.append("/");
    url.append(dns_info.zone.as_str());
    url.append("/dns_records/");
    url.append(dns_info.dns.as_str());
    let query: Vec<Field> = Vec::new();
    assert(query.deep_view() =~= Seq::<FieldText>::empty());
    Request {
        method: Method::Put,
        url,
        query,
        headers: request_headers(token, "Content-type"),
        body: Body::Update(
            RecordUpdate {
                record_type: String::from_str("A"),
                name: domain.clone(),
                content: new_ip.clone(),
                ttl: TTL,
                proxied: true,
            },
        ),
    }
}

/// Describes the announcement of `new_ip` for `domain` under `subject`, to be
/// posted to `endpoint`.
pub fn notify_request(endpoint: &String, subject: &String, domain: &String, new_ip: &String) -> (request:
    Request)
    ensures
        request@ == notice(endpoint@, subject@, domain@, new_ip@),
{
    let mut message = domain.clone();
    message.append(":");
    message.append(new_ip.as_str());
    let query: Vec<Field> = Vec::new();
    let headers: Vec<Field> = Vec::new();
    assert(query.deep_view() =~= Seq::<FieldText>::empty());
    assert(headers.deep_view() =~= Seq::<FieldText>::empty());
    Request {
        method: Method::Post,
        url: endpoint.clone(),
        query,
        headers,
        body: Body::Notice(Notification { subject: subject.clone(), message }),
    }
}

/// The handle of the zone in the answer to a zone lookup: that of the last zone
/// listed, and none where the answer could not be read or lists no zone.
pub open spec fn zone_id(reply: Option<Seq<ZoneIdItemText>>) -> Option<Seq<char>> {
    match reply {
        Some(zones) => if zones.len() == 0 {
            None
        } else {
            Some(zones.last().id)
        },
        None => None,
    }
}

/// Reads the handle of the zone out of the answer to a zone lookup. `None` for
/// `reply` stands for an answer that could not be read.
pub fn get_zone_id(reply: Option<Vec<ZoneIdItem>>) -> (found: Option<String>)
    ensures
        found.deep_view() == zone_id(reply.deep_view()),
{
    match reply {
        Some(mut zones) => {
            match zones.pop() {
                Some(zone) => Some(zone.id),
                None => None,
            }
        },
        None => None,
    }
}

/// The state of the record in the answer to a record lookup: the first record
/// listed, under the zone asked for, and none where the answer could not be read
/// or lists no record.
pub open spec fn record_state(zone_id: Seq<char>, reply: Option<Seq<DnsItemText>>) -> Option<
    DnsInfoText,
> {
    match reply {
        Some(records) => if records.len() == 0 {
            None
        } else {
            Some(
                DnsInfoText { zone: zone_id, dns: records.first().id, ip: records.first().content },
            )
        },
        None => None,
    }
}

/// Reads the state of the record out of the answer to a record lookup. `None`
/// for `reply` stands for an answer that could not be read.
pub fn get_ip(zone_id: &String, reply: Option<Vec<DnsItem>>) -> (found: Option<DnsInfo>)
    ensures
        found.deep_view() == record_state(zone_id@, reply.deep_view()),
{
    match reply {
        Some(records) => {
            if records.len() == 0 {
                None
            } else {
                Some(
                    DnsInfo {
                        zone: zone_id.clone(),
                        dns: records[0].id.clone(),
                        ip: records[0].content.clone(),
                    },
                )
            }
        },
        None => None,
    }
}

/// The state of the record after both lookups: the zone lookup failed where it
/// gave no handle, the record lookup where it gave no record.
pub open spec fn current_ip(zone_id: Option<Seq<char>>, reply: Option<Seq<DnsItemText>>) -> Result<
    DnsInfoText,
    FailureText,
> {
    match zone_id {
        None => Err(FailureText::ZoneLookupFailed),
        Some(zone_id) => match record_state(zone_id, reply) {
            Some(info) => Ok(info),
            None => Err(FailureText::RecordLookupFailed),
        },
    }
}

/// The text of a record state or of the failure to get it.
pub open spec fn state_text(state: Result<DnsInfo, Failure>) -> Result<DnsInfoText, FailureText> {
    match state {
        Ok(info) => Ok(info@),
        Err(failure) => Err(failure@),
    }
}

/// The state of the record, from what the two lookups gave: the handle of the
/// zone, and the answer to the record lookup in that zone.
pub fn get_current_ip(zone_id: Option<String>, reply: Option<Vec<DnsItem>>) -> (state: Result<
    DnsInfo,
    Failure,
>)
    ensures
        state_text(state) == current_ip(zone_id.deep_view(), reply.deep_view()),
{
    let zone_id = match zone_id {
        Some(zone_id) => zone_id,
        None => {
            return Err(Failure::ZoneLookupFailed);
        },
    };
    match get_ip(&zone_id, reply) {
        Some(info) => Ok(info),
        None => Err(Failure::RecordLookupFailed),
    }
}

/// What the provider's answer to an update means: the update stands where the
/// provider accepted it, and has failed with the provider's answer where it did
/// not, or with a note that there was none to read.
pub open spec fn publish_result(accepted: bool, answer: Option<Seq<char>>) -> Result<
    (),
    FailureText,
> {
    if accepted {
        Ok(())
    } else {
        Err(
            FailureText::PublishFailed(
                match answer {
                    Some(answer) => answer,
                    None => "could not get response"@,
                },
            ),
        )
    }
}

/// The text of the result of an update.
pub open spec fn result_text(result: Result<(), Failure>) -> Result<(), FailureText> {
    match result {
        Ok(_) => Ok(()),
        Err(failure) => Err(failure@),
    }
}

/// Reads the provider's answer to an update: whether it accepted the update, and
/// the body of its answer where that could be read.
pub fn publish_new_ip(accepted: bool, answer: Option<String>) -> (result: Result<(), Failure>)
    ensures
        result_text(result) == publish_result(accepted, answer.deep_view()),
{
    if accepted {
        Ok(())
    } else {
        match answer {
            Some(answer) => Err(Failure::PublishFailed(answer)),
            None => Err(Failure::PublishFailed(String::from_str("could not get response"))),
        }
    }
}

/// The answer to an announcement: whether it was taken, and a message.
#[derive(Clone, Debug, PartialEq, Eq)]
pub struct Envelope {
    pub ok: bool,
    pub message: String,
}

/// What an `Envelope` says, as mathematical text.
pub struct EnvelopeText {
    pub ok: bool,
    pub message: Seq<char>,
}

impl View for Envelope {
    type V = EnvelopeText;

    open spec fn view(&self) -> EnvelopeText {
        EnvelopeText { ok: self.ok, message: self.message@ }
    }
}

impl DeepView for Envelope {
    type V = EnvelopeText;

    open spec fn deep_view(&self) -> EnvelopeText {
        self@
    }
}

/// What the answer to an announcement means: the announcement stands where the
/// envelope says so, and has failed with the envelope's message where it does
/// not, or with a note that there was no envelope to read.
pub open spec fn notify_result(reply: Option<EnvelopeText>) -> Result<(), FailureText> {
    match reply {
        Some(envelope) => if envelope.ok {
            Ok(())
        } else {
            Err(FailureText::PublishFailed(envelope.message))
        },
        None => Err(FailureText::PublishFailed("could not get response"@)),
    }
}

/// Reads the answer to an announcement. `None` for `reply` stands for an answer
/// that could not be read.
pub fn notify_new_ip(reply: Option<Envelope>) -> (result: Result<(), Failure>)
    ensures
        result_text(result) == notify_result(reply.deep_view()),
{
    match reply {
        Some(envelope) => {
            if envelope.ok {
                Ok(())
            } else {
                Err(Failure::PublishFailed(envelope.message))
            }
        },
        None => Err(Failure::PublishFailed(String::from_str("could not get response"))),
    }
}

} // verus!
