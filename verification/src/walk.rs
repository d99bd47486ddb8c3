//! The rows of a bulk walk, and the two walks that discovery asks for.

use vstd::prelude::*;

verus! {

/// One row of a walk: the identifier in dotted form and the value as text, the
/// type tag in front of it.
#[derive(Clone, Debug, PartialEq, Eq)]
pub struct Row {
    pub identifier: String,
    pub value: String,
}

/// What a `Row` says, as mathematical text.
pub struct RowText {
    pub identifier: Seq<char>,
    pub value: Seq<char>,
}

impl View for Row {
    type V = RowText;

    open spec fn view(&self) -> RowText {
        RowText { identifier: self.identifier@, value: self.value@ }
    }
}

impl DeepView for Row {
    type V = RowText;

    open spec fn deep_view(&self) -> RowText {
        self@
    }
}

/// `snmp::Varbinds`: the variable bindings of a response, read one by one out
/// of the bytes that came. Nothing is known of what is inside.
#[verifier::external_type_specification]
#[verifier::external_body]
pub struct ExVarbinds<'a>(snmp::Varbinds<'a>);

/// `snmp::ObjectIdentifier`: the name of a binding. Nothing is known of what is
/// inside.
#[verifier::external_type_specification]
#[verifier::external_body]
pub struct ExObjectIdentifier<'a>(snmp::ObjectIdentifier<'a>);

/// `snmp::Value`: the value of a binding. Nothing is known of what is inside.
#[verifier::external_type_specification]
#[verifier::external_body]
pub struct ExValue<'a>(snmp::Value<'a>);

/// The variable bindings that an `snmp::Varbinds` has yet to hand out, each as
/// the pair of its name and its value in text: what `Iterator::next` yields,
/// call after call, up to the first time it yields nothing.
pub uninterp spec fn pending_rows(varbinds: snmp::Varbinds) -> Seq<(Seq<char>, Seq<char>)>;

/// Whether `snmp`'s reader gets through the pending bindings: every length
/// field in them, and in the values nested in them, ends within the bytes of
/// the response. Where one does not, the reader stops with a panic.
pub uninterp spec fn reads_through(varbinds: snmp::Varbinds) -> bool;

/// `Iterator::next` of `snmp::Varbinds`, each binding rendered as the crate
/// prints it: the name by its `Display` and the value by its `Debug`. Claimed:
/// the call hands out the first pending binding and leaves the others pending,
/// or hands out nothing where none is pending; and the reader gets through
/// what is left where it got through the whole.
#[verifier::external_body]
fn next_row(varbinds: &mut snmp::Varbinds) -> (row: Option<Row>)
    requires
        reads_through(*old(varbinds)),
    ensures
        match row {
            Some(r) => {
                &&& pending_rows(*old(varbinds)).len() > 0
                &&& (r.identifier@, r.value@) == pending_rows(*old(varbinds))[0]
                &&& pending_rows(*final(varbinds)) == pending_rows(*old(varbinds)).skip(1)
                &&& reads_through(*final(varbinds))
            },
            None => pending_rows(*old(varbinds)).len() == 0,
        },
{
    match varbinds.next() {
        Some((name, value)) => Some(Row { identifier: name.to_string(), value: format!("{:?}", value) }),
        None => None,
    }
}

/// The rows of a response, in the order of the response.
pub open spec fn response_rows(varbinds: snmp::Varbinds) -> Seq<RowText> {
    pending_rows(varbinds).map_values(
        |pair: (Seq<char>, Seq<char>)| RowText { identifier: pair.0, value: pair.1 },
    )
}

/// Reads every variable binding out of a response. The response must be one
/// that the reader gets through: one whose length fields run past its end stops
/// the reader with a panic.
pub fn collect_rows(varbinds: snmp::Varbinds) -> (rows: Vec<Row>)
    requires
        reads_through(varbinds),
    ensures
        rows.deep_view() == response_rows(varbinds),
{
    let mut pending = varbinds;
    let mut rows: Vec<Row> = Vec::new();
    assert(rows.deep_view() + response_rows(pending) =~= response_rows(varbinds));
    loop
        invariant
            reads_through(pending),
            response_rows(varbinds) == rows.deep_view() + response_rows(pending),
        decreases pending_rows(pending).len(),
    {
        let ghost before = pending;
        let ghost read = rows.deep_view();
        match next_row(&mut pending) {
            Some(row) => {
                rows.push(row);
                assert(rows.deep_view() + response_rows(pending) =~= read + response_rows(before));
            },
            None => {
                assert(rows.deep_view() + response_rows(before) =~= rows.deep_view());
                return rows;
            },
        }
    }
}

/// The community under which the gateway answers.
pub const COMMUNITY: &'static str = "private";

/// One bulk walk, as it is asked of the gateway: where, under which community,
/// from which base identifier on, how long to wait for the answer, and the two
/// counts of the bulk request.
#[derive(Clone, Debug, PartialEq, Eq)]
pub struct WalkRequest {
    pub destination: String,
    pub community: String,
    pub base: Vec<u32>,
    pub timeout_secs: u64,
    pub non_repeaters: u32,
    pub max_repetitions: u32,
}

/// What a `WalkRequest` says, as mathematical values.
pub struct WalkRequestText {
    pub destination: Seq<char>,
    pub community: Seq<char>,
    pub base: Seq<u32>,
    pub timeout_secs: u64,
    pub non_repeaters: u32,
    pub max_repetitions: u32,
}

impl View for WalkRequest {
    type V = WalkRequestText;

    open spec fn view(&self) -> WalkRequestText {
        WalkRequestText {
            destination: self.destination@,
            community: self.community@,
            base: self.base@,
            timeout_secs: self.timeout_secs,
            non_repeaters: self.non_repeaters,
            max_repetitions: self.max_repetitions,
        }
    }
}

impl DeepView for WalkRequest {
    type V = WalkRequestText;

    open spec fn deep_view(&self) -> WalkRequestText {
        self@
    }
}

/// The walk of the table that gives each address its interface: four rows at
/// most, and five seconds to answer.
pub open spec fn address_walk_of(destination: Seq<char>) -> WalkRequestText {
    WalkRequestText {
        destination,
        community: COMMUNITY@,
        base: seq![1u32, 3u32, 6u32, 1u32, 2u32, 1u32, 4u32, 20u32, 1u32, 2u32],
        timeout_secs: 5,
        non_repeaters: 0,
        max_repetitions: 4,
    }
}

/// The walk of the table that gives each interface its description: twenty-five
/// rows at most, and two seconds to answer.
pub open spec fn description_walk_of(destination: Seq<char>) -> WalkRequestText {
    WalkRequestText {
        destination,
        community: COMMUNITY@,
        base: seq![1u32, 3u32, 6u32, 1u32, 2u32, 1u32, 2u32, 2u32, 1u32, 2u32],
        timeout_secs: 2,
        non_repeaters: 0,
        max_repetitions: 25,
    }
}

/// Describes the walk of the address table of the gateway at `destination`.
pub fn address_walk(destination: &String) -> (request: WalkRequest)
    ensures
        request@ == address_walk_of(destination@),
{
    let base: Vec<u32> = vec![1, 3, 6, 1, 2, 1, 4, 20, 1, 2];
    assert(base@ =~= seq![1u32, 3u32, 6u32, 1u32, 2u32, 1u32, 4u32, 20u32, 1u32, 2u32]);
    WalkRequest {
        destination: destination.clone(),
        community: String::from_str(COMMUNITY),
        base,
        timeout_secs: 5,
        non_repeaters: 0,
        max_repetitions: 4,
    }
}

/// Describes the walk of the description table of the gateway at `destination`.
pub fn description_walk(destination: &String) -> (request: WalkRequest)
    ensures
        request@ == description_walk_of(destination@),
{
    let base: Vec<u32> = vec![1, 3, 6, 1, 2, 1, 2, 2, 1, 2];
    assert(base@ =~= seq![1u32, 3u32, 6u32, 1u32, 2u32, 1u32, 2u32, 2u32, 1u32, 2u32]);
    WalkRequest {
        destination: destination.clone(),
        community: String::from_str(COMMUNITY),
        base,
        timeout_secs: 2,
        non_repeaters: 0,
        max_repetitions: 25,
    }
}

} // verus!
