//! From the rows of the two walks to the WAN address.
//!
//! The address walk yields the candidates, the description walk the indexes of
//! the WAN interface; the two are joined on the index.

use crate::text::{contains, lemma_without_prefix, occurs_in, remove_all, without};
use crate::walk::{Row, RowText};
use vstd::prelude::*;

verus! {

/// The address of the loopback interface: rows that name it are no candidates.
pub const LOOPBACK: &'static str = "127.0.0.1";

/// The gateway's own address on the inner network: rows that name it are no
/// candidates.
pub const INTERNAL_GATEWAY: &'static str = "192.168.1.1";

/// The base identifier of the address walk, in dotted form and with the dot that
/// separates it from the index.
pub const ADDRESS_PREFIX: &'static str = "1.3.6.1.2.1.4.20.1.2.";

/// The base identifier of the description walk, in dotted form and with the dot
/// that separates it from the index.
pub const DESCRIPTION_PREFIX: &'static str = "1.3.6.1.2.1.2.2.1.2.";

/// The type tag in front of an integer value.
pub const INTEGER_TAG: &'static str = "INTEGER: ";

/// The name of the WAN interface, as its description holds it.
pub const WAN_INTERFACE: &'static str = "pppoe-wan1_poe";

/// An address that the gateway reports, under the index of its interface.
#[derive(Clone, Debug, PartialEq, Eq)]
pub struct Candidate {
    pub index: String,
    pub address: String,
}

/// What a `Candidate` says, as mathematical text.
pub struct CandidateText {
    pub index: Seq<char>,
    pub address: Seq<char>,
}

impl View for Candidate {
    type V = CandidateText;

    open spec fn view(&self) -> CandidateText {
        CandidateText { index: self.index@, address: self.address@ }
    }
}

impl DeepView for Candidate {
    type V = CandidateText;

    open spec fn deep_view(&self) -> CandidateText {
        self@
    }
}

/// The identifier names the loopback address or the inner gateway address.
pub open spec fn excluded(identifier: Seq<char>) -> bool {
    occurs_in(identifier, LOOPBACK@) || occurs_in(identifier, INTERNAL_GATEWAY@)
}

/// The candidate that a row of the address walk stands for: the index is the
/// identifier without the base prefix, the address the value without its tag.
pub open spec fn candidate_of(row: RowText) -> CandidateText {
    CandidateText {
        index: without(row.identifier, ADDRESS_PREFIX@),
        address: without(row.value, INTEGER_TAG@),
    }
}

/// The index of a row of the address table is what follows the base prefix in
/// its identifier, where the prefix does not come again in what follows.
pub proof fn lemma_candidate_index(row: RowText, index: Seq<char>)
    requires
        row.identifier == ADDRESS_PREFIX@ + index,
        !occurs_in(index, ADDRESS_PREFIX@),
    ensures
        candidate_of(row).index == index,
{
    reveal_strlit("1.3.6.1.2.1.4.20.1.2.");
    lemma_without_prefix(ADDRESS_PREFIX@, index);
}

/// The rows of the address walk that are not excluded, in the order of the walk.
pub open spec fn admitted_rows(rows: Seq<RowText>) -> Seq<RowText> {
    rows.filter(|row: RowText| !excluded(row.identifier))
}

/// The candidates of an address walk: one for each row that is not excluded, in
/// the order of the walk.
pub open spec fn candidates_of(rows: Seq<RowText>) -> Seq<CandidateText> {
    admitted_rows(rows).map_values(|row: RowText| candidate_of(row))
}

/// One more row at the end of a walk adds its candidate at the end, or nothing
/// where the row is excluded.
pub proof fn lemma_candidates_push(rows: Seq<RowText>, row: RowText)
    ensures
        candidates_of(rows.push(row)) == if excluded(row.identifier) {
            candidates_of(rows)
        } else {
            candidates_of(rows).push(candidate_of(row))
        },
{
    rows.lemma_filter_push(row, |row: RowText| !excluded(row.identifier));
    if !excluded(row.identifier) {
        assert(candidates_of(rows.push(row)) =~= candidates_of(rows).push(candidate_of(row)));
    }
}

/// What an address walk gives: its candidates, or nothing where it has none.
pub open spec fn possible_ips(rows: Seq<RowText>) -> Option<Seq<CandidateText>> {
    if candidates_of(rows).len() == 0 {
        None
    } else {
        Some(candidates_of(rows))
    }
}

/// The candidates among the rows of the address walk; `None` where there is none.
pub fn get_possible_ips(rows: &Vec<Row>) -> (found: Option<Vec<Candidate>>)
    ensures
        found.deep_view() == possible_ips(rows.deep_view()),
{
    let mut candidates: Vec<Candidate> = Vec::new();
    let mut i: usize = 0;
    assert(rows.deep_view().take(0) =~= Seq::<RowText>::empty());
    assert(candidates.deep_view() =~= candidates_of(Seq::<RowText>::empty()));
    while i < rows.len()
        invariant
            i <= rows.len(),
            candidates.deep_view() == candidates_of(rows.deep_view().take(i as int)),
        decreases rows.len() - i,
    {
        let row = &rows[i];
        let ghost seen = rows.deep_view().take(i as int);
        let ghost made = candidates.deep_view();
        proof {
            assert(rows.deep_view().take(i + 1) =~= seen.push(row@));
            lemma_candidates_push(seen, row@);
        }
        if !(contains(row.identifier.as_str(), LOOPBACK) || contains(
            row.identifier.as_str(),
            INTERNAL_GATEWAY,
        )) {
            let candidate = Candidate {
                index: remove_all(row.identifier.as_str(), ADDRESS_PREFIX),
                address: remove_all(row.value.as_str(), INTEGER_TAG),
            };
            candidates.push(candidate);
            assert(candidates.deep_view() =~= made.push(candidate@));
        }
        i += 1;
    }
    assert(rows.deep_view().take(rows.len() as int) =~= rows.deep_view());
    if candidates.len() == 0 {
        None
    } else {
        Some(candidates)
    }
}

/// Every candidate comes from a row of the walk whose identifier names neither
/// the loopback address nor the inner gateway address.
pub proof fn lemma_candidates_exclude_local(rows: Seq<RowText>, k: int)
    requires
        0 <= k < candidates_of(rows).len(),
    ensures
        exists|i: int|
            0 <= i < rows.len() && !occurs_in(rows[i].identifier, LOOPBACK@) && !occurs_in(
                rows[i].identifier,
                INTERNAL_GATEWAY@,
            ) && candidates_of(rows)[k] == candidate_of(#[trigger] rows[i]),
{
    let admitted = admitted_rows(rows);
    let source = admitted[k];
    assert(admitted.contains(source));
    rows.lemma_filter_pred(|row: RowText| !excluded(row.identifier), k);
    rows.lemma_filter_contains_rev(|row: RowText| !excluded(row.identifier), source);
    let i = choose|i: int| 0 <= i < rows.len() && rows[i] == source;
    assert(candidates_of(rows)[k] == candidate_of(rows[i]));
}

/// A walk in which every identifier names the loopback address or the inner
/// gateway address has no candidates.
pub proof fn lemma_no_candidates_among_local(rows: Seq<RowText>)
    requires
        forall|i: int| 0 <= i < rows.len() ==> excluded(#[trigger] rows[i].identifier),
    ensures
        candidates_of(rows).len() == 0,
{
    if candidates_of(rows).len() > 0 {
        lemma_candidates_exclude_local(rows, 0);
    }
}

/// The description of the interface names the WAN interface.
pub open spec fn describes_wan(value: Seq<char>) -> bool {
    occurs_in(value, WAN_INTERFACE@)
}

/// The rows of the description walk that describe the WAN interface, in the
/// order of the walk.
pub open spec fn wan_rows(rows: Seq<RowText>) -> Seq<RowText> {
    rows.filter(|row: RowText| describes_wan(row.value))
}

/// The indexes of the WAN interface in a description walk: for each row that
/// describes it, the identifier without the base prefix, in the order of the walk.
pub open spec fn wan_indexes_of(rows: Seq<RowText>) -> Seq<Seq<char>> {
    wan_rows(rows).map_values(|row: RowText| without(row.identifier, DESCRIPTION_PREFIX@))
}

/// One more row at the end of a walk adds its index at the end where it
/// describes the WAN interface, and nothing where it does not.
pub proof fn lemma_wan_indexes_push(rows: Seq<RowText>, row: RowText)
    ensures
        wan_indexes_of(rows.push(row)) == if describes_wan(row.value) {
            wan_indexes_of(rows).push(without(row.identifier, DESCRIPTION_PREFIX@))
        } else {
            wan_indexes_of(rows)
        },
{
    rows.lemma_filter_push(row, |row: RowText| describes_wan(row.value));
    if describes_wan(row.value) {
        assert(wan_indexes_of(rows.push(row)) =~= wan_indexes_of(rows).push(
            without(row.identifier, DESCRIPTION_PREFIX@),
        ));
    }
}

/// What a description walk gives: the indexes of the WAN interface, or nothing
/// where no row describes it.
pub open spec fn possible_indexes(rows: Seq<RowText>) -> Option<Seq<Seq<char>>> {
    if wan_indexes_of(rows).len() == 0 {
        None
    } else {
        Some(wan_indexes_of(rows))
    }
}

/// The indexes of the WAN interface among the rows of the description walk;
/// `None` where no row describes it.
pub fn get_possible_indexes(rows: &Vec<Row>) -> (found: Option<Vec<String>>)
    ensures
        found.deep_view() == possible_indexes(rows.deep_view()),
{
    let mut indexes: Vec<String> = Vec::new();
    let mut i: usize = 0;
    assert(rows.deep_view().take(0) =~= Seq::<RowText>::empty());
    assert(indexes.deep_view() =~= wan_indexes_of(Seq::<RowText>::empty()));
    while i < rows.len()
        invariant
            i <= rows.len(),
            indexes.deep_view() == wan_indexes_of(rows.deep_view().take(i as int)),
        decreases rows.len() - i,
    {
        let row = &rows[i];
        let ghost seen = rows.deep_view().take(i as int);
        let ghost made = indexes.deep_view();
        proof {
            assert(rows.deep_view().take(i + 1) =~= seen.push(row@));
            lemma_wan_indexes_push(seen, row@);
        }
        if contains(row.value.as_str(), WAN_INTERFACE) {
            let index = remove_all(row.identifier.as_str(), DESCRIPTION_PREFIX);
            indexes.push(index);
            assert(indexes.deep_view() =~= made.push(index@));
        }
        i += 1;
    }
    assert(rows.deep_view().take(rows.len() as int) =~= rows.deep_view());
    if indexes.len() == 0 {
        None
    } else {
        Some(indexes)
    }
}

/// The candidates whose index is one of the WAN indexes, in their order.
pub open spec fn wan_matches(
    candidates: Seq<CandidateText>,
    wan_indexes: Seq<Seq<char>>,
) -> Seq<CandidateText> {
    candidates.filter(|candidate: CandidateText| wan_indexes.contains(candidate.index))
}

/// The WAN address: the address of the last candidate whose index is one of the
/// WAN indexes, and none where no candidate has such an index.
pub open spec fn resolve(candidates: Seq<CandidateText>, wan_indexes: Seq<Seq<char>>) -> Option<
    Seq<char>,
> {
    let matches = wan_matches(candidates, wan_indexes);
    if matches.len() == 0 {
        None
    } else {
        Some(matches.last().address)
    }
}

/// One more candidate at the end settles the address where its index is a WAN
/// index, and leaves it as it was where it is not.
pub proof fn lemma_resolve_push(
    candidates: Seq<CandidateText>,
    candidate: CandidateText,
    wan_indexes: Seq<Seq<char>>,
)
    ensures
        resolve(candidates.push(candidate), wan_indexes) == if wan_indexes.contains(
            candidate.index,
        ) {
            Some(candidate.address)
        } else {
            resolve(candidates, wan_indexes)
        },
{
    candidates.lemma_filter_push(
        candidate,
        |candidate: CandidateText| wan_indexes.contains(candidate.index),
    );
}

/// Whether `key` is one of `keys`.
pub fn is_member(keys: &Vec<String>, key: &String) -> (found: bool)
    ensures
        found == keys.deep_view().contains(key@),
{
    let mut i: usize = 0;
    while i < keys.len()
        invariant
            i <= keys.len(),
            forall|j: int| 0 <= j < i ==> keys.deep_view()[j] != key@,
        decreases keys.len() - i,
    {
        if keys[i] == *key {
            assert(keys.deep_view()[i as int] == key@);
            return true;
        }
        i += 1;
    }
    false
}

/// Joins the candidates with the WAN indexes: the address of the last candidate
/// whose index is a WAN index.
pub fn resolve_wan(candidates: &Vec<Candidate>, wan_indexes: &Vec<String>) -> (address: Option<
    String,
>)
    ensures
        address.deep_view() == resolve(candidates.deep_view(), wan_indexes.deep_view()),
{
    let ghost all = candidates.deep_view();
    let ghost wan = wan_indexes.deep_view();
    let mut address: Option<String> = None;
    let mut i: usize = 0;
    assert(all.take(0) =~= Seq::<CandidateText>::empty());
    while i < candidates.len()
        invariant
            i <= candidates.len(),
            all == candidates.deep_view(),
            wan == wan_indexes.deep_view(),
            address.deep_view() == resolve(all.take(i as int), wan),
        decreases candidates.len() - i,
    {
        let candidate = &candidates[i];
        proof {
            assert(all.take(i + 1) =~= all.take(i as int).push(candidate@));
            lemma_resolve_push(all.take(i as int), candidate@, wan);
        }
        if is_member(wan_indexes, &candidate.index) {
            address = Some(candidate.address.clone());
        }
        i += 1;
    }
    assert(all.take(candidates.len() as int) =~= all);
    address
}

/// The indexes under which candidates stand.
pub open spec fn candidate_keys(candidates: Seq<CandidateText>) -> Set<Seq<char>> {
    candidates.map_values(|candidate: CandidateText| candidate.index).to_set()
}

/// No address is resolved exactly where no candidate stands under a WAN index:
/// where the candidates' indexes and the WAN indexes have nothing in common.
pub proof fn lemma_resolve_none_iff_disjoint(
    candidates: Seq<CandidateText>,
    wan_indexes: Seq<Seq<char>>,
)
    ensures
        resolve(candidates, wan_indexes) is None <==> candidate_keys(candidates).intersect(
            wan_indexes.to_set(),
        ) == Set::<Seq<char>>::empty(),
{
    let keys = candidates.map_values(|candidate: CandidateText| candidate.index);
    let common = candidate_keys(candidates).intersect(wan_indexes.to_set());
    let is_wan = |candidate: CandidateText| wan_indexes.contains(candidate.index);
    let matches = wan_matches(candidates, wan_indexes);
    if matches.len() > 0 {
        assert(matches.contains(matches[0]));
        candidates.lemma_filter_pred(is_wan, 0);
        candidates.lemma_filter_contains_rev(is_wan, matches[0]);
        let i = choose|i: int| 0 <= i < candidates.len() && candidates[i] == matches[0];
        assert(keys[i] == matches[0].index);
        assert(keys.contains(matches[0].index));
        assert(common.contains(matches[0].index));
    } else {
        assert forall|key: Seq<char>| !common.contains(key) by {
            if common.contains(key) {
                let i = choose|i: int| 0 <= i < keys.len() && keys[i] == key;
                assert(is_wan(candidates[i]));
                candidates.lemma_filter_contains(is_wan, i);
            }
        }
        assert(common =~= Set::<Seq<char>>::empty());
    }
}

/// The WAN address, where a candidate stands under a WAN index, is the address
/// of the last such candidate in the order of the walk.
pub proof fn lemma_resolve_last_match(
    candidates: Seq<CandidateText>,
    wan_indexes: Seq<Seq<char>>,
)
    requires
        resolve(candidates, wan_indexes) is Some,
    ensures
        exists|i: int|
            {
                &&& 0 <= i < candidates.len()
                &&& wan_indexes.contains(#[trigger] candidates[i].index)
                &&& resolve(candidates, wan_indexes) == Some(candidates[i].address)
                &&& forall|j: int|
                    i < j < candidates.len() ==> !wan_indexes.contains(
                        #[trigger] candidates[j].index,
                    )
            },
    decreases candidates.len(),
{
    if candidates.len() == 0 {
        assert(wan_matches(candidates, wan_indexes).len() == 0) by {
            candidates.lemma_filter_len(
                |candidate: CandidateText| wan_indexes.contains(candidate.index),
            );
        }
    } else {
        let before = candidates.drop_last();
        let last = candidates.last();
        assert(before.push(last) =~= candidates);
        lemma_resolve_push(before, last, wan_indexes);
        if wan_indexes.contains(last.index) {
            let i = candidates.len() - 1;
            assert(wan_indexes.contains(candidates[i].index));
        } else {
            lemma_resolve_last_match(before, wan_indexes);
            let i = choose|i: int|
                {
                    &&& 0 <= i < before.len()
                    &&& wan_indexes.contains(#[trigger] before[i].index)
                    &&& resolve(before, wan_indexes) == Some(before[i].address)
                    &&& forall|j: int|
                        i < j < before.len() ==> !wan_indexes.contains(#[trigger] before[j].index)
                };
            assert(candidates[i] == before[i]);
            assert forall|j: int| i < j < candidates.len() implies !wan_indexes.contains(
                #[trigger] candidates[j].index,
            ) by {
                if j < before.len() {
                    assert(candidates[j] == before[j]);
                }
            }
            assert(wan_indexes.contains(candidates[i].index));
        }
    }
}

/// The WAN address from what the two walks gave. Where a walk gave nothing
/// there is no address, and none either where no candidate stands under a WAN
/// index.
pub open spec fn wan_ip(
    possible_ips: Option<Seq<CandidateText>>,
    possible_indexes: Option<Seq<Seq<char>>>,
) -> Option<Seq<char>> {
    match (possible_ips, possible_indexes) {
        (Some(candidates), Some(indexes)) => resolve(candidates, indexes),
        _ => None,
    }
}

/// The WAN address of a gateway, from what the two walks gave: the candidates
/// of the address walk and the WAN indexes of the description walk.
pub fn get_wan_ip(possible_ips: Option<Vec<Candidate>>, possible_indexes: Option<Vec<String>>) -> (found:
    Option<String>)
    ensures
        found.deep_view() == wan_ip(possible_ips.deep_view(), possible_indexes.deep_view()),
{
    let candidates = match possible_ips {
        Some(candidates) => candidates,
        None => {
            return None;
        },
    };
    let indexes = match possible_indexes {
        Some(indexes) => indexes,
        None => {
            return None;
        },
    };
    resolve_wan(&candidates, &indexes)
}

} // verus!
