use vstd::prelude::*;

use crate::model::{AddressResponse, LookupError, RawRecord};
use crate::project::{all_result, describes, family_of, single_result, supported};
use crate::query::{query_type_for, QueryType};

verus! {

/// An absent hint and the hint 4 both query A records; the hint 6 queries
/// AAAA records.
pub proof fn lemma_family_hint_selects_record_type()
    ensures
        query_type_for(None) == QueryType::A,
        query_type_for(Some(4i32)) == QueryType::A,
        query_type_for(Some(6i32)) == QueryType::Aaaa,
{
}

/// In single mode a non-empty answer yields its first record tagged with
/// that record's family, whatever follows it; an empty answer yields the
/// "no result" value, not a failure.
pub proof fn lemma_single_takes_first(raw: Seq<RawRecord>, r: Result<Option<AddressResponse>, LookupError>)
    requires
        single_result(raw, r),
    ensures
        raw.len() == 0 ==> r == Ok::<Option<AddressResponse>, LookupError>(None),
        raw.len() > 0 && supported(raw[0]) ==> (r matches Ok(Some(a))
            && a.address@ == raw[0].text@ && Some(a.family) == family_of(raw[0].kind)),
{
}

/// In all mode the list has one entry per answer record, at the same
/// position, with that record's text and family; equal records give equal
/// entries, so duplicates are kept.
pub proof fn lemma_all_keeps_order_and_duplicates(raw: Seq<RawRecord>, v: Vec<AddressResponse>)
    requires
        all_result(raw, Ok(v)),
    ensures
        v@.len() == raw.len(),
        forall|i: int| 0 <= i < raw.len() ==> #[trigger] describes(v@[i], raw[i]),
        forall|i: int, j: int|
            0 <= i < raw.len() && 0 <= j < raw.len() && raw[i] == raw[j] ==> (
            #[trigger] v@[i]).address@ == (#[trigger] v@[j]).address@ && v@[i].family == v@[j].family,
{
    assert(forall|i: int| 0 <= i < raw.len() ==> supported(#[trigger] raw[i]));
    assert forall|i: int, j: int|
        0 <= i < raw.len() && 0 <= j < raw.len() && raw[i] == raw[j] implies (
        #[trigger] v@[i]).address@ == (#[trigger] v@[j]).address@ && v@[i].family == v@[j].family by {
        assert(describes(v@[i], raw[i]));
        assert(describes(v@[j], raw[j]));
    }
}

/// Where every record is an address, single mode yields exactly the first
/// entry that all mode yields.
pub proof fn lemma_single_is_head_of_all(
    raw: Seq<RawRecord>,
    one: Result<Option<AddressResponse>, LookupError>,
    v: Vec<AddressResponse>,
)
    requires
        single_result(raw, one),
        all_result(raw, Ok(v)),
        raw.len() > 0,
    ensures
        one matches Ok(Some(a)) && a.address@ == v@[0].address@ && a.family == v@[0].family,
{
    assert(forall|i: int| 0 <= i < raw.len() ==> supported(#[trigger] raw[i]));
    assert(supported(raw[0]));
    assert(describes(v@[0], raw[0]));
}

} // verus!
