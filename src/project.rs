use vstd::prelude::*;

use crate::model::{AddressResponse, LookupError, Mode, Outcome, RawRecord, RecordKind};

verus! {

/// The family tag of a record type: 4 for A, 6 for AAAA, none for any other.
pub open spec fn family_of(k: RecordKind) -> Option<i32> {
    match k {
        RecordKind::A => Some(4i32),
        RecordKind::Aaaa => Some(6i32),
        RecordKind::Other(_) => None,
    }
}

/// The record holds an IPv4 or an IPv6 address.
pub open spec fn supported(rec: RawRecord) -> bool {
    family_of(rec.kind) is Some
}

/// `resp` is the record's text tagged with the record's family.
pub open spec fn describes(resp: AddressResponse, rec: RawRecord) -> bool {
    &&& resp.address@ == rec.text@
    &&& family_of(rec.kind) == Some(resp.family)
}

/// The error for a record that is not an address.
pub open spec fn unsupported_error(rec: RawRecord) -> LookupError {
    LookupError::UnsupportedAddressKind(rec.text)
}

/// What single mode yields on an answer: no result when it is empty, else
/// the first record tagged with its family, or an error when that record is
/// not an address.
pub open spec fn single_result(raw: Seq<RawRecord>, r: Result<Option<AddressResponse>, LookupError>) -> bool {
    if raw.len() == 0 {
        r == Ok::<Option<AddressResponse>, LookupError>(None)
    } else if supported(raw[0]) {
        r matches Ok(Some(a)) && describes(a, raw[0])
    } else {
        r == Err::<Option<AddressResponse>, LookupError>(unsupported_error(raw[0]))
    }
}

/// What all mode yields on an answer: every record tagged with its family,
/// in answer order, duplicates kept; or, when some record is not an address,
/// the error for the first such record.
pub open spec fn all_result(raw: Seq<RawRecord>, r: Result<Vec<AddressResponse>, LookupError>) -> bool {
    if forall|i: int| 0 <= i < raw.len() ==> supported(#[trigger] raw[i]) {
        r matches Ok(v) && v@.len() == raw.len()
            && forall|i: int| 0 <= i < raw.len() ==> describes(#[trigger] v@[i], raw[i])
    } else {
        exists|i: int|
            0 <= i < raw.len() && !supported(#[trigger] raw[i])
                && (forall|j: int| 0 <= j < i ==> supported(#[trigger] raw[j]))
                && r == Err::<Vec<AddressResponse>, LookupError>(unsupported_error(raw[i]))
    }
}

/// What projecting an answer in a mode yields.
pub open spec fn projects(raw: Seq<RawRecord>, mode: Mode, r: Result<Outcome, LookupError>) -> bool {
    match mode {
        Mode::Single => match r {
            Ok(Outcome::One(o)) => single_result(raw, Ok(o)),
            Ok(Outcome::Many(_)) => false,
            Err(e) => single_result(raw, Err(e)),
        },
        Mode::All => match r {
            Ok(Outcome::Many(v)) => all_result(raw, Ok(v)),
            Ok(Outcome::One(_)) => false,
            Err(e) => all_result(raw, Err(e)),
        },
    }
}

/// The family tag of a record type; a closed mapping with no default.
pub fn family_tag(kind: RecordKind) -> (r: Option<i32>)
    ensures
        r == family_of(kind),
{
    match kind {
        RecordKind::A => Some(4),
        RecordKind::Aaaa => Some(6),
        RecordKind::Other(_) => None,
    }
}

/// Tags one record with its family, or fails with `UnsupportedAddressKind`
/// when it is not an address record.
pub fn tag_record(rec: &RawRecord) -> (r: Result<AddressResponse, LookupError>)
    ensures
        supported(*rec) ==> (r matches Ok(a) && describes(a, *rec)),
        !supported(*rec) ==> r == Err::<AddressResponse, LookupError>(unsupported_error(*rec)),
{
    match family_tag(rec.kind) {
        Some(family) => Ok(AddressResponse { address: rec.text.clone(), family }),
        None => Err(LookupError::UnsupportedAddressKind(rec.text.clone())),
    }
}

/// The first address of the answer, in the resolver's order; `None` when the
/// answer is empty, which is not a failure.
pub fn project_single(raw: &Vec<RawRecord>) -> (r: Result<Option<AddressResponse>, LookupError>)
    ensures
        single_result(raw@, r),
{
    if raw.len() == 0 {
        return Ok(None);
    }
    match tag_record(&raw[0]) {
        Ok(a) => Ok(Some(a)),
        Err(e) => Err(e),
    }
}

/// Every address of the answer, in the resolver's order, without removing
/// duplicates or sorting.
pub fn project_all(raw: &Vec<RawRecord>) -> (r: Result<Vec<AddressResponse>, LookupError>)
    ensures
        all_result(raw@, r),
{
    let mut out: Vec<AddressResponse> = Vec::new();
    let mut i: usize = 0;
    while i < raw.len()
        invariant
            0 <= i <= raw@.len(),
            out@.len() == i,
            forall|j: int| 0 <= j < i ==> describes(#[trigger] out@[j], raw@[j]),
        decreases raw@.len() - i,
    {
        match tag_record(&raw[i]) {
            Ok(a) => {
                out.push(a);
            },
            Err(e) => {
                assert forall|j: int| 0 <= j < i implies supported(#[trigger] raw@[j]) by {
                    assert(describes(out@[j], raw@[j]));
                }
                assert(!supported(raw@[i as int]));
                return Err(e);
            },
        }
        i += 1;
    }
    assert forall|j: int| 0 <= j < raw@.len() implies supported(#[trigger] raw@[j]) by {
        assert(describes(out@[j], raw@[j]));
    }
    Ok(out)
}

/// Shapes an answer in the requested mode.
pub fn project(raw: &Vec<RawRecord>, mode: Mode) -> (r: Result<Outcome, LookupError>)
    ensures
        projects(raw@, mode, r),
{
    match mode {
        Mode::Single => match project_single(raw) {
            Ok(o) => Ok(Outcome::One(o)),
            Err(e) => Err(e),
        },
        Mode::All => match project_all(raw) {
            Ok(v) => Ok(Outcome::Many(v)),
            Err(e) => Err(e),
        },
    }
}

/// Turns what the resolver reported into the caller's outcome: a resolver
/// error becomes `ResolutionFailed` with its cause unchanged, an answer is
/// shaped by `project`.
pub fn complete(answer: Result<Vec<RawRecord>, String>, mode: Mode) -> (r: Result<Outcome, LookupError>)
    ensures
        answer matches Err(cause) ==> r == Err::<Outcome, LookupError>(LookupError::ResolutionFailed(cause)),
        answer matches Ok(raw) ==> projects(raw@, mode, r),
{
    match answer {
        Ok(raw) => project(&raw, mode),
        Err(cause) => Err(LookupError::ResolutionFailed(cause)),
    }
}

} // verus!
