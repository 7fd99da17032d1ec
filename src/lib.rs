//! Hostname resolution core: turns a hostname and a family hint into one
//! DNS query, and shapes the resolver's answer into a single address or an
//! ordered list of addresses, each tagged with its family.
mod laws;
mod model;
mod project;
mod query;

pub use laws::{
    lemma_all_keeps_order_and_duplicates, lemma_family_hint_selects_record_type,
    lemma_single_is_head_of_all, lemma_single_takes_first,
};
pub use model::{AddressResponse, LookupError, Mode, Outcome, RawRecord, RecordKind};
pub use project::{
    all_result, complete, describes, family_of, family_tag, project, project_all, project_single,
    projects, single_result, supported, tag_record, unsupported_error,
};
pub use query::{dispatch, query_type_for, record_type_for, valid_hostname, Query, QueryType};
