//! Brazilian postal-code (CEP) lookup: the state, decisions and view of a
//! single-page component that asks a public address service for the address
//! of a postal code and shows it in a table.

pub mod laws;
pub mod lookup;
pub mod page;
pub mod record;

pub use lookup::{
    classify_response, is_success, lookup_url, Action, Model, Msg, INVALID_STATUS, URL,
    VALID_STATUS,
};
pub use laws::{
    lemma_error_status_keeps_record, lemma_last_response_wins, lemma_repeated_lookup_is_idempotent,
    lemma_success_sets_record, lemma_unparsed_body_keeps_record,
};
pub use page::Page;
pub use record::Cep;
