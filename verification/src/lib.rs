//! A predicate-verified wrapper layer for ledger entries ("boxes").
//!
//! Raw ledger entries are turned into statically distinguishable wrapper
//! types, each of which can only be constructed by running a named
//! verification predicate over the entry. Holding a value of a wrapper type
//! is therefore a guarantee that the underlying entry satisfied that
//! predicate at construction time; transaction-building code can demand a
//! wrapper type in its signature and never re-validate.

pub mod entry;
pub mod error;
pub mod predicated_boxes;
pub mod stage;

pub use entry::Constant;
pub use entry::ConstantView;
pub use entry::EntryView;
pub use entry::LedgerEntry;
pub use entry::Token;
pub use entry::TokenView;
pub use entry::TxInput;
pub use entry::TxInputView;
pub use error::BoxVerificationError;
pub use error::ErrorView;
pub use predicated_boxes::ErgsBox;
pub use predicated_boxes::OracleBoxLong;
pub use predicated_boxes::Predicate;
pub use predicated_boxes::PredicatedBox;
pub use predicated_boxes::StageBox;
pub use predicated_boxes::box_with_ergs_predicate;
pub use predicated_boxes::ergs_boxes_to_inputs;
pub use predicated_boxes::extract_long_datapoint;
pub use predicated_boxes::oracle_box_predicate;
pub use predicated_boxes::sum_ergs_boxes_value;
pub use predicated_boxes::unwrap_ergs_boxes;
pub use stage::StageType;
