//! The closed taxonomy of verification failures that a predicate can
//! report, together with the spec-level view of an error and the exact
//! message each fixed rule of this crate attaches to its failures.

use vstd::prelude::*;

verus! {

/// Why a ledger entry failed verification. Every predicate reports the most
/// specific variant available, and constructors pass the error through
/// unchanged, so a caller always learns *why* an entry was rejected.
#[derive(Debug, PartialEq, Eq)]
pub enum BoxVerificationError {
    InvalidP2SAddress,
    InvalidErgoTree,
    InvalidErgsValue(String),
    InvalidTokens(String),
    InvalidRegisters(String),
    InvalidOracleBox(String),
    OtherError(String),
}

/// Spec-level picture of a verification error; messages become character
/// sequences.
#[verifier::ext_equal]
pub enum ErrorView {
    InvalidP2SAddress,
    InvalidErgoTree,
    InvalidErgsValue(Seq<char>),
    InvalidTokens(Seq<char>),
    InvalidRegisters(Seq<char>),
    InvalidOracleBox(Seq<char>),
    OtherError(Seq<char>),
}

impl View for BoxVerificationError {
    type V = ErrorView;

    open spec fn view(&self) -> ErrorView {
        match self {
            BoxVerificationError::InvalidP2SAddress => ErrorView::InvalidP2SAddress,
            BoxVerificationError::InvalidErgoTree => ErrorView::InvalidErgoTree,
            BoxVerificationError::InvalidErgsValue(m) => ErrorView::InvalidErgsValue(m@),
            BoxVerificationError::InvalidTokens(m) => ErrorView::InvalidTokens(m@),
            BoxVerificationError::InvalidRegisters(m) => ErrorView::InvalidRegisters(m@),
            BoxVerificationError::InvalidOracleBox(m) => ErrorView::InvalidOracleBox(m@),
            BoxVerificationError::OtherError(m) => ErrorView::OtherError(m@),
        }
    }
}

/// Message attached when an entry holds too little currency.
pub open spec fn ergs_value_msg() -> Seq<char> {
    "ErgoBox did not have more than 999999 nanoErgs inside."@
}

/// Message attached when an oracle entry has no register to read a
/// datapoint from.
pub open spec fn missing_datapoint_msg() -> Seq<char> {
    "No datapoint in R4."@
}

/// Message attached when the first register of an oracle entry holds a
/// constant of the wrong type.
pub open spec fn non_long_datapoint_msg() -> Seq<char> {
    "Value in R4 is not a Long."@
}

/// Message attached when an oracle entry's token list is not a single NFT.
pub open spec fn single_nft_msg() -> Seq<char> {
    "The oracle box is required to only hold a single NFT token."@
}

/// Builds the invalid-value error for an entry that holds too little
/// currency.
pub(crate) fn ergs_value_error() -> (e: BoxVerificationError)
    ensures
        e@ == ErrorView::InvalidErgsValue(ergs_value_msg()),
{
    BoxVerificationError::InvalidErgsValue(
        "ErgoBox did not have more than 999999 nanoErgs inside.".to_string(),
    )
}

/// Builds the invalid-oracle-box error for an entry with no register.
pub(crate) fn missing_datapoint_error() -> (e: BoxVerificationError)
    ensures
        e@ == ErrorView::InvalidOracleBox(missing_datapoint_msg()),
{
    BoxVerificationError::InvalidOracleBox("No datapoint in R4.".to_string())
}

/// Builds the invalid-oracle-box error for a first register that does not
/// hold an integer of the expected width.
pub(crate) fn non_long_datapoint_error() -> (e: BoxVerificationError)
    ensures
        e@ == ErrorView::InvalidOracleBox(non_long_datapoint_msg()),
{
    BoxVerificationError::InvalidOracleBox("Value in R4 is not a Long.".to_string())
}

/// Builds the invalid-tokens error for an entry whose token list is not a
/// single NFT.
pub(crate) fn single_nft_error() -> (e: BoxVerificationError)
    ensures
        e@ == ErrorView::InvalidTokens(single_nft_msg()),
{
    BoxVerificationError::InvalidTokens(
        "The oracle box is required to only hold a single NFT token.".to_string(),
    )
}

} // verus!
