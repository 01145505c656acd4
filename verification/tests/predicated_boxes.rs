use ergo_protocol_framework::BoxVerificationError;
use ergo_protocol_framework::Constant;
use ergo_protocol_framework::ErgsBox;
use ergo_protocol_framework::LedgerEntry;
use ergo_protocol_framework::OracleBoxLong;
use ergo_protocol_framework::Predicate;
use ergo_protocol_framework::PredicatedBox;
use ergo_protocol_framework::StageBox;
use ergo_protocol_framework::StageType;
use ergo_protocol_framework::Token;
use ergo_protocol_framework::ergs_boxes_to_inputs;
use ergo_protocol_framework::sum_ergs_boxes_value;
use ergo_protocol_framework::unwrap_ergs_boxes;

#[test]
fn it_works() {
    assert_eq!(2 + 2, 4);
}

fn plain_entry(value: u64) -> LedgerEntry {
    LedgerEntry { value, tokens: Vec::new(), registers: Vec::new(), script: Vec::new() }
}

fn nft_token() -> Token {
    Token { id: vec![0xaa; 32], amount: 1 }
}

fn oracle_entry(value: u64, tokens: Vec<Token>, registers: Vec<Constant>) -> LedgerEntry {
    LedgerEntry { value, tokens, registers, script: vec![1, 2, 3] }
}

#[test]
fn ergs_box_rejects_value_at_threshold() {
    let r = ErgsBox::new(&plain_entry(1_000_000));
    assert_eq!(
        r.unwrap_err(),
        BoxVerificationError::InvalidErgsValue(
            "ErgoBox did not have more than 999999 nanoErgs inside.".to_string()
        )
    );
}

#[test]
fn ergs_box_accepts_value_above_threshold() {
    let bx = ErgsBox::new(&plain_entry(1_000_001)).unwrap();
    assert_eq!(bx.get_box(), plain_entry(1_000_001));
    assert_eq!(bx.predicate(), Predicate::ErgsThreshold);
}

#[test]
fn oracle_box_rejects_missing_register() {
    let e = oracle_entry(5, vec![nft_token()], Vec::new());
    let r = OracleBoxLong::new(&e);
    assert_eq!(
        r.unwrap_err(),
        BoxVerificationError::InvalidOracleBox("No datapoint in R4.".to_string())
    );
}

#[test]
fn oracle_box_rejects_non_integer_register_despite_good_tokens() {
    let e = oracle_entry(5, vec![nft_token()], vec![Constant::Int(42)]);
    let r = OracleBoxLong::new(&e);
    assert_eq!(
        r.unwrap_err(),
        BoxVerificationError::InvalidOracleBox("Value in R4 is not a Long.".to_string())
    );
}

#[test]
fn oracle_box_rejects_non_integer_register_despite_bad_tokens() {
    // The datapoint check runs first, so a boolean register is reported
    // even when the token list is wrong too.
    let e = oracle_entry(5, Vec::new(), vec![Constant::Boolean(true)]);
    let r = OracleBoxLong::new(&e);
    assert_eq!(
        r.unwrap_err(),
        BoxVerificationError::InvalidOracleBox("Value in R4 is not a Long.".to_string())
    );
}

#[test]
fn oracle_box_extracts_datapoint() {
    let e = oracle_entry(5, vec![nft_token()], vec![Constant::Long(1234)]);
    let ob = OracleBoxLong::new(&e).unwrap();
    assert_eq!(ob.datapoint, 1234);
    assert_eq!(ob.get_box(), e);
    assert_eq!(ob.predicate(), Predicate::OracleLongDatapoint);
}

#[test]
fn oracle_box_extracts_negative_datapoint() {
    let e = oracle_entry(5, vec![nft_token()], vec![Constant::Long(-99)]);
    let ob = OracleBoxLong::new(&e).unwrap();
    assert_eq!(ob.datapoint, -99);
}

#[test]
fn oracle_box_rejects_two_tokens_despite_valid_datapoint() {
    let second = Token { id: vec![0xbb; 32], amount: 1 };
    let e = oracle_entry(5, vec![nft_token(), second], vec![Constant::Long(7)]);
    let r = OracleBoxLong::new(&e);
    assert_eq!(
        r.unwrap_err(),
        BoxVerificationError::InvalidTokens(
            "The oracle box is required to only hold a single NFT token.".to_string()
        )
    );
}

#[test]
fn oracle_box_rejects_token_amount_other_than_one() {
    let t = Token { id: vec![0xaa; 32], amount: 2 };
    let e = oracle_entry(5, vec![t], vec![Constant::Long(7)]);
    let r = OracleBoxLong::new(&e);
    assert_eq!(
        r.unwrap_err(),
        BoxVerificationError::InvalidTokens(
            "The oracle box is required to only hold a single NFT token.".to_string()
        )
    );
}

#[test]
fn oracle_box_rejects_zero_tokens() {
    let e = oracle_entry(5, Vec::new(), vec![Constant::Long(7)]);
    let r = OracleBoxLong::new(&e);
    assert_eq!(
        r.unwrap_err(),
        BoxVerificationError::InvalidTokens(
            "The oracle box is required to only hold a single NFT token.".to_string()
        )
    );
}

#[test]
fn sum_values_adds_up() {
    let a = ErgsBox::new(&plain_entry(2_000_000)).unwrap();
    let b = ErgsBox::new(&plain_entry(3_000_000)).unwrap();
    assert_eq!(sum_ergs_boxes_value(&vec![a, b]), 5_000_000);
}

#[test]
fn sum_values_of_empty_list_is_zero() {
    assert_eq!(sum_ergs_boxes_value(&Vec::new()), 0);
}

#[test]
fn unwrap_preserves_order_and_length() {
    let values = [1_500_000u64, 2_500_000, 3_500_000];
    let boxes: Vec<ErgsBox> =
        values.iter().map(|v| ErgsBox::new(&plain_entry(*v)).unwrap()).collect();
    let entries = unwrap_ergs_boxes(&boxes);
    assert_eq!(entries.len(), 3);
    for (i, v) in values.iter().enumerate() {
        assert_eq!(entries[i], plain_entry(*v));
    }
}

#[test]
fn to_inputs_preserves_order_and_length() {
    let values = [1_500_000u64, 2_500_000, 3_500_000];
    let boxes: Vec<ErgsBox> =
        values.iter().map(|v| ErgsBox::new(&plain_entry(*v)).unwrap()).collect();
    let inputs = ergs_boxes_to_inputs(&boxes);
    assert_eq!(inputs.len(), 3);
    for (i, v) in values.iter().enumerate() {
        assert_eq!(inputs[i].entry, plain_entry(*v));
        assert!(inputs[i].extension.is_empty());
    }
}

#[derive(Clone, Debug, PartialEq, Eq)]
struct PoolStage;

impl StageType for PoolStage {
    fn new() -> Self {
        PoolStage
    }
}

#[test]
fn stage_box_wraps_entry_passing_its_predicate() {
    let e = plain_entry(2_000_000);
    let sb: StageBox<PoolStage> = StageBox::new(&e, Predicate::ErgsThreshold, PoolStage).unwrap();
    assert_eq!(sb.get_box(), e);
    assert_eq!(sb.predicate, Predicate::ErgsThreshold);
    assert_eq!(sb.predicate(), Predicate::ErgsThreshold);
    assert_eq!(sb.stage, PoolStage);
}

#[test]
fn stage_box_returns_the_predicates_exact_error() {
    let e = plain_entry(1_000_000);
    let from_stage_box = StageBox::<PoolStage>::new(&e, Predicate::ErgsThreshold, PoolStage)
        .unwrap_err();
    let from_predicate = Predicate::ErgsThreshold.eval(&e).unwrap_err();
    assert_eq!(from_stage_box, from_predicate);
    assert_eq!(
        from_stage_box,
        BoxVerificationError::InvalidErgsValue(
            "ErgoBox did not have more than 999999 nanoErgs inside.".to_string()
        )
    );
}

#[test]
fn stage_box_with_oracle_predicate() {
    let e = oracle_entry(5, vec![nft_token()], vec![Constant::Long(7)]);
    let sb: StageBox<PoolStage> =
        StageBox::new(&e, Predicate::OracleLongDatapoint, PoolStage).unwrap();
    assert_eq!(sb.get_box(), e);
    let bad = plain_entry(5);
    let err = StageBox::<PoolStage>::new(&bad, Predicate::OracleLongDatapoint, PoolStage)
        .unwrap_err();
    assert_eq!(err, BoxVerificationError::InvalidOracleBox("No datapoint in R4.".to_string()));
}

#[test]
fn cloned_stage_box_keeps_entry_and_predicate() {
    let e = plain_entry(2_000_000);
    let sb: StageBox<PoolStage> = StageBox::new(&e, Predicate::ErgsThreshold, PoolStage).unwrap();
    let copy = sb.clone();
    assert_eq!(copy.get_box(), e);
    assert_eq!(copy.predicate, Predicate::ErgsThreshold);
}
