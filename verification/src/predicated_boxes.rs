//! Predicated boxes: wrapper types for ledger entries that can only be
//! constructed by running a named verification rule over the entry.
//!
//! Each wrapper's constructor runs its predicate and fails fast with the
//! predicate's own error; a value of a wrapper type is therefore a
//! guarantee that the entry it carries satisfied the rule at construction
//! time. Transaction-building code takes wrapper types as inputs and never
//! re-validates.

use vstd::prelude::*;

use crate::entry::Constant;
use crate::entry::EntryView;
use crate::entry::LedgerEntry;
use crate::entry::TxInput;
use crate::error::BoxVerificationError;
use crate::error::ErrorView;
use crate::error::ergs_value_error;
use crate::error::ergs_value_msg;
use crate::error::missing_datapoint_error;
use crate::error::missing_datapoint_msg;
use crate::error::non_long_datapoint_error;
use crate::error::non_long_datapoint_msg;
use crate::error::single_nft_error;
use crate::error::single_nft_msg;
use crate::stage::StageType;

verus! {

/// The closed set of named verification rules. A wrapper is tagged with
/// exactly one rule, and two rules compare equal only if they are the same
/// rule, so the tag has a well-defined identity.
#[derive(Clone, Copy, Debug, PartialEq, Eq, Structural)]
pub enum Predicate {
    /// The entry must hold more than 1000000 units of currency.
    ErgsThreshold,
    /// The entry must carry an integer datapoint in its first register and
    /// a single NFT (one token, of amount exactly 1).
    OracleLongDatapoint,
}

/// The verdict the currency-threshold rule gives on an entry.
pub open spec fn spec_ergs_check(e: EntryView) -> Result<(), ErrorView> {
    if e.value > 1000000 {
        Ok(())
    } else {
        Err(ErrorView::InvalidErgsValue(ergs_value_msg()))
    }
}

/// The datapoint the oracle rule reads out of an entry: the first register
/// must exist and must hold a `Long` constant.
pub open spec fn spec_extract_long_datapoint(e: EntryView) -> Result<i64, ErrorView> {
    if e.registers.len() < 1 {
        Err(ErrorView::InvalidOracleBox(missing_datapoint_msg()))
    } else {
        match e.registers[0] {
            crate::entry::ConstantView::Long(i) => Ok(i),
            _ => Err(ErrorView::InvalidOracleBox(non_long_datapoint_msg())),
        }
    }
}

/// The verdict the oracle rule gives on an entry: a readable datapoint
/// first, then exactly one token of amount exactly 1.
pub open spec fn spec_oracle_check(e: EntryView) -> Result<(), ErrorView> {
    match spec_extract_long_datapoint(e) {
        Err(ev) => Err(ev),
        Ok(_) => if e.tokens.len() != 1 {
            Err(ErrorView::InvalidTokens(single_nft_msg()))
        } else if e.tokens[0].amount != 1 {
            Err(ErrorView::InvalidTokens(single_nft_msg()))
        } else {
            Ok(())
        },
    }
}

/// The currency-threshold rule succeeds exactly on entries holding more
/// than 1000000 units; every other entry draws the invalid-value error.
pub proof fn lemma_ergs_threshold(e: EntryView)
    ensures
        e.value > 1000000 ==> spec_ergs_check(e) is Ok,
        e.value <= 1000000 ==> spec_ergs_check(e) == Err::<(), ErrorView>(
            ErrorView::InvalidErgsValue(ergs_value_msg()),
        ),
{
}

/// An entry with no registers is rejected by the oracle rule with the
/// missing-datapoint error, whatever its tokens hold.
pub proof fn lemma_oracle_missing_datapoint(e: EntryView)
    requires
        e.registers.len() == 0,
    ensures
        spec_oracle_check(e) == Err::<(), ErrorView>(ErrorView::InvalidOracleBox(
            missing_datapoint_msg(),
        )),
{
}

/// An entry whose first register holds a non-integer constant is rejected
/// by the oracle rule with the type-mismatch error, regardless of its
/// tokens.
pub proof fn lemma_oracle_non_long_datapoint(e: EntryView)
    requires
        e.registers.len() >= 1,
        !(e.registers[0] is Long),
    ensures
        spec_oracle_check(e) == Err::<(), ErrorView>(ErrorView::InvalidOracleBox(
            non_long_datapoint_msg(),
        )),
{
}

/// An entry with a readable datapoint but a token list that is not a
/// single token of amount exactly 1 is rejected by the oracle rule with
/// the invalid-tokens error, even though its datapoint is valid.
pub proof fn lemma_oracle_bad_tokens(e: EntryView)
    requires
        spec_extract_long_datapoint(e) is Ok,
        e.tokens.len() != 1 || e.tokens[0].amount != 1,
    ensures
        spec_oracle_check(e) == Err::<(), ErrorView>(ErrorView::InvalidTokens(single_nft_msg())),
{
}

/// An entry with exactly one token of amount exactly 1 and an integer
/// constant in its first register passes the oracle rule, and the
/// datapoint read out of it is that integer exactly.
pub proof fn lemma_oracle_success(e: EntryView)
    requires
        e.registers.len() >= 1,
        e.registers[0] is Long,
        e.tokens.len() == 1,
        e.tokens[0].amount == 1,
    ensures
        spec_oracle_check(e) is Ok,
        spec_extract_long_datapoint(e) == Ok::<i64, ErrorView>(e.registers[0]->Long_0),
{
}

/// Relates an executable verdict to its mathematical counterpart: success
/// on success, and on failure the very same error.
pub open spec fn verdict_matches(
    r: Result<(), BoxVerificationError>,
    v: Result<(), ErrorView>,
) -> bool {
    match r {
        Ok(()) => v is Ok,
        Err(e) => v matches Err(ev) && e@ == ev,
    }
}

impl Predicate {
    /// The verdict this rule gives on an entry, at the spec level.
    pub open spec fn spec_eval(self, e: EntryView) -> Result<(), ErrorView> {
        match self {
            Predicate::ErgsThreshold => spec_ergs_check(e),
            Predicate::OracleLongDatapoint => spec_oracle_check(e),
        }
    }

    /// Runs the named rule over an entry. Pure: the verdict is a function
    /// of the entry alone, so re-running a rule is always safe.
    pub fn eval(&self, b: &LedgerEntry) -> (r: Result<(), BoxVerificationError>)
        ensures
            verdict_matches(r, self.spec_eval(b@)),
    {
        match self {
            Predicate::ErgsThreshold => box_with_ergs_predicate(b),
            Predicate::OracleLongDatapoint => oracle_box_predicate(b),
        }
    }
}

/// The capability every predicated box exposes: the rule it was checked
/// against and a copy of its underlying entry. Aggregation, conversion and
/// action construction program against this interface alone.
pub trait PredicatedBox {
    /// The rule this wrapper was checked against, at the spec level.
    spec fn spec_predicate(&self) -> Predicate;

    /// The entry this wrapper carries, at the spec level.
    spec fn spec_entry(&self) -> EntryView;

    /// The named rule this wrapper was checked against.
    fn predicate(&self) -> (p: Predicate)
        ensures
            p == self.spec_predicate(),
    ;

    /// A copy of the underlying verified entry.
    fn get_box(&self) -> (b: LedgerEntry)
        ensures
            b@ == self.spec_entry(),
    ;
}

/// A predicated box verified to sit at a given protocol stage. A
/// `StageBox<ST>` is a type-level guarantee that the entry passed the
/// supplied rule and may be used as an action input for stage `ST`.
#[derive(Debug)]
pub struct StageBox<ST: StageType> {
    ergo_box: LedgerEntry,
    pub predicate: Predicate,
    pub stage: ST,
}

impl<ST: StageType + Clone> Clone for StageBox<ST> {
    fn clone(&self) -> (r: Self)
        ensures
            r.spec_predicate() == self.spec_predicate(),
            r.spec_entry() == self.spec_entry(),
    {
        StageBox {
            ergo_box: self.ergo_box.clone(),
            predicate: self.predicate,
            stage: self.stage.clone(),
        }
    }
}

impl<ST: StageType> PredicatedBox for StageBox<ST> {
    closed spec fn spec_predicate(&self) -> Predicate {
        self.predicate
    }

    closed spec fn spec_entry(&self) -> EntryView {
        self.ergo_box@
    }

    fn predicate(&self) -> (p: Predicate)
        ensures
            p == self.spec_predicate(),
    {
        self.predicate
    }

    fn get_box(&self) -> (b: LedgerEntry)
        ensures
            b@ == self.spec_entry(),
    {
        self.ergo_box.clone()
    }
}

impl<ST: StageType> StageBox<ST> {
    /// The snapshot guarantee carried by a stage-tagged box: its entry
    /// passed its rule as of construction time.
    pub open spec fn wf(self) -> bool {
        self.spec_predicate().spec_eval(self.spec_entry()) is Ok
    }

    /// Checks an entry against the supplied rule and, on success, wraps a
    /// snapshot of it tagged with a fresh stage marker. On failure the
    /// rule's own error comes back unchanged.
    pub fn new(b: &LedgerEntry, predicate: Predicate, _stage: ST) -> (r: Result<
        StageBox<ST>,
        BoxVerificationError,
    >)
        ensures
            predicate.spec_eval(b@) is Ok ==> (r matches Ok(sb) && sb.spec_entry() == b@
                && sb.spec_predicate() == predicate && sb.wf()),
            predicate.spec_eval(b@) matches Err(ev) ==> (r matches Err(e) && e@ == ev),
    {
        match predicate.eval(b) {
            Ok(()) => Ok(
                (StageBox { stage: ST::new(), predicate, ergo_box: b.clone() }),
            ),
            Err(e) => Err(e),
        }
    }
}

/// A predicated box meant to be spent for the currency inside. The rule
/// requires the entry to hold more than 1000000 units.
#[derive(Debug)]
pub struct ErgsBox {
    ergo_box: LedgerEntry,
    pub predicate: Predicate,
}

/// The fixed rule behind `ErgsBox`: succeeds exactly when the entry holds
/// more than 1000000 units of currency.
pub fn box_with_ergs_predicate(b: &LedgerEntry) -> (r: Result<(), BoxVerificationError>)
    ensures
        verdict_matches(r, spec_ergs_check(b@)),
{
    if b.value > 1000000 {
        Ok(())
    } else {
        Err(ergs_value_error())
    }
}

impl PredicatedBox for ErgsBox {
    closed spec fn spec_predicate(&self) -> Predicate {
        self.predicate
    }

    closed spec fn spec_entry(&self) -> EntryView {
        self.ergo_box@
    }

    fn predicate(&self) -> (p: Predicate)
        ensures
            p == self.spec_predicate(),
    {
        self.predicate
    }

    fn get_box(&self) -> (b: LedgerEntry)
        ensures
            b@ == self.spec_entry(),
    {
        self.ergo_box.clone()
    }
}

impl ErgsBox {
    /// The snapshot guarantee carried by an `ErgsBox`.
    pub open spec fn wf(self) -> bool {
        self.spec_entry().value > 1000000 && self.spec_predicate() == Predicate::ErgsThreshold
    }

    /// Checks the currency threshold and, on success, wraps a snapshot of
    /// the entry. Succeeds exactly when the entry holds more than 1000000
    /// units; otherwise the invalid-value error comes back.
    pub fn new(b: &LedgerEntry) -> (r: Result<ErgsBox, BoxVerificationError>)
        ensures
            b@.value > 1000000 ==> (r matches Ok(bx) && bx.spec_entry() == b@ && bx.wf()),
            b@.value <= 1000000 ==> (r matches Err(e) && e@ == ErrorView::InvalidErgsValue(
                ergs_value_msg(),
            )),
    {
        match box_with_ergs_predicate(b) {
            Ok(()) => Ok((ErgsBox { ergo_box: b.clone(), predicate: Predicate::ErgsThreshold })),
            Err(e) => Err(e),
        }
    }
}

/// The entries carried by a sequence of `ErgsBox`es, in order.
pub open spec fn entries_of(s: Seq<ErgsBox>) -> Seq<EntryView> {
    s.map_values(|b: ErgsBox| b.spec_entry())
}

/// The mathematical sum of the values of a sequence of entries.
pub open spec fn spec_sum_values(s: Seq<EntryView>) -> int
    decreases s.len(),
{
    if s.len() == 0 {
        0
    } else {
        spec_sum_values(s.drop_last()) + s.last().value
    }
}

/// Taking one more entry adds exactly that entry's value to the sum.
pub proof fn lemma_sum_take_succ(s: Seq<EntryView>, i: int)
    requires
        0 <= i < s.len(),
    ensures
        spec_sum_values(s.take(i + 1)) == spec_sum_values(s.take(i)) + s[i].value,
{
    assert(s.take(i + 1).drop_last() =~= s.take(i));
    assert(s.take(i + 1).last() == s[i]);
}

/// A prefix never sums to more than the whole sequence: values are
/// non-negative.
pub proof fn lemma_sum_prefix_le(s: Seq<EntryView>, i: int)
    requires
        0 <= i <= s.len(),
    ensures
        spec_sum_values(s.take(i)) <= spec_sum_values(s),
    decreases s.len() - i,
{
    if i == s.len() {
        assert(s.take(i) =~= s);
    } else {
        lemma_sum_take_succ(s, i);
        lemma_sum_prefix_le(s, i + 1);
    }
}

/// Sums the currency value of a list of `ErgsBox`es; an empty list sums to
/// zero. The caller keeps the mathematical sum within machine range, which
/// realistic ledger magnitudes always do.
pub fn sum_ergs_boxes_value(boxes: &Vec<ErgsBox>) -> (sum: u64)
    requires
        spec_sum_values(entries_of(boxes@)) <= u64::MAX,
    ensures
        sum == spec_sum_values(entries_of(boxes@)),
{
    let ghost entries = entries_of(boxes@);
    let mut sum: u64 = 0;
    let mut idx: usize = 0;
    while idx < boxes.len()
        invariant
            idx <= boxes.len(),
            boxes@.len() == entries.len(),
            entries == entries_of(boxes@),
            spec_sum_values(entries) <= u64::MAX,
            sum == spec_sum_values(entries.take(idx as int)),
        decreases boxes.len() - idx,
    {
        proof {
            lemma_sum_take_succ(entries, idx as int);
            lemma_sum_prefix_le(entries, idx as int + 1);
        }
        let b = &boxes[idx];
        sum = sum + b.ergo_box.value;
        idx += 1;
    }
    proof {
        assert(entries.take(entries.len() as int) =~= entries);
    }
    sum
}

/// Unwraps a list of `ErgsBox`es into the raw entries they carry: a
/// length- and order-preserving projection.
pub fn unwrap_ergs_boxes(boxes: &Vec<ErgsBox>) -> (r: Vec<LedgerEntry>)
    ensures
        r@.len() == boxes@.len(),
        forall|i: int| 0 <= i < boxes@.len() ==> #[trigger] r@[i]@ == boxes@[i].spec_entry(),
{
    let mut r: Vec<LedgerEntry> = Vec::new();
    let mut idx: usize = 0;
    while idx < boxes.len()
        invariant
            idx <= boxes.len(),
            r@.len() == idx,
            forall|i: int| 0 <= i < idx ==> #[trigger] r@[i]@ == boxes@[i].spec_entry(),
        decreases boxes.len() - idx,
    {
        let b = boxes[idx].get_box();
        r.push(b);
        idx += 1;
    }
    r
}

/// Converts a list of `ErgsBox`es into transaction inputs: one input per
/// box, in order, each carrying the box's entry and an empty context
/// extension.
pub fn ergs_boxes_to_inputs(boxes: &Vec<ErgsBox>) -> (r: Vec<TxInput>)
    ensures
        r@.len() == boxes@.len(),
        forall|i: int| #![trigger r@[i]]
            0 <= i < boxes@.len() ==> r@[i]@.entry == boxes@[i].spec_entry()
                && r@[i]@.extension.len() == 0,
{
    let mut r: Vec<TxInput> = Vec::new();
    let mut idx: usize = 0;
    while idx < boxes.len()
        invariant
            idx <= boxes.len(),
            r@.len() == idx,
            forall|i: int| #![trigger r@[i]]
                0 <= i < idx ==> r@[i]@.entry == boxes@[i].spec_entry()
                    && r@[i]@.extension.len() == 0,
        decreases boxes.len() - idx,
    {
        let entry = boxes[idx].get_box();
        let extension: Vec<(u8, Constant)> = Vec::new();
        r.push(TxInput { entry, extension });
        idx += 1;
    }
    r
}

/// A predicated box holding an oracle datapoint: an integer read out of
/// the entry's first register, with the entry also required to carry a
/// single NFT (one token, of amount exactly 1) as its identity. The
/// datapoint is extracted once at construction and stored alongside the
/// verified entry.
#[derive(Debug)]
pub struct OracleBoxLong {
    ergo_box: LedgerEntry,
    pub predicate: Predicate,
    pub datapoint: i64,
}

/// Reads the integer datapoint out of the entry's first register, with
/// error checking along the way.
pub fn extract_long_datapoint(b: &LedgerEntry) -> (r: Result<i64, BoxVerificationError>)
    ensures
        r matches Ok(d) ==> spec_extract_long_datapoint(b@) == Ok::<i64, ErrorView>(d),
        r matches Err(e) ==> (spec_extract_long_datapoint(b@) matches Err(ev) && e@ == ev),
{
    if b.registers.len() < 1 {
        Err(missing_datapoint_error())
    } else {
        match &b.registers[0] {
            Constant::Long(i) => Ok(*i),
            _ => Err(non_long_datapoint_error()),
        }
    }
}

/// The fixed rule behind `OracleBoxLong`: a readable integer datapoint in
/// the first register, then exactly one token of amount exactly 1.
pub fn oracle_box_predicate(b: &LedgerEntry) -> (r: Result<(), BoxVerificationError>)
    ensures
        verdict_matches(r, spec_oracle_check(b@)),
{
    match extract_long_datapoint(b) {
        Ok(_) => (),
        Err(e) => {
            return Err(e);
        },
    }
    if b.tokens.len() != 1 {
        return Err(single_nft_error());
    }
    let t0 = &b.tokens[0];
    if t0.amount != 1 {
        return Err(single_nft_error());
    }
    Ok(())
}

impl PredicatedBox for OracleBoxLong {
    closed spec fn spec_predicate(&self) -> Predicate {
        self.predicate
    }

    closed spec fn spec_entry(&self) -> EntryView {
        self.ergo_box@
    }

    fn predicate(&self) -> (p: Predicate)
        ensures
            p == self.spec_predicate(),
    {
        self.predicate
    }

    fn get_box(&self) -> (b: LedgerEntry)
        ensures
            b@ == self.spec_entry(),
    {
        self.ergo_box.clone()
    }
}

impl OracleBoxLong {
    /// The datapoint stored in this wrapper, at the spec level.
    pub closed spec fn spec_datapoint(self) -> i64 {
        self.datapoint
    }

    /// The snapshot guarantee carried by an `OracleBoxLong`: the oracle
    /// rule held, and the stored datapoint is the one its entry carries.
    pub open spec fn wf(self) -> bool {
        &&& self.spec_predicate() == Predicate::OracleLongDatapoint
        &&& spec_oracle_check(self.spec_entry()) is Ok
        &&& spec_extract_long_datapoint(self.spec_entry()) == Ok::<i64, ErrorView>(
            self.spec_datapoint(),
        )
    }

    /// Runs the oracle rule and, on success, wraps a snapshot of the entry
    /// with the extracted datapoint stored alongside it. On failure the
    /// rule's own error comes back unchanged.
    pub fn new(b: &LedgerEntry) -> (r: Result<OracleBoxLong, BoxVerificationError>)
        ensures
            spec_oracle_check(b@) is Ok ==> (r matches Ok(ob) && ob.spec_entry() == b@ && ob.wf()
                && spec_extract_long_datapoint(b@) == Ok::<i64, ErrorView>(ob.spec_datapoint())),
            spec_oracle_check(b@) matches Err(ev) ==> (r matches Err(e) && e@ == ev),
    {
        match oracle_box_predicate(b) {
            Ok(()) => (),
            Err(e) => {
                return Err(e);
            },
        }
        let datapoint = match extract_long_datapoint(b) {
            Ok(d) => d,
            Err(e) => {
                return Err(e);
            },
        };
        Ok(
            (OracleBoxLong {
                ergo_box: b.clone(),
                predicate: Predicate::OracleLongDatapoint,
                datapoint,
            }),
        )
    }
}

} // verus!
