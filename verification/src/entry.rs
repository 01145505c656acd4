//! The plain data model of a ledger entry ("box"): its value, its tokens,
//! its registers and its guarding script, together with the spec-level views
//! that the contracts of this crate are stated over.
//!
//! Entries arrive from the surrounding node layer as fully materialized
//! records; this crate never queries a node and never mutates an entry.

use vstd::prelude::*;

verus! {

/// A typed constant held in one of an entry's registers.
#[derive(Debug, PartialEq, Eq)]
pub enum Constant {
    Boolean(bool),
    Byte(i8),
    Short(i16),
    Int(i32),
    Long(i64),
    Bytes(Vec<u8>),
}

/// Spec-level picture of a register constant; byte strings become sequences.
#[verifier::ext_equal]
pub enum ConstantView {
    Boolean(bool),
    Byte(i8),
    Short(i16),
    Int(i32),
    Long(i64),
    Bytes(Seq<u8>),
}

impl View for Constant {
    type V = ConstantView;

    open spec fn view(&self) -> ConstantView {
        match self {
            Constant::Boolean(b) => ConstantView::Boolean(*b),
            Constant::Byte(b) => ConstantView::Byte(*b),
            Constant::Short(s) => ConstantView::Short(*s),
            Constant::Int(i) => ConstantView::Int(*i),
            Constant::Long(l) => ConstantView::Long(*l),
            Constant::Bytes(v) => ConstantView::Bytes(v@),
        }
    }
}

impl Clone for Constant {
    fn clone(&self) -> (r: Self)
        ensures
            r@ == self@,
    {
        match self {
            Constant::Boolean(b) => Constant::Boolean(*b),
            Constant::Byte(b) => Constant::Byte(*b),
            Constant::Short(s) => Constant::Short(*s),
            Constant::Int(i) => Constant::Int(*i),
            Constant::Long(l) => Constant::Long(*l),
            Constant::Bytes(v) => Constant::Bytes(clone_bytes(v)),
        }
    }
}

/// One token held by an entry: an identifier (a digest, kept as opaque
/// bytes) and the amount of that token present in the entry.
#[derive(Debug, PartialEq, Eq)]
pub struct Token {
    pub id: Vec<u8>,
    pub amount: u64,
}

/// Spec-level picture of a token.
#[verifier::ext_equal]
pub struct TokenView {
    pub id: Seq<u8>,
    pub amount: u64,
}

impl View for Token {
    type V = TokenView;

    open spec fn view(&self) -> TokenView {
        TokenView { id: self.id@, amount: self.amount }
    }
}

impl Clone for Token {
    fn clone(&self) -> (r: Self)
        ensures
            r@ == self@,
    {
        Token { id: clone_bytes(&self.id), amount: self.amount }
    }
}

/// An immutable ledger entry: a value in the smallest currency unit, an
/// ordered token list, an ordered register list and an opaque guarding
/// script. Script validity is the concern of the surrounding layers; here
/// the script is carried through untouched.
#[derive(Debug, PartialEq, Eq)]
pub struct LedgerEntry {
    pub value: u64,
    pub tokens: Vec<Token>,
    pub registers: Vec<Constant>,
    pub script: Vec<u8>,
}

/// Spec-level picture of a ledger entry.
#[verifier::ext_equal]
pub struct EntryView {
    pub value: u64,
    pub tokens: Seq<TokenView>,
    pub registers: Seq<ConstantView>,
    pub script: Seq<u8>,
}

impl View for LedgerEntry {
    type V = EntryView;

    open spec fn view(&self) -> EntryView {
        EntryView {
            value: self.value,
            tokens: self.tokens@.map_values(|t: Token| t@),
            registers: self.registers@.map_values(|c: Constant| c@),
            script: self.script@,
        }
    }
}

impl Clone for LedgerEntry {
    fn clone(&self) -> (r: Self)
        ensures
            r@ == self@,
    {
        let r = LedgerEntry {
            value: self.value,
            tokens: clone_tokens(&self.tokens),
            registers: clone_registers(&self.registers),
            script: clone_bytes(&self.script),
        };
        proof {
            assert(r@.tokens =~= self@.tokens);
            assert(r@.registers =~= self@.registers);
            assert(r@ =~= self@);
        }
        r
    }
}

/// The action layer's picture of a spent entry: the entry itself together
/// with a context extension, a list of indexed constants handed to the
/// guarding script at spending time. Conversion from a verified box starts
/// the extension out empty; the surrounding layers derive the on-chain
/// input identifier from the entry when a transaction is assembled.
#[derive(Debug, PartialEq, Eq)]
pub struct TxInput {
    pub entry: LedgerEntry,
    pub extension: Vec<(u8, Constant)>,
}

/// Spec-level picture of a transaction input.
#[verifier::ext_equal]
pub struct TxInputView {
    pub entry: EntryView,
    pub extension: Seq<(u8, ConstantView)>,
}

impl View for TxInput {
    type V = TxInputView;

    open spec fn view(&self) -> TxInputView {
        TxInputView {
            entry: self.entry@,
            extension: self.extension@.map_values(|p: (u8, Constant)| (p.0, p.1@)),
        }
    }
}

fn clone_bytes(v: &Vec<u8>) -> (r: Vec<u8>)
    ensures
        r@ == v@,
{
    let mut r: Vec<u8> = Vec::new();
    let mut idx: usize = 0;
    while idx < v.len()
        invariant
            idx <= v.len(),
            r@ =~= v@.subrange(0, idx as int),
        decreases v.len() - idx,
    {
        r.push(v[idx]);
        idx += 1;
    }
    proof {
        assert(r@ =~= v@);
    }
    r
}

fn clone_tokens(v: &Vec<Token>) -> (r: Vec<Token>)
    ensures
        r@.len() == v@.len(),
        forall|i: int| 0 <= i < v@.len() ==> #[trigger] r@[i]@ == v@[i]@,
{
    let mut r: Vec<Token> = Vec::new();
    let mut idx: usize = 0;
    while idx < v.len()
        invariant
            idx <= v.len(),
            r@.len() == idx,
            forall|i: int| 0 <= i < idx ==> #[trigger] r@[i]@ == v@[i]@,
        decreases v.len() - idx,
    {
        let t = v[idx].clone();
        r.push(t);
        idx += 1;
    }
    r
}

fn clone_registers(v: &Vec<Constant>) -> (r: Vec<Constant>)
    ensures
        r@.len() == v@.len(),
        forall|i: int| 0 <= i < v@.len() ==> #[trigger] r@[i]@ == v@[i]@,
{
    let mut r: Vec<Constant> = Vec::new();
    let mut idx: usize = 0;
    while idx < v.len()
        invariant
            idx <= v.len(),
            r@.len() == idx,
            forall|i: int| 0 <= i < idx ==> #[trigger] r@[i]@ == v@[i]@,
        decreases v.len() - idx,
    {
        let c = v[idx].clone();
        r.push(c);
        idx += 1;
    }
    r
}

} // verus!
