use solana_sdk::hash;
use solana_sdk::instruction::Instruction;
use solana_sdk::pubkey::Pubkey;
use solana_sdk::signature::Keypair;
use solana_sdk::system_instruction;
use solana_sdk::transaction::Transaction;
use vstd::prelude::*;

use crate::error::SubmitError;
use crate::keys::{keypair_public, keypair_public_key, Address, SigningIdentity, ADDRESS_LEN, KEYPAIR_LEN};

verus! {

broadcast use vstd::array::group_array_axioms;

/// The most transfers one envelope may hold: each brings its recipient as an
/// account, and the accounts (with the payer and the system program) must be
/// indexable by one byte.
pub const MAX_TRANSFERS: usize = 254;

/// The wire form of the transaction that holds `transfers` (each as sender,
/// recipient, amount) as system-program transfers in order, paid by `payer`,
/// dated by `token` and signed with the 64 keypair bytes `keypair`.
pub uninterp spec fn signed_wire(
    transfers: Seq<(Seq<u8>, Seq<u8>, u64)>,
    payer: Seq<u8>,
    token: Seq<u8>,
    keypair: Seq<u8>,
) -> Seq<u8>;

/// Relies on solana_sdk: system_instruction::transfer for each transfer,
/// Transaction::new_with_payer, then Transaction::try_sign with the keypair
/// that Keypair::from_bytes reads, then bincode::serialize. With every sender
/// being the payer there is one signer, so key compilation cannot overflow;
/// the keypair is valid and is that signer, so signing succeeds; and
/// serializing into a growable buffer does not fail.
#[verifier::external_body]
fn sign_transfers(transfers: &Vec<Transfer>, payer: &[u8; 32], token: &[u8; 32], keypair: &Vec<u8>) -> (r: Vec<u8>)
    requires
        0 < transfers@.len() <= MAX_TRANSFERS,
        forall|i: int| 0 <= i < transfers@.len() ==> #[trigger] transfers@[i].from.bytes@ == payer@,
        keypair@.len() == 64,
        keypair_public(keypair@) == Some(payer@),
    ensures
        r@ == signed_wire(transfer_views(transfers@), payer@, token@, keypair@),
{
    let ixs: Vec<Instruction> = transfers.iter().map(|t| {
        system_instruction::transfer(&Pubkey::from(t.from.bytes), &Pubkey::from(t.to.bytes), t.lamports)
    }).collect();
    let mut tx = Transaction::new_with_payer(&ixs, Some(&Pubkey::from(*payer)));
    let signer = Keypair::from_bytes(keypair).expect("valid keypair");
    tx.try_sign(&[&signer], hash::Hash::new_from_array(*token)).expect("sole signer");
    bincode::serialize(&tx).expect("in-memory serialization")
}

/// A recently confirmed checkpoint identifier that dates an envelope.
#[derive(Debug, Clone, Copy)]
pub struct FreshnessToken {
    pub bytes: [u8; 32],
}

/// A directive to move `lamports` minimum-denomination units from `from` to `to`.
#[derive(Debug, Clone, Copy)]
pub struct Transfer {
    pub from: Address,
    pub to: Address,
    pub lamports: u64,
}

/// An ordered batch of transfers, applied atomically, dated by a freshness token.
pub struct Envelope {
    pub fee_payer: Address,
    pub transfers: Vec<Transfer>,
    pub token: FreshnessToken,
}

/// Each transfer as (sender, recipient, amount).
pub open spec fn transfer_views(ts: Seq<Transfer>) -> Seq<(Seq<u8>, Seq<u8>, u64)> {
    ts.map_values(|t: Transfer| (t.from.bytes@, t.to.bytes@, t.lamports))
}

/// The wire form of `e` signed with the keypair bytes `keypair`.
pub open spec fn envelope_wire(e: &Envelope, keypair: Seq<u8>) -> Seq<u8> {
    signed_wire(transfer_views(e.transfers@), e.fee_payer.bytes@, e.token.bytes@, keypair)
}

/// `identity` can sign `e`: its keypair bytes are valid, and the public key
/// they give pays the fee and every transfer of a non-empty `e`.
pub open spec fn signable(e: &Envelope, identity: &SigningIdentity) -> bool {
    0 < e.transfers@.len() <= MAX_TRANSFERS && identity.keypair@.len() == KEYPAIR_LEN
        && (keypair_public(identity.keypair@) matches Some(p) && paid_by(e, p))
}

/// `t` moves `lamports` from `from` to `to`.
pub open spec fn is_transfer(t: Transfer, from: Seq<u8>, to: Seq<u8>, lamports: u64) -> bool {
    t.from.bytes@ == from && t.to.bytes@ == to && t.lamports == lamports
}

/// Every transfer of `e`, and its fee, is paid by the holder of `public`.
pub open spec fn paid_by(e: &Envelope, public: Seq<u8>) -> bool {
    e.fee_payer.bytes@ == public && forall|i: int|
        0 <= i < e.transfers@.len() ==> #[trigger] e.transfers@[i].from.bytes@ == public
}

/// Whether two addresses are the same.
pub fn same_address(a: &Address, b: &Address) -> (r: bool)
    ensures
        r == (a.bytes@ == b.bytes@),
{
    let mut i: usize = 0;
    while i < ADDRESS_LEN
        invariant
            i <= ADDRESS_LEN,
            a.bytes@.len() == ADDRESS_LEN,
            b.bytes@.len() == ADDRESS_LEN,
            forall|j: int| 0 <= j < i ==> a.bytes@[j] == b.bytes@[j],
        decreases ADDRESS_LEN - i,
    {
        if a.bytes[i] != b.bytes[i] {
            return false;
        }
        i = i + 1;
    }
    assert(a.bytes@ =~= b.bytes@);
    true
}

/// The envelope of a payment with a tip: first `sender` to `main` for
/// `main_amount`, then `sender` to `tip` for `tip_amount`, paid by `sender`.
pub fn build_envelope(
    sender: &Address,
    main: &Address,
    tip: &Address,
    main_amount: u64,
    tip_amount: u64,
    token: &FreshnessToken,
) -> (e: Envelope)
    ensures
        e.transfers@.len() == 2,
        is_transfer(e.transfers@[0], sender.bytes@, main.bytes@, main_amount),
        is_transfer(e.transfers@[1], sender.bytes@, tip.bytes@, tip_amount),
        e.fee_payer.bytes@ == sender.bytes@,
        e.token.bytes@ == token.bytes@,
{
    let mut transfers: Vec<Transfer> = Vec::new();
    transfers.push(Transfer { from: *sender, to: *main, lamports: main_amount });
    transfers.push(Transfer { from: *sender, to: *tip, lamports: tip_amount });
    Envelope { fee_payer: *sender, transfers, token: *token }
}

/// Whether the holder of `public` pays the fee and every transfer of `e`.
pub fn check_paid_by(e: &Envelope, public: &Address) -> (r: bool)
    ensures
        r == paid_by(e, public.bytes@),
{
    if !same_address(&e.fee_payer, public) {
        return false;
    }
    let mut i: usize = 0;
    while i < e.transfers.len()
        invariant
            i <= e.transfers@.len(),
            forall|j: int| 0 <= j < i ==> #[trigger] e.transfers@[j].from.bytes@ == public.bytes@,
        decreases e.transfers@.len() - i,
    {
        if !same_address(&e.transfers[i].from, public) {
            return false;
        }
        i = i + 1;
    }
    true
}

/// Signs `e` with `identity` and returns its wire form. An envelope with no
/// transfer or more than `MAX_TRANSFERS`, or with a fee or a transfer that the
/// identity's key does not pay, is refused before anything is signed.
pub fn sign_envelope(e: &Envelope, identity: &SigningIdentity) -> (r: Result<Vec<u8>, SubmitError>)
    ensures
        signable(e, identity) <==> r is Ok,
        identity.wf() ==> (signable(e, identity) <==> 0 < e.transfers@.len() <= MAX_TRANSFERS && paid_by(
            e,
            identity.public.bytes@,
        )),
        r matches Ok(w) ==> w@ == envelope_wire(e, identity.keypair@),
        r is Err ==> r == Err::<Vec<u8>, SubmitError>(SubmitError::SigningFailed),
{
    if e.transfers.len() == 0 || e.transfers.len() > MAX_TRANSFERS
        || identity.keypair.len() != KEYPAIR_LEN {
        return Err(SubmitError::SigningFailed);
    }
    let public = match keypair_public_key(&identity.keypair) {
        Some(p) => Address { bytes: p },
        None => return Err(SubmitError::SigningFailed),
    };
    if !check_paid_by(e, &public) {
        return Err(SubmitError::SigningFailed);
    }
    Ok(sign_transfers(&e.transfers, &e.fee_payer.bytes, &e.token.bytes, &identity.keypair))
}

/// Signing is a function of the envelope and the keypair alone: two signings of
/// envelopes with the same transfers, fee payer and token, by the same keypair
/// bytes, give byte-identical wire forms.
pub proof fn lemma_signing_deterministic(
    e1: &Envelope,
    e2: &Envelope,
    keypair: Seq<u8>,
    w1: Seq<u8>,
    w2: Seq<u8>,
)
    requires
        transfer_views(e1.transfers@) == transfer_views(e2.transfers@),
        e1.fee_payer.bytes@ == e2.fee_payer.bytes@,
        e1.token.bytes@ == e2.token.bytes@,
        w1 == envelope_wire(e1, keypair),
        w2 == envelope_wire(e2, keypair),
    ensures
        w1 == w2,
{
}

} // verus!
