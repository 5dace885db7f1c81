use vstd::prelude::*;

use crate::envelope::{
    build_envelope, is_transfer, paid_by, sign_envelope, signed_wire, transfer_views, Envelope,
    FreshnessToken,
};
use crate::error::SubmitError;
use crate::keys::{
    address_of, base58_bytes, decode_signing_identity, identity_of, parse_address, Address, SigningIdentity,
};
use crate::relay::{frames, relay_body, relay_url, relay_url_of, RelayRequest, Transport};

verus! {

/// A payment with a tip, read from the caller's texts and ready to be dated and signed.
pub struct TransferOrder {
    pub identity: SigningIdentity,
    pub main_recipient: Address,
    pub tip_recipient: Address,
    pub main_amount: u64,
    pub tip_amount: u64,
}

/// The public identifiers of signer, main recipient and tip recipient that the
/// three texts describe, or the error for the first text (in that order) that
/// is malformed.
pub open spec fn order_parties(secret: Seq<char>, tip: Seq<char>, main: Seq<char>) -> Result<
    (Seq<u8>, Seq<u8>, Seq<u8>),
    SubmitError,
> {
    match identity_of(secret) {
        Err(e) => Err(e),
        Ok(signer) => match address_of(main) {
            Err(e) => Err(e),
            Ok(m) => match address_of(tip) {
                Err(e) => Err(e),
                Ok(t) => Ok((signer, m, t)),
            },
        },
    }
}

/// `o` is the order that the three texts and two amounts describe: its keypair
/// bytes are what the secret text decodes to, and form a valid keypair.
pub open spec fn read_from(
    o: &TransferOrder,
    secret: Seq<char>,
    tip: Seq<char>,
    main: Seq<char>,
    main_amount: u64,
    tip_amount: u64,
) -> bool {
    order_parties(secret, tip, main) matches Ok(p) && o.identity.wf() && o.identity.public.bytes@
        == p.0 && base58_bytes(secret) == Some(o.identity.keypair@) && o.main_recipient.bytes@
        == p.1 && o.tip_recipient.bytes@ == p.2 && o.main_amount == main_amount && o.tip_amount
        == tip_amount
}

/// Reads the caller's texts into an order; nothing is fetched or signed yet.
pub fn read_order(
    signer_secret: &str,
    tip_recipient: &str,
    main_recipient: &str,
    main_amount: u64,
    tip_amount: u64,
) -> (r: Result<TransferOrder, SubmitError>)
    ensures
        match order_parties(signer_secret@, tip_recipient@, main_recipient@) {
            Ok(p) => r matches Ok(o) && read_from(
                &o,
                signer_secret@,
                tip_recipient@,
                main_recipient@,
                main_amount,
                tip_amount,
            ),
            Err(e) => r matches Err(f) && f == e,
        },
{
    let identity = match decode_signing_identity(signer_secret) {
        Ok(id) => id,
        Err(e) => return Err(e),
    };
    let main = match parse_address(main_recipient) {
        Ok(a) => a,
        Err(e) => return Err(e),
    };
    let tip = match parse_address(tip_recipient) {
        Ok(a) => a,
        Err(e) => return Err(e),
    };
    Ok(TransferOrder { identity, main_recipient: main, tip_recipient: tip, main_amount, tip_amount })
}

/// The envelope of `o` dated by `token`: the main transfer, then the tip, both
/// from the signer, who pays the fee.
pub fn order_envelope(o: &TransferOrder, token: &FreshnessToken) -> (e: Envelope)
    ensures
        e.transfers@.len() == 2,
        is_transfer(
            e.transfers@[0],
            o.identity.public.bytes@,
            o.main_recipient.bytes@,
            o.main_amount,
        ),
        is_transfer(
            e.transfers@[1],
            o.identity.public.bytes@,
            o.tip_recipient.bytes@,
            o.tip_amount,
        ),
        e.fee_payer.bytes@ == o.identity.public.bytes@,
        e.token.bytes@ == token.bytes@,
        paid_by(&e, o.identity.public.bytes@),
{
    build_envelope(
        &o.identity.public,
        &o.main_recipient,
        &o.tip_recipient,
        o.main_amount,
        o.tip_amount,
        token,
    )
}

/// The transfers of `o` as (sender, recipient, amount): the main payment, then the tip.
pub open spec fn order_transfers(o: &TransferOrder) -> Seq<(Seq<u8>, Seq<u8>, u64)> {
    seq![
        (o.identity.public.bytes@, o.main_recipient.bytes@, o.main_amount),
        (o.identity.public.bytes@, o.tip_recipient.bytes@, o.tip_amount),
    ]
}

/// The wire form of `o` dated by `token` and signed by its identity.
pub open spec fn order_wire(o: &TransferOrder, token: Seq<u8>) -> Seq<u8> {
    signed_wire(order_transfers(o), o.identity.public.bytes@, token, o.identity.keypair@)
}

/// Two orders read from the same texts and amounts, dated by the same token,
/// are signed into byte-identical wire forms.
pub proof fn lemma_same_inputs_same_wire(
    o1: &TransferOrder,
    o2: &TransferOrder,
    secret: Seq<char>,
    tip: Seq<char>,
    main: Seq<char>,
    main_amount: u64,
    tip_amount: u64,
    token: Seq<u8>,
)
    requires
        read_from(o1, secret, tip, main, main_amount, tip_amount),
        read_from(o2, secret, tip, main, main_amount, tip_amount),
    ensures
        order_wire(o1, token) == order_wire(o2, token),
{
    assert(order_transfers(o1) =~= order_transfers(o2));
}

/// The request that submits `o` to the relay at `relay_base`, once a freshness
/// token has been sought. Without a token the network is unavailable and no
/// request is made; with one, the envelope is built, signed and framed for
/// transport `t`, and only signing can fail.
pub fn prepare_submission(
    o: &TransferOrder,
    token: Option<FreshnessToken>,
    t: Transport,
    relay_base: &str,
    api_key: &str,
) -> (r: Result<RelayRequest, SubmitError>)
    ensures
        token is None ==> (r matches Err(e) && e == SubmitError::NetworkUnavailable),
        token is Some ==> (r is Ok || (r matches Err(e) && e == SubmitError::SigningFailed)),
        (token is Some && o.identity.wf()) ==> r is Ok,
        r matches Ok(req) ==> token matches Some(k) && req.url@ == relay_url_of(
            t,
            relay_base@,
            api_key@,
        ) && frames(t, req.body, order_wire(o, k.bytes@)),
{
    let token = match token {
        Some(k) => k,
        None => return Err(SubmitError::NetworkUnavailable),
    };
    let envelope = order_envelope(o, &token);
    let wire = match sign_envelope(&envelope, &o.identity) {
        Ok(w) => w,
        Err(e) => return Err(e),
    };
    assert(transfer_views(envelope.transfers@) =~= order_transfers(o));
    let ghost wire_view = wire@;
    let body = relay_body(t, wire);
    assert(frames(t, body, wire_view));
    Ok(RelayRequest { url: relay_url(t, relay_base, api_key), body })
}

} // verus!
