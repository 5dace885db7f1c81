use std::str::FromStr;

use solana_sdk::pubkey::Pubkey;
use solana_sdk::signature::{Keypair, Signer};
use vstd::prelude::*;

use crate::error::SubmitError;

verus! {

broadcast use vstd::array::group_array_axioms;

/// Length of a public identifier, in bytes.
pub const ADDRESS_LEN: usize = 32;

/// Length of an encoded signing keypair (secret half, then public half), in bytes.
pub const KEYPAIR_LEN: usize = 64;

/// The value of a character of the Bitcoin base-58 alphabet
/// `123456789ABCDEFGHJKLMNPQRSTUVWXYZabcdefghijkmnopqrstuvwxyz`.
pub open spec fn base58_digit(c: char) -> Option<int> {
    if '1' <= c <= '9' {
        Some(c as int - '1' as int)
    } else if 'A' <= c <= 'H' {
        Some(9 + (c as int - 'A' as int))
    } else if 'J' <= c <= 'N' {
        Some(17 + (c as int - 'J' as int))
    } else if 'P' <= c <= 'Z' {
        Some(22 + (c as int - 'P' as int))
    } else if 'a' <= c <= 'k' {
        Some(33 + (c as int - 'a' as int))
    } else if 'm' <= c <= 'z' {
        Some(44 + (c as int - 'm' as int))
    } else {
        None
    }
}

/// Whether every character of `s` is a base-58 digit.
pub open spec fn is_base58(s: Seq<char>) -> bool {
    forall|i: int| 0 <= i < s.len() ==> #[trigger] base58_digit(s[i]) is Some
}

/// The number that the base-58 digits of `s` write, most significant first.
pub open spec fn base58_value(s: Seq<char>) -> nat
    decreases s.len(),
{
    if s.len() == 0 {
        0
    } else {
        (base58_value(s.drop_last()) * 58 + base58_digit(s.last()).unwrap_or(0)) as nat
    }
}

/// The number of leading `1` characters of `s`.
pub open spec fn leading_ones(s: Seq<char>) -> nat
    decreases s.len(),
{
    if s.len() > 0 && s[0] == '1' {
        1 + leading_ones(s.drop_first())
    } else {
        0
    }
}

/// The shortest big-endian bytes of `n`; none for zero.
pub open spec fn be_bytes(n: nat) -> Seq<u8>
    decreases n,
{
    if n == 0 {
        Seq::empty()
    } else {
        be_bytes(n / 256) + seq![(n % 256) as u8]
    }
}

/// The bytes that a base-58 text decodes to: a zero byte for each leading
/// `1`, then the number that the text writes; `None` where it is not base-58.
pub open spec fn base58_bytes(s: Seq<char>) -> Option<Seq<u8>> {
    if is_base58(s) {
        Some(Seq::new(leading_ones(s), |i: int| 0u8) + be_bytes(base58_value(s)))
    } else {
        None
    }
}

/// The public half of the keypair that 64 encoded bytes describe, or `None`
/// where the public half is not the one derived from the secret half.
pub uninterp spec fn keypair_public(b: Seq<u8>) -> Option<Seq<u8>>;

/// Relies on bs58::decode(..).into_vec(): with the Bitcoin alphabet it writes a
/// zero byte for each leading `1` and the number that the text writes, and
/// refuses any character outside the alphabet.
#[verifier::external_body]
fn decode_base58(s: &str) -> (r: Option<Vec<u8>>)
    ensures
        match r {
            Some(v) => base58_bytes(s@) == Some(v@),
            None => base58_bytes(s@) is None,
        },
{
    bs58::decode(s).into_vec().ok()
}

/// Relies on Pubkey::from_str: it decodes `s` with bs58 and accepts exactly
/// 32 decoded bytes, which become the key unchanged. (It refuses a text of
/// over 44 bytes before decoding; no such text decodes to 32 bytes.)
#[verifier::external_body]
fn parse_pubkey(s: &str) -> (r: Option<[u8; 32]>)
    ensures
        match r {
            Some(a) => base58_bytes(s@) == Some(a@),
            None => base58_bytes(s@) is None || base58_bytes(s@).unwrap().len() != 32,
        },
{
    Pubkey::from_str(s).ok().map(|p| p.to_bytes())
}

/// Relies on Keypair::from_bytes: it reads 64 bytes, the secret half then the
/// public half, and accepts them only where the public half is the one derived
/// from the secret; `pubkey()` then gives the public half back unchanged.
#[verifier::external_body]
pub(crate) fn keypair_public_key(b: &Vec<u8>) -> (r: Option<[u8; 32]>)
    requires
        b@.len() == 64,
    ensures
        match r {
            Some(p) => keypair_public(b@) == Some(p@) && p@ == b@.subrange(32, 64),
            None => keypair_public(b@) is None,
        },
{
    Keypair::from_bytes(b).ok().map(|k| k.pubkey().to_bytes())
}

/// A recipient's public identifier.
#[derive(Debug, Clone, Copy)]
pub struct Address {
    pub bytes: [u8; 32],
}

/// The keypair that signs and pays for a transfer.
pub struct SigningIdentity {
    /// The 64 encoded keypair bytes: the secret half, then the public half.
    pub keypair: Vec<u8>,
    /// The public identifier derived from the keypair.
    pub public: Address,
}

impl SigningIdentity {
    /// The keypair bytes form a valid keypair whose public identifier is `public`.
    pub open spec fn wf(&self) -> bool {
        self.keypair@.len() == KEYPAIR_LEN && keypair_public(self.keypair@) == Some(self.public.bytes@)
    }
}

/// The result of reading an address text: the 32 bytes it decodes to.
pub open spec fn address_of(s: Seq<char>) -> Result<Seq<u8>, SubmitError> {
    match base58_bytes(s) {
        Some(b) => if b.len() == ADDRESS_LEN {
            Ok(b)
        } else {
            Err(SubmitError::InvalidAddressEncoding)
        },
        None => Err(SubmitError::InvalidAddressEncoding),
    }
}

/// The result of reading a secret-key text: the public identifier of the
/// keypair it decodes to.
pub open spec fn identity_of(s: Seq<char>) -> Result<Seq<u8>, SubmitError> {
    match base58_bytes(s) {
        Some(b) => if b.len() == KEYPAIR_LEN {
            match keypair_public(b) {
                Some(p) => Ok(p),
                None => Err(SubmitError::InvalidKeyEncoding),
            }
        } else {
            Err(SubmitError::InvalidKeyEncoding)
        },
        None => Err(SubmitError::InvalidKeyEncoding),
    }
}

/// Reads a recipient from its base-58 text.
pub fn parse_address(s: &str) -> (r: Result<Address, SubmitError>)
    ensures
        match r {
            Ok(a) => address_of(s@) == Ok::<Seq<u8>, SubmitError>(a.bytes@),
            Err(e) => address_of(s@) == Err::<Seq<u8>, SubmitError>(e),
        },
{
    match parse_pubkey(s) {
        Some(bytes) => {
            assert(bytes@.len() == ADDRESS_LEN);
            Ok(Address { bytes })
        },
        None => Err(SubmitError::InvalidAddressEncoding),
    }
}

/// Reads the signing keypair from the base-58 text of its 64 bytes.
pub fn decode_signing_identity(s: &str) -> (r: Result<SigningIdentity, SubmitError>)
    ensures
        match r {
            Ok(id) => identity_of(s@) == Ok::<Seq<u8>, SubmitError>(id.public.bytes@)
                && base58_bytes(s@) == Some(id.keypair@) && id.wf(),
            Err(e) => identity_of(s@) == Err::<Seq<u8>, SubmitError>(e),
        },
{
    let bytes = match decode_base58(s) {
        Some(b) => b,
        None => return Err(SubmitError::InvalidKeyEncoding),
    };
    if bytes.len() != KEYPAIR_LEN {
        return Err(SubmitError::InvalidKeyEncoding);
    }
    match keypair_public_key(&bytes) {
        Some(public) => Ok(SigningIdentity { keypair: bytes, public: Address { bytes: public } }),
        None => Err(SubmitError::InvalidKeyEncoding),
    }
}

} // verus!

verus! {

/// Decoding is a function of the text alone: a text whose 64 decoded bytes form
/// a valid keypair yields that keypair's public identifier, and two decodes of
/// the same text agree on it.
pub proof fn lemma_identity_deterministic(s: Seq<char>, b: Seq<u8>, p1: Seq<u8>, p2: Seq<u8>)
    requires
        base58_bytes(s) == Some(b),
        b.len() == KEYPAIR_LEN,
        keypair_public(b) is Some,
        identity_of(s) == Ok::<Seq<u8>, SubmitError>(p1),
        identity_of(s) == Ok::<Seq<u8>, SubmitError>(p2),
    ensures
        p1 == keypair_public(b).unwrap(),
        p1 == p2,
{
}

/// A text that is not base-58, or that decodes to other than 32 bytes, is
/// refused as an address; an accepted text yields exactly the bytes it decodes
/// to, never a truncated or padded form.
pub proof fn lemma_malformed_address_refused(s: Seq<char>)
    ensures
        (base58_bytes(s) is None || base58_bytes(s).unwrap().len() != ADDRESS_LEN)
            ==> address_of(s) == Err::<Seq<u8>, SubmitError>(SubmitError::InvalidAddressEncoding),
        address_of(s) matches Ok(a) ==> base58_bytes(s) == Some(a) && a.len() == ADDRESS_LEN,
{
}

} // verus!
