use base64::Engine;
use solana_sdk::instruction::Instruction;
use solana_sdk::message::Message;
use solana_sdk::pubkey::Pubkey;
use solana_sdk::signature::{Keypair, Signer};
use solana_sdk::system_instruction;
use solana_sdk::transaction::Transaction;

use tip_transfer::envelope::{build_envelope, sign_envelope, Envelope, FreshnessToken, Transfer};
use tip_transfer::error::{RelayResult, SubmitError};
use tip_transfer::keys::{decode_signing_identity, parse_address, Address, SigningIdentity};
use tip_transfer::relay::{
    classify_json_reply, interpret_json_reply, interpret_raw_reply, interpret_reply, json_rpc_request,
    relay_body, relay_url, RelayBody, RelayReply, Transport,
};
use tip_transfer::submit::{order_envelope, prepare_submission, read_order};

const TOKEN: [u8; 32] = [7u8; 32];

fn token() -> FreshnessToken {
    FreshnessToken { bytes: TOKEN }
}

fn expected_message(sender: &Pubkey, main: &Pubkey, tip: &Pubkey, main_amount: u64, tip_amount: u64) -> Message {
    let ixs: Vec<Instruction> = vec![
        system_instruction::transfer(sender, main, main_amount),
        system_instruction::transfer(sender, tip, tip_amount),
    ];
    let mut m = Message::new(&ixs, Some(sender));
    m.recent_blockhash = solana_sdk::hash::Hash::new_from_array(TOKEN);
    m
}

#[test]
fn secret_key_decodes_to_its_public_identifier() {
    let kp = Keypair::new();
    let text = kp.to_base58_string();
    let first = decode_signing_identity(&text).unwrap();
    let second = decode_signing_identity(&text).unwrap();
    assert_eq!(first.public.bytes, kp.pubkey().to_bytes());
    assert_eq!(first.public.bytes, second.public.bytes);
    assert_eq!(first.keypair, kp.to_bytes().to_vec());
}

#[test]
fn secret_key_that_is_not_base58_is_refused() {
    assert!(matches!(decode_signing_identity("0OIl+/"), Err(SubmitError::InvalidKeyEncoding)));
}

#[test]
fn secret_key_of_wrong_length_is_refused() {
    let short = Pubkey::new_unique().to_string();
    assert!(matches!(decode_signing_identity(&short), Err(SubmitError::InvalidKeyEncoding)));
    assert!(matches!(decode_signing_identity(""), Err(SubmitError::InvalidKeyEncoding)));
    let mut long = Keypair::new().to_bytes().to_vec();
    long.push(1);
    let long_text = bs58::encode(long).into_string();
    assert!(matches!(decode_signing_identity(&long_text), Err(SubmitError::InvalidKeyEncoding)));
}

#[test]
fn secret_key_with_foreign_public_half_is_refused() {
    let a = Keypair::new().to_bytes();
    let b = Keypair::new().to_bytes();
    let mut mixed = a[..32].to_vec();
    mixed.extend_from_slice(&b[32..]);
    let text = bs58::encode(mixed).into_string();
    assert!(matches!(decode_signing_identity(&text), Err(SubmitError::InvalidKeyEncoding)));
}

#[test]
fn address_decodes_to_its_bytes() {
    let p = Pubkey::new_unique();
    let a = parse_address(&p.to_string()).unwrap();
    assert_eq!(a.bytes, p.to_bytes());
    let zero = parse_address("11111111111111111111111111111111").unwrap();
    assert_eq!(zero.bytes, [0u8; 32]);
    let mut one = [0u8; 32];
    one[31] = 1;
    assert_eq!(parse_address("11111111111111111111111111111112").unwrap().bytes, one);
}

#[test]
fn malformed_addresses_are_refused() {
    let too_short = bs58::encode([1u8; 31]).into_string();
    let too_long = bs58::encode([1u8; 33]).into_string();
    let key_text = Keypair::new().to_base58_string();
    for s in ["", "abc", "0OIl0OIl0OIl0OIl0OIl0OIl0OIl0OIl", "not base58 at all!"] {
        assert!(matches!(parse_address(s), Err(SubmitError::InvalidAddressEncoding)), "{}", s);
    }
    for s in [too_short, too_long, key_text] {
        assert!(matches!(parse_address(&s), Err(SubmitError::InvalidAddressEncoding)), "{}", s);
    }
}

#[test]
fn order_reports_the_first_malformed_input() {
    let kp = Keypair::new();
    let good = Pubkey::new_unique().to_string();
    let r = read_order("bad!", "bad!", "bad!", 1, 1_000_000);
    assert!(matches!(r, Err(SubmitError::InvalidKeyEncoding)));
    let r = read_order(&kp.to_base58_string(), &good, "bad!", 1, 1_000_000);
    assert!(matches!(r, Err(SubmitError::InvalidAddressEncoding)));
    let r = read_order(&kp.to_base58_string(), "bad!", &good, 1, 1_000_000);
    assert!(matches!(r, Err(SubmitError::InvalidAddressEncoding)));
}

#[test]
fn scenario_envelope_holds_payment_then_tip() {
    let kp = Keypair::new();
    let r1 = Pubkey::new_unique();
    let r2 = Pubkey::new_unique();
    let order = read_order(&kp.to_base58_string(), &r2.to_string(), &r1.to_string(), 1, 1_000_000).unwrap();
    let env = order_envelope(&order, &token());
    assert_eq!(env.transfers.len(), 2);
    assert_eq!(env.transfers[0].from.bytes, kp.pubkey().to_bytes());
    assert_eq!(env.transfers[0].to.bytes, r1.to_bytes());
    assert_eq!(env.transfers[0].lamports, 1);
    assert_eq!(env.transfers[1].from.bytes, kp.pubkey().to_bytes());
    assert_eq!(env.transfers[1].to.bytes, r2.to_bytes());
    assert_eq!(env.transfers[1].lamports, 1_000_000);
    assert_eq!(env.fee_payer.bytes, kp.pubkey().to_bytes());
    assert_eq!(env.token.bytes, TOKEN);

    let wire = sign_envelope(&env, &order.identity).unwrap();
    let tx: Transaction = bincode::deserialize(&wire).unwrap();
    assert_eq!(tx.signatures.len(), 1);
    assert_eq!(tx.message, expected_message(&kp.pubkey(), &r1, &r2, 1, 1_000_000));

    let reply = RelayReply::Answered { status: 200, body: "ok".to_string() };
    assert_eq!(interpret_reply(Transport::RawBinary, reply), Ok(RelayResult::Accepted("ok".to_string())));
}

#[test]
fn signed_envelope_round_trips_and_verifies() {
    let kp = Keypair::new();
    let id = decode_signing_identity(&kp.to_base58_string()).unwrap();
    let r1 = Address { bytes: Pubkey::new_unique().to_bytes() };
    let r2 = Address { bytes: Pubkey::new_unique().to_bytes() };
    let env = build_envelope(&id.public, &r1, &r2, 5, 70, &token());
    let wire = sign_envelope(&env, &id).unwrap();
    let tx: Transaction = bincode::deserialize(&wire).unwrap();
    let payer = Pubkey::from(id.public.bytes);
    assert_eq!(tx.message.account_keys[0], payer);
    assert_eq!(tx.message.recent_blockhash.to_bytes(), TOKEN);
    assert_eq!(tx.message, expected_message(&payer, &Pubkey::from(r1.bytes), &Pubkey::from(r2.bytes), 5, 70));
    assert!(tx.verify().is_ok());
    assert!(tx.signatures[0].verify(payer.as_ref(), &tx.message_data()));
    assert_eq!(bincode::serialize(&tx).unwrap(), wire);
}

#[test]
fn signing_twice_gives_identical_bytes() {
    let kp = Keypair::new();
    let id = decode_signing_identity(&kp.to_base58_string()).unwrap();
    let r1 = Address { bytes: Pubkey::new_unique().to_bytes() };
    let r2 = Address { bytes: Pubkey::new_unique().to_bytes() };
    let env = build_envelope(&id.public, &r1, &r2, 1, 1_000_000, &token());
    let a = sign_envelope(&env, &id).unwrap();
    let b = sign_envelope(&env, &id).unwrap();
    assert_eq!(a, b);
    let ta: Transaction = bincode::deserialize(&a).unwrap();
    let tb: Transaction = bincode::deserialize(&b).unwrap();
    assert_eq!(ta.signatures, tb.signatures);
}

#[test]
fn signing_refuses_an_envelope_the_identity_does_not_pay() {
    let id = decode_signing_identity(&Keypair::new().to_base58_string()).unwrap();
    let other = Address { bytes: Pubkey::new_unique().to_bytes() };
    let to = Address { bytes: Pubkey::new_unique().to_bytes() };
    let foreign = build_envelope(&other, &to, &to, 1, 2, &token());
    assert_eq!(sign_envelope(&foreign, &id), Err(SubmitError::SigningFailed));
    let mixed = Envelope {
        fee_payer: id.public,
        transfers: vec![Transfer { from: id.public, to, lamports: 1 }, Transfer { from: other, to, lamports: 2 }],
        token: token(),
    };
    assert_eq!(sign_envelope(&mixed, &id), Err(SubmitError::SigningFailed));
    let empty = Envelope { fee_payer: id.public, transfers: vec![], token: token() };
    assert_eq!(sign_envelope(&empty, &id), Err(SubmitError::SigningFailed));
}

#[test]
fn signing_refuses_keypair_bytes_that_do_not_form_a_keypair() {
    let id = decode_signing_identity(&Keypair::new().to_base58_string()).unwrap();
    let to = Address { bytes: Pubkey::new_unique().to_bytes() };
    let env = build_envelope(&id.public, &to, &to, 1, 2, &token());
    let mut forged = SigningIdentity { keypair: id.keypair.clone(), public: id.public };
    forged.keypair[40] ^= 1;
    assert_eq!(sign_envelope(&env, &forged), Err(SubmitError::SigningFailed));
    let short = SigningIdentity { keypair: id.keypair[..32].to_vec(), public: id.public };
    assert_eq!(sign_envelope(&env, &short), Err(SubmitError::SigningFailed));
    assert!(sign_envelope(&env, &id).is_ok());
}

#[test]
fn missing_token_means_network_unavailable() {
    let order = read_order(
        &Keypair::new().to_base58_string(),
        &Pubkey::new_unique().to_string(),
        &Pubkey::new_unique().to_string(),
        1,
        1_000_000,
    )
    .unwrap();
    for t in [Transport::RawBinary, Transport::JsonRpc] {
        let r = prepare_submission(&order, None, t, "https://relay.example", "KEY");
        assert!(matches!(r, Err(SubmitError::NetworkUnavailable)));
    }
}

#[test]
fn raw_binary_request_carries_the_wire_bytes() {
    let kp = Keypair::new();
    let order = read_order(&kp.to_base58_string(), &Pubkey::new_unique().to_string(), &Pubkey::new_unique().to_string(), 1, 1_000_000).unwrap();
    let req = prepare_submission(&order, Some(token()), Transport::RawBinary, "https://relay.example", "KEY").unwrap();
    assert_eq!(req.url, "https://relay.example/txb?api-key=KEY");
    let env = order_envelope(&order, &token());
    let wire = sign_envelope(&env, &order.identity).unwrap();
    match req.body {
        RelayBody::Binary(b) => assert_eq!(b, wire),
        RelayBody::Json(_) => panic!("expected a binary body"),
    }
}

#[test]
fn json_rpc_request_carries_the_base64_envelope() {
    let kp = Keypair::new();
    let order = read_order(&kp.to_base58_string(), &Pubkey::new_unique().to_string(), &Pubkey::new_unique().to_string(), 1, 1_000_000).unwrap();
    let req = prepare_submission(&order, Some(token()), Transport::JsonRpc, "https://relay.example", "KEY").unwrap();
    assert_eq!(req.url, "https://relay.example?api-key=KEY");
    let env = order_envelope(&order, &token());
    let wire = sign_envelope(&env, &order.identity).unwrap();
    let text = match req.body {
        RelayBody::Json(s) => s,
        RelayBody::Binary(_) => panic!("expected a JSON body"),
    };
    let v: serde_json::Value = serde_json::from_str(&text).unwrap();
    assert_eq!(v["jsonrpc"], "2.0");
    assert_eq!(v["id"], 1);
    assert_eq!(v["method"], "sendTransaction");
    assert_eq!(v["params"][1]["encoding"], "base64");
    assert_eq!(v["params"][1]["skipPreflight"], true);
    let b64 = v["params"][0].as_str().unwrap();
    assert_eq!(base64::engine::general_purpose::STANDARD.decode(b64).unwrap(), wire);
}

#[test]
fn json_rpc_body_has_the_exact_layout() {
    assert_eq!(
        json_rpc_request("QUJD"),
        "{\"jsonrpc\":\"2.0\",\"id\":1,\"method\":\"sendTransaction\",\"params\":[\"QUJD\",{\"encoding\":\"base64\",\"skipPreflight\":true}]}"
    );
    match relay_body(Transport::JsonRpc, b"ABC".to_vec()) {
        RelayBody::Json(s) => assert!(s.contains("\"QUJD\"")),
        RelayBody::Binary(_) => panic!("expected a JSON body"),
    }
}

#[test]
fn relay_urls_follow_the_transport() {
    assert_eq!(relay_url(Transport::RawBinary, "https://r.example", "abc"), "https://r.example/txb?api-key=abc");
    assert_eq!(relay_url(Transport::JsonRpc, "https://r.example", "abc"), "https://r.example?api-key=abc");
}

#[test]
fn raw_replies_are_read_by_status_and_body() {
    assert_eq!(interpret_raw_reply(200, "ok".to_string()), Ok(RelayResult::Accepted("ok".to_string())));
    assert_eq!(interpret_raw_reply(299, "x".to_string()), Ok(RelayResult::Accepted("x".to_string())));
    assert_eq!(interpret_raw_reply(200, String::new()), Err(SubmitError::RelaySubmissionFailed));
    assert_eq!(interpret_raw_reply(500, "boom".to_string()), Err(SubmitError::RelaySubmissionFailed));
    assert_eq!(interpret_raw_reply(199, "x".to_string()), Err(SubmitError::RelaySubmissionFailed));
    assert_eq!(interpret_raw_reply(300, "x".to_string()), Err(SubmitError::RelaySubmissionFailed));
}

#[test]
fn scenario_json_rpc_result_is_accepted() {
    let reply = RelayReply::Answered { status: 200, body: "{\"result\":\"5xyz\"}".to_string() };
    assert_eq!(interpret_reply(Transport::JsonRpc, reply), Ok(RelayResult::Accepted("5xyz".to_string())));
}

#[test]
fn scenario_json_rpc_error_is_rejected() {
    let body = "{\"error\":{\"code\":-32000,\"message\":\"insufficient tip\"}}".to_string();
    let reply = RelayReply::Answered { status: 200, body };
    assert_eq!(interpret_reply(Transport::JsonRpc, reply), Ok(RelayResult::Rejected("insufficient tip".to_string())));
}

#[test]
fn scenario_relay_timeout_fails_submission() {
    assert_eq!(interpret_reply(Transport::RawBinary, RelayReply::TransportFailed), Err(SubmitError::RelaySubmissionFailed));
    assert_eq!(interpret_reply(Transport::JsonRpc, RelayReply::TransportFailed), Err(SubmitError::RelaySubmissionFailed));
}

#[test]
fn unusable_json_replies_fail() {
    for body in ["", "not json", "{}", "{\"id\":1}"] {
        let reply = RelayReply::Answered { status: 200, body: body.to_string() };
        assert_eq!(interpret_reply(Transport::JsonRpc, reply), Err(SubmitError::RelaySubmissionFailed), "{}", body);
    }
}

fn json_answer(body: &str) -> Result<RelayResult, SubmitError> {
    interpret_reply(Transport::JsonRpc, RelayReply::Answered { status: 200, body: body.to_string() })
}

#[test]
fn json_replies_read_result_and_error() {
    assert_eq!(json_answer("{\"result\":\"abc\"}"), Ok(RelayResult::Accepted("abc".to_string())));
    assert_eq!(json_answer("{\"result\":42}"), Ok(RelayResult::Accepted("42".to_string())));
    assert_eq!(json_answer("{\"error\":\"stale\"}"), Ok(RelayResult::Rejected("stale".to_string())));
    assert_eq!(json_answer("{\"error\":{\"code\":1}}"), Ok(RelayResult::Rejected("{\"code\":1}".to_string())));
    assert_eq!(json_answer("{\"result\":\"a\",\"error\":\"b\"}"), Ok(RelayResult::Accepted("a".to_string())));
    assert_eq!(json_answer("[1,2"), Err(SubmitError::RelaySubmissionFailed));
    let rejected = RelayReply::Answered { status: 500, body: "{\"error\":{\"message\":\"busy\"}}".to_string() };
    assert_eq!(interpret_reply(Transport::JsonRpc, rejected), Ok(RelayResult::Rejected("busy".to_string())));
}

#[test]
fn base64_framing_pads_short_groups() {
    for (bytes, text) in [(&b"A"[..], "\"QQ==\""), (&b"AB"[..], "\"QUI=\""), (&b""[..], "[\"\",")] {
        match relay_body(Transport::JsonRpc, bytes.to_vec()) {
            RelayBody::Json(s) => assert!(s.contains(text), "{}", s),
            RelayBody::Binary(_) => panic!("expected a JSON body"),
        }
    }
    match relay_body(Transport::RawBinary, b"AB".to_vec()) {
        RelayBody::Binary(b) => assert_eq!(b, b"AB".to_vec()),
        RelayBody::Json(_) => panic!("expected a binary body"),
    }
}

#[test]
fn json_classification_prefers_result() {
    assert_eq!(classify_json_reply(Some("a".to_string()), Some("b".to_string())), Ok(RelayResult::Accepted("a".to_string())));
    assert_eq!(classify_json_reply(None, Some("b".to_string())), Ok(RelayResult::Rejected("b".to_string())));
    assert_eq!(classify_json_reply(None, None), Err(SubmitError::RelaySubmissionFailed));
}

#[test]
fn json_reply_detail_uses_message_or_whole_error() {
    assert_eq!(
        interpret_json_reply("{\"error\":{\"code\":-32000,\"message\":\"insufficient tip\"}}"),
        Ok(RelayResult::Rejected("insufficient tip".to_string()))
    );
    assert_eq!(interpret_json_reply("{\"error\":{\"message\":7}}"), Ok(RelayResult::Rejected("7".to_string())));
    assert_eq!(interpret_json_reply("{\"result\":\"a\\\"b\"}"), Ok(RelayResult::Accepted("a\"b".to_string())));
    assert_eq!(interpret_json_reply("{\"result\":null}"), Ok(RelayResult::Accepted("null".to_string())));
    assert_eq!(interpret_json_reply("\"result\""), Err(SubmitError::RelaySubmissionFailed));
    assert_eq!(interpret_json_reply("{"), Err(SubmitError::RelaySubmissionFailed));
}

#[test]
fn signing_bounds_the_number_of_transfers() {
    let id = decode_signing_identity(&Keypair::new().to_base58_string()).unwrap();
    let transfers: Vec<Transfer> = (0..255)
        .map(|_| Transfer { from: id.public, to: Address { bytes: Pubkey::new_unique().to_bytes() }, lamports: 1 })
        .collect();
    let too_many = Envelope { fee_payer: id.public, transfers: transfers.clone(), token: token() };
    assert_eq!(sign_envelope(&too_many, &id), Err(SubmitError::SigningFailed));
    let most = Envelope { fee_payer: id.public, transfers: transfers[..254].to_vec(), token: token() };
    let wire = sign_envelope(&most, &id).unwrap();
    let tx: Transaction = bincode::deserialize(&wire).unwrap();
    assert_eq!(tx.message.instructions.len(), 254);
    assert_eq!(tx.message.account_keys.len(), 256);
    assert!(tx.verify().is_ok());
}
