use usdrise_receiver::codec::decode_its_payload;
use usdrise_receiver::identity::validate_identity;
use usdrise_receiver::config::{instantiate, query, reconfigure, InstantiateMsg, QueryMsg};
use usdrise_receiver::engine::{execute, execute_receive_message, ExecuteMsg};
use usdrise_receiver::errors::{ContractError, DecodeError};
use usdrise_receiver::replay::{MessageId, SettledSet, SettlementRecord};

fn payload_bytes(recipient: &str, amount: u128, token: &str) -> Vec<u8> {
    let mut v = vec![1u8, recipient.len() as u8];
    v.extend_from_slice(recipient.as_bytes());
    v.extend_from_slice(&[0u8; 16]);
    v.extend_from_slice(&amount.to_be_bytes());
    v.push(token.len() as u8);
    v.extend_from_slice(token.as_bytes());
    v
}

fn gw1_state() -> usdrise_receiver::config::State {
    instantiate(InstantiateMsg {
        axelar_gateway: "gw1".to_string(),
    })
    .unwrap()
}

fn denoms() -> Vec<String> {
    vec!["uusdrise".to_string()]
}

#[test]
fn scenario_settle_replay_unauthorized() {
    let state = gw1_state();
    let allowlist = Vec::new();
    let denoms = denoms();
    let mut settled = SettledSet::new();
    let payload = payload_bytes("neutron1abc", 1_000_000, "uusdrise");

    let out = execute_receive_message(
        &state,
        &allowlist,
        &denoms,
        &mut settled,
        &"gw1".to_string(),
        "sui".to_string(),
        "0xorigin".to_string(),
        payload.clone(),
        7,
    )
    .unwrap();
    assert_eq!(out.transfer.to_address, "neutron1abc");
    assert_eq!(out.transfer.denom, "uusdrise");
    assert_eq!(out.transfer.amount, 1_000_000);
    assert_eq!(out.receipt.recipient, "neutron1abc");
    assert_eq!(out.receipt.amount, 1_000_000);
    assert_eq!(out.receipt.token, "uusdrise");
    assert_eq!(out.receipt.source_chain, "sui");
    assert_eq!(out.receipt.source_address, "0xorigin");
    assert_eq!(settled.len(), 1);
    let id = MessageId {
        source_chain: "sui".to_string(),
        source_address: "0xorigin".to_string(),
        payload: payload.clone(),
    };
    assert!(settled.contains(&id));

    let replay = execute_receive_message(
        &state,
        &allowlist,
        &denoms,
        &mut settled,
        &"gw1".to_string(),
        "sui".to_string(),
        "0xorigin".to_string(),
        payload.clone(),
        8,
    );
    assert_eq!(replay.unwrap_err(), ContractError::AlreadySettled);
    assert_eq!(settled.len(), 1);

    let other = execute_receive_message(
        &state,
        &allowlist,
        &denoms,
        &mut settled,
        &"gw2".to_string(),
        "sui".to_string(),
        "0xorigin".to_string(),
        payload,
        9,
    );
    assert_eq!(other.unwrap_err(), ContractError::Unauthorized);
    assert_eq!(settled.len(), 1);
}

#[test]
fn scenario_empty_payload() {
    let state = gw1_state();
    let allowlist = Vec::new();
    let denoms = denoms();
    let mut settled = SettledSet::new();

    let r = execute_receive_message(
        &state,
        &allowlist,
        &denoms,
        &mut settled,
        &"gw1".to_string(),
        "sui".to_string(),
        "0xorigin".to_string(),
        Vec::new(),
        1,
    );
    assert_eq!(r.unwrap_err(), ContractError::Decode(DecodeError::TooShort));
    assert_eq!(settled.len(), 0);
    let cfg = query(&state, &QueryMsg::GetConfig {});
    assert_eq!(cfg.axelar_gateway, "gw1");
}

#[test]
fn unauthorized_caller_changes_nothing() {
    let state = gw1_state();
    let mut settled = SettledSet::new();
    let r = execute_receive_message(
        &state,
        &Vec::new(),
        &denoms(),
        &mut settled,
        &"someoneelse1".to_string(),
        "sui".to_string(),
        "0xorigin".to_string(),
        payload_bytes("neutron1abc", 5, "uusdrise"),
        1,
    );
    assert_eq!(r.unwrap_err(), ContractError::Unauthorized);
    assert_eq!(settled.len(), 0);
}

#[test]
fn allowlist_blocks_unlisted_source() {
    let state = gw1_state();
    let allowlist = vec![usdrise_receiver::auth::RemoteSender {
        source_chain: "sui".to_string(),
        source_address: "0xtrusted".to_string(),
    }];
    let mut settled = SettledSet::new();
    let payload = payload_bytes("neutron1abc", 5, "uusdrise");

    let r = execute_receive_message(
        &state,
        &allowlist,
        &denoms(),
        &mut settled,
        &"gw1".to_string(),
        "sui".to_string(),
        "0xother".to_string(),
        payload.clone(),
        1,
    );
    assert_eq!(r.unwrap_err(), ContractError::UntrustedSource);
    assert_eq!(settled.len(), 0);

    let ok = execute_receive_message(
        &state,
        &allowlist,
        &denoms(),
        &mut settled,
        &"gw1".to_string(),
        "sui".to_string(),
        "0xtrusted".to_string(),
        payload,
        1,
    );
    assert!(ok.is_ok());
    assert_eq!(settled.len(), 1);
}

#[test]
fn execute_dispatches_receive_message() {
    let state = gw1_state();
    let mut settled = SettledSet::new();
    let r = execute(
        &state,
        &Vec::new(),
        &denoms(),
        &mut settled,
        &"gw1".to_string(),
        42,
        ExecuteMsg::ReceiveMessage {
            source_chain: "sui".to_string(),
            source_address: "0xorigin".to_string(),
            payload: payload_bytes("neutron1xyz", 250, "uusdrise"),
        },
    )
    .unwrap();
    assert_eq!(r.transfer.to_address, "neutron1xyz");
    assert_eq!(r.transfer.amount, 250);
    assert_eq!(settled.len(), 1);
}

#[test]
fn amount_and_recipient_fidelity() {
    let state = gw1_state();
    let mut settled = SettledSet::new();
    let amount = 340_282_366_920_938_463_463_374_607_431_768_211_455u128;
    let r = execute_receive_message(
        &state,
        &Vec::new(),
        &denoms(),
        &mut settled,
        &"gw1".to_string(),
        "axelar".to_string(),
        "0xsender".to_string(),
        payload_bytes("neutron1longaddr42", amount, "uusdrise"),
        3,
    )
    .unwrap();
    assert_eq!(r.transfer.amount, amount);
    assert_eq!(r.transfer.to_address, "neutron1longaddr42");
    assert_eq!(r.transfer.denom, "uusdrise");
}

#[test]
fn decode_rejects_short_buffers() {
    let denoms = denoms();
    assert_eq!(
        decode_its_payload(&Vec::new(), &denoms).unwrap_err(),
        DecodeError::TooShort
    );
    assert_eq!(
        decode_its_payload(&vec![1u8], &denoms).unwrap_err(),
        DecodeError::TooShort
    );
    let mut truncated = payload_bytes("neutron1abc", 5, "uusdrise");
    truncated.truncate(20);
    assert_eq!(
        decode_its_payload(&truncated, &denoms).unwrap_err(),
        DecodeError::TooShort
    );
}

#[test]
fn decode_rejects_unknown_tag() {
    let mut p = payload_bytes("neutron1abc", 5, "uusdrise");
    p[0] = 2;
    assert_eq!(
        decode_its_payload(&p, &denoms()).unwrap_err(),
        DecodeError::UnknownTag
    );
}

#[test]
fn decode_rejects_bad_recipient() {
    let p = payload_bytes("NEUTRON1ABC", 5, "uusdrise");
    assert_eq!(
        decode_its_payload(&p, &denoms()).unwrap_err(),
        DecodeError::BadRecipient
    );
    let q = payload_bytes("ab", 5, "uusdrise");
    assert_eq!(
        decode_its_payload(&q, &denoms()).unwrap_err(),
        DecodeError::BadRecipient
    );
    let r = payload_bytes("1abc", 5, "uusdrise");
    assert_eq!(
        decode_its_payload(&r, &denoms()).unwrap_err(),
        DecodeError::BadRecipient
    );
}

#[test]
fn decode_rejects_oversize_amount() {
    let mut p = payload_bytes("neutron1abc", 5, "uusdrise");
    p[13] = 1;
    assert_eq!(
        decode_its_payload(&p, &denoms()).unwrap_err(),
        DecodeError::AmountOverflow
    );
}

#[test]
fn decode_rejects_zero_amount() {
    let p = payload_bytes("neutron1abc", 0, "uusdrise");
    assert_eq!(
        decode_its_payload(&p, &denoms()).unwrap_err(),
        DecodeError::ZeroAmount
    );
}

#[test]
fn decode_rejects_trailing_bytes() {
    let mut p = payload_bytes("neutron1abc", 5, "uusdrise");
    p.push(0);
    assert_eq!(
        decode_its_payload(&p, &denoms()).unwrap_err(),
        DecodeError::TrailingBytes
    );
}

#[test]
fn decode_rejects_unknown_token() {
    let p = payload_bytes("neutron1abc", 5, "uatom");
    assert_eq!(
        decode_its_payload(&p, &denoms()).unwrap_err(),
        DecodeError::UnknownToken
    );
    let mut q = payload_bytes("neutron1abc", 5, "uusdrise");
    let tok_start = q.len() - 8;
    q[tok_start] = 200;
    assert_eq!(
        decode_its_payload(&q, &denoms()).unwrap_err(),
        DecodeError::UnknownToken
    );
}

#[test]
fn decode_accepts_well_formed_payload() {
    let p = payload_bytes("neutron1abc", 123_456_789, "uusdrise");
    let ti = decode_its_payload(&p, &denoms()).unwrap();
    assert_eq!(ti.recipient, "neutron1abc");
    assert_eq!(ti.amount, 123_456_789);
    assert_eq!(ti.token, "uusdrise");
}

#[test]
fn instantiate_validates_gateway() {
    let bad = instantiate(InstantiateMsg {
        axelar_gateway: "GW!".to_string(),
    });
    assert_eq!(bad.unwrap_err(), ContractError::ConfigError);
    let empty = instantiate(InstantiateMsg {
        axelar_gateway: String::new(),
    });
    assert_eq!(empty.unwrap_err(), ContractError::ConfigError);
    let good = instantiate(InstantiateMsg {
        axelar_gateway: "gw1".to_string(),
    })
    .unwrap();
    assert_eq!(good.axelar_gateway, "gw1");
}

#[test]
fn reconfigure_guarded_by_admin() {
    let mut state = gw1_state();
    let admin = "admin1".to_string();

    let denied = reconfigure(
        &mut state,
        &admin,
        &"intruder1".to_string(),
        &"gw9".to_string(),
    );
    assert_eq!(denied.unwrap_err(), ContractError::Unauthorized);
    assert_eq!(state.axelar_gateway, "gw1");

    let malformed = reconfigure(&mut state, &admin, &admin, &"G!".to_string());
    assert_eq!(malformed.unwrap_err(), ContractError::ConfigError);
    assert_eq!(state.axelar_gateway, "gw1");

    reconfigure(&mut state, &admin, &admin, &"gw9".to_string()).unwrap();
    assert_eq!(state.axelar_gateway, "gw9");
    let cfg = query(&state, &QueryMsg::GetConfig {});
    assert_eq!(cfg.axelar_gateway, "gw9");
}

#[test]
fn replay_guard_rejects_second_insert() {
    let mut settled = SettledSet::new();
    let id = MessageId {
        source_chain: "sui".to_string(),
        source_address: "0xorigin".to_string(),
        payload: vec![1, 2, 3],
    };
    let record = SettlementRecord {
        recipient: "neutron1abc".to_string(),
        amount: 5,
        token: "uusdrise".to_string(),
        marker: 1,
    };
    let id2 = MessageId {
        source_chain: "sui".to_string(),
        source_address: "0xorigin".to_string(),
        payload: vec![1, 2, 3],
    };
    let record2 = SettlementRecord {
        recipient: "neutron1abc".to_string(),
        amount: 5,
        token: "uusdrise".to_string(),
        marker: 2,
    };
    assert!(settled.mark_settled(id, record).is_ok());
    assert_eq!(
        settled.mark_settled(id2, record2).unwrap_err(),
        ContractError::AlreadySettled
    );
    assert_eq!(settled.len(), 1);
}

#[test]
fn identity_validation_rules() {
    assert!(validate_identity("gw1"));
    assert!(validate_identity("neutron1abc"));
    assert!(!validate_identity("Gw1"));
    assert!(!validate_identity("ab"));
    assert!(!validate_identity("1abc"));
    assert!(!validate_identity(""));
    let mut long = String::new();
    for _ in 0..91 {
        long.push('a');
    }
    assert!(!validate_identity(&long));
}
