use contract_kit::actions::{ActionType, CommonUtilsContract, Error as ActionError, RATE_LIMIT_MAX};
use contract_kit::address::Address;
use contract_kit::evolution::{Attestation, EvolutionError, EvolutionManager};
use contract_kit::oracle_bridge::{Error, OracleAttestation, OracleBridgeContract};
use contract_kit::risk_eval::{RiskAttestation, RiskEvaluationContract, RiskLevel};
use contract_kit::error::{AuthorizationError, CryptoError};
use ed25519_dalek::{Signer, SigningKey};
use sha2::Digest;

fn addr(id: u64) -> Address {
    Address::from_id(id)
}

fn key(seed: u8) -> SigningKey {
    SigningKey::from_bytes(&[seed; 32])
}

fn oracle_message(public_key: &[u8; 32], nonce: u64, payload: &[u8]) -> Vec<u8> {
    let mut m = public_key.to_vec();
    m.extend_from_slice(&nonce.to_le_bytes());
    m.extend_from_slice(payload);
    m
}

fn signed(k: &SigningKey, oracle: Address, nonce: u64, payload: &[u8]) -> OracleAttestation {
    let pk = k.verifying_key().to_bytes();
    let signature = k.sign(&oracle_message(&pk, nonce, payload)).to_bytes();
    OracleAttestation { oracle, nonce, payload: payload.to_vec(), signature }
}

fn bridge_with_oracle(k: &SigningKey, oracle: Address) -> OracleBridgeContract {
    let mut bridge = OracleBridgeContract::new();
    bridge.initialize(addr(1)).unwrap();
    bridge.add_oracle(addr(1), oracle, k.verifying_key().to_bytes()).unwrap();
    bridge
}

#[test]
fn test_initialize_and_admin() {
    let mut bridge = OracleBridgeContract::new();
    bridge.initialize(addr(1)).unwrap();
    assert_eq!(bridge.admin(), Some(addr(1)));
    assert_eq!(bridge.initialize(addr(2)), Err(Error::AlreadyInitialized));
}

#[test]
fn test_oracle_management() {
    let mut bridge = OracleBridgeContract::new();
    bridge.initialize(addr(1)).unwrap();
    let oracle1 = addr(10);
    let oracle2 = addr(11);
    bridge.add_oracle(addr(1), oracle1, [1u8; 32]).unwrap();
    bridge.add_oracle(addr(1), oracle2, [2u8; 32]).unwrap();
    bridge.add_oracle(addr(1), oracle2, [2u8; 32]).unwrap();
    let approved = bridge.get_approved_oracles();
    assert_eq!(approved.len(), 2);
    assert!(approved.contains(&oracle1));
    assert!(approved.contains(&oracle2));
    bridge.remove_oracle(addr(1), oracle1).unwrap();
    let approved = bridge.get_approved_oracles();
    assert_eq!(approved.len(), 1);
    assert!(!approved.contains(&oracle1));
    assert!(approved.contains(&oracle2));
    assert_eq!(bridge.add_oracle(addr(5), oracle1, [1u8; 32]), Err(Error::Unauthorized));
    assert_eq!(bridge.remove_oracle(addr(5), oracle2), Err(Error::Unauthorized));
}

#[test]
fn test_nonce_tracking() {
    let k = key(7);
    let oracle = addr(10);
    let mut bridge = bridge_with_oracle(&k, oracle);
    assert!(!bridge.is_nonce_used(oracle, 1));
    let att = signed(&k, oracle, 1, b"test payload");
    bridge.post_oracle_data(&att).unwrap();
    assert!(bridge.is_nonce_used(oracle, 1));
    assert!(!bridge.is_nonce_used(oracle, 2));
}

#[test]
fn test_unauthorized_oracle() {
    let mut bridge = OracleBridgeContract::new();
    bridge.initialize(addr(1)).unwrap();
    let att = OracleAttestation {
        oracle: addr(10),
        nonce: 1,
        payload: b"test payload".to_vec(),
        signature: [0u8; 64],
    };
    assert_eq!(bridge.post_oracle_data(&att), Err(Error::UnauthorizedOracle));
}

#[test]
fn test_invalid_payload() {
    let k = key(7);
    let oracle = addr(10);
    let mut bridge = bridge_with_oracle(&k, oracle);
    let att = OracleAttestation { oracle, nonce: 1, payload: b"".to_vec(), signature: [0u8; 64] };
    assert_eq!(bridge.post_oracle_data(&att), Err(Error::InvalidPayload));
    assert!(!bridge.is_nonce_used(oracle, 1));
}

#[test]
fn signed_oracle_data_is_stored_under_its_hash() {
    let k = key(7);
    let oracle = addr(10);
    let mut bridge = bridge_with_oracle(&k, oracle);
    let payload = b"price=42";
    let hash = bridge.post_oracle_data(&signed(&k, oracle, 5, payload)).unwrap();
    let expected: Vec<u8> = sha2::Sha256::digest(payload).to_vec();
    assert_eq!(hash, expected);
    assert_ne!(hash, payload.to_vec());
    assert_eq!(bridge.get_oracle_data(oracle, &expected), Some(&payload.to_vec()));
    assert_eq!(bridge.get_oracle_data(addr(11), &expected), None);
}

#[test]
fn bad_signature_is_rejected_without_effect() {
    let k = key(7);
    let oracle = addr(10);
    let mut bridge = bridge_with_oracle(&k, oracle);
    let mut att = signed(&k, oracle, 5, b"data");
    att.signature[0] ^= 1;
    assert_eq!(bridge.post_oracle_data(&att), Err(Error::InvalidSignature));
    assert!(!bridge.is_nonce_used(oracle, 5));
    let other = key(9);
    let forged = signed(&other, oracle, 5, b"data");
    assert_eq!(bridge.post_oracle_data(&forged), Err(Error::InvalidSignature));
}

#[test]
fn replayed_nonce_is_rejected_whatever_the_payload() {
    let k = key(7);
    let oracle = addr(10);
    let mut bridge = bridge_with_oracle(&k, oracle);
    bridge.post_oracle_data(&signed(&k, oracle, 3, b"first")).unwrap();
    assert_eq!(bridge.post_oracle_data(&signed(&k, oracle, 3, b"first")), Err(Error::NonceAlreadyUsed));
    assert_eq!(bridge.post_oracle_data(&signed(&k, oracle, 3, b"other")), Err(Error::NonceAlreadyUsed));
    assert!(bridge.post_oracle_data(&signed(&k, oracle, 4, b"other")).is_ok());
}

#[test]
fn accept_oracle_data_follows_the_verdict() {
    let oracle = addr(10);
    let mut bridge = OracleBridgeContract::new();
    bridge.initialize(addr(1)).unwrap();
    bridge.add_oracle(addr(1), oracle, [3u8; 32]).unwrap();
    let att = OracleAttestation { oracle, nonce: 1, payload: vec![1, 2], signature: [0u8; 64] };
    assert_eq!(bridge.accept_oracle_data(&att, false, vec![9; 32]), Err(Error::InvalidSignature));
    assert_eq!(bridge.accept_oracle_data(&att, true, vec![9; 32]), Ok(()));
    assert_eq!(bridge.get_oracle_data(oracle, &vec![9; 32]), Some(&vec![1, 2]));
    assert_eq!(bridge.accept_oracle_data(&att, true, vec![9; 32]), Err(Error::NonceAlreadyUsed));
}

#[test]
fn lib_test_initialize() {
    let mut c = CommonUtilsContract::new();
    c.initialize(addr(1));
    assert_eq!(c.admin(), Some(addr(1)));
}

#[test]
fn test_submit_action_valid() {
    let mut c = CommonUtilsContract::new();
    c.initialize(addr(1));
    let agent = addr(5);
    let execution_id = c.submit_action(agent, 1, &vec![], 1000).unwrap();
    assert_eq!(execution_id, 1);
    let execution = c.get_execution(execution_id).unwrap();
    assert_eq!(execution.id, 1);
    assert_eq!(execution.agent, agent);
    assert_eq!(execution.action_type.as_u32(), 1);
    assert_eq!(execution.timestamp, 1000);
}

#[test]
fn test_submit_action_invalid_type() {
    let mut c = CommonUtilsContract::new();
    c.initialize(addr(1));
    assert_eq!(c.submit_action(addr(5), 99, &vec![], 0), Err(ActionError::InvalidActionType));
    assert_eq!(ActionError::InvalidActionType.as_u32(), 1);
}

#[test]
fn test_execution_id_unique() {
    let mut c = CommonUtilsContract::new();
    c.initialize(addr(1));
    let id1 = c.submit_action(addr(5), 1, &vec![], 0).unwrap();
    let id2 = c.submit_action(addr(5), 2, &vec![], 0).unwrap();
    assert_eq!(id1, 1);
    assert_eq!(id2, 2);
}

#[test]
fn test_rate_limit() {
    let mut c = CommonUtilsContract::new();
    c.initialize(addr(1));
    let agent = addr(5);
    for i in 0..RATE_LIMIT_MAX {
        c.submit_action(agent, 1, &vec![], 100 + i as u64).unwrap();
    }
    assert_eq!(c.submit_action(agent, 1, &vec![], 200), Err(ActionError::RateLimitExceeded));
    assert!(c.submit_action(addr(6), 1, &vec![], 200).is_ok());
    assert!(c.submit_action(agent, 1, &vec![], 100 + 3600 + 10).is_ok());
}

#[test]
fn action_type_codes() {
    assert_eq!(ActionType::from_u32(1), Some(ActionType::CreditScore));
    assert_eq!(ActionType::from_u32(2), Some(ActionType::FraudDetect));
    assert_eq!(ActionType::from_u32(3), Some(ActionType::Trade));
    assert_eq!(ActionType::from_u32(0), None);
    assert_eq!(ActionType::from_u32(4), None);
    assert_eq!(ActionType::Trade.as_u32(), 3);
}

fn attestation_bytes(a: &Attestation) -> Vec<u8> {
    let mut m = a.agent.id.to_le_bytes().to_vec();
    m.extend_from_slice(&a.new_level.to_le_bytes());
    m.extend_from_slice(&a.stake_amount.to_le_bytes());
    m.extend_from_slice(&a.attestation_hash);
    m
}

#[test]
fn test_init() {
    let mut m = EvolutionManager::new();
    m.init(addr(1)).unwrap();
    assert_eq!(m.get_admin(), Some(addr(1)));
    assert_eq!(m.init(addr(2)), Err(EvolutionError::AlreadyInitialized));
}

#[test]
fn attestation_applies_once() {
    let k = key(4);
    let mut m = EvolutionManager::new();
    m.init(addr(1)).unwrap();
    let a = Attestation { agent: addr(7), new_level: 3, stake_amount: 250, attestation_hash: [8u8; 32] };
    let sig = k.sign(&attestation_bytes(&a)).to_bytes();
    assert_eq!(m.apply_attestation(a, &sig), Err(EvolutionError::BridgeNotSet));
    assert_eq!(m.set_trusted_bridge(addr(2), k.verifying_key().to_bytes()), Err(EvolutionError::Unauthorized));
    m.set_trusted_bridge(addr(1), k.verifying_key().to_bytes()).unwrap();
    assert_eq!(m.apply_attestation(a, &sig), Ok(250));
    assert_eq!(m.get_stake(addr(7)), 250);
    assert_eq!(m.get_level(addr(7)), Some(3));
    assert!(m.is_attestation_used(&[8u8; 32]));
    assert_eq!(m.apply_attestation(a, &sig), Err(EvolutionError::AttestationAlreadyUsed));
    let b = Attestation { agent: addr(7), new_level: 4, stake_amount: -50, attestation_hash: [9u8; 32] };
    let sig_b = k.sign(&attestation_bytes(&b)).to_bytes();
    assert_eq!(m.apply_attestation(b, &sig), Err(EvolutionError::InvalidSignature));
    assert_eq!(m.apply_attestation(b, &sig_b), Ok(200));
    assert_eq!(m.get_level(addr(7)), Some(4));
    assert_eq!(m.events().len(), 2);
}

#[test]
fn stake_overflow_is_refused() {
    let mut m = EvolutionManager::new();
    m.init(addr(1)).unwrap();
    m.set_trusted_bridge(addr(1), [1u8; 32]).unwrap();
    let a = Attestation { agent: addr(7), new_level: 1, stake_amount: i128::MAX, attestation_hash: [1u8; 32] };
    assert_eq!(m.accept_attestation(a, true), Ok(i128::MAX));
    let b = Attestation { agent: addr(7), new_level: 2, stake_amount: 1, attestation_hash: [2u8; 32] };
    assert_eq!(m.accept_attestation(b, true), Err(EvolutionError::StakeOverflow));
    assert_eq!(m.get_level(addr(7)), Some(1));
}

fn risk_bytes(a: &RiskAttestation, payload: &[u8]) -> Vec<u8> {
    let code: u8 = match a.risk {
        RiskLevel::Low => 0,
        RiskLevel::Medium => 1,
        RiskLevel::High => 2,
        RiskLevel::Critical => 3,
    };
    let mut m = a.agent.id.to_le_bytes().to_vec();
    m.push(code);
    m.extend_from_slice(&a.timestamp.to_le_bytes());
    m.extend_from_slice(payload);
    m
}

#[test]
fn risk_is_recorded_from_signed_attestation() {
    let k = key(5);
    let mut r = RiskEvaluationContract::new();
    let att = RiskAttestation { agent: addr(3), risk: RiskLevel::High, timestamp: 1000 };
    let payload = b"agent 3 is high risk".to_vec();
    let sig = k.sign(&risk_bytes(&att, &payload)).to_bytes();
    assert_eq!(r.submit_risk(att, &sig, &payload, 1000), Err(CryptoError::NotInitialized));
    r.init(k.verifying_key().to_bytes()).unwrap();
    assert_eq!(r.init([0u8; 32]), Err(AuthorizationError::AlreadyInitialized));
    assert_eq!(r.verify_signature_direct(&risk_bytes(&att, &payload), &sig), Ok(true));
    assert_eq!(r.verify_signature_direct(&payload, &sig), Ok(false));
    assert_eq!(r.submit_risk(att, &sig, &b"other".to_vec(), 1000), Err(CryptoError::SignatureVerificationFailed));
    let forged = RiskAttestation { agent: addr(3), risk: RiskLevel::Low, timestamp: 1000 };
    assert_eq!(r.submit_risk(forged, &sig, &payload, 1000), Err(CryptoError::SignatureVerificationFailed));
    assert_eq!(r.get_risk(addr(3)), None);
    assert_eq!(r.submit_risk(att, &sig, &payload, 1000), Ok(()));
    assert_eq!(r.get_risk(addr(3)), Some(RiskLevel::High));
}

#[test]
fn replayed_risk_timestamp_is_rejected() {
    let k = key(5);
    let mut r = RiskEvaluationContract::new();
    r.init(k.verifying_key().to_bytes()).unwrap();
    let att = RiskAttestation { agent: addr(3), risk: RiskLevel::High, timestamp: 1000 };
    let sig = k.sign(&risk_bytes(&att, b"a")).to_bytes();
    assert_eq!(r.submit_risk(att, &sig, &b"a".to_vec(), 1000), Ok(()));
    assert_eq!(r.submit_risk(att, &sig, &b"a".to_vec(), 1000), Err(CryptoError::ReplayedAttestation));
    let other = RiskAttestation { agent: addr(3), risk: RiskLevel::Low, timestamp: 1000 };
    let sig_other = k.sign(&risk_bytes(&other, b"b")).to_bytes();
    assert_eq!(r.submit_risk(other, &sig_other, &b"b".to_vec(), 1000), Err(CryptoError::ReplayedAttestation));
    assert_eq!(r.get_risk(addr(3)), Some(RiskLevel::High));
    let next = RiskAttestation { agent: addr(3), risk: RiskLevel::Low, timestamp: 1001 };
    let sig_next = k.sign(&risk_bytes(&next, b"b")).to_bytes();
    assert_eq!(r.submit_risk(next, &sig_next, &b"b".to_vec(), 1001), Ok(()));
    assert_eq!(r.get_risk(addr(3)), Some(RiskLevel::Low));
}

#[test]
fn risk_dated_beyond_skew_is_refused() {
    let k = key(5);
    let mut r = RiskEvaluationContract::new();
    r.init(k.verifying_key().to_bytes()).unwrap();
    let payload = b"p".to_vec();
    let late = RiskAttestation { agent: addr(3), risk: RiskLevel::Low, timestamp: 1061 };
    let sig_late = k.sign(&risk_bytes(&late, &payload)).to_bytes();
    assert_eq!(r.submit_risk(late, &sig_late, &payload, 1000), Err(CryptoError::InvalidSignature));
    let edge = RiskAttestation { agent: addr(3), risk: RiskLevel::Low, timestamp: 1060 };
    let sig_edge = k.sign(&risk_bytes(&edge, &payload)).to_bytes();
    assert_eq!(r.submit_risk(edge, &sig_edge, &payload, 1000), Ok(()));
    assert_eq!(r.get_risk(addr(3)), Some(RiskLevel::Low));
}
