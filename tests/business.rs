use contract_kit::address::Address;
use contract_kit::authorization::{AccessControlList, Permission};
use contract_kit::credit_score::{CreditScoreContract, ScoreData, DEFAULT_SCORE};
use contract_kit::credit_score_nft::{CreditScoreNFTContract, NftError};
use contract_kit::error::{AuthorizationError, ContractError, StateError, ValidationError};
use contract_kit::fraud_detect::{FraudDetectContract, FraudEvent};
use contract_kit::marketplace::{royalty_amount, ListingType, MarketError, MarketplaceContract};
use contract_kit::rate_limit::TrustTier;
use contract_kit::state_machine::State;
use contract_kit::token::{TokenError, Tokens};

fn addr(id: u64) -> Address {
    Address::from_id(id)
}

#[test]
fn test_list_and_buy_happy_path() {
    let contract_id = addr(1000);
    let mut market = MarketplaceContract::new(contract_id);
    let mut tokens = Tokens::new();
    let seller = addr(1);
    let buyer = addr(2);
    let creator = addr(3);
    let agent_token_id = addr(50);
    let usdc_token_id = addr(51);
    tokens.deploy(agent_token_id);
    tokens.deploy(usdc_token_id);
    tokens.mint(agent_token_id, seller, 1).unwrap();
    tokens.mint(usdc_token_id, buyer, 1000).unwrap();

    let agent_id = 101u64;
    let price = 500i128;
    let royalty_bps = 1000u32;
    market
        .list_agent(&mut tokens, seller, agent_id, agent_token_id, price, usdc_token_id, ListingType::Sale, royalty_bps, creator)
        .unwrap();
    assert_eq!(tokens.balance(agent_token_id, seller), 0);
    assert_eq!(tokens.balance(agent_token_id, contract_id), 1);

    market.buy_agent(&mut tokens, buyer, agent_id).unwrap();
    assert_eq!(tokens.balance(usdc_token_id, buyer), 500);
    assert_eq!(tokens.balance(usdc_token_id, seller), 450);
    assert_eq!(tokens.balance(usdc_token_id, creator), 50);
    assert_eq!(tokens.balance(agent_token_id, buyer), 1);
    assert_eq!(tokens.balance(agent_token_id, contract_id), 0);
    assert_eq!(market.get_listing(agent_id), None);
}

#[test]
fn royalty_split_arithmetic() {
    assert_eq!(royalty_amount(500, 1000), Some(50));
    assert_eq!(royalty_amount(999, 250), Some(24));
    assert_eq!(royalty_amount(0, 10000), Some(0));
    assert_eq!(royalty_amount(12345, 10000), Some(12345));
    assert_eq!(royalty_amount(i128::MAX, 10000), Some(i128::MAX));
    assert_eq!(royalty_amount(100, 20000), Some(200));
    assert_eq!(royalty_amount(-999, 250), Some(-24));
    assert_eq!(royalty_amount(i128::MIN, 10000), Some(i128::MIN));
    assert_eq!(royalty_amount(i128::MAX, 20000), None);
    assert_eq!(royalty_amount(i128::MIN, u32::MAX), None);
}

#[test]
fn purchase_is_all_or_nothing() {
    let contract_id = addr(1000);
    let mut market = MarketplaceContract::new(contract_id);
    let mut tokens = Tokens::new();
    tokens.deploy(addr(50));
    tokens.deploy(addr(51));
    tokens.mint(addr(50), addr(1), 1).unwrap();
    tokens.mint(addr(51), addr(2), 480).unwrap();
    market
        .list_agent(&mut tokens, addr(1), 7, addr(50), 500, addr(51), ListingType::Sale, 1000, addr(3))
        .unwrap();
    assert_eq!(market.buy_agent(&mut tokens, addr(2), 7), Err(MarketError::TransferFailed));
    assert_eq!(tokens.balance(addr(51), addr(2)), 480);
    assert_eq!(tokens.balance(addr(51), addr(1)), 0);
    assert_eq!(tokens.balance(addr(50), contract_id), 1);
    assert!(market.get_listing(7).is_some());
    assert_eq!(market.buy_agent(&mut tokens, addr(2), 8), Err(MarketError::ListingNotFound));
}

#[test]
fn listing_rules() {
    let mut market = MarketplaceContract::new(addr(1000));
    let mut tokens = Tokens::new();
    tokens.deploy(addr(50));
    tokens.mint(addr(50), addr(1), 2).unwrap();
    let list = |m: &mut MarketplaceContract, t: &mut Tokens, id: u64, price: i128, bps: u32| {
        m.list_agent(t, addr(1), id, addr(50), price, addr(51), ListingType::Auction, bps, addr(3))
    };
    assert_eq!(list(&mut market, &mut tokens, 7, -1, 0), Ok(()));
    assert_eq!(list(&mut market, &mut tokens, 7, 10, 100), Err(MarketError::AlreadyListed));
    assert_eq!(list(&mut market, &mut tokens, 8, 10, 10001), Ok(()));
    assert_eq!(tokens.balance(addr(50), addr(1000)), 2);
    assert_eq!(list(&mut market, &mut tokens, 9, 1, 0), Err(MarketError::TransferFailed));
    assert_eq!(market.get_listing(7).unwrap().price, -1);
}

#[test]
fn royalty_above_price_is_paid_and_seller_share_skipped() {
    let contract_id = addr(1000);
    let mut market = MarketplaceContract::new(contract_id);
    let mut tokens = Tokens::new();
    tokens.deploy(addr(50));
    tokens.deploy(addr(51));
    tokens.mint(addr(50), addr(1), 1).unwrap();
    tokens.mint(addr(51), addr(2), 300).unwrap();
    market
        .list_agent(&mut tokens, addr(1), 7, addr(50), 100, addr(51), ListingType::Sale, 20000, addr(3))
        .unwrap();
    market.buy_agent(&mut tokens, addr(2), 7).unwrap();
    assert_eq!(tokens.balance(addr(51), addr(3)), 200);
    assert_eq!(tokens.balance(addr(51), addr(1)), 0);
    assert_eq!(tokens.balance(addr(51), addr(2)), 100);
    assert_eq!(tokens.balance(addr(50), addr(2)), 1);
}

#[test]
fn overflowing_royalty_fails_the_sale() {
    let contract_id = addr(1000);
    let mut market = MarketplaceContract::new(contract_id);
    let mut tokens = Tokens::new();
    tokens.deploy(addr(50));
    tokens.deploy(addr(51));
    tokens.mint(addr(50), addr(1), 1).unwrap();
    market
        .list_agent(&mut tokens, addr(1), 7, addr(50), i128::MAX, addr(51), ListingType::Sale, 20000, addr(3))
        .unwrap();
    assert_eq!(market.buy_agent(&mut tokens, addr(2), 7), Err(MarketError::TransferFailed));
    assert_eq!(tokens.balance(addr(50), contract_id), 1);
}

#[test]
fn token_transfers() {
    let mut tokens = Tokens::new();
    assert_eq!(tokens.mint(addr(9), addr(1), 5), Err(TokenError::TokenNotFound));
    tokens.deploy(addr(9));
    tokens.mint(addr(9), addr(1), 5).unwrap();
    assert!(tokens.transfer(addr(9), addr(1), addr(2), 6).is_err());
    assert!(tokens.transfer(addr(9), addr(1), addr(2), -1).is_err());
    tokens.transfer(addr(9), addr(1), addr(2), 3).unwrap();
    assert_eq!(tokens.balance(addr(9), addr(1)), 2);
    assert_eq!(tokens.balance(addr(9), addr(2)), 3);
}

#[test]
fn test_initialize() {
    let mut nft = CreditScoreNFTContract::new();
    nft.initialize(addr(1)).unwrap();
    assert_eq!(nft.get_admin(), Some(addr(1)));
    assert_eq!(nft.total_supply(), 0);
    assert_eq!(nft.initialize(addr(2)), Err(NftError::AlreadyInitialized));
}

#[test]
fn test_add_minter() {
    let mut nft = CreditScoreNFTContract::new();
    nft.initialize(addr(1)).unwrap();
    nft.add_minter(addr(1), addr(2)).unwrap();
    assert!(nft.is_minter(addr(2)));
    assert_eq!(nft.add_minter(addr(5), addr(6)), Err(NftError::Unauthorized));
}

#[test]
fn test_mint_nft() {
    let mut nft = CreditScoreNFTContract::new();
    nft.initialize(addr(1)).unwrap();
    nft.add_minter(addr(1), addr(2)).unwrap();
    let metadata = "QmXYZ123...".to_string();
    let token_id = nft.mint(addr(2), addr(3), metadata.clone(), 77).unwrap();
    assert_eq!(token_id, 1);
    assert_eq!(nft.get_owner(token_id), Some(addr(3)));
    assert_eq!(nft.get_metadata_cid(token_id), Some(&metadata));
    assert_eq!(nft.total_supply(), 1);
    assert_eq!(nft.get_nft(token_id).unwrap().mint_timestamp, 77);
}

#[test]
fn test_transfer_nft() {
    let mut nft = CreditScoreNFTContract::new();
    nft.initialize(addr(1)).unwrap();
    nft.add_minter(addr(1), addr(2)).unwrap();
    let owner = addr(3);
    let recipient = addr(4);
    let token_id = nft.mint(addr(2), owner, "QmXYZ123...".to_string(), 0).unwrap();
    nft.transfer(owner, recipient, token_id).unwrap();
    assert_eq!(nft.get_owner(token_id), Some(recipient));
    assert_eq!(nft.get_tokens_by_owner(owner).len(), 0);
    let recipient_tokens = nft.get_tokens_by_owner(recipient);
    assert_eq!(recipient_tokens.len(), 1);
    assert_eq!(recipient_tokens[0], token_id);
    assert_eq!(nft.transfer(owner, recipient, token_id), Err(NftError::NotOwner));
    assert_eq!(nft.transfer(owner, recipient, 99), Err(NftError::NotFound));
}

#[test]
fn test_mint_unauthorized() {
    let mut nft = CreditScoreNFTContract::new();
    nft.initialize(addr(1)).unwrap();
    let r = nft.mint(addr(5), addr(3), "QmXYZ123...".to_string(), 0);
    assert_eq!(r, Err(NftError::Unauthorized));
    assert_eq!(nft.total_supply(), 0);
}

#[test]
fn test_admin_can_mint() {
    let mut nft = CreditScoreNFTContract::new();
    nft.initialize(addr(1)).unwrap();
    let token_id = nft.mint(addr(1), addr(3), "QmABC456...".to_string(), 0).unwrap();
    assert_eq!(token_id, 1);
    assert_eq!(nft.get_owner(token_id), Some(addr(3)));
}

#[test]
fn test_remove_minter() {
    let mut nft = CreditScoreNFTContract::new();
    nft.initialize(addr(1)).unwrap();
    nft.add_minter(addr(1), addr(2)).unwrap();
    assert!(nft.is_minter(addr(2)));
    nft.remove_minter(addr(1), addr(2)).unwrap();
    assert!(!nft.is_minter(addr(2)));
}

#[test]
fn test_multiple_mints() {
    let mut nft = CreditScoreNFTContract::new();
    nft.initialize(addr(1)).unwrap();
    nft.add_minter(addr(1), addr(2)).unwrap();
    let token_id1 = nft.mint(addr(2), addr(3), "QmFirst...".to_string(), 0).unwrap();
    let token_id2 = nft.mint(addr(2), addr(3), "QmSecond...".to_string(), 0).unwrap();
    assert_eq!(token_id1, 1);
    assert_eq!(token_id2, 2);
    assert_eq!(nft.total_supply(), 2);
    assert_eq!(nft.get_tokens_by_owner(addr(3)), vec![1, 2]);
}

fn fraud_setup() -> (FraudDetectContract, AccessControlList) {
    let admin = addr(1);
    let mut acl = AccessControlList::new(addr(900), admin);
    acl.grant(admin, admin, "fraud".to_string(), "manage".to_string());
    acl.grant(admin, addr(2), "fraud".to_string(), "report".to_string());
    let mut c = FraudDetectContract::new();
    c.initialize(admin, addr(900)).unwrap();
    (c, acl)
}

#[test]
fn test_full_lifecycle() {
    let (mut c, acl) = fraud_setup();
    let reporter = addr(2);
    let agent_id = "agent_1".to_string();
    c.add_reporter(addr(1), reporter, &acl).unwrap();
    let score = 85;
    c.submit_report(reporter, agent_id.clone(), score, 10, &acl).unwrap();
    let reports = c.get_reports(&agent_id);
    assert_eq!(reports.len(), 1);
    assert_eq!(reports[0].score, score);
    assert_eq!(reports[0].reporter, reporter);
    assert_eq!(c.get_latest_score(&agent_id), score);
    assert_eq!(c.get_total_reports(), Ok(1));
    match c.events().last().unwrap() {
        FraudEvent::FraudReported { agent_id: topic, reporter: who, score: s, .. } => {
            assert_eq!(topic, "agent_1");
            assert_eq!(*who, reporter);
            assert_eq!(*s, score);
        }
        other => panic!("unexpected last event {:?}", other),
    }
}

#[test]
fn test_unauthorized_reporter() {
    let (mut c, acl) = fraud_setup();
    let r = c.submit_report(addr(7), "agent_1".to_string(), 70, 10, &acl);
    assert_eq!(r, Err(AuthorizationError::NotApprovedReporter));
    assert_eq!(c.get_reports(&"agent_1".to_string()).len(), 0);
}

#[test]
fn test_remove_reporter() {
    let (mut c, acl) = fraud_setup();
    let reporter = addr(2);
    let agent_id = "agent_1".to_string();
    c.add_reporter(addr(1), reporter, &acl).unwrap();
    c.submit_report(reporter, agent_id.clone(), 50, 10, &acl).unwrap();
    c.remove_reporter(addr(1), reporter, &acl).unwrap();
    let r = c.submit_report(reporter, agent_id.clone(), 60, 11, &acl);
    assert_eq!(r, Err(AuthorizationError::NotApprovedReporter));
    assert_eq!(c.get_latest_score(&agent_id), 50);
}

#[test]
fn test_double_initialization() {
    let (mut c, _acl) = fraud_setup();
    assert_eq!(c.initialize(addr(1), addr(900)), Err(StateError::AlreadyInitialized));
}

#[test]
fn fraud_guards_follow_the_lifecycle() {
    let (mut c, acl) = fraud_setup();
    c.add_reporter(addr(1), addr(2), &acl).unwrap();
    assert_eq!(c.add_reporter(addr(5), addr(6), &acl), Err(AuthorizationError::NotAuthorized));
    assert_eq!(c.pause(addr(5)), Err(StateError::InvalidState));
    c.pause(addr(1)).unwrap();
    assert!(matches!(c.get_contract_state(), State::Paused(_)));
    assert_eq!(c.submit_report(addr(2), "a".to_string(), 1, 0, &acl), Err(AuthorizationError::InvalidState));
    assert_eq!(c.get_total_reports(), Ok(0));
    assert_eq!(c.migrate_to_compressed(addr(1)), Err(ContractError::InvalidState));
    c.resume(addr(1)).unwrap();
    assert_eq!(c.resume(addr(1)), Err(StateError::InvalidState));
    assert_eq!(c.migrate_to_compressed(addr(1)), Ok(1));
    assert!(matches!(c.get_contract_state(), State::Active(_)));
    c.submit_report(addr(2), "a".to_string(), 1, 0, &acl).unwrap();
    let mut fresh = FraudDetectContract::new();
    assert_eq!(fresh.submit_report(addr(2), "a".to_string(), 1, 0, &acl), Err(AuthorizationError::NotInitialized));
    assert_eq!(fresh.get_total_reports(), Err(StateError::NotInitialized));
    assert_eq!(fresh.pause(addr(1)), Err(StateError::NotInitialized));
}

#[test]
fn fraud_reports_are_rate_limited() {
    let (mut c, acl) = fraud_setup();
    c.add_reporter(addr(1), addr(2), &acl).unwrap();
    for i in 0..10u64 {
        c.submit_report(addr(2), "a".to_string(), i as u32, 100 + i, &acl).unwrap();
    }
    assert_eq!(c.submit_report(addr(2), "a".to_string(), 1, 200, &acl), Err(AuthorizationError::RateLimitExceeded));
    c.set_user_trust_tier(addr(1), addr(2), TrustTier::Trusted).unwrap();
    assert!(c.submit_report(addr(2), "a".to_string(), 1, 200, &acl).is_ok());
    assert_eq!(c.get_total_reports(), Ok(11));
}

#[test]
fn fraud_role_cache_keeps_decisions_until_expiry() {
    let (mut c, acl) = fraud_setup();
    assert!(!c.has_role(addr(2), &Permission::Reporter, 0));
    c.add_reporter(addr(1), addr(2), &acl).unwrap();
    assert!(!c.has_role(addr(2), &Permission::Reporter, 100));
    assert!(c.has_role(addr(2), &Permission::Reporter, 300));
    assert!(c.has_role(addr(1), &Permission::Admin, 0));
}

#[test]
fn credit_scores() {
    let admin = addr(1);
    let mut c = CreditScoreContract::new();
    assert_eq!(c.calculate_score(&"acct".to_string()), Err(ValidationError::NotInitialized));
    c.initialize(admin).unwrap();
    assert_eq!(c.initialize(admin), Err(StateError::AlreadyInitialized));
    assert_eq!(c.calculate_score(&"".to_string()), Err(ValidationError::MissingRequiredField));
    assert_eq!(c.calculate_score(&"acct".to_string()), Ok(DEFAULT_SCORE));
    assert_eq!(c.get_score(addr(5), 0), Err(AuthorizationError::NotAuthorized));
    assert_eq!(c.set_score(addr(9), addr(5), 700, 10), Err(AuthorizationError::NotAuthorized));
    c.set_score(admin, addr(5), 700, 10).unwrap();
    c.set_score(admin, addr(5), 710, 20).unwrap();
    c.set_score(admin, addr(5), 720, 30).unwrap();
    assert_eq!(c.get_score(addr(5), 40), Ok(720));
    assert_eq!(
        c.get_score_history(addr(5), 2),
        Ok(vec![ScoreData { score: 710, timestamp: 20 }, ScoreData { score: 720, timestamp: 30 }])
    );
    assert_eq!(c.get_score_history(addr(5), 10).unwrap().len(), 3);
    assert_eq!(c.get_total_scores(), Ok(3));
    c.update_factors(admin, addr(5), "on-time".to_string(), 50).unwrap();
    c.pause(admin).unwrap();
    assert_eq!(c.set_score(admin, addr(5), 1, 60), Err(AuthorizationError::InvalidState));
    assert_eq!(c.get_score(addr(5), 60), Ok(720));
    c.resume(admin).unwrap();
    assert_eq!(c.migrate_to_compressed(admin), Ok(0));
}

#[test]
fn credit_score_quotas() {
    let admin = addr(1);
    let mut c = CreditScoreContract::new();
    c.initialize(admin).unwrap();
    for i in 0..30u64 {
        c.set_score(admin, addr(5), 600, i).unwrap();
    }
    assert_eq!(c.set_score(admin, addr(5), 600, 31), Err(AuthorizationError::RateLimitExceeded));
    for i in 0..20u64 {
        c.update_factors(admin, addr(100 + i), "f".to_string(), 7200 + i).unwrap();
    }
    assert_eq!(c.update_factors(admin, addr(6), "f".to_string(), 7300), Err(AuthorizationError::RateLimitExceeded));
    assert!(c.update_factors(admin, addr(6), "f".to_string(), 10800).is_ok());
    for _ in 0..60 {
        c.get_score(addr(5), 50).unwrap();
    }
    assert_eq!(c.get_score(addr(5), 50), Err(AuthorizationError::RateLimitExceeded));
    assert_eq!(c.get_score(addr(5), 50 + 60), Ok(600));
}
