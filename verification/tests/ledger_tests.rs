use inframint::entitlement::Entitlement;
use inframint::error::BlockchainError;
use inframint::ledger::{
    signature_verdict, signer, ConsumeReply, LedgerReply, SuiBlockchainClient,
};

const RPC_URL: &str = "https://sui-testnet.rpc.com";
const CONTRACT: &str = "0x0000000000000000000000000000000000000123";
const SIGNER: &str = "2c7536E3605D9C16a7a3D7b1898e529396a65c23";
const SIGNATURE: &str = "b91467e570a6466aa9e9876cbcd013baba02900b8979d43fe208a4a4f339f5fd6007e74cd82e037b800186422fc2da167c747ef045e5d18a5f5d4300f8e1a0291c";
const MESSAGE: &str = "Some data";

fn signer_bytes() -> Vec<u8> {
    vec![
        0x2c, 0x75, 0x36, 0xE3, 0x60, 0x5D, 0x9C, 0x16, 0xa7, 0xa3, 0xD7, 0xb1, 0x89, 0x8e, 0x52,
        0x93, 0x96, 0xa6, 0x5c, 0x23,
    ]
}

fn bought_by(buyer: &str) -> Entitlement {
    Entitlement {
        id: "0x00000000000000000000000000000000000000aa".to_string(),
        service_id: "service-1".to_string(),
        buyer: buyer.to_string(),
        tier_id: 1,
        quota_requests: 1000,
        quota_used: 0,
        purchased_at: 1,
        expires_at: 2,
        active: true,
    }
}

#[test]
fn signer_is_recovered_from_a_signed_message() {
    assert_eq!(signer(SIGNATURE, MESSAGE), Ok(signer_bytes()));
    let prefixed = format!("0x{}", SIGNATURE);
    assert_eq!(signer(&prefixed, MESSAGE), Ok(signer_bytes()));
}

#[test]
fn signer_of_another_message_is_another_address() {
    let other = signer(SIGNATURE, "Other data").expect("a sound signature recovers some signer");
    assert_eq!(other.len(), 20);
    assert_ne!(other, signer_bytes());
}

#[test]
fn signer_refuses_what_is_no_signature() {
    assert!(signer("test-signature", "test-message").is_err());
    assert!(signer("", MESSAGE).is_err());
    assert!(signer("abcd", MESSAGE).is_err());
    let words = signer("abcd", MESSAGE).unwrap_err();
    assert_eq!(words, "invalid signature length, got 2, expected 65");
}

#[test]
fn signature_of_the_buyer_is_valid() {
    let verdict =
        SuiBlockchainClient::validate_entitlement_signature(&bought_by(SIGNER), SIGNATURE, MESSAGE);
    assert!(matches!(verdict, Ok(true)));
    let prefixed = format!("0x{}", SIGNER);
    let verdict = SuiBlockchainClient::validate_entitlement_signature(
        &bought_by(&prefixed),
        SIGNATURE,
        MESSAGE,
    );
    assert!(matches!(verdict, Ok(true)));
}

#[test]
fn signature_of_another_signer_is_invalid_and_no_fault() {
    let verdict = SuiBlockchainClient::validate_entitlement_signature(
        &bought_by("0x00000000000000000000000000000000000000bb"),
        SIGNATURE,
        MESSAGE,
    );
    assert!(matches!(verdict, Ok(false)));
    let verdict = SuiBlockchainClient::validate_entitlement_signature(
        &bought_by(SIGNER),
        SIGNATURE,
        "Other data",
    );
    assert!(matches!(verdict, Ok(false)));
}

#[test]
fn signature_that_cannot_be_read_is_a_failed_call() {
    let verdict = SuiBlockchainClient::validate_entitlement_signature(
        &bought_by(SIGNER),
        "test-signature",
        "test-message",
    );
    assert!(matches!(verdict, Err(BlockchainError::ContractCallError(_))));
}

#[test]
fn buyer_that_is_no_address_is_a_malformed_record() {
    let verdict = SuiBlockchainClient::validate_entitlement_signature(
        &bought_by("not-an-address"),
        SIGNATURE,
        MESSAGE,
    );
    assert!(matches!(verdict, Err(BlockchainError::InvalidResponseFormat)));
    // the record is judged before the signature
    let verdict = SuiBlockchainClient::validate_entitlement_signature(
        &bought_by("not-an-address"),
        "test-signature",
        MESSAGE,
    );
    assert!(matches!(verdict, Err(BlockchainError::InvalidResponseFormat)));
}

#[test]
fn signature_verdict_compares_signer_and_owner() {
    let owner = vec![1u8; 20];
    assert!(matches!(signature_verdict(Ok(owner.clone()), Ok(owner.clone())), Ok(true)));
    assert!(matches!(signature_verdict(Ok(owner.clone()), Ok(vec![2u8; 20])), Ok(false)));
    assert!(matches!(signature_verdict(Ok(owner.clone()), Ok(vec![1u8; 19])), Ok(false)));
    assert!(matches!(
        signature_verdict(Err("bad owner".to_string()), Ok(owner.clone())),
        Err(BlockchainError::InvalidResponseFormat)
    ));
    assert!(matches!(
        signature_verdict(Err("bad owner".to_string()), Err("bad signature".to_string())),
        Err(BlockchainError::InvalidResponseFormat)
    ));
    assert!(matches!(
        signature_verdict(Ok(owner), Err("bad signature".to_string())),
        Err(BlockchainError::ContractCallError(words)) if words == "bad signature"
    ));
}

#[test]
fn client_is_built_for_an_endpoint_and_a_contract() {
    let client = SuiBlockchainClient::new(RPC_URL, CONTRACT).expect("a client");
    let mut expected = vec![0u8; 20];
    expected[18] = 0x01;
    expected[19] = 0x23;
    assert_eq!(client.contract_address(), &expected);
    let _provider = client.provider();
}

#[test]
fn client_hands_out_the_provider_of_its_own_endpoint() {
    let client = SuiBlockchainClient::new(RPC_URL, CONTRACT).expect("a client");
    assert_eq!(client.provider().url().as_str(), "https://sui-testnet.rpc.com/");
    let other = SuiBlockchainClient::new("http://localhost:9000/rpc", CONTRACT).expect("a client");
    assert_eq!(other.provider().url().as_str(), "http://localhost:9000/rpc");
    assert_eq!(client.provider().url().as_str(), "https://sui-testnet.rpc.com/");
}

#[test]
fn client_refuses_an_endpoint_that_is_no_url() {
    let client = SuiBlockchainClient::new("not a url", CONTRACT);
    assert!(matches!(client, Err(BlockchainError::ProviderError(_))));
}

#[test]
fn client_refuses_a_contract_that_is_no_address() {
    let client = SuiBlockchainClient::new(RPC_URL, "0x123");
    assert!(matches!(client, Err(BlockchainError::ProviderError(_))));
    let client = SuiBlockchainClient::new(RPC_URL, "");
    assert!(matches!(client, Err(BlockchainError::ProviderError(_))));
}

#[test]
fn client_resolves_identifiers_that_are_addresses() {
    let client = SuiBlockchainClient::new(RPC_URL, CONTRACT).expect("a client");
    let slot = client
        .get_entitlement("0x00000000000000000000000000000000000000aa")
        .expect("an address");
    let mut expected = vec![0u8; 20];
    expected[19] = 0xaa;
    assert_eq!(slot, expected);
    assert!(matches!(
        client.get_entitlement("test-entitlement-1"),
        Err(BlockchainError::EntitlementNotFound)
    ));
    assert!(matches!(
        client.get_entitlement("invalid-entitlement"),
        Err(BlockchainError::EntitlementNotFound)
    ));
    assert!(matches!(client.get_entitlement(""), Err(BlockchainError::EntitlementNotFound)));
}

#[test]
fn identifiers_that_are_no_addresses_resolve_to_nothing() {
    assert_eq!(
        SuiBlockchainClient::slot_from(Ok(vec![7u8; 20])).expect("an address"),
        vec![7u8; 20]
    );
    assert!(matches!(
        SuiBlockchainClient::slot_from(Err("Invalid character".to_string())),
        Err(BlockchainError::EntitlementNotFound)
    ));
}

#[test]
fn ledger_replies_to_a_read() {
    let record = bought_by(SIGNER);
    let read = SuiBlockchainClient::entitlement_from(LedgerReply::Record(record.duplicate()))
        .expect("a record");
    assert_eq!(read.id, record.id);
    assert_eq!(read.quota_requests, 1000);
    assert!(matches!(
        SuiBlockchainClient::entitlement_from(LedgerReply::Missing),
        Err(BlockchainError::EntitlementNotFound)
    ));
    assert!(matches!(
        SuiBlockchainClient::entitlement_from(LedgerReply::Malformed),
        Err(BlockchainError::InvalidResponseFormat)
    ));
    assert!(matches!(
        SuiBlockchainClient::entitlement_from(LedgerReply::Failed("timed out".to_string())),
        Err(BlockchainError::ContractCallError(words)) if words == "timed out"
    ));
}

#[test]
fn ledger_replies_to_a_consumption() {
    assert!(SuiBlockchainClient::consumption_from(ConsumeReply::Confirmed).is_ok());
    assert!(matches!(
        SuiBlockchainClient::consumption_from(ConsumeReply::Rejected(Some("out of gas".to_string()))),
        Err(BlockchainError::ContractCallError(words)) if words == "out of gas"
    ));
    assert!(matches!(
        SuiBlockchainClient::consumption_from(ConsumeReply::Rejected(None)),
        Err(BlockchainError::ContractCallError(words)) if words == "Transaction failed"
    ));
    assert!(matches!(
        SuiBlockchainClient::consumption_from(ConsumeReply::Failed("timed out".to_string())),
        Err(BlockchainError::ContractCallError(words)) if words == "timed out"
    ));
}

#[test]
fn consumption_call_names_the_method_and_the_amount() {
    let client = SuiBlockchainClient::new(RPC_URL, CONTRACT).expect("a client");
    let call = client.consume_entitlement("test-entitlement-1", 10);
    assert_eq!(call.method, "consume_entitlement");
    assert_eq!(call.entitlement_id, "test-entitlement-1");
    assert_eq!(call.amount, 10);
}
