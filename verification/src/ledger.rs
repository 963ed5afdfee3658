//! The client side of the ledger: addresses, signatures, and what the
//! ledger's answers mean.

use crate::entitlement::Entitlement;
use crate::error::{BlockchainError, BlockchainErrorView};
use std::str::FromStr;
use vstd::prelude::*;

verus! {

/// The ledger provider of `ethers_providers`, carried through as it is.
#[verifier::external_type_specification]
#[verifier::external_body]
#[verifier::reject_recursive_types(P)]
pub struct ExProvider<P>(ethers_providers::Provider<P>);

/// The HTTP transport of `ethers_providers`, carried through as it is.
#[verifier::external_type_specification]
#[verifier::external_body]
pub struct ExHttp(ethers_providers::Http);

/// What is wrong with a ledger endpoint given as text: the words of the URL
/// parser, or `None` where the text is a URL.
pub uninterp spec fn endpoint_fault(rpc_url: Seq<char>) -> Option<Seq<char>>;

/// What a text holds when read as a ledger address: its bytes, or the words
/// of the parser that refused it.
pub uninterp spec fn parsed_address(text: Seq<char>) -> Result<Seq<u8>, Seq<char>>;

/// What a text holds when read as a signature: its bytes, or the words of
/// the parser that refused it.
pub uninterp spec fn parsed_signature(text: Seq<char>) -> Result<Seq<u8>, Seq<char>>;

/// The address whose key signed `message` to give `signature`, or the words
/// with which the recovery failed.
pub uninterp spec fn recovered_signer(signature: Seq<u8>, message: Seq<char>) -> Result<
    Seq<u8>,
    Seq<char>,
>;

/// The number of bytes in a ledger address.
pub const ADDRESS_BYTES: usize = 20;

/// The mathematical value of bytes or of the words of a refusal.
pub open spec fn bytes_or_words(outcome: Result<Vec<u8>, String>) -> Result<Seq<u8>, Seq<char>> {
    match outcome {
        Ok(bytes) => Ok(bytes@),
        Err(words) => Err(words@),
    }
}

/// The mathematical value of a verdict or of the fault that prevented it.
pub open spec fn verdict_view(verdict: Result<bool, BlockchainError>) -> Result<
    bool,
    BlockchainErrorView,
> {
    match verdict {
        Ok(valid) => Ok(valid),
        Err(fault) => Err(fault@),
    }
}

/// Builds a provider for a ledger endpoint with
/// `ethers_providers::Provider::<Http>::try_from`, which parses the text as
/// a URL and opens no connection. The HTTP client inside it is built
/// without TLS and without a resolver of its own, the two things that the
/// building of such a client can fail on. The contract names the parser's
/// refusal and says that a provider comes back exactly where there is none.
#[verifier::external_body]
fn provider_for(rpc_url: &str) -> (outcome: Result<
    ethers_providers::Provider<ethers_providers::Http>,
    String,
>)
    ensures
        match outcome {
            Ok(_) => endpoint_fault(rpc_url@) is None,
            Err(words) => endpoint_fault(rpc_url@) == Some(words@),
        },
{
    match ethers_providers::Provider::<ethers_providers::Http>::try_from(rpc_url) {
        Ok(provider) => Ok(provider),
        Err(fault) => Err(fault.to_string()),
    }
}

/// Reads a text as a ledger address with the `FromStr` of
/// `ethers_core::types::Address`: forty hexadecimal digits, `0x` before them
/// or not, and blanks, tabs and line ends between them passed over. The
/// contract names the outcome and says that an address has twenty bytes.
#[verifier::external_body]
fn parse_address(text: &str) -> (outcome: Result<Vec<u8>, String>)
    ensures
        bytes_or_words(outcome) == parsed_address(text@),
        outcome matches Ok(bytes) ==> bytes@.len() == ADDRESS_BYTES,
{
    match ethers_core::types::Address::from_str(text) {
        Ok(address) => Ok(address.as_bytes().to_vec()),
        Err(fault) => Err(fault.to_string()),
    }
}

/// Reads a text as a signature with the `FromStr` of
/// `ethers_core::types::Signature`: the hexadecimal form of `r`, `s` and
/// `v`, which come back as the signature's sixty-five bytes. The contract
/// names the outcome.
#[verifier::external_body]
fn parse_signature(text: &str) -> (outcome: Result<Vec<u8>, String>)
    ensures
        bytes_or_words(outcome) == parsed_signature(text@),
{
    match ethers_core::types::Signature::from_str(text) {
        Ok(signature) => Ok(signature.to_vec()),
        Err(fault) => Err(fault.to_string()),
    }
}

/// Recovers the address that signed `message` with
/// `ethers_core::types::Signature::recover`, which hashes the message the
/// way wallets sign it; the bytes are first put back into a `Signature`
/// with its `TryFrom<&[u8]>`, which refuses any number of them but
/// sixty-five. The contract names the outcome and says that an address has
/// twenty bytes.
#[verifier::external_body]
fn recover_signer(signature: &Vec<u8>, message: &str) -> (outcome: Result<Vec<u8>, String>)
    ensures
        bytes_or_words(outcome) == recovered_signer(signature@, message@),
        outcome matches Ok(bytes) ==> bytes@.len() == ADDRESS_BYTES,
{
    match ethers_core::types::Signature::try_from(signature.as_slice()) {
        Ok(parsed) => match parsed.recover(message) {
            Ok(address) => Ok(address.as_bytes().to_vec()),
            Err(fault) => Err(fault.to_string()),
        },
        Err(fault) => Err(fault.to_string()),
    }
}

/// The signer of a message, from the signature as text: the text is read as
/// a signature, and the signer recovered from it.
pub open spec fn signer_of(signature: Seq<char>, message: Seq<char>) -> Result<
    Seq<u8>,
    Seq<char>,
> {
    match parsed_signature(signature) {
        Ok(bytes) => recovered_signer(bytes, message),
        Err(words) => Err(words),
    }
}

/// The verdict on a signature. Where the recorded owner is no address the
/// record is malformed; where no signer can be recovered the call failed
/// with the words of the failure; otherwise the signature is valid exactly
/// where the signer is the owner.
pub open spec fn signature_verdict_of(
    owner: Result<Seq<u8>, Seq<char>>,
    signer: Result<Seq<u8>, Seq<char>>,
) -> Result<bool, BlockchainErrorView> {
    match owner {
        Err(_) => Err(BlockchainErrorView::InvalidResponseFormat),
        Ok(owner) => match signer {
            Err(words) => Err(BlockchainErrorView::ContractCallError(words)),
            Ok(signer) => Ok(signer == owner),
        },
    }
}

/// Whether two byte strings are the same.
fn same_bytes(left: &Vec<u8>, right: &Vec<u8>) -> (same: bool)
    ensures
        same == (left@ == right@),
{
    if left.len() != right.len() {
        return false;
    }
    let mut i: usize = 0;
    while i < left.len()
        invariant
            i <= left.len(),
            left.len() == right.len(),
            forall|j: int| 0 <= j < i ==> left@[j] == right@[j],
        decreases left.len() - i,
    {
        if left[i] != right[i] {
            return false;
        }
        i = i + 1;
    }
    proof {
        assert(left@ =~= right@);
    }
    true
}

/// The verdict on a signature, from the owner's address and the recovered
/// signer as they were read.
pub fn signature_verdict(owner: Result<Vec<u8>, String>, signer: Result<Vec<u8>, String>) -> (verdict:
    Result<bool, BlockchainError>)
    ensures
        verdict_view(verdict) == signature_verdict_of(
            bytes_or_words(owner),
            bytes_or_words(signer),
        ),
{
    match owner {
        Err(_) => Err(BlockchainError::InvalidResponseFormat),
        Ok(owner) => match signer {
            Err(words) => Err(BlockchainError::ContractCallError(words)),
            Ok(signer) => Ok(same_bytes(&signer, &owner)),
        },
    }
}

/// The signer of `message`, from the signature as text.
pub fn signer(signature: &str, message: &str) -> (outcome: Result<Vec<u8>, String>)
    ensures
        bytes_or_words(outcome) == signer_of(signature@, message@),
        outcome matches Ok(bytes) ==> bytes@.len() == ADDRESS_BYTES,
{
    match parse_signature(signature) {
        Ok(bytes) => recover_signer(&bytes, message),
        Err(words) => Err(words),
    }
}

/// The mathematical value of a place on the ledger or of the fault that
/// stands for it.
pub open spec fn slot_view(slot: Result<Vec<u8>, BlockchainError>) -> Result<
    Seq<u8>,
    BlockchainErrorView,
> {
    match slot {
        Ok(bytes) => Ok(bytes@),
        Err(fault) => Err(fault@),
    }
}

/// Where on the ledger an entitlement is read, from what reading its
/// identifier as an address gave: the address, and no entitlement where the
/// identifier is none.
pub open spec fn slot_of(parsed: Result<Seq<u8>, Seq<char>>) -> Result<
    Seq<u8>,
    BlockchainErrorView,
> {
    match parsed {
        Ok(bytes) => Ok(bytes),
        Err(_) => Err(BlockchainErrorView::EntitlementNotFound),
    }
}

/// What the ledger answered to a read of one entitlement.
#[derive(Debug, Clone)]
pub enum LedgerReply {
    /// The ledger holds this record.
    Record(Entitlement),
    /// The identifier resolves to nothing.
    Missing,
    /// The ledger answered with something that is no entitlement.
    Malformed,
    /// The call did not get through, with the transport's words.
    Failed(String),
}

/// What the ledger answered to a consumption.
#[derive(Debug, Clone)]
pub enum ConsumeReply {
    /// The transaction was executed.
    Confirmed,
    /// The ledger executed the transaction and reports that it failed, with
    /// its reason where it gave one.
    Rejected(Option<String>),
    /// The call did not get through, with the transport's words.
    Failed(String),
}

/// What a consumption asks of the ledger.
#[derive(Debug, Clone)]
pub struct ConsumeCall {
    pub method: String,
    pub entitlement_id: String,
    pub amount: u64,
}

/// The record that a ledger's answer holds, or the fault that it stands for.
pub open spec fn entitlement_of(reply: LedgerReply) -> Result<Entitlement, BlockchainErrorView> {
    match reply {
        LedgerReply::Record(entitlement) => Ok(entitlement),
        LedgerReply::Missing => Err(BlockchainErrorView::EntitlementNotFound),
        LedgerReply::Malformed => Err(BlockchainErrorView::InvalidResponseFormat),
        LedgerReply::Failed(words) => Err(BlockchainErrorView::ContractCallError(words@)),
    }
}

/// The fault that a ledger's answer to a consumption stands for, if any. A
/// rejection without a reason reads "Transaction failed".
pub open spec fn consumption_fault(reply: ConsumeReply) -> Option<BlockchainErrorView> {
    match reply {
        ConsumeReply::Confirmed => None,
        ConsumeReply::Rejected(Some(reason)) => Some(
            BlockchainErrorView::ContractCallError(reason@),
        ),
        ConsumeReply::Rejected(None) => Some(
            BlockchainErrorView::ContractCallError("Transaction failed"@),
        ),
        ConsumeReply::Failed(words) => Some(BlockchainErrorView::ContractCallError(words@)),
    }
}

/// The fault, if any, with which a client for this endpoint and contract
/// cannot be built: the endpoint's first, then the address's.
pub open spec fn client_fault(rpc_url: Seq<char>, contract_address: Seq<char>) -> Option<
    BlockchainErrorView,
> {
    match endpoint_fault(rpc_url) {
        Some(words) => Some(BlockchainErrorView::ProviderError(words)),
        None => match parsed_address(contract_address) {
            Err(words) => Some(BlockchainErrorView::ProviderError(words)),
            Ok(_) => None,
        },
    }
}

/// The client of one entitlement contract on one ledger endpoint.
pub struct SuiBlockchainClient {
    provider: ethers_providers::Provider<ethers_providers::Http>,
    contract_address: Vec<u8>,
}

impl SuiBlockchainClient {
    /// The address of the entitlement contract.
    pub closed spec fn contract(&self) -> Seq<u8> {
        self.contract_address@
    }

    /// The provider that the client holds: the one that was built for the
    /// endpoint the client was made with.
    pub closed spec fn endpoint(&self) -> ethers_providers::Provider<ethers_providers::Http> {
        self.provider
    }

    /// A client for the contract at `contract_address` behind `rpc_url`. No
    /// connection is opened. It fails with `ProviderError` where the
    /// endpoint is no URL or the contract's address is no address.
    pub fn new(rpc_url: &str, contract_address: &str) -> (client: Result<
        SuiBlockchainClient,
        BlockchainError,
    >)
        ensures
            match client {
                Ok(client) => client_fault(rpc_url@, contract_address@) is None && Ok::<
                    Seq<u8>,
                    Seq<char>,
                >(client.contract()) == parsed_address(contract_address@),
                Err(fault) => client_fault(rpc_url@, contract_address@) == Some(fault@),
            },
    {
        let provider = match provider_for(rpc_url) {
            Ok(provider) => provider,
            Err(words) => {
                return Err(BlockchainError::ProviderError(words));
            },
        };
        match parse_address(contract_address) {
            Ok(address) => Ok(SuiBlockchainClient { provider, contract_address: address }),
            Err(words) => Err(BlockchainError::ProviderError(words)),
        }
    }

    /// The provider through which the ledger is reached: the one that the
    /// client holds, and no other.
    pub fn provider(&self) -> (provider: &ethers_providers::Provider<ethers_providers::Http>)
        ensures
            *provider == self.endpoint(),
    {
        &self.provider
    }

    /// The address of the entitlement contract.
    pub fn contract_address(&self) -> (address: &Vec<u8>)
        ensures
            address@ == self.contract(),
    {
        &self.contract_address
    }

    /// Where on the ledger an entitlement is read, from what reading its
    /// identifier as an address gave.
    pub fn slot_from(parsed: Result<Vec<u8>, String>) -> (slot: Result<Vec<u8>, BlockchainError>)
        ensures
            slot_view(slot) == slot_of(bytes_or_words(parsed)),
    {
        match parsed {
            Ok(bytes) => Ok(bytes),
            Err(_) => Err(BlockchainError::EntitlementNotFound),
        }
    }

    /// Where on the ledger the entitlement `entitlement_id` is read: the
    /// identifier as an address. An identifier that is no address resolves
    /// to nothing.
    pub fn get_entitlement(&self, entitlement_id: &str) -> (slot: Result<Vec<u8>, BlockchainError>)
        ensures
            slot_view(slot) == slot_of(parsed_address(entitlement_id@)),
            slot matches Ok(bytes) ==> bytes@.len() == ADDRESS_BYTES,
    {
        Self::slot_from(parse_address(entitlement_id))
    }

    /// What the ledger's answer to a read means.
    pub fn entitlement_from(reply: LedgerReply) -> (outcome: Result<Entitlement, BlockchainError>)
        ensures
            match outcome {
                Ok(entitlement) => entitlement_of(reply) == Ok::<Entitlement, BlockchainErrorView>(
                    entitlement,
                ),
                Err(fault) => entitlement_of(reply) == Err::<Entitlement, BlockchainErrorView>(
                    fault@,
                ),
            },
    {
        match reply {
            LedgerReply::Record(entitlement) => Ok(entitlement),
            LedgerReply::Missing => Err(BlockchainError::EntitlementNotFound),
            LedgerReply::Malformed => Err(BlockchainError::InvalidResponseFormat),
            LedgerReply::Failed(words) => Err(BlockchainError::ContractCallError(words)),
        }
    }

    /// The call that consumes `amount` units of `entitlement_id`.
    pub fn consume_entitlement(&self, entitlement_id: &str, amount: u64) -> (call: ConsumeCall)
        ensures
            call.method@ == "consume_entitlement"@,
            call.entitlement_id@ == entitlement_id@,
            call.amount == amount,
    {
        ConsumeCall {
            method: "consume_entitlement".to_owned(),
            entitlement_id: entitlement_id.to_owned(),
            amount,
        }
    }

    /// What the ledger's answer to a consumption means: done, or the fault.
    pub fn consumption_from(reply: ConsumeReply) -> (outcome: Result<(), BlockchainError>)
        ensures
            match outcome {
                Ok(_) => consumption_fault(reply) is None,
                Err(fault) => consumption_fault(reply) == Some(fault@),
            },
    {
        match reply {
            ConsumeReply::Confirmed => Ok(()),
            ConsumeReply::Rejected(Some(reason)) => Err(BlockchainError::ContractCallError(reason)),
            ConsumeReply::Rejected(None) => Err(
                BlockchainError::ContractCallError("Transaction failed".to_owned()),
            ),
            ConsumeReply::Failed(words) => Err(BlockchainError::ContractCallError(words)),
        }
    }

    /// Whether `signature` over `message` was made by the key of the buyer
    /// that `entitlement` records. A sound signature of another signer gives
    /// `false`; a buyer that is no address, or a signature that cannot be
    /// read or recovered from, gives the fault.
    pub fn validate_entitlement_signature(
        entitlement: &Entitlement,
        signature: &str,
        message: &str,
    ) -> (verdict: Result<bool, BlockchainError>)
        ensures
            verdict_view(verdict) == signature_verdict_of(
                parsed_address(entitlement@.buyer),
                signer_of(signature@, message@),
            ),
    {
        let owner = parse_address(entitlement.buyer.as_str());
        if owner.is_err() {
            return Err(BlockchainError::InvalidResponseFormat);
        }
        signature_verdict(owner, signer(signature, message))
    }
}

} // verus!
