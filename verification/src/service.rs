//! The validator service: what it does with each request, step by step.
//!
//! A request is answered in steps. Each step either names one thing to do
//! at the ledger or at the cache, or ends the call with a reply. Whoever
//! runs the service does what a step names, hands back what came of it,
//! and gets the next step. Nothing in here waits or sends.
//!
//! What holds of every call, whatever the cache and the ledger answer, is
//! stated and proved in [`laws`].

pub mod laws;

use crate::cache::{
    read_of, store_fault, CacheCommand, CacheCommandView, CacheReply, CacheReplyView,
    CachedEntitlement, CachedEntitlementView, EntitlementCache,
};
use crate::config::{ValidatorConfig, ValidatorConfigView};
use crate::entitlement::{Entitlement, EntitlementView};
use crate::error::{BlockchainError, BlockchainErrorView, ValidatorError, ValidatorErrorView};
use crate::ledger::{
    client_fault, parsed_address, signature_verdict_of, signer_of, verdict_view,
    SuiBlockchainClient,
};
use crate::rate_limit::{admits, after_check, RateLimiter};
use vstd::prelude::*;

verus! {

/// The status under which a call that cannot be answered is turned down.
#[derive(Debug, Clone, Copy, PartialEq, Eq, Structural)]
pub enum StatusCode {
    /// The rate limiter turned the request away.
    ResourceExhausted,
    /// The signature handed in cannot be read.
    InvalidArgument,
    /// The ledger failed, or the entitlement cannot be consumed from.
    Internal,
}

/// What a request asks for.
#[derive(Debug, Clone, Copy, PartialEq, Eq, Structural)]
pub enum Operation {
    /// Whether an entitlement may be used.
    Validate,
    /// To use `amount` units of an entitlement's quota.
    Consume { amount: u64 },
    /// Whether a signature is the buyer's.
    VerifySignature,
}

/// A request to validate an entitlement. The signature is checked only
/// where both it and the message are given.
#[derive(Debug, Clone)]
pub struct ValidateEntitlementRequest {
    pub entitlement_id: String,
    pub signature: String,
    pub message: String,
}

/// A request to consume quota of an entitlement.
#[derive(Debug, Clone)]
pub struct ConsumeEntitlementRequest {
    pub entitlement_id: String,
    pub amount: u64,
    pub signature: String,
    pub message: String,
}

/// A request to check a signature against an entitlement's buyer.
#[derive(Debug, Clone)]
pub struct ValidateSignatureRequest {
    pub entitlement_id: String,
    pub signature: String,
    pub message: String,
}

/// The end of a call.
#[derive(Debug, Clone)]
pub enum Reply {
    /// The answer to a validation.
    Validation { valid: bool, error: String, entitlement: Option<Entitlement> },
    /// The answer to a consumption.
    Consumption { success: bool, error: String, remaining_quota: u64 },
    /// The answer to a signature check.
    Signature { valid: bool, error: String },
    /// The call is turned down, with a status and the fault.
    Failure { code: StatusCode, error: ValidatorError },
}

/// The mathematical value of a [`Reply`].
pub enum ReplyView {
    Validation { valid: bool, error: Seq<char>, entitlement: Option<EntitlementView> },
    Consumption { success: bool, error: Seq<char>, remaining_quota: u64 },
    Signature { valid: bool, error: Seq<char> },
    Failure { code: StatusCode, error: ValidatorErrorView },
}

impl View for Reply {
    type V = ReplyView;

    open spec fn view(&self) -> ReplyView {
        match *self {
            Reply::Validation { valid, error, entitlement } => ReplyView::Validation {
                valid,
                error: error@,
                entitlement: match entitlement {
                    Some(entitlement) => Some(entitlement@),
                    None => None,
                },
            },
            Reply::Consumption { success, error, remaining_quota } => ReplyView::Consumption {
                success,
                error: error@,
                remaining_quota,
            },
            Reply::Signature { valid, error } => ReplyView::Signature { valid, error: error@ },
            Reply::Failure { code, error } => ReplyView::Failure { code, error: error@ },
        }
    }
}

/// What a call waits for.
#[derive(Debug, Clone, Copy, PartialEq, Eq, Structural)]
pub enum Pending {
    /// The ledger's record, to learn who the buyer is.
    Owner,
    /// The cache's copy.
    Cached,
    /// The ledger's record, after the cache had none.
    Record,
    /// The write of the ledger's record to the cache.
    Populated,
    /// The ledger's word on the consumption.
    Settled,
    /// The write of the consumed copy to the cache.
    Refreshed,
}

/// A call that is under way.
pub struct Call {
    operation: Operation,
    entitlement_id: String,
    signature: String,
    message: String,
    now: u64,
    pending: Pending,
    resolved: Option<CachedEntitlement>,
}

/// The mathematical value of a [`Call`].
pub struct CallView {
    pub operation: Operation,
    pub entitlement_id: Seq<char>,
    pub signature: Seq<char>,
    pub message: Seq<char>,
    pub now: u64,
    pub pending: Pending,
    pub resolved: Option<CachedEntitlementView>,
}

/// The one thing that a step asks to be done.
#[derive(Debug, Clone)]
pub enum Effect {
    /// Read the entitlement's record from the ledger.
    ReadLedger { entitlement_id: String },
    /// Carry out a command at the cache.
    Cache(CacheCommand),
    /// Consume quota on the ledger.
    Consume { entitlement_id: String, amount: u64 },
}

/// The mathematical value of an [`Effect`].
pub enum EffectView {
    ReadLedger { entitlement_id: Seq<char> },
    Cache(CacheCommandView),
    Consume { entitlement_id: Seq<char>, amount: u64 },
}

impl View for Effect {
    type V = EffectView;

    open spec fn view(&self) -> EffectView {
        match *self {
            Effect::ReadLedger { entitlement_id } => EffectView::ReadLedger {
                entitlement_id: entitlement_id@,
            },
            Effect::Cache(command) => EffectView::Cache(command@),
            Effect::Consume { entitlement_id, amount } => EffectView::Consume {
                entitlement_id: entitlement_id@,
                amount,
            },
        }
    }
}

/// What came of an effect.
#[derive(Debug)]
pub enum Event {
    /// The ledger's answer to a read.
    Ledger(Result<Entitlement, BlockchainError>),
    /// The cache's answer to a command.
    Cache(CacheReply),
    /// The ledger's answer to a consumption.
    Consumption(Result<(), BlockchainError>),
}

/// The mathematical value of an [`Event`].
pub enum EventView {
    Ledger(Result<EntitlementView, BlockchainErrorView>),
    Cache(CacheReplyView),
    Consumption(Option<BlockchainErrorView>),
}

impl View for Event {
    type V = EventView;

    open spec fn view(&self) -> EventView {
        match *self {
            Event::Ledger(Ok(entitlement)) => EventView::Ledger(Ok(entitlement@)),
            Event::Ledger(Err(fault)) => EventView::Ledger(Err(fault@)),
            Event::Cache(reply) => EventView::Cache(reply@),
            Event::Consumption(Ok(_)) => EventView::Consumption(None),
            Event::Consumption(Err(fault)) => EventView::Consumption(Some(fault@)),
        }
    }
}

/// What to do next: one effect, with the call to go on with once it is
/// done, or the reply that ends the call.
pub enum Step {
    Perform(Effect, Call),
    Done(Reply),
}

/// The mathematical value of a [`Step`].
pub enum StepView {
    Perform(EffectView, CallView),
    Done(ReplyView),
}

impl CallView {
    /// What every call under way holds. A call that waits for a write to
    /// the cache, or for the ledger's word on a consumption, has resolved a
    /// copy that is usable at the time of the call; one that has gone to
    /// the ledger to consume has found that the amount fits; and a
    /// signature check never goes past the look for the owner.
    pub open spec fn well_formed(self) -> bool {
        match self.pending {
            Pending::Owner => true,
            Pending::Cached | Pending::Record => !(self.operation is VerifySignature),
            Pending::Populated => {
                &&& !(self.operation is VerifySignature)
                &&& self.resolved matches Some(copy)
                &&& copy.entitlement.usable_at(self.now as int)
            },
            Pending::Settled | Pending::Refreshed => {
                &&& self.operation matches Operation::Consume { amount }
                &&& self.resolved matches Some(copy)
                &&& copy.entitlement.usable_at(self.now as int)
                &&& copy.entitlement.fits(amount as int)
            },
        }
    }
}

impl StepView {
    /// The call that a step goes on with, if any, is well formed.
    pub open spec fn well_formed(self) -> bool {
        match self {
            StepView::Perform(_, call) => call.well_formed(),
            StepView::Done(_) => true,
        }
    }
}

/// The step that turns a call down.
pub open spec fn failure(code: StatusCode, error: ValidatorErrorView) -> StepView {
    StepView::Done(ReplyView::Failure { code, error })
}

/// The step that turns a call down for a fault of the ledger.
pub open spec fn ledger_failure(fault: BlockchainErrorView) -> StepView {
    failure(StatusCode::Internal, ValidatorErrorView::BlockchainError(fault.message()))
}

/// The step for a reply that the call did not wait for.
pub open spec fn stray() -> StepView {
    failure(StatusCode::Internal, ValidatorErrorView::NetworkError("unexpected reply"@))
}

/// The end of a call whose entitlement does not exist or may not be used:
/// a validation says so, a consumption is turned down as an invalid
/// entitlement, and a signature check has no owner to check against.
pub open spec fn unresolved(operation: Operation) -> StepView {
    match operation {
        Operation::Validate => StepView::Done(
            ReplyView::Validation {
                valid: false,
                error: "Entitlement not found or invalid"@,
                entitlement: None,
            },
        ),
        Operation::Consume { amount } => failure(
            StatusCode::Internal,
            ValidatorErrorView::InvalidEntitlement,
        ),
        Operation::VerifySignature => ledger_failure(BlockchainErrorView::EntitlementNotFound),
    }
}

/// The end of a call whose signature is sound and is not the buyer's: a
/// reply that says so, and no fault.
pub open spec fn refused_signature(operation: Operation) -> StepView {
    StepView::Done(
        match operation {
            Operation::Validate => ReplyView::Validation {
                valid: false,
                error: "Invalid signature"@,
                entitlement: None,
            },
            Operation::Consume { amount } => ReplyView::Consumption {
                success: false,
                error: "Invalid signature"@,
                remaining_quota: 0,
            },
            Operation::VerifySignature => ReplyView::Signature {
                valid: false,
                error: "Invalid signature"@,
            },
        },
    )
}

/// The step that reads the cache's copy.
pub open spec fn read_cache(call: CallView) -> StepView {
    StepView::Perform(
        EffectView::Cache(EntitlementCache::get_of(call.entitlement_id)),
        CallView { pending: Pending::Cached, ..call },
    )
}

/// The step that reads the ledger's record.
pub open spec fn read_ledger(call: CallView, pending: Pending) -> StepView {
    StepView::Perform(
        EffectView::ReadLedger { entitlement_id: call.entitlement_id },
        CallView { pending, ..call },
    )
}

/// The first step of a call. A request that the rate limiter turned away
/// ends at once. A validation without a signature or without a message
/// goes to the cache; every other request looks for the owner first.
pub open spec fn started(
    operation: Operation,
    entitlement_id: Seq<char>,
    signature: Seq<char>,
    message: Seq<char>,
    now: u64,
    admitted: bool,
) -> StepView {
    let call = CallView {
        operation,
        entitlement_id,
        signature,
        message,
        now,
        pending: Pending::Owner,
        resolved: None,
    };
    if !admitted {
        failure(StatusCode::ResourceExhausted, ValidatorErrorView::RateLimitExceeded)
    } else if operation is Validate && (signature.len() == 0 || message.len() == 0) {
        read_cache(call)
    } else {
        read_ledger(call, Pending::Owner)
    }
}

/// The step after the signature was judged. A signature that cannot be
/// read is an invalid argument, a buyer that is no address a fault of the
/// ledger; a signature of another signer ends the call with a reply; the
/// buyer's signature ends a signature check and lets every other call go
/// on to the cache.
pub open spec fn judged(call: CallView, verdict: Result<bool, BlockchainErrorView>) -> StepView {
    match verdict {
        Err(fault) => failure(
            if fault is ContractCallError {
                StatusCode::InvalidArgument
            } else {
                StatusCode::Internal
            },
            ValidatorErrorView::BlockchainError(fault.message()),
        ),
        Ok(valid) => if !valid {
            refused_signature(call.operation)
        } else if call.operation is VerifySignature {
            StepView::Done(ReplyView::Signature { valid: true, error: Seq::empty() })
        } else {
            read_cache(call)
        },
    }
}

/// The step once a usable copy is at hand. A validation ends with it. A
/// consumption goes to the ledger where the amount fits in the quota and
/// is turned down as exceeding it where it does not.
pub open spec fn settle(call: CallView, copy: CachedEntitlementView) -> StepView {
    match call.operation {
        Operation::Validate => StepView::Done(
            ReplyView::Validation {
                valid: true,
                error: Seq::empty(),
                entitlement: Some(copy.entitlement),
            },
        ),
        Operation::Consume { amount } => if copy.entitlement.fits(amount as int) {
            StepView::Perform(
                EffectView::Consume { entitlement_id: call.entitlement_id, amount },
                CallView { pending: Pending::Settled, resolved: Some(copy), ..call },
            )
        } else {
            failure(StatusCode::Internal, ValidatorErrorView::QuotaExceeded)
        },
        Operation::VerifySignature => stray(),
    }
}

/// The step once the cache gave a copy: it counts only if it is usable at
/// the time of the call.
pub open spec fn resolved(call: CallView, copy: CachedEntitlementView) -> StepView {
    if copy.entitlement.usable_at(call.now as int) {
        settle(call, copy)
    } else {
        unresolved(call.operation)
    }
}

/// The step once the ledger gave its record after a miss: a usable record
/// is written to the cache, to live `ttl` seconds, and any other ends the
/// call.
pub open spec fn fetched(call: CallView, entitlement: EntitlementView, ttl: u64) -> StepView {
    if call.operation is VerifySignature {
        stray()
    } else if entitlement.usable_at(call.now as int) {
        StepView::Perform(
            EffectView::Cache(
                EntitlementCache::set_of(
                    call.entitlement_id,
                    CachedEntitlementView::of(entitlement),
                    ttl,
                ),
            ),
            CallView {
                pending: Pending::Populated,
                resolved: Some(CachedEntitlementView::of(entitlement)),
                ..call
            },
        )
    } else {
        unresolved(call.operation)
    }
}

/// The step once the ledger failed to give a record.
pub open spec fn unfetched(call: CallView, fault: BlockchainErrorView) -> StepView {
    if fault is EntitlementNotFound {
        unresolved(call.operation)
    } else {
        ledger_failure(fault)
    }
}

/// The step once the ledger has consumed: the copy with the consumption
/// counted is written to the cache.
pub open spec fn consumed(call: CallView, ttl: u64) -> StepView {
    match call.operation {
        Operation::Consume { amount } => match call.resolved {
            Some(copy) => StepView::Perform(
                EffectView::Cache(
                    EntitlementCache::set_of(
                        call.entitlement_id,
                        copy.consumed(amount as int),
                        ttl,
                    ),
                ),
                CallView { pending: Pending::Refreshed, ..call },
            ),
            None => stray(),
        },
        _ => stray(),
    }
}

/// The end of a consumption: what is left of the quota, counted from what
/// the copy held before the consumption.
pub open spec fn finished(call: CallView) -> StepView {
    match call.operation {
        Operation::Consume { amount } => match call.resolved {
            Some(copy) => if copy.entitlement.fits(amount as int) {
                StepView::Done(
                    ReplyView::Consumption {
                        success: true,
                        error: Seq::empty(),
                        remaining_quota: copy.entitlement.remaining_after(amount as int) as u64,
                    },
                )
            } else {
                stray()
            },
            None => stray(),
        },
        _ => stray(),
    }
}

/// The step that follows on what came of the last one.
///
/// While the owner is looked for, the ledger's record has the signature
/// judged against its buyer. While the cache is read, its answer holds what
/// [`read_of`] says it holds: a copy resolves the call, and nothing sends it
/// to the ledger, as does a store that failed, since the ledger can still
/// be asked. A failure to write to the cache never fails a call: the
/// ledger's record was read, or the consumption is done.
pub open spec fn next(call: CallView, event: EventView, ttl: u64) -> StepView {
    match call.pending {
        Pending::Owner => match event {
            EventView::Ledger(Ok(entitlement)) => judged(
                call,
                signature_verdict_of(
                    parsed_address(entitlement.buyer),
                    signer_of(call.signature, call.message),
                ),
            ),
            EventView::Ledger(Err(fault)) => unfetched(call, fault),
            _ => stray(),
        },
        Pending::Cached => match event {
            EventView::Cache(reply) => match read_of(reply) {
                Ok(Some(copy)) => resolved(call, copy),
                _ => read_ledger(call, Pending::Record),
            },
            _ => stray(),
        },
        Pending::Record => match event {
            EventView::Ledger(Ok(entitlement)) => fetched(call, entitlement, ttl),
            EventView::Ledger(Err(fault)) => unfetched(call, fault),
            _ => stray(),
        },
        Pending::Populated => match event {
            EventView::Cache(_) => match call.resolved {
                Some(copy) => settle(call, copy),
                None => stray(),
            },
            _ => stray(),
        },
        Pending::Settled => match event {
            EventView::Consumption(None) => consumed(call, ttl),
            EventView::Consumption(Some(fault)) => ledger_failure(fault),
            _ => stray(),
        },
        Pending::Refreshed => match event {
            EventView::Cache(_) => finished(call),
            _ => stray(),
        },
    }
}

impl View for Call {
    type V = CallView;

    closed spec fn view(&self) -> CallView {
        CallView {
            operation: self.operation,
            entitlement_id: self.entitlement_id@,
            signature: self.signature@,
            message: self.message@,
            now: self.now,
            pending: self.pending,
            resolved: match self.resolved {
                Some(copy) => Some(copy@),
                None => None,
            },
        }
    }
}

impl View for Step {
    type V = StepView;

    open spec fn view(&self) -> StepView {
        match *self {
            Step::Perform(effect, call) => StepView::Perform(effect@, call@),
            Step::Done(reply) => StepView::Done(reply@),
        }
    }
}

impl Call {
    #[verifier::type_invariant]
    spec fn sound(&self) -> bool {
        self@.well_formed()
    }

    /// What the call asks for.
    pub fn operation(&self) -> (operation: Operation)
        ensures
            operation == self@.operation,
    {
        self.operation
    }

    /// The entitlement that the call is about.
    pub fn entitlement_id(&self) -> (entitlement_id: &String)
        ensures
            entitlement_id@ == self@.entitlement_id,
    {
        &self.entitlement_id
    }

    /// The time of the call, in unix seconds.
    pub fn now(&self) -> (now: u64)
        ensures
            now == self@.now,
    {
        self.now
    }

    /// What the call waits for. Every call under way is well formed.
    pub fn pending(&self) -> (pending: Pending)
        ensures
            pending == self@.pending,
            self@.well_formed(),
    {
        proof {
            use_type_invariant(self);
        }
        self.pending
    }
}

fn fail(code: StatusCode, error: ValidatorError) -> (step: Step)
    ensures
        step@ == failure(code, error@),
{
    Step::Done(Reply::Failure { code, error })
}

fn fail_ledger(fault: &BlockchainError) -> (step: Step)
    ensures
        step@ == ledger_failure(fault@),
{
    fail(StatusCode::Internal, ValidatorError::from_ledger(fault))
}

fn end_stray() -> (step: Step)
    ensures
        step@ == stray(),
{
    fail(StatusCode::Internal, ValidatorError::NetworkError("unexpected reply".to_owned()))
}

fn end_unresolved(operation: Operation) -> (step: Step)
    ensures
        step@ == unresolved(operation),
{
    match operation {
        Operation::Validate => Step::Done(
            Reply::Validation {
                valid: false,
                error: "Entitlement not found or invalid".to_owned(),
                entitlement: None,
            },
        ),
        Operation::Consume { amount } => fail(
            StatusCode::Internal,
            ValidatorError::InvalidEntitlement,
        ),
        Operation::VerifySignature => fail_ledger(&BlockchainError::EntitlementNotFound),
    }
}

fn end_refused(operation: Operation) -> (step: Step)
    ensures
        step@ == refused_signature(operation),
{
    let error = "Invalid signature".to_owned();
    Step::Done(
        match operation {
            Operation::Validate => Reply::Validation { valid: false, error, entitlement: None },
            Operation::Consume { amount } => Reply::Consumption {
                success: false,
                error,
                remaining_quota: 0,
            },
            Operation::VerifySignature => Reply::Signature { valid: false, error },
        },
    )
}

fn go_read_cache(cache: &EntitlementCache, call: Call) -> (step: Step)
    requires
        !(call@.operation is VerifySignature),
    ensures
        step@ == read_cache(call@),
{
    let command = cache.get(call.entitlement_id.as_str());
    Step::Perform(
        Effect::Cache(command),
        Call {
            operation: call.operation,
            entitlement_id: call.entitlement_id,
            signature: call.signature,
            message: call.message,
            now: call.now,
            pending: Pending::Cached,
            resolved: call.resolved,
        },
    )
}

fn go_read_ledger(call: Call, pending: Pending) -> (step: Step)
    requires
        pending is Owner || (pending is Record && !(call@.operation is VerifySignature)),
    ensures
        step@ == read_ledger(call@, pending),
{
    Step::Perform(
        Effect::ReadLedger { entitlement_id: call.entitlement_id.clone() },
        Call {
            operation: call.operation,
            entitlement_id: call.entitlement_id,
            signature: call.signature,
            message: call.message,
            now: call.now,
            pending,
            resolved: call.resolved,
        },
    )
}

fn go_settle(call: Call, copy: CachedEntitlement) -> (step: Step)
    requires
        copy@.entitlement.usable_at(call@.now as int),
    ensures
        step@ == settle(call@, copy@),
{
    match call.operation {
        Operation::Validate => Step::Done(
            Reply::Validation {
                valid: true,
                error: String::new(),
                entitlement: Some(copy.entitlement),
            },
        ),
        Operation::Consume { amount } => match copy.entitlement.remaining_after(amount) {
            Some(_) => Step::Perform(
                Effect::Consume { entitlement_id: call.entitlement_id.clone(), amount },
                Call {
                    operation: call.operation,
                    entitlement_id: call.entitlement_id,
                    signature: call.signature,
                    message: call.message,
                    now: call.now,
                    pending: Pending::Settled,
                    resolved: Some(copy),
                },
            ),
            None => fail(StatusCode::Internal, ValidatorError::QuotaExceeded),
        },
        Operation::VerifySignature => end_stray(),
    }
}

fn go_resolved(call: Call, copy: CachedEntitlement) -> (step: Step)
    ensures
        step@ == resolved(call@, copy@),
{
    if copy.entitlement.is_usable(call.now) {
        go_settle(call, copy)
    } else {
        end_unresolved(call.operation)
    }
}

fn go_fetched(cache: &EntitlementCache, call: Call, entitlement: Entitlement) -> (step: Step)
    ensures
        step@ == fetched(call@, entitlement@, cache.ttl()),
{
    match call.operation {
        Operation::VerifySignature => {
            return end_stray();
        },
        _ => {},
    }
    if entitlement.is_usable(call.now) {
        let copy = CachedEntitlement::from_entitlement(entitlement);
        let command = cache.set(call.entitlement_id.as_str(), copy.duplicate());
        Step::Perform(
            Effect::Cache(command),
            Call {
                operation: call.operation,
                entitlement_id: call.entitlement_id,
                signature: call.signature,
                message: call.message,
                now: call.now,
                pending: Pending::Populated,
                resolved: Some(copy),
            },
        )
    } else {
        end_unresolved(call.operation)
    }
}

fn go_unfetched(call: Call, fault: BlockchainError) -> (step: Step)
    ensures
        step@ == unfetched(call@, fault@),
{
    match fault {
        BlockchainError::EntitlementNotFound => end_unresolved(call.operation),
        _ => fail_ledger(&fault),
    }
}

fn go_consumed(cache: &EntitlementCache, call: Call) -> (step: Step)
    requires
        call@.pending is Settled,
    ensures
        step@ == consumed(call@, cache.ttl()),
{
    proof {
        use_type_invariant(&call);
    }
    match call.operation {
        Operation::Consume { amount } => match call.resolved {
            Some(copy) => {
                let mut updated = copy.duplicate();
                updated.entitlement.consume(amount);
                let command = cache.set(call.entitlement_id.as_str(), updated);
                Step::Perform(
                    Effect::Cache(command),
                    Call {
                        operation: call.operation,
                        entitlement_id: call.entitlement_id,
                        signature: call.signature,
                        message: call.message,
                        now: call.now,
                        pending: Pending::Refreshed,
                        resolved: Some(copy),
                    },
                )
            },
            None => end_stray(),
        },
        _ => end_stray(),
    }
}

fn go_finished(call: Call) -> (step: Step)
    ensures
        step@ == finished(call@),
{
    match call.operation {
        Operation::Consume { amount } => match call.resolved {
            Some(copy) => match copy.entitlement.remaining_after(amount) {
                Some(remaining_quota) => Step::Done(
                    Reply::Consumption { success: true, error: String::new(), remaining_quota },
                ),
                None => end_stray(),
            },
            None => end_stray(),
        },
        _ => end_stray(),
    }
}

/// The fault, if any, with which a service of this configuration cannot be
/// built: that of the store's address first, then that of the ledger
/// client.
pub open spec fn service_fault(
    redis_url: Seq<char>,
    sui_rpc_url: Seq<char>,
    contract_address: Seq<char>,
) -> Option<ValidatorErrorView> {
    match store_fault(redis_url) {
        Some(words) => Some(ValidatorErrorView::RedisError(words)),
        None => match client_fault(sui_rpc_url, contract_address) {
            Some(fault) => Some(ValidatorErrorView::BlockchainError(fault.message())),
            None => None,
        },
    }
}

/// The validator service: the cache, the ledger client and the rate
/// limiter, under one configuration.
pub struct ValidatorServiceImpl {
    cache: EntitlementCache,
    blockchain: SuiBlockchainClient,
    rate_limiter: RateLimiter,
    config: ValidatorConfig,
}

impl ValidatorServiceImpl {
    /// The rate limiter as it stands.
    pub closed spec fn limiter(&self) -> RateLimiter {
        self.rate_limiter
    }

    /// The seconds that a cached copy lives.
    pub closed spec fn ttl(&self) -> u64 {
        self.cache.ttl()
    }

    /// The configuration that the service was built for.
    pub closed spec fn settings(&self) -> ValidatorConfigView {
        self.config@
    }

    /// The address of the entitlement contract.
    pub closed spec fn contract(&self) -> Seq<u8> {
        self.blockchain.contract()
    }

    /// Whether a request for `entitlement_id` at `now` is admitted.
    pub open spec fn admits_at(&self, entitlement_id: Seq<char>, now: u64) -> bool {
        admits(
            self.limiter().window(entitlement_id),
            now,
            self.limiter().size(),
            self.limiter().limit(),
        )
    }

    /// The service is `before` with one request for `entitlement_id` at
    /// `now` gone through its rate limiter, and nothing else changed.
    pub open spec fn follows(
        &self,
        before: ValidatorServiceImpl,
        entitlement_id: Seq<char>,
        now: u64,
    ) -> bool {
        &&& self.limiter().window(entitlement_id) == after_check(
            before.limiter().window(entitlement_id),
            now,
            before.limiter().size(),
            before.limiter().limit(),
        )
        &&& forall|other: Seq<char>|
            other != entitlement_id ==> self.limiter().window(other) == before.limiter().window(
                other,
            )
        &&& self.limiter().size() == before.limiter().size()
        &&& self.limiter().limit() == before.limiter().limit()
        &&& self.ttl() == before.ttl()
        &&& self.settings() == before.settings()
        &&& self.contract() == before.contract()
    }

    /// A service for `config`, with a rate limiter that has seen no
    /// request. No connection is opened. A store address that the store's
    /// client refuses is reported as `RedisError`; a ledger endpoint or a
    /// contract address that the ledger client refuses as
    /// `BlockchainError`.
    pub fn new(config: ValidatorConfig) -> (service: Result<ValidatorServiceImpl, ValidatorError>)
        ensures
            match service {
                Ok(service) => {
                    &&& service_fault(
                        config.redis_url@,
                        config.sui_rpc_url@,
                        config.contract_address@,
                    ) is None
                    &&& service.settings() == config@
                    &&& Ok::<Seq<u8>, Seq<char>>(service.contract()) == parsed_address(
                        config.contract_address@,
                    )
                    &&& service.ttl() == config.cache_ttl
                    &&& service.limiter().size() == config.rate_limit_window
                    &&& service.limiter().limit() == config.rate_limit_max
                    &&& forall|key: Seq<char>|
                        service.limiter().window(key) == Seq::<u64>::empty()
                },
                Err(error) => service_fault(
                    config.redis_url@,
                    config.sui_rpc_url@,
                    config.contract_address@,
                ) == Some(error@),
            },
    {
        let cache = match EntitlementCache::new(config.redis_url.as_str(), config.cache_ttl) {
            Ok(cache) => cache,
            Err(error) => {
                return Err(error);
            },
        };
        let blockchain = match SuiBlockchainClient::new(
            config.sui_rpc_url.as_str(),
            config.contract_address.as_str(),
        ) {
            Ok(client) => client,
            Err(fault) => {
                return Err(ValidatorError::from_ledger(&fault));
            },
        };
        let rate_limiter = RateLimiter::new(config.rate_limit_window, config.rate_limit_max);
        Ok(ValidatorServiceImpl { cache, blockchain, rate_limiter, config })
    }

    /// The cache.
    pub fn cache(&self) -> (cache: &EntitlementCache)
        ensures
            cache.ttl() == self.ttl(),
    {
        &self.cache
    }

    /// The ledger client.
    pub fn blockchain(&self) -> (client: &SuiBlockchainClient)
        ensures
            client.contract() == self.contract(),
    {
        &self.blockchain
    }

    /// The rate limiter.
    pub fn rate_limiter(&self) -> (limiter: &RateLimiter)
        ensures
            *limiter == self.limiter(),
    {
        &self.rate_limiter
    }

    /// The configuration.
    pub fn config(&self) -> (config: &ValidatorConfig)
        ensures
            config@ == self.settings(),
    {
        &self.config
    }

    /// The business rule: an entitlement may be used at `now` if and only
    /// if it is active and not yet expired.
    pub fn validate_entitlement_data(entitlement: &Entitlement, now: u64) -> (usable: bool)
        ensures
            usable == entitlement@.usable_at(now as int),
    {
        entitlement.is_usable(now)
    }

    /// Puts a request through the rate limiter and takes the first step.
    fn begin(
        &mut self,
        operation: Operation,
        entitlement_id: String,
        signature: String,
        message: String,
        now: u64,
    ) -> (step: Step)
        ensures
            step@ == started(
                operation,
                entitlement_id@,
                signature@,
                message@,
                now,
                old(self).admits_at(entitlement_id@, now),
            ),
            final(self).follows(*old(self), entitlement_id@, now),
    {
        if !self.rate_limiter.check_at(entitlement_id.as_str(), now) {
            return fail(StatusCode::ResourceExhausted, ValidatorError::RateLimitExceeded);
        }
        let unsigned = signature.as_str().is_empty() || message.as_str().is_empty();
        let call = Call {
            operation,
            entitlement_id,
            signature,
            message,
            now,
            pending: Pending::Owner,
            resolved: None,
        };
        match operation {
            Operation::Validate => if unsigned {
                go_read_cache(&self.cache, call)
            } else {
                go_read_ledger(call, Pending::Owner)
            },
            _ => go_read_ledger(call, Pending::Owner),
        }
    }

    /// Begins a validation at `now` (unix seconds).
    pub fn validate_entitlement(&mut self, request: ValidateEntitlementRequest, now: u64) -> (step:
        Step)
        ensures
            step@ == started(
                Operation::Validate,
                request.entitlement_id@,
                request.signature@,
                request.message@,
                now,
                old(self).admits_at(request.entitlement_id@, now),
            ),
            final(self).follows(*old(self), request.entitlement_id@, now),
    {
        self.begin(
            Operation::Validate,
            request.entitlement_id,
            request.signature,
            request.message,
            now,
        )
    }

    /// Begins a consumption at `now` (unix seconds).
    pub fn consume_entitlement(&mut self, request: ConsumeEntitlementRequest, now: u64) -> (step:
        Step)
        ensures
            step@ == started(
                Operation::Consume { amount: request.amount },
                request.entitlement_id@,
                request.signature@,
                request.message@,
                now,
                old(self).admits_at(request.entitlement_id@, now),
            ),
            final(self).follows(*old(self), request.entitlement_id@, now),
    {
        self.begin(
            Operation::Consume { amount: request.amount },
            request.entitlement_id,
            request.signature,
            request.message,
            now,
        )
    }

    /// Begins a signature check at `now` (unix seconds).
    pub fn validate_signature(&mut self, request: ValidateSignatureRequest, now: u64) -> (step:
        Step)
        ensures
            step@ == started(
                Operation::VerifySignature,
                request.entitlement_id@,
                request.signature@,
                request.message@,
                now,
                old(self).admits_at(request.entitlement_id@, now),
            ),
            final(self).follows(*old(self), request.entitlement_id@, now),
    {
        self.begin(
            Operation::VerifySignature,
            request.entitlement_id,
            request.signature,
            request.message,
            now,
        )
    }

    /// The step after the signature of `call` was judged.
    pub fn after_verdict(&self, call: Call, verdict: Result<bool, BlockchainError>) -> (step: Step)
        ensures
            step@ == judged(call@, verdict_view(verdict)),
    {
        match verdict {
            Err(fault) => {
                let code = match fault {
                    BlockchainError::ContractCallError(_) => StatusCode::InvalidArgument,
                    _ => StatusCode::Internal,
                };
                fail(code, ValidatorError::from_ledger(&fault))
            },
            Ok(valid) => if !valid {
                end_refused(call.operation)
            } else {
                match call.operation {
                    Operation::VerifySignature => Step::Done(
                        Reply::Signature { valid: true, error: String::new() },
                    ),
                    _ => go_read_cache(&self.cache, call),
                }
            },
        }
    }

    /// Takes the step that follows on what came of the last one.
    pub fn resume(&self, call: Call, event: Event) -> (step: Step)
        ensures
            step@ == next(call@, event@, self.ttl()),
    {
        proof {
            use_type_invariant(&call);
        }
        match call.pending {
            Pending::Owner => match event {
                Event::Ledger(Ok(entitlement)) => {
                    let verdict = SuiBlockchainClient::validate_entitlement_signature(
                        &entitlement,
                        call.signature.as_str(),
                        call.message.as_str(),
                    );
                    self.after_verdict(call, verdict)
                },
                Event::Ledger(Err(fault)) => go_unfetched(call, fault),
                _ => end_stray(),
            },
            Pending::Cached => match event {
                Event::Cache(reply) => match EntitlementCache::read(reply) {
                    Ok(Some(copy)) => go_resolved(call, copy),
                    Ok(None) => go_read_ledger(call, Pending::Record),
                    Err(_) => go_read_ledger(call, Pending::Record),
                },
                _ => end_stray(),
            },
            Pending::Record => match event {
                Event::Ledger(Ok(entitlement)) => go_fetched(&self.cache, call, entitlement),
                Event::Ledger(Err(fault)) => go_unfetched(call, fault),
                _ => end_stray(),
            },
            Pending::Populated => match event {
                Event::Cache(_) => {
                    let copy = match &call.resolved {
                        Some(copy) => copy.duplicate(),
                        None => {
                            return end_stray();
                        },
                    };
                    go_settle(call, copy)
                },
                _ => end_stray(),
            },
            Pending::Settled => match event {
                Event::Consumption(Ok(_)) => go_consumed(&self.cache, call),
                Event::Consumption(Err(fault)) => fail_ledger(&fault),
                _ => end_stray(),
            },
            Pending::Refreshed => match event {
                Event::Cache(_) => go_finished(call),
                _ => end_stray(),
            },
        }
    }
}

} // verus!
