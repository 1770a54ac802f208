//! The construction of a signed transfer, step by step.
//!
//! A construction asks for one piece of outside work at a time (an
//! [`Action`]) and is told how it went (an [`Event`]). It runs through the
//! stages
//!
//! `ResolveSchema → EncodeCall → FetchChainFacts → Sign → VerifySignature →
//! Submit → Done`
//!
//! and ends in `Failed` at the first failure. Nothing is tried again, and an
//! extrinsic is handed out only after its signature was verified.

use crate::address::{
    account_storage_path, address_key, address_refused, get_address, storage_path, PublicKey,
};
use crate::call::{
    call_bytes, construct_extrinsic_data, construct_transfer_call, resolution_refused,
    resolve_call, resolved, CallArgs, CallDescriptor, PalletEntry,
};
use crate::chain::{
    account_nonce, account_nonce_of, nonce_refused, runtime_versions, runtime_versions_of,
    runtime_versions_refused,
};
use crate::extrinsic::{assemble_checked, extrinsic_bytes, extrinsic_fits, size_refused};
use crate::model::error::{Cause, Error};
use crate::params::{additional_bytes, extra_bytes, IMMORTAL_ERA};
use crate::payload::{prepare_for_signing, signer_input, signing_payload};
use vstd::prelude::*;
use vstd::string::StringExecFns;

verus! {

/// Where a construction stands: the outside work it waits for, or how it
/// ended.
#[derive(Clone, Copy, Debug, PartialEq, Eq, Structural)]
pub enum Stage {
    ResolveSchema,
    EncodeCall,
    FetchChainFacts,
    Sign,
    VerifySignature,
    Submit,
    Done,
    Failed,
}

/// What the metadata gave for the runtime's version.
#[derive(Debug)]
pub enum VersionConstant {
    /// The metadata has no `System` pallet.
    NoSystemPallet,
    /// The `System` pallet has no `Version` constant.
    NoVersionConstant,
    /// The constant, decoded, as JSON text.
    Decoded(String),
}

/// What the chain reported for the signing account and for itself.
#[derive(Debug)]
pub struct ChainFacts {
    /// The state of the signing account, as JSON text.
    pub account_info: String,
    /// The runtime's version.
    pub version: VersionConstant,
    /// The hash of the genesis block.
    pub genesis: Vec<u8>,
}

/// How a piece of outside work went.
#[derive(Debug)]
pub enum Event {
    /// The metadata was read: what it holds for the pallet asked for.
    Pallet(Option<PalletEntry>),
    /// The codec encoded the arguments of the call.
    CallEncoded(Vec<u8>),
    /// The chain reported its facts.
    ChainFacts(ChainFacts),
    /// The signer signed.
    Signed(Vec<u8>),
    /// The signer checked the signature: whether it holds.
    Verified(bool),
    /// The node took the extrinsic.
    Submitted,
    /// The work failed.
    Failed(Error),
}

/// The outside work to do next.
#[derive(Debug)]
pub enum Action {
    /// Read from the metadata what it holds for this pallet.
    ResolveCall { pallet: String },
    /// Encode the arguments of this call with the chain's codec.
    EncodeCall(CallDescriptor),
    /// Fetch the state stored under this path, the runtime's version and
    /// the hash of the genesis block.
    FetchChainFacts { account: String },
    /// Sign this message.
    Sign { message: Vec<u8> },
    /// Check this signature against this payload and this signer.
    Verify { payload: Vec<u8>, signature: Vec<u8>, signer: PublicKey },
    /// Send this extrinsic to the node.
    Submit { extrinsic: Vec<u8> },
    /// The transfer was submitted: nothing is left to do.
    Finish,
    /// The construction failed with this error: nothing is sent.
    Abort(Error),
    /// The construction had ended before: the event was ignored.
    Stop,
}

/// The construction of one transfer.
#[derive(Debug)]
pub struct Transfer {
    stage: Stage,
    signer: PublicKey,
    dest: String,
    value: u128,
    pallet_index: u8,
    call: Vec<u8>,
    extra: Vec<u8>,
    payload: Vec<u8>,
    signature: Vec<u8>,
}

/// A construction as contracts speak of it.
pub struct TransferView {
    pub stage: Stage,
    /// The public key of the account that pays and signs.
    pub signer: Seq<u8>,
    /// The address of the account that receives.
    pub dest: Seq<char>,
    /// The amount to move.
    pub value: u128,
    pub pallet_index: u8,
    /// The bytes of the call, once it is encoded.
    pub call: Seq<u8>,
    /// The extra data, once the chain's facts are in.
    pub extra: Seq<u8>,
    /// The signing payload, as it is before any hashing.
    pub payload: Seq<u8>,
    /// The signature, once the signer gave it.
    pub signature: Seq<u8>,
}

impl View for Transfer {
    type V = TransferView;

    closed spec fn view(&self) -> TransferView {
        TransferView {
            stage: self.stage,
            signer: self.signer@,
            dest: self.dest@,
            value: self.value,
            pallet_index: self.pallet_index,
            call: self.call@,
            extra: self.extra@,
            payload: self.payload@,
            signature: self.signature@,
        }
    }
}

impl Stage {
    /// Whether the construction has ended.
    pub open spec fn is_terminal(self) -> bool {
        self == Stage::Done || self == Stage::Failed
    }
}

/// Whether `error` is of the kind that belongs to a failure at `stage`.
pub open spec fn stage_error(stage: Stage, error: Error) -> bool {
    match stage {
        Stage::ResolveSchema => error is Schema,
        Stage::EncodeCall => error is Codec,
        Stage::FetchChainFacts => error is Sube,
        Stage::Sign => error is Wallet,
        Stage::VerifySignature => error is Wallet,
        Stage::Submit => error is Sube,
        Stage::Done => false,
        Stage::Failed => false,
    }
}

/// The construction ends in failure and keeps what it had gathered.
pub open spec fn aborted(before: TransferView, after: TransferView, action: Action) -> bool {
    &&& after == TransferView { stage: Stage::Failed, ..before }
    &&& action is Abort
}

/// An event that the stage does not wait for ends the construction with an
/// error of the stage's kind.
pub open spec fn misplaced(before: TransferView, after: TransferView, action: Action) -> bool {
    &&& aborted(before, after, action)
    &&& action matches Action::Abort(error)
    &&& stage_error(before.stage, error)
    &&& error.cause()@ == "unexpected event"@
}

/// The step from `ResolveSchema`: the call is resolved and the receiving
/// address read, and the call goes out to be encoded.
pub open spec fn pallet_read(
    before: TransferView,
    pallet: Option<PalletEntry>,
    after: TransferView,
    action: Action,
) -> bool {
    match resolved(pallet) {
        None => aborted(before, after, action) && resolution_refused(pallet, action->Abort_0),
        Some((index, call_type_id)) => match address_key(before.dest) {
            None => aborted(before, after, action) && address_refused(
                before.dest,
                action->Abort_0,
            ),
            Some(key) => {
                &&& after == TransferView {
                    stage: Stage::EncodeCall,
                    pallet_index: index,
                    ..before
                }
                &&& action matches Action::EncodeCall(descriptor)
                &&& descriptor.pallet_index == index
                &&& descriptor.call_type_id == call_type_id
                &&& descriptor.args matches CallArgs::Transfer { dest, value }
                &&& dest@ == key
                &&& value == before.value
            },
        },
    }
}

/// The step from `EncodeCall`: the pallet's index goes in front of the
/// encoded arguments, and the chain's facts are asked for.
pub open spec fn call_encoded(
    before: TransferView,
    call_data: Seq<u8>,
    after: TransferView,
    action: Action,
) -> bool {
    &&& after == TransferView {
        stage: Stage::FetchChainFacts,
        call: call_bytes(before.pallet_index, call_data),
        ..before
    }
    &&& action matches Action::FetchChainFacts { account }
    &&& account@ == storage_path(before.signer)
}

/// The nonce and the two versions that the chain's facts give.
pub open spec fn facts_read(facts: ChainFacts) -> Option<(u64, u32, u32)> {
    match (account_nonce_of(facts.account_info@), facts.version) {
        (Some(nonce), VersionConstant::Decoded(text)) => match runtime_versions_of(text@) {
            Some((spec_version, transaction_version)) => Some(
                (nonce, spec_version, transaction_version),
            ),
            None => None,
        },
        _ => None,
    }
}

/// The error that facts without a nonce or without versions are refused
/// with. An unreadable nonce comes first.
pub open spec fn facts_refused(facts: ChainFacts, error: Error) -> bool {
    if account_nonce_of(facts.account_info@) is None {
        nonce_refused(facts.account_info@, error)
    } else {
        match facts.version {
            VersionConstant::NoSystemPallet => error matches Error::Schema(cause) && cause@
                == "System pallet not found on metadata"@,
            VersionConstant::NoVersionConstant => error matches Error::Schema(cause) && cause@
                == "System_Version constant not found"@,
            VersionConstant::Decoded(text) => runtime_versions_refused(text@, error),
        }
    }
}

/// The step from `FetchChainFacts`: the extra data and the signing payload
/// are built, and what the signer is to sign goes out.
pub open spec fn facts_received(
    before: TransferView,
    facts: ChainFacts,
    after: TransferView,
    action: Action,
) -> bool {
    match facts_read(facts) {
        None => aborted(before, after, action) && facts_refused(facts, action->Abort_0),
        Some((nonce, spec_version, transaction_version)) => {
            let extra = extra_bytes(IMMORTAL_ERA, nonce as nat, 0);
            let additional = additional_bytes(
                spec_version,
                transaction_version,
                facts.genesis@,
                facts.genesis@,
            );
            &&& after == TransferView {
                stage: Stage::Sign,
                extra: extra,
                payload: signing_payload(before.call, extra, additional),
                ..before
            }
            &&& action matches Action::Sign { message }
            &&& message@ == signer_input(after.payload)
        },
    }
}

/// The step from `Sign`: the signature is kept, and goes out to be checked
/// against the payload as it was before any hashing.
pub open spec fn signed(
    before: TransferView,
    signature: Seq<u8>,
    after: TransferView,
    action: Action,
) -> bool {
    &&& after == TransferView { stage: Stage::VerifySignature, signature: signature, ..before }
    &&& action matches Action::Verify { payload, signature: checked, signer }
    &&& payload@ == before.payload
    &&& checked@ == signature
    &&& signer@ == before.signer
}

/// The step from `VerifySignature`: a signature that holds lets the
/// extrinsic be assembled and sent; one that does not ends the construction.
pub open spec fn verified(before: TransferView, holds: bool, after: TransferView, action: Action) -> bool {
    if !holds {
        &&& aborted(before, after, action)
        &&& action matches Action::Abort(Error::Wallet(cause))
        &&& cause@ == "Signature could not be verifiable"@
    } else if !extrinsic_fits(before.signature.len(), before.extra.len(), before.call.len()) {
        aborted(before, after, action) && size_refused(action->Abort_0)
    } else {
        &&& after == TransferView { stage: Stage::Submit, ..before }
        &&& action matches Action::Submit { extrinsic }
        &&& extrinsic@ == extrinsic_bytes(
            before.signer,
            before.signature,
            before.extra,
            before.call,
        )
    }
}

/// What one step does: the state before it, the event, the state after it
/// and the action it asks for.
pub open spec fn transition(
    before: TransferView,
    event: Event,
    after: TransferView,
    action: Action,
) -> bool {
    if before.stage.is_terminal() {
        after == before && action is Stop
    } else {
        match event {
            Event::Failed(error) => aborted(before, after, action) && action == Action::Abort(
                error,
            ),
            Event::Pallet(pallet) => if before.stage == Stage::ResolveSchema {
                pallet_read(before, pallet, after, action)
            } else {
                misplaced(before, after, action)
            },
            Event::CallEncoded(call_data) => if before.stage == Stage::EncodeCall {
                call_encoded(before, call_data@, after, action)
            } else {
                misplaced(before, after, action)
            },
            Event::ChainFacts(facts) => if before.stage == Stage::FetchChainFacts {
                facts_received(before, facts, after, action)
            } else {
                misplaced(before, after, action)
            },
            Event::Signed(signature) => if before.stage == Stage::Sign {
                signed(before, signature@, after, action)
            } else {
                misplaced(before, after, action)
            },
            Event::Verified(holds) => if before.stage == Stage::VerifySignature {
                verified(before, holds, after, action)
            } else {
                misplaced(before, after, action)
            },
            Event::Submitted => if before.stage == Stage::Submit {
                after == TransferView { stage: Stage::Done, ..before } && action is Finish
            } else {
                misplaced(before, after, action)
            },
        }
    }
}

impl Transfer {
    /// Begins the construction of a transfer of `value` from the account of
    /// `signer` to the account at the address `dest`. The first thing to do
    /// is to read the `Balances` pallet from the metadata.
    pub fn new(signer: PublicKey, dest: &str, value: u128) -> (out: (Transfer, Action))
        ensures
            out.0@ == (TransferView {
                stage: Stage::ResolveSchema,
                signer: signer@,
                dest: dest@,
                value: value,
                pallet_index: 0,
                call: Seq::empty(),
                extra: Seq::empty(),
                payload: Seq::empty(),
                signature: Seq::empty(),
            }),
            out.1 matches Action::ResolveCall { pallet } && pallet@ == "Balances"@,
    {
        let transfer = Transfer {
            stage: Stage::ResolveSchema,
            signer,
            dest: String::from_str(dest),
            value,
            pallet_index: 0,
            call: Vec::new(),
            extra: Vec::new(),
            payload: Vec::new(),
            signature: Vec::new(),
        };
        (transfer, Action::ResolveCall { pallet: String::from_str("Balances") })
    }

    /// The stage at which the construction stands.
    pub fn stage(&self) -> (stage: Stage)
        ensures
            stage == self@.stage,
    {
        self.stage
    }

    /// Ends the construction with `error`.
    fn abort(&mut self, error: Error) -> (action: Action)
        ensures
            aborted(old(self)@, final(self)@, action),
            action == Action::Abort(error),
    {
        self.stage = Stage::Failed;
        Action::Abort(error)
    }

    /// Ends the construction over an event that its stage does not wait for.
    fn refuse(&mut self) -> (action: Action)
        requires
            !old(self)@.stage.is_terminal(),
        ensures
            misplaced(old(self)@, final(self)@, action),
    {
        let cause = Cause::from("unexpected event");
        let error = match self.stage {
            Stage::ResolveSchema => Error::Schema(cause),
            Stage::EncodeCall => Error::Codec(cause),
            Stage::FetchChainFacts => Error::Sube(cause),
            Stage::Sign => Error::Wallet(cause),
            Stage::VerifySignature => Error::Wallet(cause),
            _ => Error::Sube(cause),
        };
        self.abort(error)
    }

    fn on_pallet(&mut self, pallet: Option<PalletEntry>) -> (action: Action)
        ensures
            pallet_read(old(self)@, pallet, final(self)@, action),
    {
        let (index, call_type_id) = match resolve_call(pallet) {
            Ok(found) => found,
            Err(error) => {
                return self.abort(error);
            },
        };
        let dest = match get_address(self.dest.as_str()) {
            Ok(key) => key,
            Err(error) => {
                return self.abort(error);
            },
        };
        self.pallet_index = index;
        self.stage = Stage::EncodeCall;
        Action::EncodeCall(
            CallDescriptor {
                pallet_index: index,
                call_type_id,
                args: CallArgs::Transfer { dest, value: self.value },
            },
        )
    }

    fn on_call_encoded(&mut self, call_data: Vec<u8>) -> (action: Action)
        ensures
            call_encoded(old(self)@, call_data@, final(self)@, action),
    {
        self.call = construct_transfer_call(self.pallet_index, call_data.as_slice());
        self.stage = Stage::FetchChainFacts;
        Action::FetchChainFacts { account: account_storage_path(&self.signer) }
    }

    fn on_chain_facts(&mut self, facts: ChainFacts) -> (action: Action)
        ensures
            facts_received(old(self)@, facts, final(self)@, action),
    {
        let ChainFacts { account_info, version, genesis } = facts;
        let nonce = match account_nonce(account_info.as_str()) {
            Ok(nonce) => nonce,
            Err(error) => {
                return self.abort(error);
            },
        };
        let versions = match version {
            VersionConstant::NoSystemPallet => {
                return self.abort(
                    Error::Schema(Cause::from("System pallet not found on metadata")),
                );
            },
            VersionConstant::NoVersionConstant => {
                return self.abort(Error::Schema(Cause::from("System_Version constant not found")));
            },
            VersionConstant::Decoded(text) => match runtime_versions(text.as_str()) {
                Ok(versions) => versions,
                Err(error) => {
                    return self.abort(error);
                },
            },
        };
        let (extra, payload) = construct_extrinsic_data(
            self.call.as_slice(),
            nonce,
            versions.0,
            versions.1,
            genesis.as_slice(),
        );
        let message = prepare_for_signing(payload.as_slice());
        self.extra = extra;
        self.payload = payload;
        self.stage = Stage::Sign;
        Action::Sign { message }
    }

    fn on_signed(&mut self, signature: Vec<u8>) -> (action: Action)
        ensures
            signed(old(self)@, signature@, final(self)@, action),
    {
        let payload = vstd::slice::slice_to_vec(self.payload.as_slice());
        let checked = vstd::slice::slice_to_vec(signature.as_slice());
        self.signature = signature;
        self.stage = Stage::VerifySignature;
        Action::Verify { payload, signature: checked, signer: self.signer }
    }

    fn on_verified(&mut self, holds: bool) -> (action: Action)
        ensures
            verified(old(self)@, holds, final(self)@, action),
    {
        if !holds {
            return self.abort(Error::Wallet(Cause::from("Signature could not be verifiable")));
        }
        match assemble_checked(
            &self.signer,
            self.signature.as_slice(),
            self.extra.as_slice(),
            self.call.as_slice(),
        ) {
            Ok(extrinsic) => {
                self.stage = Stage::Submit;
                Action::Submit { extrinsic }
            },
            Err(error) => self.abort(error),
        }
    }

    /// Takes the outcome of the work that was asked for last, and says what
    /// to do next.
    ///
    /// A failure, or an event that the stage does not wait for, ends the
    /// construction. Once it has ended, every event is answered with
    /// `Stop` and changes nothing.
    pub fn step(&mut self, event: Event) -> (action: Action)
        ensures
            transition(old(self)@, event, final(self)@, action),
    {
        match self.stage {
            Stage::Done => {
                return Action::Stop;
            },
            Stage::Failed => {
                return Action::Stop;
            },
            _ => {},
        }
        match event {
            Event::Failed(error) => self.abort(error),
            Event::Pallet(pallet) => match self.stage {
                Stage::ResolveSchema => self.on_pallet(pallet),
                _ => self.refuse(),
            },
            Event::CallEncoded(call_data) => match self.stage {
                Stage::EncodeCall => self.on_call_encoded(call_data),
                _ => self.refuse(),
            },
            Event::ChainFacts(facts) => match self.stage {
                Stage::FetchChainFacts => self.on_chain_facts(facts),
                _ => self.refuse(),
            },
            Event::Signed(signature) => match self.stage {
                Stage::Sign => self.on_signed(signature),
                _ => self.refuse(),
            },
            Event::Verified(holds) => match self.stage {
                Stage::VerifySignature => self.on_verified(holds),
                _ => self.refuse(),
            },
            Event::Submitted => match self.stage {
                Stage::Submit => {
                    self.stage = Stage::Done;
                    Action::Finish
                },
                _ => self.refuse(),
            },
        }
    }
}

/// The stage that follows `stage` when its work succeeds.
pub open spec fn following(stage: Stage) -> Stage {
    match stage {
        Stage::ResolveSchema => Stage::EncodeCall,
        Stage::EncodeCall => Stage::FetchChainFacts,
        Stage::FetchChainFacts => Stage::Sign,
        Stage::Sign => Stage::VerifySignature,
        Stage::VerifySignature => Stage::Submit,
        Stage::Submit => Stage::Done,
        Stage::Done => Stage::Done,
        Stage::Failed => Stage::Failed,
    }
}

/// A construction that has ended stays as it is, whatever it is told.
pub proof fn lemma_ended_stays(
    before: TransferView,
    event: Event,
    after: TransferView,
    action: Action,
)
    requires
        transition(before, event, after, action),
        before.stage.is_terminal(),
    ensures
        after == before,
        action is Stop,
{
}

/// A step of a running construction either moves on to the following stage
/// or fails; it never skips a stage, repeats one or goes back. It fails
/// exactly when it answers with `Abort`, and a reported failure always ends
/// it.
pub proof fn lemma_one_stage_at_a_time(
    before: TransferView,
    event: Event,
    after: TransferView,
    action: Action,
)
    requires
        transition(before, event, after, action),
        !before.stage.is_terminal(),
    ensures
        after.stage == following(before.stage) || after.stage == Stage::Failed,
        after.stage == Stage::Failed <==> action is Abort,
        event is Failed ==> after.stage == Stage::Failed,
        after.signer == before.signer && after.dest == before.dest && after.value
            == before.value,
{
}

/// An extrinsic goes out only on word that its signature holds, and it is
/// the signer's key, that signature, the extra data and the call laid out as
/// an extrinsic.
pub proof fn lemma_submit_only_verified(
    before: TransferView,
    event: Event,
    after: TransferView,
    action: Action,
)
    requires
        transition(before, event, after, action),
        action is Submit,
    ensures
        before.stage == Stage::VerifySignature,
        event == Event::Verified(true),
        action->extrinsic@ == extrinsic_bytes(
            before.signer,
            before.signature,
            before.extra,
            before.call,
        ),
{
}

/// The signer is handed the payload as prepared for signing, its digest
/// where it is long; the check of the signature is asked against the
/// payload itself, and for the signature just received.
pub proof fn lemma_sign_prepared_verify_payload(
    before: TransferView,
    event: Event,
    after: TransferView,
    action: Action,
)
    requires
        transition(before, event, after, action),
    ensures
        action matches Action::Sign { message } ==> message@ == signer_input(after.payload),
        action matches Action::Verify { payload, signature, signer } ==> {
            &&& payload@ == after.payload
            &&& after.payload == before.payload
            &&& event matches Event::Signed(given)
            &&& signature@ == given@
            &&& signer@ == after.signer
        },
{
}

/// A signature that does not hold ends the construction with a wallet
/// error, whatever else is true of it.
pub proof fn lemma_bad_signature_fails(
    before: TransferView,
    after: TransferView,
    action: Action,
)
    requires
        transition(before, Event::Verified(false), after, action),
        before.stage == Stage::VerifySignature,
    ensures
        after.stage == Stage::Failed,
        action matches Action::Abort(error) && error is Wallet,
{
}

/// A construction that runs from its beginning to `Submit` sends the
/// extrinsic made of what it was told on the way: the call is the pallet's
/// index and the encoded arguments, the extra data hold the account's nonce
/// and no tip, and the signature is the one that was verified.
pub proof fn lemma_whole_run(
    start: TransferView,
    pallet: Option<PalletEntry>,
    call_data: Vec<u8>,
    facts: ChainFacts,
    signature: Vec<u8>,
    states: Seq<TransferView>,
    actions: Seq<Action>,
)
    requires
        start.stage == Stage::ResolveSchema,
        states.len() == 5,
        actions.len() == 5,
        transition(start, Event::Pallet(pallet), states[0], actions[0]),
        transition(states[0], Event::CallEncoded(call_data), states[1], actions[1]),
        transition(states[1], Event::ChainFacts(facts), states[2], actions[2]),
        transition(states[2], Event::Signed(signature), states[3], actions[3]),
        transition(states[3], Event::Verified(true), states[4], actions[4]),
        states[4].stage == Stage::Submit,
    ensures
        ({
            &&& resolved(pallet) matches Some((index, _))
            &&& facts_read(facts) matches Some((nonce, _, _))
            &&& actions[4] matches Action::Submit { extrinsic }
            &&& extrinsic@ == extrinsic_bytes(
                start.signer,
                signature@,
                extra_bytes(IMMORTAL_ERA, nonce as nat, 0),
                call_bytes(index, call_data@),
            )
        }),
{
}

} // verus!
