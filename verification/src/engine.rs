//! The settlement engine.
//!
//! One relayed message runs the whole pipeline in a strict order —
//! provenance guard, payload codec, replay guard — and, only when every
//! check passes, produces exactly one balance-transfer instruction and a
//! receipt. The pipeline is fail-fast: on any failure the settled set is
//! untouched and no transfer is produced, so the caller's atomic unit of
//! work commits either everything or nothing.

use vstd::prelude::*;

use crate::auth::{authorize, authorize_spec, RemoteSender};
use crate::codec::{decode_its_payload, decode_spec};
use crate::config::State;
use crate::errors::{ContractError, DecodeError};
use crate::replay::{MessageId, SettledSet, SettlementRecord};

verus! {

/// The single outbound balance-transfer effect of a settlement: an
/// instruction to the ledger to move `amount` of `denom` to `to_address`.
#[derive(Debug)]
pub struct BankTransfer {
    pub to_address: String,
    pub denom: String,
    pub amount: u128,
}

/// The observability record of one successful settlement, for off-chain
/// auditing and reconciliation.
#[derive(Debug)]
pub struct SettlementReceipt {
    pub source_chain: String,
    pub source_address: String,
    pub recipient: String,
    pub amount: u128,
    pub token: String,
}

/// What a successful settlement produces: the one transfer instruction and
/// the receipt.
#[derive(Debug)]
pub struct SettlementOutcome {
    pub transfer: BankTransfer,
    pub receipt: SettlementReceipt,
}

/// The inbound call surface: the messages the gateway may relay.
#[derive(Debug)]
pub enum ExecuteMsg {
    /// A cross-chain message: where it came from, and its raw payload.
    ReceiveMessage { source_chain: String, source_address: String, payload: Vec<u8> },
}

/// What one settlement call returns, for every input: the decoded
/// `(recipient, amount, token)` transfer, or the exact error — after
/// authorization, decoding and the replay check, in that order.
pub open spec fn receive_spec(
    gateway: Seq<char>,
    allow: Seq<RemoteSender>,
    denoms: Seq<Seq<char>>,
    settled: Seq<(Seq<char>, Seq<char>, Seq<u8>)>,
    caller: Seq<char>,
    source_chain: Seq<char>,
    source_address: Seq<char>,
    payload: Seq<u8>,
) -> Result<(Seq<char>, u128, Seq<char>), ContractError> {
    match authorize_spec(gateway, allow, caller, source_chain, source_address) {
        Err(e) => Err(e),
        Ok(_) => match decode_spec(payload, denoms) {
            Err(e) => Err(ContractError::Decode(e)),
            Ok(v) => if settled.contains((source_chain, source_address, payload)) {
                Err(ContractError::AlreadySettled)
            } else {
                Ok(v)
            },
        },
    }
}

/// What settling one message guarantees: the result matches
/// [`receive_spec`]; on failure the settled set is untouched; on success
/// the receipt repeats the transfer and the source, and the settled set
/// grows by exactly the settled message's id and record.
pub open spec fn settle_post(
    gateway: Seq<char>,
    allow: Seq<RemoteSender>,
    denoms: Seq<Seq<char>>,
    pre: SettledSet,
    post: SettledSet,
    caller: Seq<char>,
    source_chain: Seq<char>,
    source_address: Seq<char>,
    payload: Seq<u8>,
    marker: u64,
    r: Result<SettlementOutcome, ContractError>,
) -> bool {
    match r {
        Err(e) => {
            &&& receive_spec(
                gateway,
                allow,
                denoms,
                pre.ids(),
                caller,
                source_chain,
                source_address,
                payload,
            ) == Err::<(Seq<char>, u128, Seq<char>), ContractError>(e)
            &&& post == pre
        },
        Ok(out) => {
            &&& receive_spec(
                gateway,
                allow,
                denoms,
                pre.ids(),
                caller,
                source_chain,
                source_address,
                payload,
            ) == Ok::<(Seq<char>, u128, Seq<char>), ContractError>(
                (out.transfer.to_address@, out.transfer.amount, out.transfer.denom@),
            )
            &&& out.receipt.recipient@ == out.transfer.to_address@
            &&& out.receipt.amount == out.transfer.amount
            &&& out.receipt.token@ == out.transfer.denom@
            &&& out.receipt.source_chain@ == source_chain
            &&& out.receipt.source_address@ == source_address
            &&& post.entries@.len() == pre.entries@.len() + 1
            &&& post.ids() == pre.ids().push((source_chain, source_address, payload))
            &&& post.entries@.subrange(0, pre.entries@.len() as int) == pre.entries@
            &&& post.entries@.last().record.recipient@ == out.transfer.to_address@
            &&& post.entries@.last().record.amount == out.transfer.amount
            &&& post.entries@.last().record.token@ == out.transfer.denom@
            &&& post.entries@.last().record.marker == marker
        },
    }
}

/// Settles one relayed message: authorizes the caller and the source,
/// decodes the payload, admits the message id, and emits exactly one
/// transfer. On any failure, nothing changes.
pub fn execute_receive_message(
    config: &State,
    allowlist: &Vec<RemoteSender>,
    denoms: &Vec<String>,
    settled: &mut SettledSet,
    caller: &String,
    source_chain: String,
    source_address: String,
    payload: Vec<u8>,
    marker: u64,
) -> (r: Result<SettlementOutcome, ContractError>)
    ensures
        settle_post(
            config.axelar_gateway@,
            allowlist@,
            denoms.deep_view(),
            *old(settled),
            *final(settled),
            caller@,
            source_chain@,
            source_address@,
            payload@,
            marker,
            r,
        ),
        old(settled).wf() ==> final(settled).wf(),
{
    match authorize(caller, &source_chain, &source_address, config, allowlist) {
        Err(e) => {
            return Err(e);
        },
        Ok(_) => {},
    }
    let ti = match decode_its_payload(&payload, denoms) {
        Err(e) => {
            return Err(ContractError::Decode(e));
        },
        Ok(ti) => ti,
    };
    let id = MessageId {
        source_chain: source_chain.clone(),
        source_address: source_address.clone(),
        payload,
    };
    let record = SettlementRecord {
        recipient: ti.recipient.clone(),
        amount: ti.amount,
        token: ti.token.clone(),
        marker,
    };
    match settled.mark_settled(id, record) {
        Err(e) => {
            return Err(e);
        },
        Ok(_) => {},
    }
    let transfer = BankTransfer {
        to_address: ti.recipient.clone(),
        denom: ti.token.clone(),
        amount: ti.amount,
    };
    let receipt = SettlementReceipt {
        source_chain,
        source_address,
        recipient: ti.recipient,
        amount: ti.amount,
        token: ti.token,
    };
    Ok(SettlementOutcome { transfer, receipt })
}

/// Handles an inbound call: dispatches on the message kind and settles.
pub fn execute(
    config: &State,
    allowlist: &Vec<RemoteSender>,
    denoms: &Vec<String>,
    settled: &mut SettledSet,
    caller: &String,
    marker: u64,
    msg: ExecuteMsg,
) -> (r: Result<SettlementOutcome, ContractError>)
    ensures
        (match msg {
            ExecuteMsg::ReceiveMessage { source_chain, source_address, payload } => settle_post(
                config.axelar_gateway@,
                allowlist@,
                denoms.deep_view(),
                *old(settled),
                *final(settled),
                caller@,
                source_chain@,
                source_address@,
                payload@,
                marker,
                r,
            ),
        }),
        old(settled).wf() ==> final(settled).wf(),
{
    match msg {
        ExecuteMsg::ReceiveMessage { source_chain, source_address, payload } => {
            execute_receive_message(
                config,
                allowlist,
                denoms,
                settled,
                caller,
                source_chain,
                source_address,
                payload,
                marker,
            )
        },
    }
}

/// A caller that is not the trusted gateway is turned away as
/// `Unauthorized`, whatever the source, the payload and the history.
pub proof fn lemma_unauthorized_rejected(
    gateway: Seq<char>,
    allow: Seq<RemoteSender>,
    denoms: Seq<Seq<char>>,
    settled: Seq<(Seq<char>, Seq<char>, Seq<u8>)>,
    caller: Seq<char>,
    source_chain: Seq<char>,
    source_address: Seq<char>,
    payload: Seq<u8>,
)
    requires
        caller != gateway,
    ensures
        receive_spec(gateway, allow, denoms, settled, caller, source_chain, source_address, payload)
            == Err::<(Seq<char>, u128, Seq<char>), ContractError>(ContractError::Unauthorized),
{
}

/// With a non-empty allow-list, a remote pair that is not a member is
/// turned away as `UntrustedSource`, however valid the payload.
pub proof fn lemma_untrusted_source_rejected(
    gateway: Seq<char>,
    allow: Seq<RemoteSender>,
    denoms: Seq<Seq<char>>,
    settled: Seq<(Seq<char>, Seq<char>, Seq<u8>)>,
    source_chain: Seq<char>,
    source_address: Seq<char>,
    payload: Seq<u8>,
)
    requires
        allow.len() > 0,
        forall|i: int|
            0 <= i < allow.len() ==> !((#[trigger] allow[i]).source_chain@ == source_chain
                && allow[i].source_address@ == source_address),
    ensures
        receive_spec(
            gateway,
            allow,
            denoms,
            settled,
            gateway,
            source_chain,
            source_address,
            payload,
        ) == Err::<(Seq<char>, u128, Seq<char>), ContractError>(ContractError::UntrustedSource),
{
}

/// No double credit: a message that settles once is rejected as
/// `AlreadySettled` when the identical triple is replayed against the
/// grown settled set.
pub proof fn lemma_replay_rejected(
    gateway: Seq<char>,
    allow: Seq<RemoteSender>,
    denoms: Seq<Seq<char>>,
    settled: Seq<(Seq<char>, Seq<char>, Seq<u8>)>,
    caller: Seq<char>,
    source_chain: Seq<char>,
    source_address: Seq<char>,
    payload: Seq<u8>,
)
    requires
        receive_spec(
            gateway,
            allow,
            denoms,
            settled,
            caller,
            source_chain,
            source_address,
            payload,
        ) matches Ok(_),
    ensures
        receive_spec(
            gateway,
            allow,
            denoms,
            settled.push((source_chain, source_address, payload)),
            caller,
            source_chain,
            source_address,
            payload,
        ) == Err::<(Seq<char>, u128, Seq<char>), ContractError>(ContractError::AlreadySettled),
{
    let grown = settled.push((source_chain, source_address, payload));
    assert(grown[grown.len() - 1] == (source_chain, source_address, payload));
    assert(grown.contains((source_chain, source_address, payload)));
}

/// Fidelity: when authorization, decoding and the replay check all pass,
/// the transfer is exactly the decoded `(recipient, amount, token)` triple
/// — no rounding, no deduction.
pub proof fn lemma_transfer_fidelity(
    gateway: Seq<char>,
    allow: Seq<RemoteSender>,
    denoms: Seq<Seq<char>>,
    settled: Seq<(Seq<char>, Seq<char>, Seq<u8>)>,
    caller: Seq<char>,
    source_chain: Seq<char>,
    source_address: Seq<char>,
    payload: Seq<u8>,
    recipient: Seq<char>,
    amount: u128,
    token: Seq<char>,
)
    requires
        authorize_spec(gateway, allow, caller, source_chain, source_address) == Ok::<
            (),
            ContractError,
        >(()),
        decode_spec(payload, denoms) == Ok::<(Seq<char>, u128, Seq<char>), DecodeError>(
            (recipient, amount, token),
        ),
        !settled.contains((source_chain, source_address, payload)),
    ensures
        receive_spec(gateway, allow, denoms, settled, caller, source_chain, source_address, payload)
            == Ok::<(Seq<char>, u128, Seq<char>), ContractError>((recipient, amount, token)),
{
}

} // verus!
