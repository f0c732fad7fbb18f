//! The runtime-side dispatcher, as a per-call state machine.
//!
//! A call is handled as a short exchange with the host: the machine names
//! the next outside action (read the inbound buffer, charge weight, call
//! the token module, write the outbound buffer), the host performs it and
//! answers with an event, and the machine decides the next step. All
//! decisions stand here and are verified; the outside work — the buffers,
//! the metering subsystem and the token module itself — belongs to the
//! host, which an unverified driver talks to.
//!
//! The one ordering invariant of the whole bridge lives here: the weight
//! charge is demanded, and must be answered, before the module's mutating
//! transfer is ever requested — charge-then-mutate, never the reverse.

use vstd::prelude::*;
use crate::account::AccountId;
use crate::error::DispatchFailure;
use crate::selector::{FuncId, Query, FUNC_ID_GET_OWNER, FUNC_ID_TRANSFER};
use crate::wire::{
    decode_transfer_input, encode_owner_result, opt_account_bytes, owner_result_bytes,
    transfer_input_bytes, u32_le, TransferInput, TRANSFER_INPUT_LEN,
};

verus! {

/// What the machine asks the host to do next.
#[derive(Debug)]
pub enum Action {
    /// End the call, reporting the failure to the caller.
    Fail(DispatchFailure),
    /// Read the inbound payload buffer.
    ReadInput,
    /// Charge this much weight against the caller's budget.
    ChargeWeight(u64),
    /// Ask the token module who owns the item (collection id, item id).
    QueryOwner(u32, u32),
    /// Ask the token module to move the item to the destination.
    TransferItem(TransferInput),
    /// Write these bytes to the outbound buffer.
    WriteOutput(Vec<u8>),
    /// End the call successfully.
    Succeed,
}

/// The host's answer to the pending action.
#[derive(Debug)]
pub enum Event {
    /// The inbound buffer held these bytes.
    InputRead(Vec<u8>),
    /// The weight charge was deducted.
    WeightCharged,
    /// The weight charge failed: budget exhausted.
    WeightExhausted,
    /// The module's recorded owner, or absence of one.
    OwnerResult(Option<AccountId>),
    /// The module performed the transfer.
    TransferAccepted,
    /// The module rejected the transfer.
    TransferRejected,
    /// The outbound buffer was written.
    OutputWritten,
    /// The outbound write failed.
    OutputRejected,
}

/// Where a call stands between two exchanges with the host.
#[derive(Debug)]
pub enum CallState {
    /// Owner query: waiting for the inbound payload.
    ReadingQuery,
    /// Owner query: waiting for the module's ownership lookup.
    Querying,
    /// Owner query: waiting for the outbound write to finish.
    Writing,
    /// Transfer: waiting for the inbound payload; `charge` is the weight
    /// to charge before the module is called.
    ReadingTransfer {
        /// The weight to charge.
        charge: u64,
    },
    /// Transfer: payload decoded, waiting for the weight charge.
    Charging {
        /// The decoded request, to perform once the charge is deducted.
        input: TransferInput,
    },
    /// Transfer: weight charged, waiting for the module's verdict.
    Transferring,
    /// The call has ended, and how.
    Done(Result<(), DispatchFailure>),
}

/// The call ended on this failure: terminal state and failing action.
pub open spec fn call_failed(s: CallState, a: Action, f: DispatchFailure) -> bool {
    s == CallState::Done(Err::<(), DispatchFailure>(f)) && a == Action::Fail(f)
}

/// What beginning a call does: the registered ids start their operation
/// by reading the payload; every other id is rejected at once, and no
/// handler, charge or module call is ever reached.
pub open spec fn begin_holds(func_id: u16, transfer_charge: u64, s: CallState, a: Action) -> bool {
    if func_id == FUNC_ID_GET_OWNER {
        s == CallState::ReadingQuery && a == Action::ReadInput
    } else if func_id == FUNC_ID_TRANSFER {
        s == (CallState::ReadingTransfer { charge: transfer_charge }) && a == Action::ReadInput
    } else {
        call_failed(s, a, DispatchFailure::UnregisteredFuncId)
    }
}

/// What one step of the machine does, for every state and event.
pub open spec fn step_holds(s: CallState, e: Event, s2: CallState, a: Action) -> bool {
    match (s, e) {
        (CallState::ReadingQuery, Event::InputRead(buf)) => {
            if buf@.len() == TRANSFER_INPUT_LEN {
                &&& s2 == CallState::Querying
                &&& a matches Action::QueryOwner(c, i) && buf@.subrange(0, 4) == u32_le(c)
                    && buf@.subrange(4, 8) == u32_le(i)
            } else {
                call_failed(s2, a, DispatchFailure::DecodeFailed)
            }
        },
        (CallState::Querying, Event::OwnerResult(owner)) => {
            &&& s2 == CallState::Writing
            &&& a matches Action::WriteOutput(out) && out@ == owner_result_bytes(
                opt_account_bytes(owner),
            )
        },
        (CallState::Writing, Event::OutputWritten) => {
            s2 == CallState::Done(Ok::<(), DispatchFailure>(())) && a == Action::Succeed
        },
        (CallState::Writing, Event::OutputRejected) => {
            call_failed(s2, a, DispatchFailure::WriteFailed)
        },
        (CallState::ReadingTransfer { charge }, Event::InputRead(buf)) => {
            if buf@.len() == TRANSFER_INPUT_LEN {
                &&& s2 matches CallState::Charging { input } && input.wf() && buf@
                    == transfer_input_bytes(input.collection_id, input.item_id, input.dest@)
                &&& a == Action::ChargeWeight(charge)
            } else {
                call_failed(s2, a, DispatchFailure::DecodeFailed)
            }
        },
        (CallState::Charging { input }, Event::WeightCharged) => {
            &&& s2 == CallState::Transferring
            &&& a matches Action::TransferItem(t) && t.collection_id == input.collection_id
                && t.item_id == input.item_id && t.dest@ == input.dest@
        },
        (CallState::Charging { input }, Event::WeightExhausted) => {
            call_failed(s2, a, DispatchFailure::WeightExhausted)
        },
        (CallState::Transferring, Event::TransferAccepted) => {
            s2 == CallState::Done(Ok::<(), DispatchFailure>(())) && a == Action::Succeed
        },
        (CallState::Transferring, Event::TransferRejected) => {
            call_failed(s2, a, DispatchFailure::TransferFailed)
        },
        (CallState::Done(res), _) => {
            &&& s2 == CallState::Done(res)
            &&& match res {
                Ok(()) => a == Action::Succeed,
                Err(f) => a == Action::Fail(f),
            }
        },
        _ => call_failed(s2, a, DispatchFailure::UnexpectedEvent),
    }
}

/// The weight to charge for a transfer: the module's declared base cost
/// of its transfer operation plus the fixed per-call overhead of crossing
/// the contract/runtime boundary, saturating at the largest weight.
pub fn transfer_charge(base_weight: u64, overhead: u64) -> (r: u64)
    ensures
        r == if base_weight + overhead <= u64::MAX {
            base_weight + overhead
        } else {
            u64::MAX as int
        },
{
    if base_weight <= u64::MAX - overhead {
        base_weight + overhead
    } else {
        u64::MAX
    }
}

/// Begins a call: dispatches the 16-bit function id to its operation.
/// `transfer_charge` is the weight a transfer will cost, computed by the
/// host from the module's declared costs (see [`transfer_charge`]).
pub fn begin_call(func_id: u16, transfer_charge: u64) -> (r: (CallState, Action))
    ensures
        begin_holds(func_id, transfer_charge, r.0, r.1),
{
    match FuncId::try_from_u16(func_id) {
        Ok(FuncId::Query(Query::Owner)) => (CallState::ReadingQuery, Action::ReadInput),
        Ok(FuncId::Transfer) => (
            CallState::ReadingTransfer { charge: transfer_charge },
            Action::ReadInput,
        ),
        Err(f) => (CallState::Done(Err(f)), Action::Fail(f)),
    }
}

/// One step of a call: consumes the host's answer to the pending action
/// and decides the next state and action.
pub fn step(s: CallState, e: Event) -> (r: (CallState, Action))
    ensures
        step_holds(s, e, r.0, r.1),
{
    match (s, e) {
        (CallState::ReadingQuery, Event::InputRead(buf)) => {
            match decode_transfer_input(buf.as_slice()) {
                Ok(input) => {
                    proof {
                        assert(buf@.subrange(0, 4) =~= transfer_input_bytes(
                            input.collection_id,
                            input.item_id,
                            input.dest@,
                        ).subrange(0, 4));
                        assert(buf@.subrange(4, 8) =~= transfer_input_bytes(
                            input.collection_id,
                            input.item_id,
                            input.dest@,
                        ).subrange(4, 8));
                        assert(transfer_input_bytes(
                            input.collection_id,
                            input.item_id,
                            input.dest@,
                        ).subrange(0, 4) =~= u32_le(input.collection_id));
                        assert(transfer_input_bytes(
                            input.collection_id,
                            input.item_id,
                            input.dest@,
                        ).subrange(4, 8) =~= u32_le(input.item_id));
                    }
                    (CallState::Querying, Action::QueryOwner(input.collection_id, input.item_id))
                },
                Err(f) => (CallState::Done(Err(f)), Action::Fail(f)),
            }
        },
        (CallState::Querying, Event::OwnerResult(owner)) => {
            let out = encode_owner_result(&owner);
            (CallState::Writing, Action::WriteOutput(out))
        },
        (CallState::Writing, Event::OutputWritten) => (
            CallState::Done(Ok(())),
            Action::Succeed,
        ),
        (CallState::Writing, Event::OutputRejected) => (
            CallState::Done(Err(DispatchFailure::WriteFailed)),
            Action::Fail(DispatchFailure::WriteFailed),
        ),
        (CallState::ReadingTransfer { charge }, Event::InputRead(buf)) => {
            match decode_transfer_input(buf.as_slice()) {
                Ok(input) => (CallState::Charging { input }, Action::ChargeWeight(charge)),
                Err(f) => (CallState::Done(Err(f)), Action::Fail(f)),
            }
        },
        (CallState::Charging { input }, Event::WeightCharged) => (
            CallState::Transferring,
            Action::TransferItem(input),
        ),
        (CallState::Charging { input: _ }, Event::WeightExhausted) => (
            CallState::Done(Err(DispatchFailure::WeightExhausted)),
            Action::Fail(DispatchFailure::WeightExhausted),
        ),
        (CallState::Transferring, Event::TransferAccepted) => (
            CallState::Done(Ok(())),
            Action::Succeed,
        ),
        (CallState::Transferring, Event::TransferRejected) => (
            CallState::Done(Err(DispatchFailure::TransferFailed)),
            Action::Fail(DispatchFailure::TransferFailed),
        ),
        (CallState::Done(res), _) => {
            let a = match res {
                Ok(()) => Action::Succeed,
                Err(f) => Action::Fail(f),
            };
            (CallState::Done(res), a)
        },
        _ => (
            CallState::Done(Err(DispatchFailure::UnexpectedEvent)),
            Action::Fail(DispatchFailure::UnexpectedEvent),
        ),
    }
}

/// Law: an unregistered function id always fails the call at once as
/// unregistered, and no handler runs — the call begins already ended,
/// with no read, charge, lookup or transfer ever demanded.
pub proof fn lemma_unregistered_rejected(func_id: u16, charge: u64, s: CallState, a: Action)
    requires
        begin_holds(func_id, charge, s, a),
        func_id != FUNC_ID_GET_OWNER,
        func_id != FUNC_ID_TRANSFER,
    ensures
        call_failed(s, a, DispatchFailure::UnregisteredFuncId),
{
}

/// Law: beginning a call never itself charges weight or calls the token
/// module: the only actions a call can begin with are reading the payload
/// or failing outright.
pub proof fn lemma_begin_reads_or_fails(func_id: u16, charge: u64, s: CallState, a: Action)
    requires
        begin_holds(func_id, charge, s, a),
    ensures
        a is ReadInput || a is Fail,
        !(s is Charging),
        !(s is Transferring),
{
}

/// Law: the module's transfer is demanded only from the charging state,
/// on the host's word that the weight charge was deducted — and the item
/// transferred is exactly the one the charge was for.
pub proof fn lemma_transfer_only_after_charge(s: CallState, e: Event, s2: CallState, a: Action)
    requires
        step_holds(s, e, s2, a),
        a is TransferItem,
    ensures
        s is Charging,
        e is WeightCharged,
        a matches Action::TransferItem(t) && s matches CallState::Charging { input }
            && t.collection_id == input.collection_id && t.item_id == input.item_id
            && t.dest@ == input.dest@,
{
}

/// Law: the charging state is entered only by the step that demands the
/// weight charge, for exactly the charge the call was begun with.
pub proof fn lemma_charging_entered_with_charge(s: CallState, e: Event, s2: CallState, a: Action)
    requires
        step_holds(s, e, s2, a),
        s2 is Charging,
    ensures
        s matches CallState::ReadingTransfer { charge } && a == Action::ChargeWeight(charge),
        e is InputRead,
{
}

/// Law: in any run of the machine, the action answered immediately before
/// the module's transfer is the weight charge: the charge always occurs
/// before the mutating call, even when that call then fails.
pub proof fn lemma_charge_precedes_transfer(
    s0: CallState,
    e1: Event,
    s1: CallState,
    a1: Action,
    e2: Event,
    s2: CallState,
    a2: Action,
)
    requires
        step_holds(s0, e1, s1, a1),
        step_holds(s1, e2, s2, a2),
        a2 is TransferItem,
    ensures
        a1 is ChargeWeight,
        e2 is WeightCharged,
{
    lemma_transfer_only_after_charge(s1, e2, s2, a2);
    lemma_charging_entered_with_charge(s0, e1, s1, a1);
}

/// Law: the first step after beginning a call never calls the module's
/// transfer. With [`lemma_charge_precedes_transfer`] this covers every
/// position of any run: wherever the transfer is demanded, the weight
/// charge was demanded, and answered as deducted, immediately before.
pub proof fn lemma_first_step_never_transfers(
    func_id: u16,
    charge: u64,
    s0: CallState,
    a0: Action,
    e1: Event,
    s1: CallState,
    a1: Action,
)
    requires
        begin_holds(func_id, charge, s0, a0),
        step_holds(s0, e1, s1, a1),
    ensures
        !(a1 is TransferItem),
{
    if a1 is TransferItem {
        lemma_transfer_only_after_charge(s0, e1, s1, a1);
        lemma_begin_reads_or_fails(func_id, charge, s0, a0);
    }
}

/// A whole run of the machine: the first state and action come from
/// beginning the call, and each later state and action from one step on
/// the previous state and the host's answering event.
pub open spec fn is_run(
    func_id: u16,
    charge: u64,
    events: Seq<Event>,
    states: Seq<CallState>,
    actions: Seq<Action>,
) -> bool {
    &&& states.len() == events.len() + 1
    &&& actions.len() == events.len() + 1
    &&& begin_holds(func_id, charge, states[0], actions[0])
    &&& forall|i: int|
        0 <= i < events.len() ==> #[trigger] step_holds(
            states[i],
            events[i],
            states[i + 1],
            actions[i + 1],
        )
}

/// Law (whole-run form): in any run of a call, wherever the module's
/// transfer is demanded, the action demanded immediately before was the
/// weight charge, and the host's answer to it was that the weight was
/// deducted — the charge always occurs before the mutating call.
pub proof fn lemma_run_charges_before_transfer(
    func_id: u16,
    charge: u64,
    events: Seq<Event>,
    states: Seq<CallState>,
    actions: Seq<Action>,
    i: int,
)
    requires
        is_run(func_id, charge, events, states, actions),
        0 <= i < actions.len(),
        actions[i] is TransferItem,
    ensures
        2 <= i,
        actions[i - 1] is ChargeWeight,
        events[i - 1] is WeightCharged,
{
    lemma_begin_reads_or_fails(func_id, charge, states[0], actions[0]);
    assert(i >= 1);
    assert(step_holds(states[i - 1], events[i - 1], states[i - 1 + 1], actions[i - 1 + 1]));
    lemma_transfer_only_after_charge(states[i - 1], events[i - 1], states[i], actions[i]);
    assert(states[i - 1] is Charging);
    assert(i - 1 >= 1);
    assert(step_holds(states[i - 2], events[i - 2], states[i - 2 + 1], actions[i - 2 + 1]));
    lemma_charging_entered_with_charge(
        states[i - 2],
        events[i - 2],
        states[i - 1],
        actions[i - 1],
    );
}

/// Law: a finished call is terminal: whatever event arrives, the state
/// never leaves its terminal result and no read, charge, module call or
/// write is ever demanded again — a failed transfer is reported once and
/// not retried.
pub proof fn lemma_done_is_terminal(s: CallState, e: Event, s2: CallState, a: Action)
    requires
        step_holds(s, e, s2, a),
        s is Done,
    ensures
        s2 == s,
        a is Succeed || a is Fail,
{
}

/// Law: the query reply is exactly what the module reported: the outbound
/// bytes encode the module's recorded owner — and an absent owner is a
/// successful "no owner" reply, not an error.
pub proof fn lemma_query_reports_module_owner(
    s: CallState,
    e: Event,
    s2: CallState,
    a: Action,
    owner: Option<AccountId>,
)
    requires
        step_holds(s, e, s2, a),
        s is Querying,
        e == Event::OwnerResult(owner),
    ensures
        s2 == CallState::Writing,
        a matches Action::WriteOutput(out) && out@ == owner_result_bytes(
            opt_account_bytes(owner),
        ),
        owner is None ==> (a matches Action::WriteOutput(out) && out@ == seq![0u8]),
        !(a is Fail),
{
}

/// Law: a transfer the module rejects ends the call in failure, reported
/// to the caller as the transfer-failed status; nothing further is asked
/// of the module (the module's own atomicity keeps ownership unchanged).
pub proof fn lemma_rejected_transfer_reported(s: CallState, e: Event, s2: CallState, a: Action)
    requires
        step_holds(s, e, s2, a),
        s is Transferring,
        e is TransferRejected,
    ensures
        call_failed(s2, a, DispatchFailure::TransferFailed),
{
}

/// Law: a transfer the module performs ends the call successfully.
pub proof fn lemma_accepted_transfer_succeeds(s: CallState, e: Event, s2: CallState, a: Action)
    requires
        step_holds(s, e, s2, a),
        s is Transferring,
        e is TransferAccepted,
    ensures
        s2 == CallState::Done(Ok::<(), DispatchFailure>(())),
        a is Succeed,
{
}

} // verus!
