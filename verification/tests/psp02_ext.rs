use psp02_ext::account::AccountId;
use psp02_ext::dispatch::{begin_call, step, transfer_charge, Action, CallState, Event};
use psp02_ext::error::{DispatchFailure, Psp02Error};
use psp02_ext::extension::Psp02Extension;
use psp02_ext::selector::{FuncId, Query, FUNC_ID_GET_OWNER, FUNC_ID_TRANSFER};
use psp02_ext::wire::{
    check_owner_reply, decode_owner_reply, decode_transfer_input, encode_owner_result,
    encode_transfer_input, TransferInput, TRANSFER_INPUT_LEN,
};

/// A fake host runtime: an ownership table standing in for the token
/// module, a metering budget, and the two buffers of a call.
struct FakeHost {
    owners: Vec<((u32, u32), [u8; 32])>,
    budget: u64,
    input: Vec<u8>,
    output: Option<Vec<u8>>,
    write_fails: bool,
    trace: Vec<&'static str>,
}

impl FakeHost {
    fn new(input: Vec<u8>) -> FakeHost {
        FakeHost {
            owners: Vec::new(),
            budget: 1_000_000,
            input,
            output: None,
            write_fails: false,
            trace: Vec::new(),
        }
    }

    fn lookup(&self, collection: u32, item: u32) -> Option<[u8; 32]> {
        self.owners
            .iter()
            .find(|((c, i), _)| *c == collection && *i == item)
            .map(|(_, o)| *o)
    }

    fn transfer(&mut self, collection: u32, item: u32, dest: [u8; 32]) -> bool {
        for entry in self.owners.iter_mut() {
            if entry.0 == (collection, item) {
                entry.1 = dest;
                return true;
            }
        }
        false
    }
}

/// Drives one call to completion: performs each demanded action against
/// the fake host and answers with the matching event.
fn run_call(host: &mut FakeHost, func_id: u16, charge: u64) -> Result<(), DispatchFailure> {
    let (mut state, mut action) = begin_call(func_id, charge);
    loop {
        let event = match action {
            Action::Fail(f) => return Err(f),
            Action::Succeed => return Ok(()),
            Action::ReadInput => {
                host.trace.push("read");
                Event::InputRead(host.input.clone())
            }
            Action::ChargeWeight(w) => {
                host.trace.push("charge");
                if host.budget >= w {
                    host.budget -= w;
                    Event::WeightCharged
                } else {
                    Event::WeightExhausted
                }
            }
            Action::QueryOwner(c, i) => {
                host.trace.push("query");
                Event::OwnerResult(
                    host.lookup(c, i)
                        .map(|o| AccountId::from_bytes(o.to_vec()).unwrap()),
                )
            }
            Action::TransferItem(t) => {
                host.trace.push("transfer");
                let mut dest = [0u8; 32];
                dest.copy_from_slice(t.dest.as_bytes());
                if host.transfer(t.collection_id, t.item_id, dest) {
                    Event::TransferAccepted
                } else {
                    Event::TransferRejected
                }
            }
            Action::WriteOutput(bytes) => {
                host.trace.push("write");
                if host.write_fails {
                    Event::OutputRejected
                } else {
                    host.output = Some(bytes);
                    Event::OutputWritten
                }
            }
        };
        let next = step(state, event);
        state = next.0;
        action = next.1;
    }
}

fn account(fill: u8) -> AccountId {
    AccountId::from_bytes(vec![fill; 32]).unwrap()
}

fn query_payload(collection: u32, item: u32) -> Vec<u8> {
    Psp02Extension::new().get_owner_call(item, collection).input
}

fn transfer_payload(collection: u32, item: u32, dest: &AccountId) -> Vec<u8> {
    encode_transfer_input(&TransferInput {
        collection_id: collection,
        item_id: item,
        dest: dest.duplicate(),
    })
}

#[test]
fn unregistered_func_id_always_rejected() {
    for id in [0u16, 1, 0x162c, 0x162e, 0xdb21, 0xffff] {
        let mut host = FakeHost::new(Vec::new());
        let r = run_call(&mut host, id, 10);
        assert_eq!(r, Err(DispatchFailure::UnregisteredFuncId));
        // No handler ran: nothing was read, charged, queried or transferred.
        assert!(host.trace.is_empty());
    }
}

#[test]
fn selector_mapping_is_exact() {
    assert_eq!(
        FuncId::try_from_u16(FUNC_ID_GET_OWNER),
        Ok(FuncId::Query(Query::Owner))
    );
    assert_eq!(FuncId::try_from_u16(FUNC_ID_TRANSFER), Ok(FuncId::Transfer));
    assert_eq!(
        FuncId::try_from_u16(0x0000),
        Err(DispatchFailure::UnregisteredFuncId)
    );
    assert_eq!(FUNC_ID_GET_OWNER, 0x162d);
    assert_eq!(FUNC_ID_TRANSFER, 0xdb20);
}

#[test]
fn query_returns_recorded_owner() {
    let mut host = FakeHost::new(query_payload(5, 7));
    host.owners.push(((5, 7), [0xAA; 32]));
    let r = run_call(&mut host, FUNC_ID_GET_OWNER, 10);
    assert_eq!(r, Ok(()));
    let out = host.output.expect("query writes a reply");
    assert!(check_owner_reply(&out));
    let owner = decode_owner_reply(&out).expect("an owner is present");
    assert_eq!(owner.as_bytes().as_slice(), &[0xAA; 32]);
}

#[test]
fn query_missing_item_reports_no_owner_not_error() {
    let mut host = FakeHost::new(query_payload(5, 7));
    let r = run_call(&mut host, FUNC_ID_GET_OWNER, 10);
    assert_eq!(r, Ok(()));
    let out = host.output.expect("query writes a reply");
    assert_eq!(out, vec![0u8]);
    assert!(check_owner_reply(&out));
    assert!(decode_owner_reply(&out).is_none());
}

#[test]
fn query_malformed_payload_fails_decode() {
    for len in [0usize, 1, 39, 41, 64] {
        let mut host = FakeHost::new(vec![0u8; len]);
        let r = run_call(&mut host, FUNC_ID_GET_OWNER, 10);
        assert_eq!(r, Err(DispatchFailure::DecodeFailed));
        assert!(host.output.is_none());
    }
}

#[test]
fn charge_happens_before_transfer_call() {
    let dest = account(0xBB);
    let mut host = FakeHost::new(transfer_payload(5, 7, &dest));
    host.owners.push(((5, 7), [0xAA; 32]));
    let r = run_call(&mut host, FUNC_ID_TRANSFER, 10);
    assert_eq!(r, Ok(()));
    assert_eq!(host.trace, vec!["read", "charge", "transfer"]);
}

#[test]
fn charge_happens_even_when_transfer_fails() {
    let dest = account(0xBB);
    let mut host = FakeHost::new(transfer_payload(5, 7, &dest));
    // The item does not exist, so the module will reject; the charge
    // must still have been demanded first.
    let r = run_call(&mut host, FUNC_ID_TRANSFER, 10);
    assert_eq!(r, Err(DispatchFailure::TransferFailed));
    assert_eq!(host.trace, vec!["read", "charge", "transfer"]);
    assert_eq!(host.budget, 1_000_000 - 10);
}

#[test]
fn accepted_transfer_moves_ownership() {
    let dest = account(0xBB);
    let mut host = FakeHost::new(transfer_payload(5, 7, &dest));
    host.owners.push(((5, 7), [0xAA; 32]));
    let r = run_call(&mut host, FUNC_ID_TRANSFER, 10);
    assert_eq!(r, Ok(()));
    assert_eq!(host.lookup(5, 7), Some([0xBB; 32]));
}

#[test]
fn rejected_transfer_leaves_ownership_unchanged() {
    let dest = account(0xBB);
    let mut host = FakeHost::new(transfer_payload(9, 9, &dest));
    host.owners.push(((5, 7), [0xAA; 32]));
    let r = run_call(&mut host, FUNC_ID_TRANSFER, 10);
    assert_eq!(r, Err(DispatchFailure::TransferFailed));
    assert_eq!(host.lookup(5, 7), Some([0xAA; 32]));
    assert_eq!(host.lookup(9, 9), None);
}

#[test]
fn exhausted_budget_stops_before_transfer() {
    let dest = account(0xBB);
    let mut host = FakeHost::new(transfer_payload(5, 7, &dest));
    host.owners.push(((5, 7), [0xAA; 32]));
    host.budget = 3;
    let r = run_call(&mut host, FUNC_ID_TRANSFER, 10);
    assert_eq!(r, Err(DispatchFailure::WeightExhausted));
    // The charge was attempted, the module was never called, nothing moved.
    assert_eq!(host.trace, vec!["read", "charge"]);
    assert_eq!(host.lookup(5, 7), Some([0xAA; 32]));
}

#[test]
fn failed_reply_write_is_reported() {
    let mut host = FakeHost::new(query_payload(5, 7));
    host.write_fails = true;
    let r = run_call(&mut host, FUNC_ID_GET_OWNER, 10);
    assert_eq!(r, Err(DispatchFailure::WriteFailed));
}

#[test]
fn unexpected_event_fails_the_call() {
    let (state, _) = begin_call(FUNC_ID_GET_OWNER, 10);
    let (next, action) = step(state, Event::WeightCharged);
    assert!(matches!(
        action,
        Action::Fail(DispatchFailure::UnexpectedEvent)
    ));
    assert!(matches!(
        next,
        CallState::Done(Err(DispatchFailure::UnexpectedEvent))
    ));
}

#[test]
fn finished_call_is_terminal() {
    let mut host = FakeHost::new(transfer_payload(9, 9, &account(0xBB)));
    let r = run_call(&mut host, FUNC_ID_TRANSFER, 10);
    assert_eq!(r, Err(DispatchFailure::TransferFailed));
    // Feeding more events to a finished call re-reports the result and
    // demands no further work.
    let done = CallState::Done(Err(DispatchFailure::TransferFailed));
    let (next, action) = step(done, Event::TransferAccepted);
    assert!(matches!(
        action,
        Action::Fail(DispatchFailure::TransferFailed)
    ));
    assert!(matches!(
        next,
        CallState::Done(Err(DispatchFailure::TransferFailed))
    ));
}

#[test]
fn transfer_payload_round_trips() {
    let dest = account(0xCD);
    let bytes = transfer_payload(0x01020304, 0xA0B0C0D0, &dest);
    assert_eq!(bytes.len(), TRANSFER_INPUT_LEN);
    let back = decode_transfer_input(&bytes).expect("decodes");
    assert_eq!(back.collection_id, 0x01020304);
    assert_eq!(back.item_id, 0xA0B0C0D0);
    assert!(back.dest.eq_account(&dest));
}

#[test]
fn transfer_payload_bytes_are_little_endian() {
    let dest = account(0xCD);
    let bytes = transfer_payload(0x01020304, 5, &dest);
    let mut expected = vec![0x04u8, 0x03, 0x02, 0x01, 0x05, 0x00, 0x00, 0x00];
    expected.extend_from_slice(&[0xCD; 32]);
    assert_eq!(bytes, expected);
}

#[test]
fn encoding_matches_codec_crate() {
    let dest = account(0x11);
    let bytes = transfer_payload(0xDEADBEEF, 0x00C0FFEE, &dest);
    let reference = parity_scale_codec::Encode::encode(&(0xDEADBEEFu32, 0x00C0FFEEu32, [0x11u8; 32]));
    assert_eq!(bytes, reference);

    let some_reply = encode_owner_result(&Some(account(0x22)));
    let some_reference = parity_scale_codec::Encode::encode(&Some([0x22u8; 32]));
    assert_eq!(some_reply, some_reference);

    let none_reply = encode_owner_result(&None);
    let none_reference = parity_scale_codec::Encode::encode(&Option::<[u8; 32]>::None);
    assert_eq!(none_reply, none_reference);
}

#[test]
fn owner_reply_checker_accepts_only_well_formed_replies() {
    assert!(check_owner_reply(&[0u8]));
    let mut present = vec![1u8];
    present.extend_from_slice(&[0x33; 32]);
    assert!(check_owner_reply(&present));
    assert!(!check_owner_reply(&[]));
    assert!(!check_owner_reply(&[1u8]));
    assert!(!check_owner_reply(&[2u8]));
    assert!(!check_owner_reply(&vec![0u8; 33]));
    assert!(!check_owner_reply(&vec![1u8; 34]));
}

#[test]
fn status_codes_map_to_results() {
    assert_eq!(Psp02Error::from_status_code(0), Ok(()));
    assert_eq!(
        Psp02Error::from_status_code(1),
        Err(Psp02Error::TotalSupplyFailed)
    );
}

#[test]
fn transfer_charge_adds_and_saturates() {
    assert_eq!(transfer_charge(2, 3), 5);
    assert_eq!(transfer_charge(0, 0), 0);
    assert_eq!(transfer_charge(u64::MAX, 1), u64::MAX);
    assert_eq!(transfer_charge(1, u64::MAX), u64::MAX);
    assert_eq!(transfer_charge(u64::MAX, u64::MAX), u64::MAX);
}

#[test]
fn extension_builds_the_declared_calls() {
    let ext = Psp02Extension::new();
    let q = ext.get_owner_call(7, 5);
    assert_eq!(q.func_id, FUNC_ID_GET_OWNER);
    let decoded = decode_transfer_input(&q.input).expect("well-formed payload");
    assert_eq!(decoded.collection_id, 5);
    assert_eq!(decoded.item_id, 7);
    assert_eq!(decoded.dest.as_bytes().as_slice(), &[0u8; 32]);

    let dest = account(0x44);
    let t = ext.transfer_nft_call(7, &dest, 5);
    assert_eq!(t.func_id, FUNC_ID_TRANSFER);
    let decoded = decode_transfer_input(&t.input).expect("well-formed payload");
    assert_eq!(decoded.collection_id, 5);
    assert_eq!(decoded.item_id, 7);
    assert!(decoded.dest.eq_account(&dest));
}

#[test]
fn account_construction_checks_length() {
    assert!(AccountId::from_bytes(vec![0u8; 31]).is_none());
    assert!(AccountId::from_bytes(vec![0u8; 33]).is_none());
    assert!(AccountId::from_bytes(Vec::new()).is_none());
    let a = AccountId::from_bytes(vec![9u8; 32]).unwrap();
    assert_eq!(a.as_bytes().as_slice(), &[9u8; 32]);
    assert!(a.eq_account(&a.duplicate()));
    assert!(!a.eq_account(&AccountId::zero()));
    assert_eq!(AccountId::zero().as_bytes().as_slice(), &[0u8; 32]);
}
