use opensea::address::Address;
use opensea::bribe::BribeError;
use opensea::bundle::{
    next_step, plan_submission, sign_bundle, unwrap_or_zero, BundleError, BundleItem, RelayAction,
    RelayEvent, Submission, SubmissionState, TransactionBundle,
};
use opensea::transaction::{Eip1559TransactionRequest, TransactionRequest};
use opensea::uint::U256;

fn address(fill: u8) -> Address {
    Address { bytes: [fill; 20] }
}

fn tx(value: Option<u64>, nonce: u64) -> Eip1559TransactionRequest {
    Eip1559TransactionRequest {
        to: Some(address(1)),
        data: Some(vec![nonce as u8]),
        value: value.map(U256::from_u64),
        gas: Some(U256::from_u64(300_000)),
        nonce: Some(U256::from_u64(nonce)),
        max_fee_per_gas: Some(U256::from_u64(1000)),
        max_priority_fee_per_gas: Some(U256::from_u64(33)),
    }
}

#[test]
fn bundle_keeps_the_order_and_adds_up_the_values() {
    let txs = vec![tx(Some(10), 7), tx(Some(20), 8), tx(None, 9)];
    let ids = vec![U256::from_u64(41), U256::from_u64(42)];
    let signed = vec![vec![0xa1], vec![0xa2, 0xa2], vec![0xa3]];
    let (bundle, total) = sign_bundle(&txs, &ids, signed).unwrap();
    assert_eq!(total, U256::from_u64(30));
    assert_eq!(bundle.block, None);
    assert_eq!(bundle.simulation_block, None);
    let expected = vec![
        BundleItem {
            position: 0,
            raw: vec![0xa1],
            token_id: Some(U256::from_u64(41)),
            value: U256::from_u64(10),
            max_priority_fee_per_gas: U256::from_u64(33),
            max_fee_per_gas: U256::from_u64(1000),
            gas: U256::from_u64(300_000),
        },
        BundleItem {
            position: 1,
            raw: vec![0xa2, 0xa2],
            token_id: Some(U256::from_u64(42)),
            value: U256::from_u64(20),
            max_priority_fee_per_gas: U256::from_u64(33),
            max_fee_per_gas: U256::from_u64(1000),
            gas: U256::from_u64(300_000),
        },
        BundleItem {
            position: 2,
            raw: vec![0xa3],
            token_id: None,
            value: U256::zero(),
            max_priority_fee_per_gas: U256::from_u64(33),
            max_fee_per_gas: U256::from_u64(1000),
            gas: U256::from_u64(300_000),
        },
    ];
    assert_eq!(bundle.items, expected);
}

#[test]
fn absent_fields_show_as_zero() {
    let (bundle, total) =
        sign_bundle(&vec![Eip1559TransactionRequest::new()], &vec![], vec![vec![]]).unwrap();
    assert_eq!(total, U256::zero());
    assert_eq!(bundle.items[0].gas, U256::zero());
    assert_eq!(bundle.items[0].max_fee_per_gas, U256::zero());
    assert_eq!(bundle.items[0].max_priority_fee_per_gas, U256::zero());
    assert_eq!(unwrap_or_zero(None), U256::zero());
    assert_eq!(unwrap_or_zero(Some(U256::from_u64(4))), U256::from_u64(4));
}

#[test]
fn empty_bundle_sends_nothing() {
    let (bundle, total) = sign_bundle(&vec![], &vec![U256::from_u64(1)], vec![]).unwrap();
    assert!(bundle.items.is_empty());
    assert_eq!(total, U256::zero());
}

#[test]
fn one_signature_for_each_transaction_is_needed() {
    let txs = vec![tx(Some(1), 1), tx(Some(2), 2)];
    assert_eq!(sign_bundle(&txs, &vec![], vec![vec![1]]), Err(BundleError::SignatureCount));
    assert_eq!(
        sign_bundle(&txs, &vec![], vec![vec![1], vec![2], vec![3]]),
        Err(BundleError::SignatureCount)
    );
}

#[test]
fn values_beyond_256_bits_are_refused() {
    let mut big = tx(None, 1);
    big.value = Some(U256 { limbs: [u64::MAX; 4] });
    let txs = vec![big.clone(), tx(Some(1), 2)];
    assert_eq!(sign_bundle(&txs, &vec![], vec![vec![], vec![]]), Err(BundleError::ValueOverflow));
    let txs = vec![big, tx(Some(0), 2)];
    let (_, total) = sign_bundle(&txs, &vec![], vec![vec![], vec![]]).unwrap();
    assert_eq!(total, U256 { limbs: [u64::MAX; 4] });
    // the count is looked at first
    let mut big = tx(None, 1);
    big.value = Some(U256 { limbs: [u64::MAX; 4] });
    assert_eq!(
        sign_bundle(&vec![big, tx(Some(1), 2)], &vec![], vec![]),
        Err(BundleError::SignatureCount)
    );
}

#[test]
fn bundle_is_aimed_five_blocks_ahead() {
    let (bundle, _) = sign_bundle(&vec![tx(Some(1), 1)], &vec![], vec![vec![9]]).unwrap();
    let items = bundle.items.clone();
    let aimed = bundle.target(13_000_000).unwrap();
    assert_eq!(aimed.block, Some(13_000_005));
    assert_eq!(aimed.simulation_block, Some(13_000_000));
    assert_eq!(aimed.items, items);
}

#[test]
fn no_block_lies_beyond_the_last() {
    let empty = TransactionBundle { items: vec![], block: None, simulation_block: None };
    assert_eq!(empty.clone().target(u64::MAX), None);
    assert_eq!(empty.clone().target(u64::MAX - 4), None);
    let aimed = empty.target(u64::MAX - 5).unwrap();
    assert_eq!(aimed.block, Some(u64::MAX));
    assert_eq!(aimed.simulation_block, Some(u64::MAX - 5));
}

#[test]
fn blocks_are_set_one_by_one() {
    let empty = TransactionBundle { items: vec![], block: None, simulation_block: None };
    let b = empty.set_block(8);
    assert_eq!((b.block, b.simulation_block), (Some(8), None));
    let b = b.set_simulation_block(3);
    assert_eq!((b.block, b.simulation_block), (Some(8), Some(3)));
}

#[test]
fn bundle_is_simulated_then_sent_once() {
    let (s, a) = next_step(SubmissionState::Signed, RelayEvent::Proceed, false);
    assert_eq!((s, a), (SubmissionState::Simulating, RelayAction::Simulate));
    let (s, a) = next_step(s, RelayEvent::SimulationPassed, false);
    assert_eq!((s, a), (SubmissionState::Sending, RelayAction::Send));
    let (s, a) = next_step(s, RelayEvent::Accepted, false);
    assert_eq!((s, a), (SubmissionState::Submitted, RelayAction::Nothing));
    for event in [
        RelayEvent::Proceed,
        RelayEvent::SimulationPassed,
        RelayEvent::SimulationFailed,
        RelayEvent::Accepted,
        RelayEvent::Refused,
    ] {
        assert_eq!(next_step(s, event, false), (SubmissionState::Submitted, RelayAction::Nothing));
    }
}

#[test]
fn failed_simulation_sends_nothing() {
    let (s, a) = next_step(SubmissionState::Simulating, RelayEvent::SimulationFailed, false);
    assert_eq!((s, a), (SubmissionState::SimulationFailed, RelayAction::Nothing));
    assert_eq!(
        next_step(s, RelayEvent::SimulationPassed, false),
        (SubmissionState::SimulationFailed, RelayAction::Nothing)
    );
    assert_eq!(
        next_step(s, RelayEvent::Proceed, false),
        (SubmissionState::SimulationFailed, RelayAction::Nothing)
    );
}

#[test]
fn refused_bundle_is_not_sent_again() {
    let (s, a) = next_step(SubmissionState::Sending, RelayEvent::Refused, false);
    assert_eq!((s, a), (SubmissionState::RelayFailed, RelayAction::Nothing));
    assert_eq!(
        next_step(s, RelayEvent::Proceed, false),
        (SubmissionState::RelayFailed, RelayAction::Nothing)
    );
    assert_eq!(
        next_step(SubmissionState::Sending, RelayEvent::SimulationPassed, false),
        (SubmissionState::Sending, RelayAction::Nothing)
    );
}

#[test]
fn dry_run_stops_before_the_relay() {
    let (s, a) = next_step(SubmissionState::Signed, RelayEvent::Proceed, true);
    assert_eq!((s, a), (SubmissionState::DryRun, RelayAction::Nothing));
    assert_eq!(
        next_step(s, RelayEvent::Proceed, true),
        (SubmissionState::DryRun, RelayAction::Nothing)
    );
    assert_eq!(
        next_step(SubmissionState::Signed, RelayEvent::SimulationPassed, false),
        (SubmissionState::Signed, RelayAction::Nothing)
    );
}

#[test]
fn batch_without_incentive_goes_out_directly() {
    let txs = vec![tx(Some(10), 7), tx(None, 8)];
    let plan = plan_submission(txs, U256::from_u64(9), U256::from_u64(1000), None, None, None);
    let expected = vec![
        TransactionRequest {
            to: Some(address(1)),
            data: Some(vec![7]),
            value: Some(U256::from_u64(10)),
            gas: Some(U256::from_u64(300_000)),
            nonce: Some(U256::from_u64(7)),
            gas_price: Some(U256::from_u64(1000)),
        },
        TransactionRequest {
            to: Some(address(1)),
            data: Some(vec![8]),
            value: None,
            gas: Some(U256::from_u64(300_000)),
            nonce: Some(U256::from_u64(8)),
            gas_price: Some(U256::from_u64(1000)),
        },
    ];
    assert_eq!(plan, Ok(Submission::Direct(expected)));
    // a receiver without an incentive changes nothing
    let plan = plan_submission(
        vec![],
        U256::from_u64(9),
        U256::from_u64(1000),
        None,
        Some(address(5)),
        Some(vec![1]),
    );
    assert_eq!(plan, Ok(Submission::Direct(vec![])));
}

#[test]
fn incentive_with_receiver_adds_the_payment() {
    let txs = vec![tx(Some(10), 7)];
    let plan = plan_submission(
        txs.clone(),
        U256::from_u64(8),
        U256::from_u64(1000),
        Some(U256::from_u64(100)),
        Some(address(5)),
        Some(vec![0xab]),
    )
    .unwrap();
    let payment = Eip1559TransactionRequest {
        to: Some(address(5)),
        data: Some(vec![0xab]),
        value: Some(U256::from_u64(100)),
        gas: Some(U256::from_u64(200_000)),
        nonce: Some(U256::from_u64(8)),
        max_fee_per_gas: Some(U256::from_u64(1000)),
        max_priority_fee_per_gas: None,
    };
    assert_eq!(plan, Submission::Bundle(vec![txs[0].clone(), payment]));
}

#[test]
fn incentive_without_receiver_is_spread() {
    let mut first = tx(Some(10), 7);
    first.max_priority_fee_per_gas = None;
    let plan = plan_submission(
        vec![first.clone(), first.clone()],
        U256::from_u64(9),
        U256::from_u64(1000),
        Some(U256::from_u64(101)),
        None,
        Some(vec![0xab]),
    )
    .unwrap();
    let mut raised = first;
    raised.max_priority_fee_per_gas = Some(U256::from_u64(50));
    raised.max_fee_per_gas = Some(U256::from_u64(1050));
    assert_eq!(plan, Submission::Bundle(vec![raised.clone(), raised]));
    assert_eq!(
        plan_submission(
            vec![],
            U256::zero(),
            U256::zero(),
            Some(U256::from_u64(1)),
            None,
            None
        ),
        Err(BribeError::EmptyBatch)
    );
}
