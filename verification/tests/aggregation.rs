use multicall::entry::{Address, CallEntry, Target};
use multicall::error::ExecutionError;
use multicall::executor::{prepare_batch, BatchResult};
use multicall::multicall::{Multicall, DEFAULT_INTERVAL_MILLIS};
use multicall::scheduler::{plan_tick, ScheduledOutcome, TickAction};
use multicall::store::PendingCallStore;

fn account(tag: u8) -> Address {
    Address::new([tag; 20])
}

fn entry_to(tag: u8, payload: Vec<u8>) -> CallEntry {
    CallEntry::new(Target::Account(account(tag)), payload)
}

#[test]
fn order_preservation() {
    let mut store = PendingCallStore::new();
    store.add(entry_to(1, vec![10]));
    store.add(entry_to(2, vec![20, 21]));
    store.add(entry_to(3, vec![30, 31, 32]));
    assert_eq!(store.len(), 3);

    let drained = store.drain_all();
    assert_eq!(store.len(), 0);
    assert_eq!(drained.len(), 3);

    let calls = prepare_batch(&drained).expect("three valid entries");
    assert_eq!(calls.len(), 3);
    for (i, call) in calls.iter().enumerate() {
        let tag = (i + 1) as u8;
        assert_eq!(call.target.bytes, [tag; 20]);
        assert_eq!(call.call_data, drained[i].payload);
    }
    assert_eq!(calls[0].call_data, vec![10]);
    assert_eq!(calls[1].call_data, vec![20, 21]);
    assert_eq!(calls[2].call_data, vec![30, 31, 32]);
}

#[test]
fn atomic_drain_rounds() {
    let mut store = PendingCallStore::new();
    store.add(entry_to(1, vec![1]));
    store.add(entry_to(2, vec![2]));

    let first = store.drain_all();
    assert_eq!(first.len(), 2);
    assert_eq!(first[0].payload, vec![1]);
    assert_eq!(first[1].payload, vec![2]);

    let empty = store.drain_all();
    assert!(empty.is_empty());

    store.add(entry_to(3, vec![3]));
    let second = store.drain_all();
    assert_eq!(second.len(), 1);
    assert_eq!(second[0].payload, vec![3]);
}

#[test]
fn empty_tick_is_silent() {
    let action = plan_tick(false, Vec::new());
    assert!(matches!(action, TickAction::Idle));
}

#[test]
fn consumer_gone_terminates() {
    let drained = vec![entry_to(1, vec![1])];
    let action = plan_tick(true, drained);
    assert!(matches!(action, TickAction::Terminate));
}

#[test]
fn fail_fast_validation() {
    let batch = vec![
        entry_to(1, vec![1]),
        CallEntry::new(Target::Absent, vec![2]),
        entry_to(3, vec![3]),
    ];
    let err = prepare_batch(&batch).expect_err("absent target rejects the batch");
    assert_eq!(err, ExecutionError::InvalidTarget);
}

#[test]
fn creation_target_rejected() {
    let batch = vec![CallEntry::new(Target::Create, vec![9]), entry_to(1, vec![1])];
    let err = prepare_batch(&batch).expect_err("creation pseudo-target rejects the batch");
    assert_eq!(err, ExecutionError::InvalidTarget);
}

#[test]
fn invalid_entry_aborts_loop() {
    let drained = vec![entry_to(1, vec![1]), CallEntry::new(Target::Absent, vec![2])];
    let action = plan_tick(false, drained);
    match action {
        TickAction::Abort(err) => assert_eq!(err, ExecutionError::InvalidTarget),
        _ => panic!("a structurally invalid drain must abort the loop"),
    }
}

#[test]
fn backend_error_is_kept_apart() {
    let err = ExecutionError::BackendError(String::from("connection reset"));
    assert!(matches!(err, ExecutionError::BackendError(_)));
    assert_ne!(err, ExecutionError::InvalidTarget);
}

#[test]
fn default_interval_and_override() {
    let mc = Multicall::new(account(0x11));
    assert_eq!(mc.interval_ms(), DEFAULT_INTERVAL_MILLIS);
    assert_eq!(mc.interval_ms(), 50);
    assert_eq!(mc.endpoint().bytes, [0x11; 20]);

    let mc = mc.with_interval(200);
    assert_eq!(mc.interval_ms(), 200);
    assert_eq!(mc.endpoint().bytes, [0x11; 20]);
}

#[test]
fn execute_now_scenario() {
    let mc = Multicall::new(account(0xCA)).with_interval(50);
    for i in 0..4u8 {
        mc.add_call(CallEntry::new(Target::Account(account(0x22)), vec![i, i + 1]));
    }

    let drained = mc.drain_calls();
    assert_eq!(drained.len(), 4);
    let calls = prepare_batch(&drained).expect("four valid entries");
    assert_eq!(calls.len(), 4);
    for (i, call) in calls.iter().enumerate() {
        assert_eq!(call.target.bytes, [0x22; 20]);
        assert_eq!(call.call_data, vec![i as u8, i as u8 + 1]);
    }

    // The backend reports one outcome per call, in call order, plus a marker.
    let outcomes: Vec<Vec<u8>> = calls.iter().map(|c| c.call_data.clone()).collect();
    let result = BatchResult { block_number: 123_456, return_data: outcomes };
    assert_eq!(result.return_data.len(), 4);
    assert_eq!(result.block_number, 123_456);
    for (i, data) in result.return_data.iter().enumerate() {
        assert_eq!(*data, vec![i as u8, i as u8 + 1]);
    }

    // A drain leaves nothing behind for the next round.
    assert!(mc.drain_calls().is_empty());
}

#[test]
fn scheduled_tick_scenario() {
    let mc = Multicall::new(account(0xCA)).with_interval(1);
    assert_eq!(mc.interval_ms(), 1);
    for i in 0..4u8 {
        mc.add_call(entry_to(0x33, vec![i]));
    }

    // First tick: the consumer is there, four entries are drained, the tick
    // dispatches them all, and their outcome is published.
    let action = plan_tick(false, mc.drain_calls());
    let calls = match action {
        TickAction::Dispatch(calls) => calls,
        _ => panic!("a valid non-empty drain must be dispatched"),
    };
    assert_eq!(calls.len(), 4);
    let outcome: ScheduledOutcome = Ok(BatchResult {
        block_number: 7,
        return_data: calls.iter().map(|c| c.call_data.clone()).collect(),
    });
    match outcome {
        Ok(result) => assert_eq!(result.return_data.len(), 4),
        Err(_) => panic!("the published outcome of a valid batch is a success"),
    }

    // Next tick after the consumer dropped: the loop terminates.
    let action = plan_tick(true, mc.drain_calls());
    assert!(matches!(action, TickAction::Terminate));
}

#[test]
fn shared_handles_feed_one_batch() {
    let mc = Multicall::new(account(0xCA));
    let other = mc.clone();
    assert_eq!(other.interval_ms(), mc.interval_ms());

    mc.add_call(entry_to(1, vec![1]));
    other.add_call(entry_to(2, vec![2]));
    mc.add_call(entry_to(3, vec![3]));

    let drained = other.drain_calls();
    assert_eq!(drained.len(), 3);
    for (i, entry) in drained.iter().enumerate() {
        assert_eq!(entry.payload, vec![(i + 1) as u8]);
    }
    assert!(mc.drain_calls().is_empty());
}
