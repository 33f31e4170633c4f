use electrsd::wait::{
    history_contains, same_hash, HeightAction, HeightEvent, HeightPhase, HeightWait, Outcome,
    TxAction, TxEvent, TxPhase, TxWait, WAIT_ATTEMPTS, WAIT_INTERVAL_MS,
};
use electrum_client::bitcoin::absolute::LockTime;
use electrum_client::bitcoin::consensus::serialize;
use electrum_client::bitcoin::transaction::Version;
use electrum_client::bitcoin::{
    Amount, OutPoint, ScriptBuf, Sequence, Transaction, TxIn, TxOut, Txid, Witness,
};

fn transaction(scripts: Vec<Vec<u8>>) -> Transaction {
    Transaction {
        version: Version::TWO,
        lock_time: LockTime::ZERO,
        input: vec![TxIn {
            previous_output: OutPoint { txid: zero_txid(), vout: 7 },
            script_sig: ScriptBuf::new(),
            sequence: Sequence::MAX,
            witness: Witness::new(),
        }],
        output: scripts
            .into_iter()
            .map(|script| TxOut { value: Amount::from_sat(10000), script_pubkey: ScriptBuf::from_bytes(script) })
            .collect(),
    }
}

fn zero_txid() -> Txid {
    electrum_client::bitcoin::hashes::Hash::all_zeros()
}

fn hash_of(tx: &Transaction) -> [u8; 32] {
    electrum_client::bitcoin::hashes::Hash::to_byte_array(tx.compute_txid())
}

#[test]
fn constants_of_a_wait() {
    assert_eq!(WAIT_ATTEMPTS, 600);
    assert_eq!(WAIT_INTERVAL_MS, 100);
}

#[test]
fn a_height_is_asked_for_by_its_number() {
    let (wait, action) = HeightWait::start(101);
    assert_eq!(action, HeightAction::Probe(101));
    assert_eq!(wait, HeightWait { height: 101, left: 600, phase: HeightPhase::Probing });
}

#[test]
fn a_height_is_observed_when_the_header_is_there() {
    let (mut wait, _) = HeightWait::start(101);
    assert_eq!(wait.step(HeightEvent::HeaderFound), HeightAction::Done(Outcome::Observed));
    assert_eq!(wait.phase, HeightPhase::Finished(Outcome::Observed));
    assert_eq!(wait.step(HeightEvent::HeaderFound), HeightAction::Ignored);
    assert_eq!(wait.step(HeightEvent::Slept), HeightAction::Ignored);
}

#[test]
fn a_missing_header_costs_an_attempt_and_a_pause() {
    let (mut wait, _) = HeightWait::start(5);
    assert_eq!(wait.step(HeightEvent::HeaderMissing), HeightAction::Sleep(100));
    assert_eq!(wait, HeightWait { height: 5, left: 599, phase: HeightPhase::Sleeping });
    assert_eq!(wait.step(HeightEvent::HeaderFound), HeightAction::Ignored);
    assert_eq!(wait.step(HeightEvent::Slept), HeightAction::Probe(5));
    assert_eq!(wait, HeightWait { height: 5, left: 599, phase: HeightPhase::Probing });
}

#[test]
fn a_height_wait_gives_up_after_six_hundred_probes() {
    let (mut wait, mut action) = HeightWait::start(101);
    let mut probes = 0;
    let mut pauses = 0;
    loop {
        match action {
            HeightAction::Probe(height) => {
                assert_eq!(height, 101);
                probes += 1;
                action = wait.step(HeightEvent::HeaderMissing);
            }
            HeightAction::Sleep(millis) => {
                assert_eq!(millis, 100);
                pauses += 1;
                action = wait.step(HeightEvent::Slept);
            }
            HeightAction::Done(outcome) => {
                assert_eq!(outcome, Outcome::GaveUp);
                break;
            }
            HeightAction::Ignored => panic!("ignored"),
        }
    }
    assert_eq!(probes, 600);
    assert_eq!(pauses, 600);
    assert_eq!(wait.phase, HeightPhase::Finished(Outcome::GaveUp));
    assert_eq!(wait.left, 0);
}

#[test]
fn hashes_are_compared_byte_by_byte() {
    let a = [7u8; 32];
    let mut b = [7u8; 32];
    assert!(same_hash(&a, &b));
    b[31] = 8;
    assert!(!same_hash(&a, &b));
    b[31] = 7;
    b[0] = 0;
    assert!(!same_hash(&a, &b));
}

#[test]
fn a_history_lists_what_it_holds() {
    let history = vec![[1u8; 32], [2u8; 32], [3u8; 32]];
    assert!(history_contains(&history, &[1u8; 32]));
    assert!(history_contains(&history, &[3u8; 32]));
    assert!(!history_contains(&history, &[4u8; 32]));
    assert!(!history_contains(&vec![], &[1u8; 32]));
}

#[test]
fn a_transaction_is_asked_for_by_its_hash() {
    let (wait, action) = TxWait::start([9u8; 32]);
    match action {
        TxAction::GetTransaction(hash) => assert_eq!(hash, [9u8; 32]),
        other => panic!("{:?}", other),
    }
    assert_eq!(wait.txid, [9u8; 32]);
    assert_eq!(wait.left, 600);
    assert_eq!(wait.phase, TxPhase::Fetching);
}

#[test]
fn a_transaction_with_an_output_needs_its_history() {
    let tx = transaction(vec![vec![0x51], vec![0x52, 0x53]]);
    let (mut wait, _) = TxWait::start(hash_of(&tx));
    match wait.step(TxEvent::TxFound(serialize(&tx))) {
        TxAction::GetHistory(script) => assert_eq!(script, vec![0x51]),
        other => panic!("{:?}", other),
    }
    assert_eq!(wait.phase, TxPhase::CheckingHistory);
    assert_eq!(wait.left, 600);
    let history = vec![[0u8; 32], hash_of(&tx)];
    assert!(matches!(wait.step(TxEvent::History(history)), TxAction::Done(Outcome::Observed)));
    assert_eq!(wait.phase, TxPhase::Finished(Outcome::Observed));
}

#[test]
fn a_history_without_the_transaction_costs_an_attempt_and_a_pause() {
    let tx = transaction(vec![vec![0x00, 0x14, 1, 2, 3]]);
    let (mut wait, _) = TxWait::start(hash_of(&tx));
    wait.step(TxEvent::TxFound(serialize(&tx)));
    match wait.step(TxEvent::History(vec![[5u8; 32]])) {
        TxAction::Sleep(millis) => assert_eq!(millis, 100),
        other => panic!("{:?}", other),
    }
    assert_eq!(wait.phase, TxPhase::Sleeping);
    assert_eq!(wait.left, 599);
    match wait.step(TxEvent::Slept) {
        TxAction::GetTransaction(hash) => assert_eq!(hash, hash_of(&tx)),
        other => panic!("{:?}", other),
    }
    wait.step(TxEvent::TxFound(serialize(&tx)));
    assert!(matches!(wait.step(TxEvent::History(vec![])), TxAction::Sleep(100)));
    assert_eq!(wait.left, 598);
}

#[test]
fn a_history_that_could_not_be_had_costs_an_attempt_and_a_pause() {
    let tx = transaction(vec![vec![0x51]]);
    let (mut wait, _) = TxWait::start(hash_of(&tx));
    assert!(matches!(wait.step(TxEvent::HistoryFailed), TxAction::Ignored));
    wait.step(TxEvent::TxFound(serialize(&tx)));
    assert_eq!(wait.phase, TxPhase::CheckingHistory);
    assert!(matches!(wait.step(TxEvent::HistoryFailed), TxAction::Sleep(100)));
    assert_eq!(wait.phase, TxPhase::Sleeping);
    assert_eq!(wait.left, 599);
    assert!(matches!(wait.step(TxEvent::Slept), TxAction::GetTransaction(_)));
    wait.step(TxEvent::TxFound(serialize(&tx)));
    assert!(matches!(
        wait.step(TxEvent::History(vec![hash_of(&tx)])),
        TxAction::Done(Outcome::Observed)
    ));
}

#[test]
fn the_script_looked_up_is_the_first_output_s() {
    let tx = transaction(vec![vec![0x6a, 0x01], vec![0x51], vec![0x52]]);
    let (mut wait, _) = TxWait::start(hash_of(&tx));
    match wait.step(TxEvent::TxFound(serialize(&tx))) {
        TxAction::GetHistory(script) => assert_eq!(script, vec![0x6a, 0x01]),
        other => panic!("{:?}", other),
    }
}

#[test]
fn another_transaction_than_the_one_asked_for_is_a_miss() {
    let asked = transaction(vec![vec![0x51]]);
    let other = transaction(vec![vec![0x52]]);
    assert_ne!(hash_of(&asked), hash_of(&other));
    let (mut wait, _) = TxWait::start(hash_of(&asked));
    assert!(matches!(wait.step(TxEvent::TxFound(serialize(&other))), TxAction::Sleep(100)));
    assert_eq!(wait.left, 599);
    let empty = transaction(vec![]);
    let (mut wait, _) = TxWait::start(hash_of(&asked));
    assert!(matches!(wait.step(TxEvent::TxFound(serialize(&empty))), TxAction::Sleep(100)));
}

#[test]
fn a_transaction_without_outputs_is_observed_at_once() {
    let tx = transaction(vec![]);
    let (mut wait, _) = TxWait::start(hash_of(&tx));
    assert!(matches!(wait.step(TxEvent::TxFound(serialize(&tx))), TxAction::Done(Outcome::Observed)));
    assert_eq!(wait.phase, TxPhase::Finished(Outcome::Observed));
}

#[test]
fn a_missing_transaction_costs_an_attempt_and_a_pause() {
    let (mut wait, _) = TxWait::start([1u8; 32]);
    match wait.step(TxEvent::TxMissing) {
        TxAction::Sleep(millis) => assert_eq!(millis, 100),
        other => panic!("{:?}", other),
    }
    assert_eq!(wait.phase, TxPhase::Sleeping);
    assert_eq!(wait.left, 599);
    assert!(matches!(wait.step(TxEvent::TxMissing), TxAction::Ignored));
    match wait.step(TxEvent::Slept) {
        TxAction::GetTransaction(hash) => assert_eq!(hash, [1u8; 32]),
        other => panic!("{:?}", other),
    }
    assert_eq!(wait.phase, TxPhase::Fetching);
}

#[test]
fn bytes_that_are_no_transaction_count_as_missing() {
    let (mut wait, _) = TxWait::start([1u8; 32]);
    assert!(matches!(wait.step(TxEvent::TxFound(vec![1, 2, 3])), TxAction::Sleep(100)));
    assert_eq!(wait.left, 599);
    wait.step(TxEvent::Slept);
    assert!(matches!(wait.step(TxEvent::TxFound(vec![])), TxAction::Sleep(100)));
    assert_eq!(wait.left, 598);
    wait.step(TxEvent::Slept);
    let mut raw = serialize(&transaction(vec![vec![0x51]]));
    raw.push(0);
    assert!(matches!(wait.step(TxEvent::TxFound(raw)), TxAction::Sleep(100)));
    assert_eq!(wait.left, 597);
}

#[test]
fn decoded_transactions_are_taken_in_directly() {
    let id = [1u8; 32];
    let (mut wait, _) = TxWait::start(id);
    assert!(matches!(wait.on_transaction(None, None), TxAction::Sleep(100)));
    let (mut wait, _) = TxWait::start(id);
    assert!(matches!(wait.on_transaction(Some(id), None), TxAction::Sleep(100)));
    let (mut wait, _) = TxWait::start(id);
    assert!(matches!(wait.on_transaction(None, Some(vec![])), TxAction::Sleep(100)));
    let (mut wait, _) = TxWait::start(id);
    assert!(matches!(wait.on_transaction(Some([2u8; 32]), Some(vec![])), TxAction::Sleep(100)));
    let (mut wait, _) = TxWait::start(id);
    assert!(matches!(wait.on_transaction(Some(id), Some(vec![])), TxAction::Done(Outcome::Observed)));
    let (mut wait, _) = TxWait::start(id);
    match wait.on_transaction(Some(id), Some(vec![vec![0xaa, 0xbb], vec![0xcc]])) {
        TxAction::GetHistory(script) => assert_eq!(script, vec![0xaa, 0xbb]),
        other => panic!("{:?}", other),
    }
    assert_eq!(wait.phase, TxPhase::CheckingHistory);
}

#[test]
fn a_transaction_wait_gives_up_after_six_hundred_fetches() {
    let (mut wait, mut action) = TxWait::start([3u8; 32]);
    let mut fetches = 0;
    loop {
        match action {
            TxAction::GetTransaction(_) => {
                fetches += 1;
                action = wait.step(TxEvent::TxMissing);
            }
            TxAction::Sleep(_) => action = wait.step(TxEvent::Slept),
            TxAction::Done(outcome) => {
                assert_eq!(outcome, Outcome::GaveUp);
                break;
            }
            other => panic!("{:?}", other),
        }
    }
    assert_eq!(fetches, 600);
    assert_eq!(wait.left, 0);
}

#[test]
fn a_transaction_wait_gives_up_after_six_hundred_stale_histories() {
    let tx = transaction(vec![vec![0x51]]);
    let (mut wait, mut action) = TxWait::start(hash_of(&tx));
    let mut fetches = 0;
    let mut histories = 0;
    let mut pauses = 0;
    loop {
        match action {
            TxAction::GetTransaction(_) => {
                fetches += 1;
                action = wait.step(TxEvent::TxFound(serialize(&tx)));
            }
            TxAction::GetHistory(_) => {
                histories += 1;
                action = wait.step(TxEvent::History(vec![]));
            }
            TxAction::Sleep(millis) => {
                assert_eq!(millis, 100);
                pauses += 1;
                action = wait.step(TxEvent::Slept);
            }
            TxAction::Done(outcome) => {
                assert_eq!(outcome, Outcome::GaveUp);
                break;
            }
            other => panic!("{:?}", other),
        }
    }
    assert_eq!(fetches, 600);
    assert_eq!(histories, 600);
    assert_eq!(pauses, 600);
}
