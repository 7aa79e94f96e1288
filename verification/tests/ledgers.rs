//! Ledger verification: checkpoints, and the chain of checkpoints.
use std::collections::BTreeMap;

use sha2::{Digest, Sha256};
use stellar_archivist::failures::FailureTracker;
use stellar_archivist::xdr_verify::{
    compute_empty_v0_tx_set_hash, compute_empty_v1_parallel_tx_set_hash,
    compute_empty_v1_sequential_tx_set_hash, expected_ledger_range, is_empty_tx_set_hash,
    round_to_upper_checkpoint, EmptyTxSetInfo, Hash256, LedgerHeaderVerificationData,
    VerificationErrorType, XdrVerificationManager, EMPTY_XDR_ARRAY_HASH as EMPTY_XDR_ARRAY_BYTES,
};

const EMPTY_XDR_ARRAY_HASH: Hash256 = Hash256(EMPTY_XDR_ARRAY_BYTES);

fn create_complete_checkpoint_data(
    checkpoint: u32,
    initial_prev_hash: [u8; 32],
) -> BTreeMap<u32, LedgerHeaderVerificationData> {
    let (first_ledger, last_ledger) = expected_ledger_range(checkpoint);
    let mut header_data = BTreeMap::new();
    let mut prev_hash = initial_prev_hash;

    for seq in first_ledger..=last_ledger {
        let computed_hash: [u8; 32] = Sha256::digest(format!("ledger{}", seq).as_bytes()).into();
        header_data.insert(
            seq,
            LedgerHeaderVerificationData {
                computed_hash: Hash256(computed_hash),
                prev_ledger_hash: Hash256(prev_hash),
                expected_tx_set_hash: Hash256([0; 32]),
                expected_result_hash: Hash256([0; 32]),
                ledger_version: 21,
                empty_tx_set: None,
            },
        );
        prev_hash = computed_hash;
    }

    header_data
}

fn create_checkpoint_data_missing(
    checkpoint: u32,
    missing: &[u32],
) -> BTreeMap<u32, LedgerHeaderVerificationData> {
    let mut data = create_complete_checkpoint_data(checkpoint, [0; 32]);
    for seq in missing {
        data.remove(seq);
    }
    data
}

fn single_ledger_header_data(
    seq: u32,
    computed_hash: [u8; 32],
    prev_hash: [u8; 32],
) -> BTreeMap<u32, LedgerHeaderVerificationData> {
    BTreeMap::from([(
        seq,
        LedgerHeaderVerificationData {
            computed_hash: Hash256(computed_hash),
            prev_ledger_hash: Hash256(prev_hash),
            expected_tx_set_hash: Hash256([0; 32]),
            expected_result_hash: Hash256([0; 32]),
            ledger_version: 21,
            empty_tx_set: None,
        },
    )])
}

fn hash_of(value: &str) -> [u8; 32] {
    Sha256::digest(value.as_bytes()).into()
}

fn assert_has_error(manager: &XdrVerificationManager, substring: &str) {
    assert!(
        manager
            .get_errors()
            .iter()
            .any(|e| e.message.contains(substring)),
        "expected an error containing {substring:?}, got: {:?}",
        manager
            .get_errors()
            .iter()
            .map(|e| &e.message)
            .collect::<Vec<_>>(),
    );
}

fn assert_no_errors_matching(manager: &XdrVerificationManager, substring: &str) {
    let matching: Vec<_> = manager
        .get_errors()
        .iter()
        .filter(|e| e.message.contains(substring))
        .cloned()
        .collect();
    assert!(
        matching.is_empty(),
        "expected no errors containing {substring:?}, got: {matching:?}",
    );
}

#[test]
fn test_is_empty_tx_set_hash_recognizes_all_shapes() {
    let prev = Hash256(hash_of("prev"));
    assert!(is_empty_tx_set_hash(&Hash256([0; 32]), &prev));
    assert!(is_empty_tx_set_hash(
        &compute_empty_v0_tx_set_hash(&prev),
        &prev
    ));
    assert!(is_empty_tx_set_hash(
        &compute_empty_v1_sequential_tx_set_hash(&prev),
        &prev
    ));
    assert!(is_empty_tx_set_hash(
        &compute_empty_v1_parallel_tx_set_hash(&prev),
        &prev
    ));
    assert!(!is_empty_tx_set_hash(&Hash256(hash_of("random")), &prev));
}

#[test]
fn test_empty_xdr_array_hash_constant_matches_hash() {
    let expected: [u8; 32] = Sha256::digest([0_u8, 0, 0, 0]).into();
    assert_eq!(EMPTY_XDR_ARRAY_HASH, Hash256(expected));
}

#[test]
fn test_manager_records_and_verifies_checkpoint() {
    let mut manager = XdrVerificationManager::new();
    let checkpoint = 63;
    let result_hash = hash_of("result");

    let mut header_data = create_complete_checkpoint_data(checkpoint, [0; 32]);
    for data in header_data.values_mut() {
        // Non-zero tx-set hash so the CAP-0083 zero-tx-set-without-ext-arm
        // check stays quiet; this test only exercises result-hash matching.
        data.expected_tx_set_hash = Hash256(hash_of("txset"));
        data.expected_result_hash = Hash256(result_hash);
    }

    let result_hashes: BTreeMap<u32, Hash256> = header_data
        .keys()
        .map(|&seq| (seq, Hash256(result_hash)))
        .collect();

    manager.record_header_data(checkpoint, header_data);
    manager.record_result_hashes(checkpoint, result_hashes);
    manager.verify_and_release(checkpoint);

    assert!(manager.get_errors().is_empty());
}

#[test]
fn test_chain_break_within_ledger_file() {
    check_chain_break_within_ledger_file(127, 65);
    check_chain_break_within_ledger_file(127, 95);
    check_chain_break_within_ledger_file(127, 127);
    check_chain_break_within_ledger_file(63, 2);
}

fn check_chain_break_within_ledger_file(checkpoint: u32, corrupted_ledger: u32) {
    let mut manager = XdrVerificationManager::new();

    let mut header_data = create_complete_checkpoint_data(checkpoint, [0; 32]);
    header_data
        .get_mut(&corrupted_ledger)
        .unwrap()
        .prev_ledger_hash = Hash256([0xff; 32]);

    manager.record_header_data(checkpoint, header_data);
    manager.verify_and_release(checkpoint);

    assert!(manager.get_errors().iter().any(|e| matches!(
        e.kind,
        VerificationErrorType::Ledger(seq) if seq == corrupted_ledger
    ) && e.message.contains("hash chain break")));
}

#[test]
fn test_complete_checkpoint_passes() {
    check_complete_checkpoint_passes(63, 63);
    check_complete_checkpoint_passes(127, 64);
}

fn check_complete_checkpoint_passes(checkpoint: u32, expected_count: usize) {
    let mut manager = XdrVerificationManager::new();
    let header_data =
        with_empty_ledger_hashes(create_complete_checkpoint_data(checkpoint, [0; 32]));
    assert_eq!(header_data.len(), expected_count);

    manager.record_header_data(checkpoint, header_data);
    manager.verify_and_release(checkpoint);

    assert!(manager.get_errors().is_empty());
}

#[test]
fn test_missing_ledger_header_entries() {
    check_missing_ledger_header_entries(127, vec![64]);
    check_missing_ledger_header_entries(127, vec![127]);
    check_missing_ledger_header_entries(127, vec![100]);
    check_missing_ledger_header_entries(127, vec![66, 67]);
    check_missing_ledger_header_entries(63, vec![1]);
    check_missing_ledger_header_entries(127, (64..=127).collect::<Vec<u32>>());
}

fn check_missing_ledger_header_entries(checkpoint: u32, missing: Vec<u32>) {
    let mut manager = XdrVerificationManager::new();
    manager.record_header_data(
        checkpoint,
        create_checkpoint_data_missing(checkpoint, &missing),
    );
    manager.verify_and_release(checkpoint);

    assert_has_error(&manager, "missing");
}

#[test]
fn test_ledger_outside_expected_checkpoint_range() {
    let mut manager = XdrVerificationManager::new();
    let mut header_data = create_complete_checkpoint_data(127, [0; 32]);
    header_data.insert(
        200,
        LedgerHeaderVerificationData {
            computed_hash: Hash256([0xaa; 32]),
            prev_ledger_hash: Hash256([0xbb; 32]),
            expected_tx_set_hash: Hash256([0; 32]),
            expected_result_hash: Hash256([0; 32]),
            ledger_version: 21,
            empty_tx_set: None,
        },
    );

    manager.record_header_data(127, header_data);
    manager.verify_and_release(127);

    assert_has_error(&manager, "unexpected ledger-header entries outside range");
}

#[test]
fn test_cross_checkpoint_chain() {
    check_cross_checkpoint_chain(false);
    check_cross_checkpoint_chain(true);
}

fn check_cross_checkpoint_chain(break_chain: bool) {
    let mut manager = XdrVerificationManager::new();
    let header_data_63 = single_ledger_header_data(63, hash_of("ledger63"), [0; 32]);
    let prev_hash = if break_chain {
        [0xff; 32]
    } else {
        hash_of("ledger63")
    };
    let header_data_127 = single_ledger_header_data(64, hash_of("ledger127"), prev_hash);

    manager.record_header_data(63, header_data_63);
    manager.record_header_data(127, header_data_127);
    manager.verify_and_release(63);
    manager.verify_and_release(127);

    let errors_before_chain = manager.get_errors().len();
    manager.verify_checkpoint_chain();
    let chain_errors_added = manager.get_errors().len() - errors_before_chain;
    if break_chain {
        assert_eq!(chain_errors_added, 1);
    } else {
        assert_eq!(chain_errors_added, 0);
    }
}

#[test]
fn test_consecutive_checkpoints_full() {
    check_consecutive_checkpoints_full(false);
    check_consecutive_checkpoints_full(true);
}

fn check_consecutive_checkpoints_full(break_chain: bool) {
    let mut manager = XdrVerificationManager::new();
    let header_data_63 = with_empty_ledger_hashes(create_complete_checkpoint_data(63, [0; 32]));
    let last_hash_of_63 = header_data_63.get(&63).unwrap().computed_hash.clone();

    let mut header_data_127 = BTreeMap::new();
    let mut prev_hash = if break_chain {
        Hash256([0xff; 32])
    } else {
        last_hash_of_63
    };
    for seq in 64_u32..=127 {
        let computed_hash = Hash256(Sha256::digest(seq.to_le_bytes()).into());
        header_data_127.insert(
            seq,
            LedgerHeaderVerificationData {
                computed_hash: computed_hash.clone(),
                prev_ledger_hash: prev_hash.clone(),
                expected_tx_set_hash: Hash256(hash_of(&format!("txset{seq}"))),
                expected_result_hash: Hash256([0; 32]),
                ledger_version: 21,
                empty_tx_set: None,
            },
        );
        prev_hash = computed_hash;
    }

    manager.record_header_data(63, header_data_63);
    manager.record_header_data(127, header_data_127);
    manager.verify_and_release(63);
    manager.verify_and_release(127);

    assert!(manager.get_errors().is_empty());
    manager.verify_checkpoint_chain();
    if break_chain {
        assert!(!manager.get_errors().is_empty());
    } else {
        assert!(manager.get_errors().is_empty());
    }
}

#[test]
fn test_non_consecutive_checkpoint_scanning() {
    let mut manager = XdrVerificationManager::new();
    manager.record_header_data(
        63,
        with_empty_ledger_hashes(create_complete_checkpoint_data(63, [0; 32])),
    );
    manager.record_header_data(
        191,
        with_empty_ledger_hashes(create_complete_checkpoint_data(191, [0; 32])),
    );
    manager.verify_and_release(63);
    manager.verify_and_release(191);

    assert!(manager.get_errors().is_empty());
    manager.verify_checkpoint_chain();
    assert!(manager.get_errors().is_empty());
}

#[test]
fn test_cross_checkpoint_missing_last_ledger_breaks_chain() {
    let mut manager = XdrVerificationManager::new();
    let mut header_data_63 = create_complete_checkpoint_data(63, [0; 32]);
    header_data_63.remove(&63);

    manager.record_header_data(63, header_data_63);
    manager.record_header_data(127, create_complete_checkpoint_data(127, [0; 32]));
    manager.verify_and_release(63);
    manager.verify_and_release(127);
    manager.verify_checkpoint_chain();

    assert!(!manager.get_errors().is_empty());
}

#[test]
fn test_manager_memory_freed_after_verification() {
    let mut manager = XdrVerificationManager::new();
    let checkpoint = 63;
    let header_data =
        with_empty_ledger_hashes(create_complete_checkpoint_data(checkpoint, [0; 32]));

    manager.record_header_data(checkpoint, header_data.clone());
    manager.verify_and_release(checkpoint);
    manager.record_header_data(checkpoint, header_data);
    manager.verify_and_release(checkpoint);

    assert!(manager.get_errors().is_empty());
}

#[test]
fn test_verify_and_release_with_only_tx_hashes_records_error_and_is_idempotent() {
    let mut manager = XdrVerificationManager::new();
    manager.record_tx_set_hashes(127, BTreeMap::from([(100u32, Hash256([1; 32]))]));
    manager.verify_and_release(127);
    let first_errors = manager.get_errors();
    manager.verify_and_release(127);
    let second_errors = manager.get_errors();

    assert_eq!(first_errors.len(), 1);
    assert_eq!(second_errors.len(), 1);
    assert_has_error(&manager, "missing ledger verification data");
}

#[test]
fn test_verify_and_release_with_only_result_hashes_records_error() {
    let mut manager = XdrVerificationManager::new();
    manager.record_result_hashes(127, BTreeMap::from([(100u32, Hash256([1; 32]))]));
    manager.verify_and_release(127);

    assert_has_error(&manager, "missing ledger verification data");
}

#[test]
fn test_verify_checkpoint_chain_with_three_consecutive_checkpoints() {
    let mut manager = XdrVerificationManager::new();
    let header_data_63 = with_empty_ledger_hashes(create_complete_checkpoint_data(63, [0; 32]));
    let hash_63 = header_data_63.get(&63).unwrap().computed_hash.clone();
    let header_data_127 = with_empty_ledger_hashes(create_complete_checkpoint_data(127, hash_63.0));
    let hash_127 = header_data_127.get(&127).unwrap().computed_hash.clone();
    let header_data_191 =
        with_empty_ledger_hashes(create_complete_checkpoint_data(191, hash_127.0));

    manager.record_header_data(63, header_data_63);
    manager.record_header_data(127, header_data_127);
    manager.record_header_data(191, header_data_191);
    manager.verify_and_release(63);
    manager.verify_and_release(127);
    manager.verify_and_release(191);
    manager.verify_checkpoint_chain();

    assert!(manager.get_errors().is_empty());
}

#[test]
fn test_verify_checkpoint_chain_empty_manager() {
    let mut manager = XdrVerificationManager::new();
    manager.verify_checkpoint_chain();
    assert!(manager.get_errors().is_empty());
}

#[test]
fn test_verify_checkpoint_chain_single_checkpoint_is_noop() {
    let mut manager = XdrVerificationManager::new();
    manager.record_header_data(
        63,
        with_empty_ledger_hashes(create_complete_checkpoint_data(63, [0; 32])),
    );
    manager.verify_and_release(63);
    manager.verify_checkpoint_chain();

    assert!(manager.get_errors().is_empty());
}

#[test]
fn test_expected_ledger_range_large_checkpoint() {
    let checkpoint = u32::MAX - (u32::MAX % 64);
    let (first, last) = expected_ledger_range(checkpoint);
    assert_eq!(last, checkpoint);
    assert_eq!(last - first, 63);
}

#[test]
fn test_manager_detects_hash_mismatch() {
    check_manager_detects_hash_mismatch("tx set");
    check_manager_detects_hash_mismatch("result set");
}

fn check_manager_detects_hash_mismatch(hash_type: &str) {
    let mut manager = XdrVerificationManager::new();
    let checkpoint = 127;
    let expected = hash_of("expected");
    let wrong = hash_of("wrong");

    let mut header_data = create_complete_checkpoint_data(checkpoint, [0; 32]);
    for data in header_data.values_mut() {
        match hash_type {
            "tx set" => data.expected_tx_set_hash = Hash256(expected),
            "result set" => data.expected_result_hash = Hash256(expected),
            _ => unreachable!(),
        }
    }

    let wrong_hashes: BTreeMap<u32, Hash256> =
        header_data.keys().map(|&seq| (seq, Hash256(wrong))).collect();

    manager.record_header_data(checkpoint, header_data);
    match hash_type {
        "tx set" => manager.record_tx_set_hashes(checkpoint, wrong_hashes),
        "result set" => manager.record_result_hashes(checkpoint, wrong_hashes),
        _ => unreachable!(),
    }
    manager.verify_and_release(checkpoint);

    assert_has_error(&manager, &format!("{hash_type} hash mismatch"));
}

#[test]
fn test_manager_detects_missing_entry_for_non_empty_hash() {
    check_manager_detects_missing_entry_for_non_empty_hash("tx set");
    check_manager_detects_missing_entry_for_non_empty_hash("result");
}

fn check_manager_detects_missing_entry_for_non_empty_hash(hash_type: &str) {
    let mut manager = XdrVerificationManager::new();
    let checkpoint = 127;
    let non_empty_hash = hash_of("non_empty");

    let mut header_data = create_complete_checkpoint_data(checkpoint, [0; 32]);
    for data in header_data.values_mut() {
        // Non-empty hashes for both fields so neither side's missing-entry
        // tolerance (empty tx-set sentinel / empty result hash) applies.
        data.expected_tx_set_hash = Hash256(non_empty_hash);
        data.expected_result_hash = Hash256(non_empty_hash);
    }

    manager.record_header_data(checkpoint, header_data);
    match hash_type {
        "tx set" => manager.record_tx_set_hashes(checkpoint, BTreeMap::new()),
        "result" => manager.record_result_hashes(checkpoint, BTreeMap::new()),
        _ => unreachable!(),
    }
    manager.verify_and_release(checkpoint);

    assert_has_error(&manager, &format!("missing {hash_type} entry"));
}

/// Missing entries should not be flagged when the expected hash indicates an empty
/// or zero-valued set. Each case sets a different "empty" hash variant and verifies
/// no spurious errors are produced.
#[test]
fn test_manager_allows_missing_entry_for_empty_hash() {
    check_manager_allows_missing_entry_for_empty_hash("tx set", "empty_v0");
    check_manager_allows_missing_entry_for_empty_hash("tx set", "empty_v1");
    check_manager_allows_missing_entry_for_empty_hash("result", "empty_xdr_array");
    check_manager_allows_missing_entry_for_empty_hash("result", "zero");
}

fn check_manager_allows_missing_entry_for_empty_hash(hash_type: &str, empty_variant: &str) {
    let mut manager = XdrVerificationManager::new();
    // A zero result hash is tolerated only on genesis (ledger 1), so the
    // "zero" case runs on the genesis checkpoint; the others use an ordinary
    // checkpoint.
    let checkpoint = if empty_variant == "zero" { 63 } else { 127 };

    let mut header_data = create_complete_checkpoint_data(checkpoint, [0; 32]);
    for data in header_data.values_mut() {
        // Baseline non-zero tx-set hash so the CAP-0083 check (which flags a
        // zero tx-set hash without the ext arm) stays quiet; cases exercising
        // empty tx-set hashes override this.
        data.expected_tx_set_hash = Hash256(hash_of("txset_baseline"));
        match (hash_type, empty_variant) {
            ("tx set", "empty_v0") => {
                // A missing tx entry is tolerated only when the tx-set hash is
                // a recognized empty sentinel AND the result hash is the
                // empty-result-set hash — both must model an empty ledger.
                data.expected_tx_set_hash = compute_empty_v0_tx_set_hash(&data.prev_ledger_hash);
                data.expected_result_hash = EMPTY_XDR_ARRAY_HASH;
            }
            ("tx set", "empty_v1") => {
                data.expected_tx_set_hash =
                    compute_empty_v1_parallel_tx_set_hash(&data.prev_ledger_hash);
                data.expected_result_hash = EMPTY_XDR_ARRAY_HASH;
            }
            ("result", "empty_xdr_array") => {
                data.expected_result_hash = EMPTY_XDR_ARRAY_HASH;
            }
            ("result", "zero") => {
                data.expected_result_hash = EMPTY_XDR_ARRAY_HASH;
            }
            _ => unreachable!(),
        }
    }
    if empty_variant == "zero" {
        // Model the real genesis shape: ledger 1 alone carries the zero
        // result hash (its header is synthesized without an SCP round).
        header_data.get_mut(&1).unwrap().expected_result_hash = Hash256([0; 32]);
        header_data.get_mut(&1).unwrap().expected_tx_set_hash = Hash256([0; 32]);
    }

    manager.record_header_data(checkpoint, header_data);
    match hash_type {
        "tx set" => manager.record_tx_set_hashes(checkpoint, BTreeMap::new()),
        "result" => manager.record_result_hashes(checkpoint, BTreeMap::new()),
        _ => unreachable!(),
    }
    manager.verify_and_release(checkpoint);

    assert_no_errors_matching(&manager, hash_type);
}

#[test]
fn test_manager_flags_missing_result_entry_for_non_genesis_zero_result_hash() {
    // Only genesis (ledger 1) legitimately carries an all-zero result hash;
    // post-genesis headers always record SHA256 of the (possibly empty)
    // result set, which can never be zero. A zero result hash mid-chain with
    // no results entry must therefore be reported, not tolerated.
    let mut manager = XdrVerificationManager::new();
    let checkpoint = 127;

    let mut header_data = create_complete_checkpoint_data(checkpoint, [0; 32]);
    for data in header_data.values_mut() {
        // Non-zero tx-set hashes keep the zero-tx-set-hash check quiet;
        // result hashes stay at the fixture default of all-zeros.
        data.expected_tx_set_hash = Hash256(hash_of("txset_baseline"));
    }

    manager.record_header_data(checkpoint, header_data);
    manager.record_result_hashes(checkpoint, BTreeMap::new());
    manager.verify_and_release(checkpoint);

    assert_has_error(&manager, "missing result entry");
}

#[test]
fn test_manager_flags_missing_tx_set_when_tx_hash_is_not_a_recognized_empty_shape() {
    // An empty result hash alone must NOT excuse a missing transactions
    // entry: if the header's tx-set hash claims a non-empty set, `--verify`
    // can no longer establish that the transactions file agrees with the
    // header. Both the empty result hash AND a recognized empty-tx-set
    // sentinel are required to tolerate a missing entry.
    let mut manager = XdrVerificationManager::new();
    let checkpoint = 127;
    let non_empty_tx_hash = hash_of("non_empty_tx_set");

    let mut header_data = create_complete_checkpoint_data(checkpoint, [0; 32]);
    for data in header_data.values_mut() {
        data.expected_tx_set_hash = Hash256(non_empty_tx_hash);
        data.expected_result_hash = EMPTY_XDR_ARRAY_HASH;
    }

    manager.record_header_data(checkpoint, header_data);
    manager.record_tx_set_hashes(checkpoint, BTreeMap::new());
    manager.verify_and_release(checkpoint);

    assert_has_error(&manager, "missing tx set entry");
}

#[test]
fn test_record_all_errors_empty_manager_is_noop() {
    let mut manager = XdrVerificationManager::new();
    let mut failures = FailureTracker::default();

    manager.drain_all_errors(&mut failures);

    assert!(failures.is_empty());
    assert!(failures.checkpoints.is_empty());
    assert!(failures.files.is_empty());
    assert!(failures.buckets.is_empty());
    assert!(failures.well_known.is_none());
}

#[test]
fn test_record_all_errors_drains_each_variant() {
    let mut manager = XdrVerificationManager::new();

    // Trigger a `Checkpoint(cp)` error via a completeness failure.
    manager.record_header_data(127, create_checkpoint_data_missing(127, &[100]));
    manager.verify_and_release(127);

    // Trigger a `Ledger(seq)` error via an internal chain break.
    let mut chain_break_data = create_complete_checkpoint_data(191, [0; 32]);
    chain_break_data.get_mut(&150).unwrap().prev_ledger_hash = Hash256([0xff; 32]);
    manager.record_header_data(191, chain_break_data);
    manager.verify_and_release(191);

    // Sanity: manager has accumulated errors.
    assert!(!manager.get_errors().is_empty());

    let mut failures = FailureTracker::default();
    manager.drain_all_errors(&mut failures);

    // Checkpoint(127) → cp 127.
    assert!(failures.checkpoints.contains(&127));
    // Ledger(150) → round_to_upper_checkpoint(150) = 191.
    assert!(failures.checkpoints.contains(&191));
    // Nothing should land in files/buckets/well_known — all manager errors are
    // cp-level cross-file/chain inconsistencies.
    assert!(failures.files.is_empty());
    assert!(failures.buckets.is_empty());
    assert!(failures.well_known.is_none());
}

#[test]
fn test_record_all_errors_boundary_inserts_both_cps() {
    let mut manager = XdrVerificationManager::new();

    // Build two adjacent cps (127 and 191) where the boundary hash chain
    // breaks: cp 127 ends with one computed hash, cp 191's first prev_hash
    // doesn't match.
    let data_127 = create_complete_checkpoint_data(127, [0; 32]);
    manager.record_header_data(127, data_127);
    manager.verify_and_release(127);

    // cp 191's first ledger (128) has prev_hash that won't match cp 127's last
    // computed_hash.
    let mut data_191 = create_complete_checkpoint_data(191, [0xab; 32]);
    // Make the internal chain self-consistent but mismatched with cp 127.
    let mut prev_hash = [0xab; 32];
    for (seq, entry) in &mut data_191 {
        entry.prev_ledger_hash = Hash256(prev_hash);
        prev_hash = entry.computed_hash.0;
        let _ = seq;
    }
    manager.record_header_data(191, data_191);
    manager.verify_and_release(191);

    manager.verify_checkpoint_chain();

    let mut failures = FailureTracker::default();
    manager.drain_all_errors(&mut failures);

    // Boundary(191) records both 191 and 191-64=127.
    assert!(failures.checkpoints.contains(&191));
    assert!(failures.checkpoints.contains(&127));
}

#[test]
fn test_record_all_errors_idempotent() {
    let mut manager = XdrVerificationManager::new();
    manager.record_header_data(127, create_checkpoint_data_missing(127, &[100]));
    manager.verify_and_release(127);

    let mut failures = FailureTracker::default();
    manager.drain_all_errors(&mut failures);
    let cps_after_first = failures.checkpoints.clone();

    // Calling again is a true no-op: the first call drained the manager's
    // errors, so the second finds nothing to record and the set is unchanged.
    manager.drain_all_errors(&mut failures);
    let cps_after_second = failures.checkpoints.clone();

    assert_eq!(cps_after_first, cps_after_second);
    assert!(cps_after_first.contains(&127));
}

//=============================================================================
// CAP-0083 empty-tx-set header-internal + adjacent-ledger verification
//=============================================================================

fn cap83_header_data(
    seq: u32,
    prev_hash: [u8; 32],
    ledger_version: u32,
) -> LedgerHeaderVerificationData {
    LedgerHeaderVerificationData {
        computed_hash: Hash256(hash_of(&format!("ledger{seq}"))),
        prev_ledger_hash: Hash256(prev_hash),
        expected_tx_set_hash: Hash256([0; 32]),
        expected_result_hash: EMPTY_XDR_ARRAY_HASH,
        ledger_version,
        empty_tx_set: Some(EmptyTxSetInfo {
            proposed_prev_ledger_hash: Hash256(prev_hash),
            proposed_prev_ledger_version: ledger_version,
        }),
    }
}

/// Give every ledger the shape of a genuinely-empty ledger: the canonical
/// empty-V0 tx-set hash (non-zero, so the CAP-0083 zero-hash rule stays
/// quiet) plus the empty result-set hash — the only combination for which
/// missing transactions/results entries are tolerated.
fn with_empty_ledger_hashes(
    mut data: BTreeMap<u32, LedgerHeaderVerificationData>,
) -> BTreeMap<u32, LedgerHeaderVerificationData> {
    for d in data.values_mut() {
        d.expected_tx_set_hash = compute_empty_v0_tx_set_hash(&d.prev_ledger_hash);
        d.expected_result_hash = EMPTY_XDR_ARRAY_HASH;
    }
    data
}

/// Build a checkpoint-127 header map whose ledger 100 is a valid CAP-83
/// empty-tx-set ledger, apply `mutate`, run the manager over it with empty
/// tx/result maps, and return the manager for error assertions.
fn run_cap83_checkpoint(
    mutate: impl FnOnce(&mut BTreeMap<u32, LedgerHeaderVerificationData>),
) -> XdrVerificationManager {
    let mut manager = XdrVerificationManager::new();
    let mut data = with_empty_ledger_hashes(create_complete_checkpoint_data(127, [9; 32]));
    // CAP-0083 eligibility is gated on the predecessor's protocol, so the
    // predecessor must itself be on protocol 28 for ledger 100 to be valid.
    data.get_mut(&99).unwrap().ledger_version = 28;
    let prev = data[&99].computed_hash.clone();
    let prev_version = data[&99].ledger_version;
    let mut entry = cap83_header_data(100, prev.0, 28);
    entry
        .empty_tx_set
        .as_mut()
        .unwrap()
        .proposed_prev_ledger_version = prev_version;
    data.insert(100, entry);
    mutate(&mut data);
    manager.record_header_data(127, data);
    manager.record_tx_set_hashes(127, BTreeMap::new());
    manager.record_result_hashes(127, BTreeMap::new());
    manager.verify_and_release(127);
    manager
}

#[test]
fn test_cap83_valid_header_data_passes() {
    let manager = run_cap83_checkpoint(|_| {});
    assert!(
        manager
            .get_errors()
            .iter()
            .all(|e| !e.message.contains("empty-tx-set")),
        "valid CAP-83 ledger must not produce empty-tx-set errors: {:?}",
        manager.get_errors()
    );
}

#[test]
fn test_cap83_nonzero_tx_set_hash_rejected() {
    let manager = run_cap83_checkpoint(|d| {
        d.get_mut(&100).unwrap().expected_tx_set_hash = Hash256([5; 32]);
    });
    assert_has_error(&manager, "empty-tx-set ledger has non-zero tx set hash");
}

#[test]
fn test_cap83_pre_protocol_28_rejected() {
    let manager = run_cap83_checkpoint(|d| {
        d.get_mut(&100).unwrap().ledger_version = 27;
    });
    assert_has_error(&manager, "requires protocol >= 28");
}

#[test]
fn test_cap83_pre_protocol_28_predecessor_rejected() {
    // Activation-boundary shape: the ledger's own header is protocol 28 but
    // its predecessor closed on 27. stellar-core gates empty-tx-set values on
    // the last-closed (predecessor) ledger's protocol, so this ext arm can
    // never legitimately appear on such a ledger.
    let manager = run_cap83_checkpoint(|d| {
        d.get_mut(&99).unwrap().ledger_version = 27;
        d.get_mut(&100)
            .unwrap()
            .empty_tx_set
            .as_mut()
            .unwrap()
            .proposed_prev_ledger_version = 27;
    });
    assert_has_error(&manager, "requires predecessor protocol >= 28");
}

#[test]
fn test_cap83_proposed_prev_hash_mismatch_rejected() {
    let manager = run_cap83_checkpoint(|d| {
        d.get_mut(&100)
            .unwrap()
            .empty_tx_set
            .as_mut()
            .unwrap()
            .proposed_prev_ledger_hash = Hash256([1; 32]);
    });
    assert_has_error(&manager, "proposed previous_ledger_hash");
}

#[test]
fn test_cap83_nonempty_result_hash_rejected() {
    let manager = run_cap83_checkpoint(|d| {
        d.get_mut(&100).unwrap().expected_result_hash = Hash256([3; 32]);
    });
    assert_has_error(&manager, "empty-tx-set ledger has non-empty result hash");
}

#[test]
fn test_cap83_proposed_prev_version_mismatch_rejected() {
    let manager = run_cap83_checkpoint(|d| {
        d.get_mut(&100)
            .unwrap()
            .empty_tx_set
            .as_mut()
            .unwrap()
            .proposed_prev_ledger_version = 27;
    });
    assert_has_error(&manager, "proposed previous ledger version");
}

#[test]
fn test_zero_tx_set_hash_without_ext_arm_rejected() {
    let manager = run_cap83_checkpoint(|d| {
        d.get_mut(&110).unwrap().expected_tx_set_hash = Hash256([0; 32]);
    });
    assert_has_error(&manager, "zero tx set hash");
}

#[test]
fn test_genesis_zero_tx_set_hash_allowed() {
    let mut manager = XdrVerificationManager::new();
    // Genesis checkpoint covers ledgers 1..=63. Real genesis headers are
    // synthesized with BOTH hashes all-zeros (no SCP round produced them) —
    // model that shape for ledger 1 and make all others non-zero.
    let mut data = with_empty_ledger_hashes(create_complete_checkpoint_data(63, [0; 32]));
    data.get_mut(&1).unwrap().expected_tx_set_hash = Hash256([0; 32]);
    data.get_mut(&1).unwrap().expected_result_hash = Hash256([0; 32]);
    manager.record_header_data(63, data);
    manager.record_tx_set_hashes(63, BTreeMap::new());
    manager.record_result_hashes(63, BTreeMap::new());
    manager.verify_and_release(63);
    assert!(
        manager
            .get_errors()
            .iter()
            .all(|e| !e.message.contains("zero tx set hash")),
        "genesis ledger 1 must be allowed a zero tx set hash: {:?}",
        manager.get_errors()
    );
}

/// Like `run_cap83_checkpoint`, but with caller-supplied tx-set/result maps.
fn run_cap83_checkpoint_with_entries(
    tx_hashes: BTreeMap<u32, Hash256>,
    result_hashes: BTreeMap<u32, Hash256>,
) -> XdrVerificationManager {
    let mut manager = XdrVerificationManager::new();
    let mut data = with_empty_ledger_hashes(create_complete_checkpoint_data(127, [9; 32]));
    // As in `run_cap83_checkpoint`: the predecessor must be on protocol 28.
    data.get_mut(&99).unwrap().ledger_version = 28;
    let prev = data[&99].computed_hash.clone();
    let prev_version = data[&99].ledger_version;
    let mut entry = cap83_header_data(100, prev.0, 28);
    entry
        .empty_tx_set
        .as_mut()
        .unwrap()
        .proposed_prev_ledger_version = prev_version;
    data.insert(100, entry);
    manager.record_header_data(127, data);
    manager.record_tx_set_hashes(127, tx_hashes);
    manager.record_result_hashes(127, result_hashes);
    manager.verify_and_release(127);
    manager
}

#[test]
fn test_cap83_present_tx_entry_rejected() {
    let manager = run_cap83_checkpoint_with_entries(
        BTreeMap::from([(100u32, Hash256(hash_of("some-tx-set")))]),
        BTreeMap::new(),
    );
    assert_has_error(
        &manager,
        "transactions entry present for empty-tx-set ledger",
    );
}

#[test]
fn test_cap83_present_result_entry_rejected() {
    // The entry's hash MATCHES the header's expected (empty) result hash —
    // presence alone must be the error.
    let manager = run_cap83_checkpoint_with_entries(
        BTreeMap::new(),
        BTreeMap::from([(100u32, EMPTY_XDR_ARRAY_HASH)]),
    );
    assert_has_error(&manager, "results entry present for empty-tx-set ledger");
}

#[test]
fn test_cap83_absent_entries_ok() {
    let manager = run_cap83_checkpoint_with_entries(BTreeMap::new(), BTreeMap::new());
    assert!(
        manager.get_errors().is_empty(),
        "absent entries for an empty-tx-set ledger must verify clean: {:?}",
        manager.get_errors()
    );
}

#[test]
fn test_cap83_boundary_proposed_version_mismatch_rejected() {
    let mut manager = XdrVerificationManager::new();

    // Checkpoint 127 (ledgers 64..=127), all protocol 21.
    let cp1 = with_empty_ledger_hashes(create_complete_checkpoint_data(127, [9; 32]));
    let last_hash = cp1[&127].computed_hash.clone();
    manager.record_header_data(127, cp1);
    manager.record_tx_set_hashes(127, BTreeMap::new());
    manager.record_result_hashes(127, BTreeMap::new());
    manager.verify_and_release(127);

    // Checkpoint 191 whose FIRST ledger (128) is an empty-tx-set ledger
    // claiming proposed previous version 28, while cp 127's last version is 21.
    let mut cp2 = with_empty_ledger_hashes(create_complete_checkpoint_data(191, [0; 32]));
    let mut first = cap83_header_data(128, last_hash.0, 28);
    first
        .empty_tx_set
        .as_mut()
        .unwrap()
        .proposed_prev_ledger_version = 28;
    cp2.insert(128, first);
    // keep the intra-checkpoint hash chain quiet for ledger 129 (and refresh
    // its canonical empty tx-set hash, which is derived from the prev hash)
    let first_hash = cp2[&128].computed_hash.clone();
    cp2.get_mut(&129).unwrap().prev_ledger_hash = first_hash.clone();
    cp2.get_mut(&129).unwrap().expected_tx_set_hash = compute_empty_v0_tx_set_hash(&first_hash);
    manager.record_header_data(191, cp2);
    manager.record_tx_set_hashes(191, BTreeMap::new());
    manager.record_result_hashes(191, BTreeMap::new());
    manager.verify_and_release(191);

    manager.verify_checkpoint_chain();
    assert_has_error(&manager, "proposed previous ledger version");
}

#[test]
fn test_cap83_boundary_proposed_version_match_ok() {
    let mut manager = XdrVerificationManager::new();

    // Checkpoint 127 (ledgers 64..=127) whose last ledger closed on protocol
    // 28 — the predecessor of a valid empty-tx-set ledger must be on 28.
    let mut cp1 = with_empty_ledger_hashes(create_complete_checkpoint_data(127, [9; 32]));
    cp1.get_mut(&127).unwrap().ledger_version = 28;
    let last_hash = cp1[&127].computed_hash.clone();
    manager.record_header_data(127, cp1);
    manager.record_tx_set_hashes(127, BTreeMap::new());
    manager.record_result_hashes(127, BTreeMap::new());
    manager.verify_and_release(127);

    // Checkpoint 191 whose FIRST ledger (128) is an empty-tx-set ledger whose
    // proposed previous version (28) matches cp 127's last ledger version (28).
    let mut cp2 = with_empty_ledger_hashes(create_complete_checkpoint_data(191, [0; 32]));
    let mut first = cap83_header_data(128, last_hash.0, 28);
    first
        .empty_tx_set
        .as_mut()
        .unwrap()
        .proposed_prev_ledger_version = 28;
    cp2.insert(128, first);
    // keep the intra-checkpoint hash chain quiet for ledger 129 (and refresh
    // its canonical empty tx-set hash, which is derived from the prev hash)
    let first_hash = cp2[&128].computed_hash.clone();
    cp2.get_mut(&129).unwrap().prev_ledger_hash = first_hash.clone();
    cp2.get_mut(&129).unwrap().expected_tx_set_hash = compute_empty_v0_tx_set_hash(&first_hash);
    manager.record_header_data(191, cp2);
    manager.record_tx_set_hashes(191, BTreeMap::new());
    manager.record_result_hashes(191, BTreeMap::new());
    manager.verify_and_release(191);

    manager.verify_checkpoint_chain();
    assert_no_errors_matching(&manager, "proposed previous ledger version");
}

#[test]
fn ranges_and_rounding() {
    assert_eq!(expected_ledger_range(63), (1, 63));
    assert_eq!(expected_ledger_range(127), (64, 127));
    assert_eq!(round_to_upper_checkpoint(1), 63);
    assert_eq!(round_to_upper_checkpoint(63), 63);
    assert_eq!(round_to_upper_checkpoint(64), 127);
    assert_eq!(round_to_upper_checkpoint(150), 191);
    assert_eq!(round_to_upper_checkpoint(u32::MAX), u32::MAX);
}

#[test]
fn empty_set_hashes_are_digests_of_their_xdr_form() {
    let prev = Hash256(hash_of("prev"));
    let v0: [u8; 32] = Sha256::digest(prev.0).into();
    assert_eq!(compute_empty_v0_tx_set_hash(&prev), Hash256(v0));
    let mut sequential = vec![0, 0, 0, 1];
    sequential.extend_from_slice(&prev.0);
    sequential.extend_from_slice(&[0, 0, 0, 2, 0, 0, 0, 0, 0, 0, 0, 0, 0, 0, 0, 0, 0, 0, 0, 0]);
    let v1: [u8; 32] = Sha256::digest(&sequential).into();
    assert_eq!(compute_empty_v1_sequential_tx_set_hash(&prev), Hash256(v1));
    let mut parallel = vec![0, 0, 0, 1];
    parallel.extend_from_slice(&prev.0);
    parallel.extend_from_slice(&[0, 0, 0, 2, 0, 0, 0, 0, 0, 0, 0, 0]);
    parallel.extend_from_slice(&[0, 0, 0, 1, 0, 0, 0, 0, 0, 0, 0, 0]);
    assert_eq!(parallel.len(), 60);
    let v1_parallel: [u8; 32] = Sha256::digest(&parallel).into();
    assert_eq!(
        compute_empty_v1_parallel_tx_set_hash(&prev),
        Hash256(v1_parallel)
    );
    assert_ne!(
        compute_empty_v1_sequential_tx_set_hash(&prev),
        compute_empty_v1_parallel_tx_set_hash(&prev)
    );
}

#[test]
fn errors_come_in_the_order_of_the_ledgers() {
    let mut manager = XdrVerificationManager::new();
    let mut data = with_empty_ledger_hashes(create_complete_checkpoint_data(127, [9; 32]));
    data.get_mut(&120).unwrap().prev_ledger_hash = Hash256([1; 32]);
    data.get_mut(&70).unwrap().prev_ledger_hash = Hash256([1; 32]);
    data.remove(&100);
    manager.record_header_data(127, data);
    manager.verify_and_release(127);
    let found: Vec<(VerificationErrorType, String)> = manager
        .get_errors()
        .into_iter()
        .map(|e| (e.kind, e.message))
        .collect();
    assert_eq!(
        found,
        vec![
            (
                VerificationErrorType::Checkpoint(127),
                "missing ledger-header entries".to_string()
            ),
            (
                VerificationErrorType::Ledger(70),
                "hash chain break".to_string()
            ),
            (
                VerificationErrorType::Ledger(120),
                "hash chain break".to_string()
            ),
        ]
    );
}

#[test]
fn boundary_break_is_reported_once_with_its_checkpoint() {
    let mut manager = XdrVerificationManager::new();
    manager.record_header_data(63, single_ledger_header_data(63, [7; 32], [0; 32]));
    manager.record_header_data(127, single_ledger_header_data(64, [8; 32], [6; 32]));
    manager.verify_and_release(63);
    manager.verify_and_release(127);
    let before = manager.get_errors().len();
    manager.verify_checkpoint_chain();
    let errors = manager.get_errors();
    assert_eq!(errors.len(), before + 1);
    assert_eq!(errors[before].kind, VerificationErrorType::Boundary(127));
    assert_eq!(errors[before].message, "hash chain break between checkpoints");
}
