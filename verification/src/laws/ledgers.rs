//! What the verification of ledgers reports, and what it does not.
use vstd::prelude::*;

use crate::hashing::sha256;
use crate::xdr_verify::{
    boundary_errors, boundary_errors_below, checkpoint_errors, checkpoint_of,
    empty_tx_set_errors, empty_v0_tx_set_hash, empty_v1_parallel_tx_set_hash,
    empty_v1_sequential_tx_set_hash, errors_before, failed_checkpoints, failed_checkpoints_of,
    first_ledger, flagged, has_foreign_headers, in_checkpoint, is_empty_set_hash, lacks_headers,
    ledger_errors, link_errors, predecessor, predecessor_errors, result_errors,
    transaction_errors, Boundary, Hash256, LedgerHeaderVerificationData, ManagerView,
    VerificationErrorType, VerificationErrorView, EMPTY_XDR_ARRAY_HASH,
};

verus! {

// ===== Ledgers and checkpoints =====

/// The checkpoint of a ledger is the next ledger, itself included, that is one below a multiple of
/// 64.
pub proof fn law_checkpoints_are_every_64_ledgers(ledger: u32)
    ensures
        ledger <= checkpoint_of(ledger) < ledger + 64,
        (checkpoint_of(ledger) + 1) % 64 == 0,
{
}

/// The first checkpoint starts with ledger 1, and each later one right after the one before it.
pub proof fn law_checkpoints_follow_each_other(checkpoint: u32)
    ensures
        checkpoint < 64 ==> first_ledger(checkpoint) == 1,
        checkpoint <= u32::MAX - 64 ==> first_ledger((checkpoint + 64) as u32) == checkpoint + 1,
{
}

/// What is recorded of a checkpoint is what the verification of that checkpoint goes by, in place of
/// what was recorded before; what is known of other checkpoints, and the errors, stay. Draining
/// forgets the errors and nothing else.
pub proof fn law_recording_concerns_one_file(
    manager: ManagerView,
    checkpoint: u32,
    headers: Map<u32, LedgerHeaderVerificationData>,
    hashes: Map<u32, Hash256>,
    other: u32,
)
    ensures
        ({
            let after = manager.with_headers(checkpoint, headers);
            &&& after.headers.contains_key(checkpoint) && after.headers[checkpoint] == headers
            &&& other != checkpoint ==> same_at(manager.headers, after.headers, other)
            &&& after.transactions == manager.transactions
            &&& after.results == manager.results
            &&& after.boundaries == manager.boundaries
            &&& after.errors == manager.errors
        }),
        ({
            let after = manager.with_transactions(checkpoint, hashes);
            &&& after.transactions.contains_key(checkpoint) && after.transactions[checkpoint]
                == hashes
            &&& other != checkpoint ==> same_at(manager.transactions, after.transactions, other)
            &&& after.headers == manager.headers
            &&& after.results == manager.results
            &&& after.boundaries == manager.boundaries
            &&& after.errors == manager.errors
        }),
        ({
            let after = manager.with_results(checkpoint, hashes);
            &&& after.results.contains_key(checkpoint) && after.results[checkpoint] == hashes
            &&& other != checkpoint ==> same_at(manager.results, after.results, other)
            &&& after.headers == manager.headers
            &&& after.transactions == manager.transactions
            &&& after.boundaries == manager.boundaries
            &&& after.errors == manager.errors
        }),
        ({
            let after = manager.drained();
            &&& after.errors.len() == 0
            &&& after.headers == manager.headers
            &&& after.transactions == manager.transactions
            &&& after.results == manager.results
            &&& after.boundaries == manager.boundaries
        }),
{
}

// ===== What is reported of a checkpoint =====

/// The first ledger of a checkpoint.
pub open spec fn lowest(checkpoint: u32) -> int {
    if checkpoint >= 64 {
        checkpoint - 63
    } else {
        1
    }
}

/// Verifying the checkpoint adds this error to those found before.
pub open spec fn reports(
    manager: ManagerView,
    checkpoint: u32,
    kind: VerificationErrorType,
    message: Seq<char>,
) -> bool {
    let after = manager.released(checkpoint).errors;
    exists|i: int|
        manager.errors.len() <= i < after.len() && #[trigger] after[i] == (VerificationErrorView {
            kind,
            message,
        })
}

proof fn lemma_messages()
    ensures
        "hash chain break"@.len() == 16,
        "zero tx set hash without an empty-tx-set value"@.len() == 46,
        "empty-tx-set ledger has non-zero tx set hash"@.len() == 44,
        "empty-tx-set ledger requires protocol >= 28"@.len() == 43,
        "empty-tx-set ledger: proposed previous_ledger_hash is not that of the header"@.len() == 76,
        "empty-tx-set ledger has non-empty result hash"@.len() == 45,
        "empty-tx-set ledger requires predecessor protocol >= 28"@.len() == 55,
        "empty-tx-set ledger: proposed previous ledger version is not that of its predecessor"@.len()
            == 84,
        "transactions entry present for empty-tx-set ledger"@.len() == 50,
        "tx set hash mismatch"@.len() == 20,
        "missing tx set entry"@.len() == 20,
        "results entry present for empty-tx-set ledger"@.len() == 45,
        "result set hash mismatch"@.len() == 24,
        "missing result entry"@.len() == 20,
        "missing ledger-header entries"@.len() == 29,
        "unexpected ledger-header entries outside range"@.len() == 46,
        "missing ledger verification data"@.len() == 32,
        "hash chain break between checkpoints"@.len() == 36,
        "tx set hash mismatch"@[0] == 't',
        "missing tx set entry"@[8] == 't',
        "missing tx set entry"@[0] == 'm',
        "missing result entry"@[8] == 'r',
        "missing result entry"@[0] == 'm',
        "empty-tx-set ledger has non-empty result hash"@[0] == 'e',
        "results entry present for empty-tx-set ledger"@[0] == 'r',
        "zero tx set hash without an empty-tx-set value"@[0] == 'z',
        "unexpected ledger-header entries outside range"@[0] == 'u',
{
    reveal_strlit("hash chain break");
    reveal_strlit("zero tx set hash without an empty-tx-set value");
    reveal_strlit("empty-tx-set ledger has non-zero tx set hash");
    reveal_strlit("empty-tx-set ledger requires protocol >= 28");
    reveal_strlit("empty-tx-set ledger: proposed previous_ledger_hash is not that of the header");
    reveal_strlit("empty-tx-set ledger has non-empty result hash");
    reveal_strlit("empty-tx-set ledger requires predecessor protocol >= 28");
    reveal_strlit(
        "empty-tx-set ledger: proposed previous ledger version is not that of its predecessor",
    );
    reveal_strlit("transactions entry present for empty-tx-set ledger");
    reveal_strlit("tx set hash mismatch");
    reveal_strlit("missing tx set entry");
    reveal_strlit("results entry present for empty-tx-set ledger");
    reveal_strlit("result set hash mismatch");
    reveal_strlit("missing result entry");
    reveal_strlit("missing ledger-header entries");
    reveal_strlit("unexpected ledger-header entries outside range");
    reveal_strlit("missing ledger verification data");
    reveal_strlit("hash chain break between checkpoints");
}

proof fn lemma_either<T>(a: Seq<T>, b: Seq<T>, x: T)
    ensures
        (a + b).contains(x) <==> a.contains(x) || b.contains(x),
{
    if a.contains(x) {
        let i = choose|i: int| 0 <= i < a.len() && a[i] == x;
        assert((a + b)[i] == x);
    }
    if b.contains(x) {
        let i = choose|i: int| 0 <= i < b.len() && b[i] == x;
        assert((a + b)[a.len() + i] == x);
    }
}

proof fn lemma_flagged(
    condition: bool,
    kind: VerificationErrorType,
    message: Seq<char>,
    error: VerificationErrorView,
)
    ensures
        flagged(condition, kind, message).contains(error) <==> condition && error == (
        VerificationErrorView { kind, message }),
{
    if condition {
        assert(flagged(condition, kind, message)[0] == (VerificationErrorView { kind, message }));
    }
}

/// What was recorded of a checkpoint besides its headers.
pub open spec fn recorded(files: Map<u32, Map<u32, Hash256>>, checkpoint: u32) -> Option<
    Map<u32, Hash256>,
> {
    if files.contains_key(checkpoint) {
        Some(files[checkpoint])
    } else {
        None
    }
}

proof fn lemma_reports(
    manager: ManagerView,
    checkpoint: u32,
    kind: VerificationErrorType,
    message: Seq<char>,
)
    requires
        manager.headers.contains_key(checkpoint),
    ensures
        reports(manager, checkpoint, kind, message) <==> checkpoint_errors(
            checkpoint,
            manager.headers[checkpoint],
            recorded(manager.transactions, checkpoint),
            recorded(manager.results, checkpoint),
        ).contains(VerificationErrorView { kind, message }),
{
    let added = checkpoint_errors(
        checkpoint,
        manager.headers[checkpoint],
        recorded(manager.transactions, checkpoint),
        recorded(manager.results, checkpoint),
    );
    let after = manager.released(checkpoint).errors;
    let error = VerificationErrorView { kind, message };
    assert(after == manager.errors + added);
    if added.contains(error) {
        let i = choose|i: int| 0 <= i < added.len() && added[i] == error;
        assert(after[manager.errors.len() + i] == error);
    }
    if reports(manager, checkpoint, kind, message) {
        let i = choose|i: int|
            manager.errors.len() <= i < after.len() && #[trigger] after[i] == error;
        assert(added[i - manager.errors.len()] == error);
    }
}

/// An error of a ledger is among those of its four kinds.
spec fn in_ledger(
    checkpoint: u32,
    headers: Map<u32, LedgerHeaderVerificationData>,
    transactions: Option<Map<u32, Hash256>>,
    results: Option<Map<u32, Hash256>>,
    seq: u32,
    error: VerificationErrorView,
) -> bool {
    let header = headers[seq];
    let prev = predecessor(checkpoint, headers, seq);
    &&& headers.contains_key(seq)
    &&& {
        ||| link_errors(seq, header, prev).contains(error)
        ||| empty_tx_set_errors(seq, header, prev).contains(error)
        ||| transaction_errors(seq, header, transactions).contains(error)
        ||| result_errors(seq, header, results).contains(error)
    }
}

proof fn lemma_in_ledger(
    checkpoint: u32,
    headers: Map<u32, LedgerHeaderVerificationData>,
    transactions: Option<Map<u32, Hash256>>,
    results: Option<Map<u32, Hash256>>,
    seq: u32,
    error: VerificationErrorView,
)
    ensures
        ledger_errors(checkpoint, headers, transactions, results, seq).contains(error)
            <==> in_ledger(checkpoint, headers, transactions, results, seq, error),
{
    if headers.contains_key(seq) {
        let header = headers[seq];
        let prev = predecessor(checkpoint, headers, seq);
        let a = link_errors(seq, header, prev);
        let b = empty_tx_set_errors(seq, header, prev);
        let c = transaction_errors(seq, header, transactions);
        let d = result_errors(seq, header, results);
        lemma_either(a, b, error);
        lemma_either(a + b, c, error);
        lemma_either(a + b + c, d, error);
    }
}

proof fn lemma_link(
    seq: u32,
    header: LedgerHeaderVerificationData,
    prev: Option<LedgerHeaderVerificationData>,
    error: VerificationErrorView,
)
    ensures
        link_errors(seq, header, prev).contains(error) <==> {
            &&& error.kind == VerificationErrorType::Ledger(seq)
            &&& error.message == "hash chain break"@
            &&& prev matches Some(prev) && prev.computed_hash@ != header.prev_ledger_hash@
        },
{
    if let Some(prev) = prev {
        lemma_flagged(
            prev.computed_hash@ != header.prev_ledger_hash@,
            VerificationErrorType::Ledger(seq),
            "hash chain break"@,
            error,
        );
    }
}

/// What the verification says of a ledger's transactions entry.
pub open spec fn transactions_fault(
    seq: u32,
    header: LedgerHeaderVerificationData,
    hashes: Map<u32, Hash256>,
    message: Seq<char>,
) -> bool {
    ||| {
        &&& message == "tx set hash mismatch"@
        &&& hashes.contains_key(seq)
        &&& header.empty_tx_set is None
        &&& !(hashes[seq]@ =~= header.expected_tx_set_hash@)
    }
    ||| {
        &&& message == "transactions entry present for empty-tx-set ledger"@
        &&& hashes.contains_key(seq)
        &&& header.empty_tx_set is Some
    }
    ||| {
        &&& message == "missing tx set entry"@
        &&& !hashes.contains_key(seq)
        &&& !without_transactions(seq, header)
    }
}

/// All 32 bytes of a hash are zero.
pub open spec fn all_zero(hash: Hash256) -> bool {
    forall|i: int| 0 <= i < 32 ==> hash@[i] == 0
}

/// The big-endian form of a small number in XDR: four bytes.
pub open spec fn xdr_small(n: u8) -> Seq<u8> {
    seq![0, 0, 0, n]
}

/// The hash of a generalized transaction set (version 1) on top of a ledger, with two phases: a
/// sequential one without components, and `second`.
pub open spec fn generalized_set_hash(prev: Seq<u8>, second: Seq<u8>) -> Seq<u8> {
    sha256(xdr_small(1) + prev + xdr_small(2) + (xdr_small(0) + xdr_small(0)) + second)
}

/// The hash is zero, or that of a set without transactions on top of the previous ledger: the first
/// version hashes that ledger alone; a generalized set has a second phase that is sequential
/// (version 0, no components) or parallel (version 1, no base fee, no stages).
pub open spec fn of_empty_set(hash: Hash256, prev: Hash256) -> bool {
    ||| all_zero(hash)
    ||| hash@ == sha256(prev@)
    ||| hash@ == generalized_set_hash(prev@, xdr_small(0) + xdr_small(0))
    ||| hash@ == generalized_set_hash(prev@, xdr_small(1) + xdr_small(0) + xdr_small(0))
}

/// The ledger needs no transactions entry: both its hashes are those of an empty ledger, or it is
/// the first ledger of the network and both are zero.
pub open spec fn without_transactions(seq: u32, header: LedgerHeaderVerificationData) -> bool {
    ||| {
        &&& seq == 1
        &&& all_zero(header.expected_tx_set_hash)
        &&& all_zero(header.expected_result_hash)
    }
    ||| {
        &&& of_empty_set(header.expected_tx_set_hash, header.prev_ledger_hash)
        &&& header.expected_result_hash@ == EMPTY_XDR_ARRAY_HASH@
    }
}

/// The ledger needs no results entry: its result hash is that of an empty result set, or it is the
/// first ledger of the network and the hash is zero.
pub open spec fn without_results(seq: u32, header: LedgerHeaderVerificationData) -> bool {
    ||| header.expected_result_hash@ == EMPTY_XDR_ARRAY_HASH@
    ||| seq == 1 && all_zero(header.expected_result_hash)
}

proof fn lemma_all_zero(hash: Hash256)
    ensures
        all_zero(hash) <==> crate::xdr_verify::is_zero(hash@),
{
    assert(hash@.len() == 32);
}

/// The hashes that stand for a transaction set without transactions are zero and the digests of the
/// three XDR forms that such a set can have.
pub proof fn law_hashes_of_empty_transaction_sets(hash: Hash256, prev: Hash256)
    ensures
        is_empty_set_hash(hash@, prev@) <==> of_empty_set(hash, prev),
        empty_v0_tx_set_hash(prev@) == sha256(prev@),
        empty_v1_sequential_tx_set_hash(prev@) == generalized_set_hash(
            prev@,
            xdr_small(0) + xdr_small(0),
        ),
        empty_v1_parallel_tx_set_hash(prev@) == generalized_set_hash(
            prev@,
            xdr_small(1) + xdr_small(0) + xdr_small(0),
        ),
{
    lemma_all_zero(hash);
    let head = xdr_small(1) + prev@ + xdr_small(2) + (xdr_small(0) + xdr_small(0));
    assert(head =~= seq![0u8, 0, 0, 1] + prev@ + seq![0u8, 0, 0, 2, 0, 0, 0, 0, 0, 0, 0, 0]);
    assert(head + (xdr_small(0) + xdr_small(0)) =~= head + seq![0u8, 0, 0, 0, 0, 0, 0, 0]);
    assert(head + (xdr_small(1) + xdr_small(0) + xdr_small(0)) =~= head + seq![
        0u8,
        0,
        0,
        1,
        0,
        0,
        0,
        0,
        0,
        0,
        0,
        0,
    ]);
}

proof fn lemma_transactions(
    seq: u32,
    header: LedgerHeaderVerificationData,
    transactions: Option<Map<u32, Hash256>>,
    error: VerificationErrorView,
)
    ensures
        transaction_errors(seq, header, transactions).contains(error) <==> {
            &&& error.kind == VerificationErrorType::Ledger(seq)
            &&& transactions matches Some(hashes) && transactions_fault(
                seq,
                header,
                hashes,
                error.message,
            )
        },
{
    let kind = VerificationErrorType::Ledger(seq);
    law_hashes_of_empty_transaction_sets(header.expected_tx_set_hash, header.prev_ledger_hash);
    lemma_all_zero(header.expected_tx_set_hash);
    lemma_all_zero(header.expected_result_hash);
    if let Some(hashes) = transactions {
        if hashes.contains_key(seq) {
            lemma_flagged(
                true,
                kind,
                "transactions entry present for empty-tx-set ledger"@,
                error,
            );
            lemma_flagged(
                hashes[seq]@ != header.expected_tx_set_hash@,
                kind,
                "tx set hash mismatch"@,
                error,
            );
        } else {
            lemma_flagged(
                !crate::xdr_verify::lacks_transactions(seq, header),
                kind,
                "missing tx set entry"@,
                error,
            );
        }
    }
}

/// What the verification says of a ledger's results entry.
pub open spec fn results_fault(
    seq: u32,
    header: LedgerHeaderVerificationData,
    hashes: Map<u32, Hash256>,
    message: Seq<char>,
) -> bool {
    ||| {
        &&& message == "result set hash mismatch"@
        &&& hashes.contains_key(seq)
        &&& header.empty_tx_set is None
        &&& !(hashes[seq]@ =~= header.expected_result_hash@)
    }
    ||| {
        &&& message == "results entry present for empty-tx-set ledger"@
        &&& hashes.contains_key(seq)
        &&& header.empty_tx_set is Some
    }
    ||| {
        &&& message == "missing result entry"@
        &&& !hashes.contains_key(seq)
        &&& !without_results(seq, header)
    }
}

proof fn lemma_results(
    seq: u32,
    header: LedgerHeaderVerificationData,
    results: Option<Map<u32, Hash256>>,
    error: VerificationErrorView,
)
    ensures
        result_errors(seq, header, results).contains(error) <==> {
            &&& error.kind == VerificationErrorType::Ledger(seq)
            &&& results matches Some(hashes) && results_fault(seq, header, hashes, error.message)
        },
{
    let kind = VerificationErrorType::Ledger(seq);
    lemma_all_zero(header.expected_result_hash);
    if let Some(hashes) = results {
        if hashes.contains_key(seq) {
            lemma_flagged(true, kind, "results entry present for empty-tx-set ledger"@, error);
            lemma_flagged(
                hashes[seq]@ != header.expected_result_hash@,
                kind,
                "result set hash mismatch"@,
                error,
            );
        } else {
            lemma_flagged(
                !crate::xdr_verify::lacks_results(seq, header),
                kind,
                "missing result entry"@,
                error,
            );
        }
    }
}

/// What the verification says of a ledger that claims an empty transaction set, given the protocol
/// version of its predecessor.
pub open spec fn predecessor_fault(
    claimed: u32,
    version: u32,
    message: Seq<char>,
) -> bool {
    ||| message == "empty-tx-set ledger requires predecessor protocol >= 28"@ && version < 28
    ||| {
        &&& message
            == "empty-tx-set ledger: proposed previous ledger version is not that of its predecessor"@
        &&& claimed != version
    }
}

/// What the verification says of a ledger's claim to have closed with an empty transaction set, or
/// of the lack of one.
pub open spec fn claim_fault(
    seq: u32,
    header: LedgerHeaderVerificationData,
    prev: Option<LedgerHeaderVerificationData>,
    message: Seq<char>,
) -> bool {
    match header.empty_tx_set {
        None => {
            &&& message == "zero tx set hash without an empty-tx-set value"@
            &&& all_zero(header.expected_tx_set_hash)
            &&& seq != 1
        },
        Some(info) => {
            ||| {
                &&& message == "empty-tx-set ledger has non-zero tx set hash"@
                &&& !all_zero(header.expected_tx_set_hash)
            }
            ||| {
                &&& message == "empty-tx-set ledger requires protocol >= 28"@
                &&& header.ledger_version < 28
            }
            ||| {
                &&& message
                    == "empty-tx-set ledger: proposed previous_ledger_hash is not that of the header"@
                &&& !(info.proposed_prev_ledger_hash@ =~= header.prev_ledger_hash@)
            }
            ||| {
                &&& message == "empty-tx-set ledger has non-empty result hash"@
                &&& !(header.expected_result_hash@ =~= EMPTY_XDR_ARRAY_HASH@)
            }
            ||| prev matches Some(prev) && predecessor_fault(
                info.proposed_prev_ledger_version,
                prev.ledger_version,
                message,
            )
        },
    }
}

proof fn lemma_predecessor(
    kind: VerificationErrorType,
    info: crate::xdr_verify::EmptyTxSetInfo,
    version: u32,
    error: VerificationErrorView,
)
    ensures
        predecessor_errors(kind, info, version).contains(error) <==> error.kind == kind
            && predecessor_fault(info.proposed_prev_ledger_version, version, error.message),
{
    let a = flagged(
        version < 28,
        kind,
        "empty-tx-set ledger requires predecessor protocol >= 28"@,
    );
    let b = flagged(
        info.proposed_prev_ledger_version != version,
        kind,
        "empty-tx-set ledger: proposed previous ledger version is not that of its predecessor"@,
    );
    assert(predecessor_errors(kind, info, version) == a + b);
    lemma_either(a, b, error);
    lemma_flagged(
        version < 28,
        kind,
        "empty-tx-set ledger requires predecessor protocol >= 28"@,
        error,
    );
    lemma_flagged(
        info.proposed_prev_ledger_version != version,
        kind,
        "empty-tx-set ledger: proposed previous ledger version is not that of its predecessor"@,
        error,
    );
}

proof fn lemma_claim(
    seq: u32,
    header: LedgerHeaderVerificationData,
    prev: Option<LedgerHeaderVerificationData>,
    error: VerificationErrorView,
)
    ensures
        empty_tx_set_errors(seq, header, prev).contains(error) <==> error.kind
            == VerificationErrorType::Ledger(seq) && claim_fault(seq, header, prev, error.message),
{
    let kind = VerificationErrorType::Ledger(seq);
    lemma_all_zero(header.expected_tx_set_hash);
    match header.empty_tx_set {
        None => {
            lemma_flagged(
                crate::xdr_verify::is_zero(header.expected_tx_set_hash@) && seq != 1,
                kind,
                "zero tx set hash without an empty-tx-set value"@,
                error,
            );
        },
        Some(info) => {
            let m1 = "empty-tx-set ledger has non-zero tx set hash"@;
            let m2 = "empty-tx-set ledger requires protocol >= 28"@;
            let m3 = "empty-tx-set ledger: proposed previous_ledger_hash is not that of the header"@;
            let m4 = "empty-tx-set ledger has non-empty result hash"@;
            let c1 = !crate::xdr_verify::is_zero(header.expected_tx_set_hash@);
            let c2 = header.ledger_version < 28;
            let c3 = info.proposed_prev_ledger_hash@ != header.prev_ledger_hash@;
            let c4 = header.expected_result_hash@ != EMPTY_XDR_ARRAY_HASH@;
            let a = flagged(c1, kind, m1);
            let b = flagged(c2, kind, m2);
            let c = flagged(c3, kind, m3);
            let d = flagged(c4, kind, m4);
            let e = match prev {
                Some(prev) => predecessor_errors(kind, info, prev.ledger_version),
                None => Seq::empty(),
            };
            assert(empty_tx_set_errors(seq, header, prev) == a + b + c + d + e);
            lemma_either(a, b, error);
            lemma_either(a + b, c, error);
            lemma_either(a + b + c, d, error);
            lemma_either(a + b + c + d, e, error);
            lemma_flagged(c1, kind, m1, error);
            lemma_flagged(c2, kind, m2, error);
            lemma_flagged(c3, kind, m3, error);
            lemma_flagged(c4, kind, m4, error);
            if let Some(prev) = prev {
                lemma_predecessor(kind, info, prev.ledger_version, error);
            }
        },
    }
}

/// The header before a ledger, where that is in the same checkpoint and is there.
pub open spec fn header_before(
    checkpoint: u32,
    headers: Map<u32, LedgerHeaderVerificationData>,
    seq: u32,
) -> Option<LedgerHeaderVerificationData> {
    if seq > lowest(checkpoint) && headers.contains_key((seq - 1) as u32) {
        Some(headers[(seq - 1) as u32])
    } else {
        None
    }
}

/// A ledger with a header has this fault: the link to its predecessor is broken, its claim to an
/// empty transaction set is wrong, or the transactions or the results file, where it was recorded,
/// disagrees with the header.
pub open spec fn ledger_fault(
    checkpoint: u32,
    headers: Map<u32, LedgerHeaderVerificationData>,
    transactions: Option<Map<u32, Hash256>>,
    results: Option<Map<u32, Hash256>>,
    seq: u32,
    message: Seq<char>,
) -> bool {
    let header = headers[seq];
    let prev = header_before(checkpoint, headers, seq);
    ||| {
        &&& message == "hash chain break"@
        &&& prev matches Some(prev) && !(prev.computed_hash@ =~= header.prev_ledger_hash@)
    }
    ||| claim_fault(seq, header, prev, message)
    ||| transactions matches Some(hashes) && transactions_fault(seq, header, hashes, message)
    ||| results matches Some(hashes) && results_fault(seq, header, hashes, message)
}

proof fn lemma_ledger(
    checkpoint: u32,
    headers: Map<u32, LedgerHeaderVerificationData>,
    transactions: Option<Map<u32, Hash256>>,
    results: Option<Map<u32, Hash256>>,
    seq: u32,
    error: VerificationErrorView,
)
    ensures
        ledger_errors(checkpoint, headers, transactions, results, seq).contains(error) <==> {
            &&& headers.contains_key(seq)
            &&& error.kind == VerificationErrorType::Ledger(seq)
            &&& ledger_fault(checkpoint, headers, transactions, results, seq, error.message)
        },
{
    lemma_in_ledger(checkpoint, headers, transactions, results, seq, error);
    if headers.contains_key(seq) {
        let header = headers[seq];
        let prev = predecessor(checkpoint, headers, seq);
        assert(prev == header_before(checkpoint, headers, seq));
        lemma_link(seq, header, prev, error);
        lemma_claim(seq, header, prev, error);
        lemma_transactions(seq, header, transactions, error);
        lemma_results(seq, header, results, error);
    }
}

proof fn lemma_before(
    checkpoint: u32,
    headers: Map<u32, LedgerHeaderVerificationData>,
    transactions: Option<Map<u32, Hash256>>,
    results: Option<Map<u32, Hash256>>,
    end: int,
    error: VerificationErrorView,
)
    requires
        end <= checkpoint + 1,
    ensures
        errors_before(checkpoint, headers, transactions, results, end).contains(error) <==> {
            &&& error.kind matches VerificationErrorType::Ledger(seq)
            &&& lowest(checkpoint) <= seq < end
            &&& headers.contains_key(seq)
            &&& ledger_fault(checkpoint, headers, transactions, results, seq, error.message)
        },
    decreases end,
{
    if end > first_ledger(checkpoint) {
        lemma_before(checkpoint, headers, transactions, results, end - 1, error);
        lemma_ledger(checkpoint, headers, transactions, results, (end - 1) as u32, error);
        lemma_either(
            errors_before(checkpoint, headers, transactions, results, end - 1),
            ledger_errors(checkpoint, headers, transactions, results, (end - 1) as u32),
            error,
        );
    }
}

/// A checkpoint has this fault as a whole: a ledger of it has no header, or a header is there of a
/// ledger that is none of its.
pub open spec fn headers_fault(
    checkpoint: u32,
    headers: Map<u32, LedgerHeaderVerificationData>,
    message: Seq<char>,
) -> bool {
    ||| {
        &&& message == "missing ledger-header entries"@
        &&& exists|seq: u32|
            lowest(checkpoint) <= seq <= checkpoint && !#[trigger] headers.contains_key(seq)
    }
    ||| {
        &&& message == "unexpected ledger-header entries outside range"@
        &&& exists|seq: u32|
            !(lowest(checkpoint) <= seq <= checkpoint) && #[trigger] headers.contains_key(seq)
    }
}

proof fn lemma_checkpoint(
    checkpoint: u32,
    headers: Map<u32, LedgerHeaderVerificationData>,
    transactions: Option<Map<u32, Hash256>>,
    results: Option<Map<u32, Hash256>>,
    error: VerificationErrorView,
)
    ensures
        checkpoint_errors(checkpoint, headers, transactions, results).contains(error)
            <==> match error.kind {
            VerificationErrorType::Checkpoint(c) => c == checkpoint && headers_fault(
                checkpoint,
                headers,
                error.message,
            ),
            VerificationErrorType::Ledger(seq) => {
                &&& lowest(checkpoint) <= seq <= checkpoint
                &&& headers.contains_key(seq)
                &&& ledger_fault(checkpoint, headers, transactions, results, seq, error.message)
            },
            VerificationErrorType::Boundary(_) => false,
        },
{
    let kind = VerificationErrorType::Checkpoint(checkpoint);
    let a = flagged(
        lacks_headers(checkpoint, headers),
        kind,
        "missing ledger-header entries"@,
    );
    let b = flagged(
        has_foreign_headers(checkpoint, headers),
        kind,
        "unexpected ledger-header entries outside range"@,
    );
    let c = errors_before(checkpoint, headers, transactions, results, checkpoint + 1);
    lemma_either(a, b, error);
    lemma_either(a + b, c, error);
    lemma_flagged(
        lacks_headers(checkpoint, headers),
        kind,
        "missing ledger-header entries"@,
        error,
    );
    lemma_flagged(
        has_foreign_headers(checkpoint, headers),
        kind,
        "unexpected ledger-header entries outside range"@,
        error,
    );
    lemma_before(checkpoint, headers, transactions, results, checkpoint + 1, error);
    assert forall|seq: u32| in_checkpoint(checkpoint, seq) <==> lowest(checkpoint) <= seq
        <= checkpoint by {}
    if lacks_headers(checkpoint, headers) {
        let seq = choose|seq: u32|
            in_checkpoint(checkpoint, seq) && !#[trigger] headers.contains_key(seq);
        assert(lowest(checkpoint) <= seq <= checkpoint && !headers.contains_key(seq));
    }
    if has_foreign_headers(checkpoint, headers) {
        let seq = choose|seq: u32|
            !in_checkpoint(checkpoint, seq) && #[trigger] headers.contains_key(seq);
        assert(!(lowest(checkpoint) <= seq <= checkpoint) && headers.contains_key(seq));
    }
}

/// What verifying a checkpoint with headers reports is exactly its faults: those of its headers as
/// a whole, and those of each of its ledgers that has a header.
pub proof fn law_faults_of_a_checkpoint_are_reported(
    manager: ManagerView,
    checkpoint: u32,
    kind: VerificationErrorType,
    message: Seq<char>,
)
    requires
        manager.headers.contains_key(checkpoint),
    ensures
        reports(manager, checkpoint, kind, message) <==> match kind {
            VerificationErrorType::Checkpoint(c) => c == checkpoint && headers_fault(
                checkpoint,
                manager.headers[checkpoint],
                message,
            ),
            VerificationErrorType::Ledger(seq) => {
                &&& lowest(checkpoint) <= seq <= checkpoint
                &&& manager.headers[checkpoint].contains_key(seq)
                &&& ledger_fault(
                    checkpoint,
                    manager.headers[checkpoint],
                    recorded(manager.transactions, checkpoint),
                    recorded(manager.results, checkpoint),
                    seq,
                    message,
                )
            },
            VerificationErrorType::Boundary(_) => false,
        },
{
    lemma_reports(manager, checkpoint, kind, message);
    lemma_checkpoint(
        checkpoint,
        manager.headers[checkpoint],
        recorded(manager.transactions, checkpoint),
        recorded(manager.results, checkpoint),
        VerificationErrorView { kind, message },
    );
}

/// An entry of the transactions file is reported as a mismatch if and only if its hash differs from
/// the one that the header of its ledger expects, given that the ledger claims no empty transaction
/// set; likewise an entry of the results file.
pub proof fn law_only_differing_hashes_are_mismatches(
    manager: ManagerView,
    checkpoint: u32,
    seq: u32,
)
    requires
        manager.headers.contains_key(checkpoint),
        manager.headers[checkpoint].contains_key(seq),
        lowest(checkpoint) <= seq <= checkpoint,
        manager.headers[checkpoint][seq].empty_tx_set is None,
    ensures
        ({
            let header = manager.headers[checkpoint][seq];
            let kind = VerificationErrorType::Ledger(seq);
            &&& manager.transactions.contains_key(checkpoint)
                && manager.transactions[checkpoint].contains_key(seq) ==> (reports(
                manager,
                checkpoint,
                kind,
                "tx set hash mismatch"@,
            ) <==> manager.transactions[checkpoint][seq]@ != header.expected_tx_set_hash@)
            &&& manager.results.contains_key(checkpoint)
                && manager.results[checkpoint].contains_key(seq) ==> (reports(
                manager,
                checkpoint,
                kind,
                "result set hash mismatch"@,
            ) <==> manager.results[checkpoint][seq]@ != header.expected_result_hash@)
        }),
{
    let kind = VerificationErrorType::Ledger(seq);
    lemma_messages();
    law_faults_of_a_checkpoint_are_reported(manager, checkpoint, kind, "tx set hash mismatch"@);
    law_faults_of_a_checkpoint_are_reported(manager, checkpoint, kind, "result set hash mismatch"@);
}

/// The headers of a checkpoint are complete and linked, none of its ledgers claims an empty
/// transaction set or has a zero transaction set hash, and each entry of its transactions and
/// results files, which have one for each ledger, is the hash that the header expects.
pub open spec fn is_healthy(
    checkpoint: u32,
    headers: Map<u32, LedgerHeaderVerificationData>,
    transactions: Map<u32, Hash256>,
    results: Map<u32, Hash256>,
) -> bool {
    &&& forall|seq: u32|
        #[trigger] headers.contains_key(seq) <==> lowest(checkpoint) <= seq <= checkpoint
    &&& forall|seq: u32|
        lowest(checkpoint) <= seq <= checkpoint ==> {
            &&& transactions.contains_key(seq)
            &&& results.contains_key(seq)
            &&& transactions[seq]@ == (#[trigger] headers[seq]).expected_tx_set_hash@
            &&& results[seq]@ == headers[seq].expected_result_hash@
            &&& headers[seq].empty_tx_set is None
            &&& exists|i: int| 0 <= i < 32 && headers[seq].expected_tx_set_hash@[i] != 0
            &&& seq > lowest(checkpoint) ==> headers[(seq - 1) as u32].computed_hash@
                == headers[seq].prev_ledger_hash@
        }
}

/// Verifying a healthy checkpoint finds no errors, and keeps its first and its last header for the
/// verification of the chain.
pub proof fn law_healthy_checkpoint_is_clean(manager: ManagerView, checkpoint: u32)
    requires
        checkpoint >= 1,
        manager.headers.contains_key(checkpoint),
        manager.transactions.contains_key(checkpoint),
        manager.results.contains_key(checkpoint),
        is_healthy(
            checkpoint,
            manager.headers[checkpoint],
            manager.transactions[checkpoint],
            manager.results[checkpoint],
        ),
    ensures
        manager.released(checkpoint).errors == manager.errors,
        manager.released(checkpoint).boundaries == manager.boundaries.insert(
            checkpoint,
            Boundary {
                first: Some(manager.headers[checkpoint][lowest(checkpoint) as u32]),
                last: Some(manager.headers[checkpoint][checkpoint]),
            },
        ),
{
    let headers = manager.headers[checkpoint];
    let added = checkpoint_errors(
        checkpoint,
        headers,
        recorded(manager.transactions, checkpoint),
        recorded(manager.results, checkpoint),
    );
    assert(headers.contains_key(lowest(checkpoint) as u32));
    assert(headers.contains_key(checkpoint));
    assert(manager.released(checkpoint).errors == manager.errors + added);
    if added.len() > 0 {
        let error = added[0];
        assert(added.contains(error));
        lemma_checkpoint(
            checkpoint,
            headers,
            recorded(manager.transactions, checkpoint),
            recorded(manager.results, checkpoint),
            error,
        );
        if let VerificationErrorType::Ledger(seq) = error.kind {
            assert(headers[seq].empty_tx_set is None);
        }
        assert(false);
    }
    assert(manager.errors + added =~= manager.errors);
}

/// A checkpoint has no faults if and only if verifying it finds no errors.
pub proof fn law_clean_means_no_faults(manager: ManagerView, checkpoint: u32)
    requires
        manager.headers.contains_key(checkpoint),
    ensures
        manager.released(checkpoint).errors == manager.errors <==> {
            let headers = manager.headers[checkpoint];
            &&& forall|message: Seq<char>| !#[trigger] headers_fault(checkpoint, headers, message)
            &&& forall|seq: u32, message: Seq<char>|
                lowest(checkpoint) <= seq <= checkpoint && headers.contains_key(seq)
                    ==> !#[trigger] ledger_fault(
                    checkpoint,
                    headers,
                    recorded(manager.transactions, checkpoint),
                    recorded(manager.results, checkpoint),
                    seq,
                    message,
                )
        },
{
    let headers = manager.headers[checkpoint];
    let transactions = recorded(manager.transactions, checkpoint);
    let results = recorded(manager.results, checkpoint);
    let added = checkpoint_errors(checkpoint, headers, transactions, results);
    assert(manager.released(checkpoint).errors == manager.errors + added);
    if added.len() == 0 {
        assert(manager.errors + added =~= manager.errors);
        assert forall|message: Seq<char>| !#[trigger] headers_fault(
            checkpoint,
            headers,
            message,
        ) by {
            let kind = VerificationErrorType::Checkpoint(checkpoint);
            lemma_checkpoint(
                checkpoint,
                headers,
                transactions,
                results,
                VerificationErrorView { kind, message },
            );
        }
        assert forall|seq: u32, message: Seq<char>|
            lowest(checkpoint) <= seq <= checkpoint && headers.contains_key(
                seq,
            ) implies !#[trigger] ledger_fault(
            checkpoint,
            headers,
            transactions,
            results,
            seq,
            message,
        ) by {
            let kind = VerificationErrorType::Ledger(seq);
            lemma_checkpoint(
                checkpoint,
                headers,
                transactions,
                results,
                VerificationErrorView { kind, message },
            );
        }
    } else {
        assert((manager.errors + added).len() != manager.errors.len());
        let error = added[0];
        assert(added.contains(error));
        lemma_checkpoint(checkpoint, headers, transactions, results, error);
    }
}

/// Verifying a checkpoint without headers reports that they are missing, once, if anything else was
/// recorded of it; else it changes nothing.
pub proof fn law_missing_headers_are_reported(manager: ManagerView, checkpoint: u32)
    requires
        !manager.headers.contains_key(checkpoint),
    ensures
        manager.released(checkpoint).boundaries == manager.boundaries,
        if manager.transactions.contains_key(checkpoint) || manager.results.contains_key(
            checkpoint,
        ) {
            manager.released(checkpoint).errors == manager.errors.push(
                VerificationErrorView {
                    kind: VerificationErrorType::Checkpoint(checkpoint),
                    message: "missing ledger verification data"@,
                },
            )
        } else {
            manager.released(checkpoint) == manager
        },
{
    let after = manager.released(checkpoint);
    if manager.transactions.contains_key(checkpoint) || manager.results.contains_key(checkpoint) {
        assert(after.errors =~= manager.errors.push(
            VerificationErrorView {
                kind: VerificationErrorType::Checkpoint(checkpoint),
                message: "missing ledger verification data"@,
            },
        ));
    } else {
        assert(after.errors =~= manager.errors);
        assert(after.headers =~= manager.headers);
        assert(after.transactions =~= manager.transactions);
        assert(after.results =~= manager.results);
    }
}

/// The value under a key of a map is the same in another.
pub open spec fn same_at<V>(first: Map<u32, V>, second: Map<u32, V>, key: u32) -> bool {
    &&& first.contains_key(key) <==> second.contains_key(key)
    &&& first.contains_key(key) ==> first[key] == second[key]
}

/// Verifying a checkpoint keeps the errors found before, in their order, leaves what is known of
/// the other checkpoints alone, and keeps of this one its first and its last header, each where it
/// is there.
pub proof fn law_release_concerns_one_checkpoint(manager: ManagerView, checkpoint: u32, other: u32)
    ensures
        ({
            let after = manager.released(checkpoint);
            &&& manager.errors.len() <= after.errors.len()
            &&& after.errors.take(manager.errors.len() as int) == manager.errors
            &&& other != checkpoint ==> {
                &&& same_at(manager.headers, after.headers, other)
                &&& same_at(manager.transactions, after.transactions, other)
                &&& same_at(manager.results, after.results, other)
                &&& same_at(manager.boundaries, after.boundaries, other)
            }
            &&& !after.headers.contains_key(checkpoint)
            &&& !after.transactions.contains_key(checkpoint)
            &&& !after.results.contains_key(checkpoint)
            &&& manager.headers.contains_key(checkpoint) ==> {
                let headers = manager.headers[checkpoint];
                let lowest = lowest(checkpoint) as u32;
                let kept = after.boundaries[checkpoint];
                &&& after.boundaries.contains_key(checkpoint)
                &&& if headers.contains_key(lowest) {
                    kept.first == Some(headers[lowest])
                } else {
                    kept.first is None
                }
                &&& if headers.contains_key(checkpoint) {
                    kept.last == Some(headers[checkpoint])
                } else {
                    kept.last is None
                }
            }
        }),
{
    let after = manager.released(checkpoint);
    assert(after.errors.take(manager.errors.len() as int) =~= manager.errors);
}

// ===== No error twice, and in the order of the ledgers =====

/// The ledger that an error is about.
pub open spec fn ledger_of(error: VerificationErrorView) -> int {
    match error.kind {
        VerificationErrorType::Ledger(seq) => seq as int,
        _ => 0,
    }
}

proof fn lemma_distinct<T>(a: Seq<T>, b: Seq<T>)
    requires
        a.no_duplicates(),
        b.no_duplicates(),
        forall|x: T| !(#[trigger] a.contains(x) && b.contains(x)),
    ensures
        (a + b).no_duplicates(),
{
    let c = a + b;
    assert forall|i: int, j: int| 0 <= i < c.len() && 0 <= j < c.len() && i != j implies c[i]
        != c[j] by {
        if i < a.len() && j >= a.len() {
            assert(a.contains(a[i]));
            assert(b.contains(b[j - a.len()]));
        } else if j < a.len() && i >= a.len() {
            assert(a.contains(a[j]));
            assert(b.contains(b[i - a.len()]));
        }
    }
}

proof fn lemma_claims_distinct(
    seq: u32,
    header: LedgerHeaderVerificationData,
    prev: Option<LedgerHeaderVerificationData>,
)
    ensures
        empty_tx_set_errors(seq, header, prev).no_duplicates(),
{
    let kind = VerificationErrorType::Ledger(seq);
    lemma_messages();
    if let Some(info) = header.empty_tx_set {
        let m1 = "empty-tx-set ledger has non-zero tx set hash"@;
        let m2 = "empty-tx-set ledger requires protocol >= 28"@;
        let m3 = "empty-tx-set ledger: proposed previous_ledger_hash is not that of the header"@;
        let m4 = "empty-tx-set ledger has non-empty result hash"@;
        let c1 = !crate::xdr_verify::is_zero(header.expected_tx_set_hash@);
        let c2 = header.ledger_version < 28;
        let c3 = info.proposed_prev_ledger_hash@ != header.prev_ledger_hash@;
        let c4 = header.expected_result_hash@ != EMPTY_XDR_ARRAY_HASH@;
        let a = flagged(c1, kind, m1);
        let b = flagged(c2, kind, m2);
        let c = flagged(c3, kind, m3);
        let d = flagged(c4, kind, m4);
        let e = match prev {
            Some(prev) => predecessor_errors(kind, info, prev.ledger_version),
            None => Seq::empty(),
        };
        assert(empty_tx_set_errors(seq, header, prev) == a + b + c + d + e);
        assert forall|x: VerificationErrorView| #[trigger] e.contains(x) implies x.message.len()
            == 55 || x.message.len() == 84 by {
            if let Some(prev) = prev {
                lemma_predecessor(kind, info, prev.ledger_version, x);
            }
        }
        assert(e.no_duplicates());
        lemma_distinct(a, b);
        assert forall|x: VerificationErrorView| !(#[trigger] (a + b).contains(x) && c.contains(x)) by {
            lemma_either(a, b, x);
        }
        lemma_distinct(a + b, c);
        assert forall|x: VerificationErrorView| !(#[trigger] (a + b + c).contains(x) && d.contains(
            x,
        )) by {
            lemma_either(a, b, x);
            lemma_either(a + b, c, x);
        }
        lemma_distinct(a + b + c, d);
        assert forall|x: VerificationErrorView| !(#[trigger] (a + b + c + d).contains(x)
            && e.contains(x)) by {
            lemma_either(a, b, x);
            lemma_either(a + b, c, x);
            lemma_either(a + b + c, d, x);
        }
        lemma_distinct(a + b + c + d, e);
    }
}

proof fn lemma_ledger_distinct(
    checkpoint: u32,
    headers: Map<u32, LedgerHeaderVerificationData>,
    transactions: Option<Map<u32, Hash256>>,
    results: Option<Map<u32, Hash256>>,
    seq: u32,
)
    ensures
        ledger_errors(checkpoint, headers, transactions, results, seq).no_duplicates(),
{
    if headers.contains_key(seq) {
        let header = headers[seq];
        let prev = predecessor(checkpoint, headers, seq);
        let a = link_errors(seq, header, prev);
        let b = empty_tx_set_errors(seq, header, prev);
        let c = transaction_errors(seq, header, transactions);
        let d = result_errors(seq, header, results);
        lemma_messages();
        lemma_claims_distinct(seq, header, prev);
        assert forall|x: VerificationErrorView| !(#[trigger] a.contains(x) && b.contains(x)) by {
            lemma_link(seq, header, prev, x);
            lemma_claim(seq, header, prev, x);
        }
        lemma_distinct(a, b);
        assert forall|x: VerificationErrorView| !(#[trigger] (a + b).contains(x) && c.contains(x)) by {
            lemma_either(a, b, x);
            lemma_link(seq, header, prev, x);
            lemma_claim(seq, header, prev, x);
            lemma_transactions(seq, header, transactions, x);
        }
        lemma_distinct(a + b, c);
        assert forall|x: VerificationErrorView| !(#[trigger] (a + b + c).contains(x) && d.contains(
            x,
        )) by {
            lemma_either(a, b, x);
            lemma_either(a + b, c, x);
            lemma_link(seq, header, prev, x);
            lemma_claim(seq, header, prev, x);
            lemma_transactions(seq, header, transactions, x);
            lemma_results(seq, header, results, x);
        }
        lemma_distinct(a + b + c, d);
    }
}

/// The errors are ordered by the ledgers that they are about.
pub open spec fn in_ledger_order(errors: Seq<VerificationErrorView>) -> bool {
    forall|i: int, j: int|
        0 <= i < j < errors.len() ==> ledger_of(#[trigger] errors[i]) <= ledger_of(
            #[trigger] errors[j],
        )
}

proof fn lemma_before_distinct(
    checkpoint: u32,
    headers: Map<u32, LedgerHeaderVerificationData>,
    transactions: Option<Map<u32, Hash256>>,
    results: Option<Map<u32, Hash256>>,
    end: int,
)
    requires
        end <= checkpoint + 1,
    ensures
        errors_before(checkpoint, headers, transactions, results, end).no_duplicates(),
        in_ledger_order(errors_before(checkpoint, headers, transactions, results, end)),
    decreases end,
{
    if end > first_ledger(checkpoint) {
        let a = errors_before(checkpoint, headers, transactions, results, end - 1);
        let b = ledger_errors(checkpoint, headers, transactions, results, (end - 1) as u32);
        lemma_before_distinct(checkpoint, headers, transactions, results, end - 1);
        lemma_ledger_distinct(checkpoint, headers, transactions, results, (end - 1) as u32);
        assert forall|x: VerificationErrorView| !(#[trigger] a.contains(x) && b.contains(x)) by {
            lemma_before(checkpoint, headers, transactions, results, end - 1, x);
            lemma_ledger(checkpoint, headers, transactions, results, (end - 1) as u32, x);
        }
        lemma_distinct(a, b);
        let c = a + b;
        assert forall|i: int, j: int| 0 <= i < j < c.len() implies ledger_of(#[trigger] c[i])
            <= ledger_of(#[trigger] c[j]) by {
            if j < a.len() {
                assert(c[i] == a[i] && c[j] == a[j]);
            } else {
                assert(b.contains(b[j - a.len()]));
                lemma_ledger(checkpoint, headers, transactions, results, (end - 1) as u32, c[j]);
                if i < a.len() {
                    assert(a.contains(a[i]));
                    lemma_before(checkpoint, headers, transactions, results, end - 1, c[i]);
                } else {
                    assert(b.contains(b[i - a.len()]));
                    lemma_ledger(
                        checkpoint,
                        headers,
                        transactions,
                        results,
                        (end - 1) as u32,
                        c[i],
                    );
                }
            }
        }
    }
}

/// Verifying a checkpoint reports no error twice, and first those of the checkpoint as a whole,
/// then those of its ledgers, in their order.
pub proof fn law_errors_are_distinct_and_in_order(manager: ManagerView, checkpoint: u32)
    requires
        manager.headers.contains_key(checkpoint),
    ensures
        ({
            let after = manager.released(checkpoint).errors;
            let added = after.skip(manager.errors.len() as int);
            &&& added.no_duplicates()
            &&& in_ledger_order(added)
        }),
{
    let headers = manager.headers[checkpoint];
    let transactions = recorded(manager.transactions, checkpoint);
    let results = recorded(manager.results, checkpoint);
    let kind = VerificationErrorType::Checkpoint(checkpoint);
    let a = flagged(
        lacks_headers(checkpoint, headers),
        kind,
        "missing ledger-header entries"@,
    );
    let b = flagged(
        has_foreign_headers(checkpoint, headers),
        kind,
        "unexpected ledger-header entries outside range"@,
    );
    let c = errors_before(checkpoint, headers, transactions, results, checkpoint + 1);
    let added = checkpoint_errors(checkpoint, headers, transactions, results);
    assert(manager.released(checkpoint).errors.skip(manager.errors.len() as int) =~= added);
    lemma_messages();
    lemma_before_distinct(checkpoint, headers, transactions, results, checkpoint + 1);
    lemma_distinct(a, b);
    assert forall|x: VerificationErrorView| !(#[trigger] (a + b).contains(x) && c.contains(x)) by {
        lemma_either(a, b, x);
        lemma_before(checkpoint, headers, transactions, results, checkpoint + 1, x);
    }
    lemma_distinct(a + b, c);
    assert forall|i: int, j: int| 0 <= i < j < added.len() implies ledger_of(#[trigger] added[i])
        <= ledger_of(#[trigger] added[j]) by {
        let n = (a + b).len();
        if i >= n {
            assert(added[i] == c[i - n] && added[j] == c[j - n]);
        }
    }
}

// ===== The chain of checkpoints =====

/// Verifying the chain of checkpoints adds this error to those found before.
pub open spec fn chain_reports(
    manager: ManagerView,
    kind: VerificationErrorType,
    message: Seq<char>,
) -> bool {
    let after = manager.chained().errors;
    exists|i: int|
        manager.errors.len() <= i < after.len() && #[trigger] after[i] == (VerificationErrorView {
            kind,
            message,
        })
}

/// The boundary between a checkpoint and the one 64 ledgers before it has this fault, given the last
/// header before it and the first one after it: they do not link up, or the claim of the latter to
/// an empty transaction set is wrong about its predecessor.
pub open spec fn boundary_fault(
    last: LedgerHeaderVerificationData,
    first: LedgerHeaderVerificationData,
    message: Seq<char>,
) -> bool {
    ||| {
        &&& message == "hash chain break between checkpoints"@
        &&& !(last.computed_hash@ =~= first.prev_ledger_hash@)
    }
    ||| first.empty_tx_set matches Some(info) && predecessor_fault(
        info.proposed_prev_ledger_version,
        last.ledger_version,
        message,
    )
}

/// The boundary before `checkpoint` is known on both sides and has this fault.
pub open spec fn chain_fault(
    boundaries: Map<u32, Boundary>,
    checkpoint: u32,
    message: Seq<char>,
) -> bool {
    &&& checkpoint >= 64
    &&& boundaries.contains_key(checkpoint)
    &&& boundaries.contains_key((checkpoint - 64) as u32)
    &&& boundaries[(checkpoint - 64) as u32].last matches Some(last)
        && boundaries[checkpoint].first matches Some(first) && boundary_fault(last, first, message)
}

proof fn lemma_boundary(
    boundaries: Map<u32, Boundary>,
    checkpoint: u32,
    error: VerificationErrorView,
)
    ensures
        boundary_errors(boundaries, checkpoint).contains(error) <==> {
            &&& error.kind matches VerificationErrorType::Boundary(next)
            &&& next == checkpoint + 64
            &&& chain_fault(boundaries, next, error.message)
        },
{
    let next = (checkpoint + 64) as u32;
    if checkpoint <= u32::MAX - 64 && boundaries.contains_key(checkpoint)
        && boundaries.contains_key(next) {
        if let (Some(last), Some(first)) = (boundaries[checkpoint].last, boundaries[next].first) {
            let kind = VerificationErrorType::Boundary(next);
            let message = "hash chain break between checkpoints"@;
            let condition = last.computed_hash@ != first.prev_ledger_hash@;
            let a = flagged(condition, kind, message);
            let b = match first.empty_tx_set {
                Some(info) => predecessor_errors(kind, info, last.ledger_version),
                None => Seq::empty(),
            };
            assert(boundary_errors(boundaries, checkpoint) == a + b);
            lemma_either(a, b, error);
            lemma_flagged(condition, kind, message, error);
            if let Some(info) = first.empty_tx_set {
                lemma_predecessor(kind, info, last.ledger_version, error);
            }
        }
    }
}

proof fn lemma_boundaries(boundaries: Map<u32, Boundary>, end: int, error: VerificationErrorView)
    requires
        end <= u32::MAX + 1,
    ensures
        boundary_errors_below(boundaries, end).contains(error) <==> {
            &&& error.kind matches VerificationErrorType::Boundary(next)
            &&& next - 64 < end
            &&& chain_fault(boundaries, next, error.message)
        },
    decreases end,
{
    if end > 0 {
        lemma_boundaries(boundaries, end - 1, error);
        lemma_boundary(boundaries, (end - 1) as u32, error);
        lemma_either(
            boundary_errors_below(boundaries, end - 1),
            boundary_errors(boundaries, (end - 1) as u32),
            error,
        );
    }
}

/// What verifying the chain reports is exactly the faults of the boundaries that are known on both
/// sides, each under the later checkpoint. Nothing else changes.
pub proof fn law_faults_of_the_chain_are_reported(
    manager: ManagerView,
    kind: VerificationErrorType,
    message: Seq<char>,
)
    ensures
        chain_reports(manager, kind, message) <==> {
            &&& kind matches VerificationErrorType::Boundary(checkpoint)
            &&& chain_fault(manager.boundaries, checkpoint, message)
        },
        manager.chained() == (ManagerView { errors: manager.chained().errors, ..manager }),
        manager.errors.len() <= manager.chained().errors.len(),
        manager.chained().errors.take(manager.errors.len() as int) == manager.errors,
{
    let added = boundary_errors_below(manager.boundaries, u32::MAX + 1);
    let after = manager.chained().errors;
    let error = VerificationErrorView { kind, message };
    assert(after == manager.errors + added);
    assert(after.take(manager.errors.len() as int) =~= manager.errors);
    lemma_boundaries(manager.boundaries, u32::MAX + 1, error);
    if added.contains(error) {
        let i = choose|i: int| 0 <= i < added.len() && added[i] == error;
        assert(after[manager.errors.len() + i] == error);
    }
    if chain_reports(manager, kind, message) {
        let i = choose|i: int|
            manager.errors.len() <= i < after.len() && #[trigger] after[i] == error;
        assert(added[i - manager.errors.len()] == error);
    }
}

/// Verifying a chain whose boundaries have no faults finds no errors.
pub proof fn law_sound_chain_is_clean(manager: ManagerView)
    requires
        forall|checkpoint: u32, message: Seq<char>|
            !#[trigger] chain_fault(manager.boundaries, checkpoint, message),
    ensures
        manager.chained() == manager,
{
    let added = boundary_errors_below(manager.boundaries, u32::MAX + 1);
    if added.len() > 0 {
        let error = added[0];
        assert(added.contains(error));
        lemma_boundaries(manager.boundaries, u32::MAX + 1, error);
        assert(false);
    }
    assert(manager.errors + added =~= manager.errors);
}

/// The errors of the chain are distinct, and in the order of the checkpoints.
pub proof fn law_chain_errors_are_distinct_and_in_order(manager: ManagerView)
    ensures
        ({
            let added = manager.chained().errors.skip(manager.errors.len() as int);
            &&& added.no_duplicates()
            &&& forall|i: int, j: int|
                0 <= i < j < added.len() ==> checkpoint_after(#[trigger] added[i])
                    <= checkpoint_after(#[trigger] added[j])
        }),
{
    let added = boundary_errors_below(manager.boundaries, u32::MAX + 1);
    assert(manager.chained().errors.skip(manager.errors.len() as int) =~= added);
    lemma_boundaries_distinct(manager.boundaries, u32::MAX + 1);
}

/// The checkpoint after the boundary that an error is about.
pub open spec fn checkpoint_after(error: VerificationErrorView) -> int {
    match error.kind {
        VerificationErrorType::Boundary(checkpoint) => checkpoint as int,
        _ => 0,
    }
}

proof fn lemma_boundary_distinct(boundaries: Map<u32, Boundary>, checkpoint: u32)
    ensures
        boundary_errors(boundaries, checkpoint).no_duplicates(),
{
    lemma_messages();
    let next = (checkpoint + 64) as u32;
    if checkpoint <= u32::MAX - 64 && boundaries.contains_key(checkpoint)
        && boundaries.contains_key(next) {
        if let (Some(last), Some(first)) = (boundaries[checkpoint].last, boundaries[next].first) {
            let kind = VerificationErrorType::Boundary(next);
            let message = "hash chain break between checkpoints"@;
            let condition = last.computed_hash@ != first.prev_ledger_hash@;
            let a = flagged(condition, kind, message);
            let b = match first.empty_tx_set {
                Some(info) => predecessor_errors(kind, info, last.ledger_version),
                None => Seq::empty(),
            };
            assert forall|x: VerificationErrorView| !(#[trigger] a.contains(x) && b.contains(x)) by {
                lemma_flagged(condition, kind, message, x);
                if let Some(info) = first.empty_tx_set {
                    lemma_predecessor(kind, info, last.ledger_version, x);
                }
            }
            assert(b.no_duplicates());
            lemma_distinct(a, b);
        }
    }
}

proof fn lemma_boundaries_distinct(boundaries: Map<u32, Boundary>, end: int)
    requires
        end <= u32::MAX + 1,
    ensures
        ({
            let errors = boundary_errors_below(boundaries, end);
            &&& errors.no_duplicates()
            &&& forall|i: int, j: int|
                0 <= i < j < errors.len() ==> checkpoint_after(#[trigger] errors[i])
                    <= checkpoint_after(#[trigger] errors[j])
        }),
    decreases end,
{
    if end > 0 {
        let a = boundary_errors_below(boundaries, end - 1);
        let b = boundary_errors(boundaries, (end - 1) as u32);
        let c = a + b;
        lemma_boundaries_distinct(boundaries, end - 1);
        lemma_boundary_distinct(boundaries, (end - 1) as u32);
        assert forall|x: VerificationErrorView| !(#[trigger] a.contains(x) && b.contains(x)) by {
            lemma_boundaries(boundaries, end - 1, x);
            lemma_boundary(boundaries, (end - 1) as u32, x);
        }
        lemma_distinct(a, b);
        assert forall|i: int, j: int| 0 <= i < j < c.len() implies checkpoint_after(
            #[trigger] c[i],
        ) <= checkpoint_after(#[trigger] c[j]) by {
            if j < a.len() {
                assert(c[i] == a[i] && c[j] == a[j]);
            } else {
                assert(b.contains(b[j - a.len()]));
                lemma_boundary(boundaries, (end - 1) as u32, c[j]);
                if i < a.len() {
                    assert(a.contains(a[i]));
                    lemma_boundaries(boundaries, end - 1, c[i]);
                } else {
                    assert(b.contains(b[i - a.len()]));
                    lemma_boundary(boundaries, (end - 1) as u32, c[i]);
                }
            }
        }
    }
}

// ===== Failed checkpoints =====

/// An error is about a checkpoint: it names it, or a ledger of it, or the boundary before it or the
/// one after it.
pub open spec fn concerns(error: VerificationErrorView, checkpoint: u32) -> bool {
    match error.kind {
        VerificationErrorType::Checkpoint(named) => named == checkpoint,
        VerificationErrorType::Ledger(ledger) => ledger <= checkpoint < ledger + 64 && (checkpoint
            + 1) % 64 == 0,
        VerificationErrorType::Boundary(named) => named == checkpoint || named == checkpoint + 64,
    }
}

/// Which checkpoints an error of each kind is about: the one named; the one that a ledger belongs
/// to; the ones on both sides of a boundary.
pub proof fn law_what_an_error_is_about(error: VerificationErrorView, checkpoint: u32)
    ensures
        error.kind == VerificationErrorType::Checkpoint(checkpoint) ==> concerns(error, checkpoint),
        error.kind matches VerificationErrorType::Checkpoint(named) ==> (concerns(error, checkpoint)
            ==> named == checkpoint),
        error.kind matches VerificationErrorType::Ledger(ledger) ==> (concerns(error, checkpoint)
            <==> checkpoint == ledger + (63 - ledger % 64)),
        error.kind == VerificationErrorType::Boundary(checkpoint) ==> concerns(error, checkpoint),
        checkpoint <= u32::MAX - 64 && error.kind == VerificationErrorType::Boundary(
            (checkpoint + 64) as u32,
        ) ==> concerns(error, checkpoint),
        error.kind matches VerificationErrorType::Boundary(named) ==> (concerns(error, checkpoint)
            ==> named == checkpoint || named - 64 == checkpoint),
{
}

/// The checkpoints handed over as failed are exactly those that an error is about. So every error
/// has a checkpoint handed over, a broken boundary both of its sides, and none is handed over only
/// if there are no errors.
pub proof fn law_failed_checkpoints_are_those_with_errors(
    errors: Seq<VerificationErrorView>,
    checkpoint: u32,
)
    ensures
        failed_checkpoints(errors).contains(checkpoint) <==> exists|i: int|
            0 <= i < errors.len() && concerns(#[trigger] errors[i], checkpoint),
        failed_checkpoints(errors).is_empty() <==> errors.len() == 0,
        forall|i: int|
            0 <= i < errors.len() ==> (#[trigger] errors[i].kind matches
                VerificationErrorType::Boundary(named) ==> {
                &&& failed_checkpoints(errors).contains(named)
                &&& named >= 64 ==> failed_checkpoints(errors).contains((named - 64) as u32)
            }),
    decreases errors.len(),
{
    if errors.len() > 0 {
        let before = errors.drop_last();
        let last = errors.last();
        law_failed_checkpoints_are_those_with_errors(before, checkpoint);
        assert(failed_checkpoints_of(last.kind).contains(checkpoint) <==> concerns(
            last,
            checkpoint,
        ));
        if failed_checkpoints(before).contains(checkpoint) {
            let i = choose|i: int|
                0 <= i < before.len() && concerns(#[trigger] before[i], checkpoint);
            assert(concerns(errors[i], checkpoint));
        }
        if failed_checkpoints_of(last.kind).contains(checkpoint) {
            assert(concerns(errors[errors.len() - 1], checkpoint));
        }
        if exists|i: int| 0 <= i < errors.len() && concerns(#[trigger] errors[i], checkpoint) {
            let i = choose|i: int|
                0 <= i < errors.len() && concerns(#[trigger] errors[i], checkpoint);
            if i < before.len() {
                assert(concerns(before[i], checkpoint));
            }
        }
        let named = match last.kind {
            VerificationErrorType::Checkpoint(named) => named,
            VerificationErrorType::Ledger(ledger) => checkpoint_of(ledger) as u32,
            VerificationErrorType::Boundary(named) => named,
        };
        assert(failed_checkpoints_of(last.kind).contains(named));
        assert(failed_checkpoints(errors).contains(named));
        assert forall|i: int| 0 <= i < errors.len() implies (#[trigger] errors[i].kind matches
            VerificationErrorType::Boundary(named) ==> {
            &&& failed_checkpoints(errors).contains(named)
            &&& named >= 64 ==> failed_checkpoints(errors).contains((named - 64) as u32)
        }) by {
            if i < before.len() {
                assert(before[i].kind == errors[i].kind);
            }
        }
    }
}

} // verus!
