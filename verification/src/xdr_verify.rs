//! Consistency of the ledgers of an archive: within a checkpoint, and from one checkpoint to the
//! next.
use std::collections::BTreeMap;

use vstd::prelude::*;
use vstd::std_specs::btree::increasing_seq;
use vstd::std_specs::cmp::OrdSpec;
use vstd::std_specs::iter::IteratorSpec;

use crate::failures::FailureTracker;
use crate::hashing::{digest_of, sha256, MAX_HASHED_BYTES};
use crate::laws::ledgers::{concerns, law_failed_checkpoints_are_those_with_errors};

verus! {

/// The number of ledgers from one checkpoint to the next.
pub const CHECKPOINT_FREQUENCY: u32 = 64;

/// The first protocol version in which a ledger can close with an empty transaction set in place of
/// the one proposed.
pub const EMPTY_TX_SET_PROTOCOL: u32 = 28;

/// The ledger that the network starts with. No consensus round produced its header, so both its
/// transaction set hash and its result hash are zero.
pub const GENESIS_LEDGER: u32 = 1;

/// A SHA-256 hash.
#[derive(Debug, Clone, Copy, PartialEq, Eq)]
pub struct Hash256(pub [u8; 32]);

impl View for Hash256 {
    type V = Seq<u8>;

    open spec fn view(&self) -> Seq<u8> {
        self.0@
    }
}

/// The hash of an empty XDR array, which is that of an empty result set: the digest of four zero
/// bytes.
pub const EMPTY_XDR_ARRAY_HASH: [u8; 32] = [
    0xdf, 0x3f, 0x61, 0x98, 0x04, 0xa9, 0x2f, 0xdb, 0x40, 0x57, 0x19, 0x2d, 0xc4, 0x3d, 0xd7, 0x48,
    0xea, 0x77, 0x8a, 0xdc, 0x52, 0xbc, 0x49, 0x8c, 0xe8, 0x05, 0x24, 0xc0, 0x14, 0xb8, 0x11, 0x19,
];

/// All bytes of the hash are zero.
pub open spec fn is_zero(hash: Seq<u8>) -> bool {
    forall|i: int| 0 <= i < hash.len() ==> hash[i] == 0
}

/// Whether all bytes of the hash are zero.
fn zero_hash(hash: &Hash256) -> (zero: bool)
    ensures
        zero == is_zero(hash@),
{
    let mut i: usize = 0;
    while i < 32
        invariant
            i <= 32,
            forall|j: int| 0 <= j < i ==> hash@[j] == 0,
        decreases 32 - i,
    {
        if hash.0[i] != 0 {
            return false;
        }
        i = i + 1;
    }
    true
}

/// Whether two hashes are the same.
fn same_hash(a: &Hash256, b: &Hash256) -> (equal: bool)
    ensures
        equal == (a@ == b@),
{
    let mut i: usize = 0;
    while i < 32
        invariant
            i <= 32,
            forall|j: int| 0 <= j < i ==> a@[j] == b@[j],
        decreases 32 - i,
    {
        if a.0[i] != b.0[i] {
            return false;
        }
        i = i + 1;
    }
    assert(a@ =~= b@);
    true
}

/// The digest of `data` as a hash.
fn hash_bytes(data: &[u8]) -> (hash: Hash256)
    requires
        data@.len() <= MAX_HASHED_BYTES,
    ensures
        hash@ == sha256(data@),
{
    let digest = digest_of(data);
    let mut bytes: [u8; 32] = [0u8; 32];
    let mut i: usize = 0;
    while i < 32
        invariant
            i <= 32,
            digest@.len() == 32,
            forall|j: int| 0 <= j < i ==> bytes@[j] == digest@[j],
        decreases 32 - i,
    {
        bytes[i] = digest[i];
        i = i + 1;
    }
    assert(bytes@ =~= digest@);
    Hash256(bytes)
}


// ===== Hashes of empty transaction sets =====

/// The XDR form of a generalized transaction set without transactions, up to its second phase.
pub open spec fn empty_set_head(prev: Seq<u8>) -> Seq<u8> {
    seq![0u8, 0, 0, 1] + prev + seq![0u8, 0, 0, 2, 0, 0, 0, 0, 0, 0, 0, 0]
}

/// The hash of a transaction set without transactions, in its first version.
pub open spec fn empty_v0_tx_set_hash(prev: Seq<u8>) -> Seq<u8> {
    sha256(prev)
}

/// The hash of a generalized transaction set of two sequential phases without transactions.
pub open spec fn empty_v1_sequential_tx_set_hash(prev: Seq<u8>) -> Seq<u8> {
    sha256(empty_set_head(prev) + seq![0u8, 0, 0, 0, 0, 0, 0, 0])
}

/// The hash of a generalized transaction set of a sequential and a parallel phase, both without
/// transactions.
pub open spec fn empty_v1_parallel_tx_set_hash(prev: Seq<u8>) -> Seq<u8> {
    sha256(empty_set_head(prev) + seq![0u8, 0, 0, 1, 0, 0, 0, 0, 0, 0, 0, 0])
}

/// `hash` stands for a transaction set without transactions on top of the ledger `prev`.
pub open spec fn is_empty_set_hash(hash: Seq<u8>, prev: Seq<u8>) -> bool {
    ||| is_zero(hash)
    ||| hash == empty_v0_tx_set_hash(prev)
    ||| hash == empty_v1_sequential_tx_set_hash(prev)
    ||| hash == empty_v1_parallel_tx_set_hash(prev)
}

fn empty_set_xdr(prev: &Hash256, parallel: bool) -> (xdr: Vec<u8>)
    ensures
        xdr@ == empty_set_head(prev@) + (if parallel {
            seq![0u8, 0, 0, 1, 0, 0, 0, 0, 0, 0, 0, 0]
        } else {
            seq![0u8, 0, 0, 0, 0, 0, 0, 0]
        }),
        xdr@.len() <= 60,
{
    let mut xdr: Vec<u8> = vec![0u8, 0, 0, 1];
    let mut i: usize = 0;
    while i < 32
        invariant
            i <= 32,
            xdr@ == seq![0u8, 0, 0, 1] + prev@.take(i as int),
        decreases 32 - i,
    {
        assert(prev@.take(i + 1) =~= prev@.take(i as int).push(prev@[i as int]));
        xdr.push(prev.0[i]);
        i = i + 1;
    }
    assert(prev@.take(32) =~= prev@);
    let mut tail: Vec<u8> = vec![0u8, 0, 0, 2, 0, 0, 0, 0, 0, 0, 0, 0];
    xdr.append(&mut tail);
    let mut phase: Vec<u8> = if parallel {
        vec![0u8, 0, 0, 1, 0, 0, 0, 0, 0, 0, 0, 0]
    } else {
        vec![0u8, 0, 0, 0, 0, 0, 0, 0]
    };
    xdr.append(&mut phase);
    xdr
}

/// The hash of a transaction set without transactions, in its first version.
pub fn compute_empty_v0_tx_set_hash(prev: &Hash256) -> (hash: Hash256)
    ensures
        hash@ == empty_v0_tx_set_hash(prev@),
{
    hash_bytes(prev.0.as_slice())
}

/// The hash of a generalized transaction set of two sequential phases without transactions.
pub fn compute_empty_v1_sequential_tx_set_hash(prev: &Hash256) -> (hash: Hash256)
    ensures
        hash@ == empty_v1_sequential_tx_set_hash(prev@),
{
    hash_bytes(empty_set_xdr(prev, false).as_slice())
}

/// The hash of a generalized transaction set of a sequential and a parallel phase, both without
/// transactions.
pub fn compute_empty_v1_parallel_tx_set_hash(prev: &Hash256) -> (hash: Hash256)
    ensures
        hash@ == empty_v1_parallel_tx_set_hash(prev@),
{
    hash_bytes(empty_set_xdr(prev, true).as_slice())
}

/// Whether `hash` is zero or one of the hashes of empty transaction sets given.
pub fn is_zero_or_one_of(
    hash: &Hash256,
    v0: &Hash256,
    v1_sequential: &Hash256,
    v1_parallel: &Hash256,
) -> (found: bool)
    ensures
        found == (is_zero(hash@) || hash@ == v0@ || hash@ == v1_sequential@ || hash@
            == v1_parallel@),
{
    zero_hash(hash) || same_hash(hash, v0) || same_hash(hash, v1_sequential) || same_hash(
        hash,
        v1_parallel,
    )
}

/// Whether `hash` stands for a transaction set without transactions on top of the ledger `prev`.
pub fn is_empty_tx_set_hash(hash: &Hash256, prev: &Hash256) -> (empty: bool)
    ensures
        empty == is_empty_set_hash(hash@, prev@),
{
    is_zero_or_one_of(
        hash,
        &compute_empty_v0_tx_set_hash(prev),
        &compute_empty_v1_sequential_tx_set_hash(prev),
        &compute_empty_v1_parallel_tx_set_hash(prev),
    )
}

// ===== Ledger headers =====

/// The transaction set that was proposed for a ledger that closed with an empty one instead.
#[derive(Debug, Clone, Copy)]
pub struct EmptyTxSetInfo {
    pub proposed_prev_ledger_hash: Hash256,
    pub proposed_prev_ledger_version: u32,
}

/// What the verification needs of a ledger header.
#[derive(Debug, Clone, Copy)]
pub struct LedgerHeaderVerificationData {
    /// The hash of the header itself.
    pub computed_hash: Hash256,
    /// The hash of the previous header.
    pub prev_ledger_hash: Hash256,
    pub expected_tx_set_hash: Hash256,
    pub expected_result_hash: Hash256,
    pub ledger_version: u32,
    /// Set where the ledger closed with an empty transaction set in place of the one proposed.
    pub empty_tx_set: Option<EmptyTxSetInfo>,
}

/// The first ledger of a checkpoint.
pub open spec fn first_ledger(checkpoint: u32) -> int {
    if checkpoint >= CHECKPOINT_FREQUENCY {
        checkpoint - CHECKPOINT_FREQUENCY + 1
    } else {
        GENESIS_LEDGER as int
    }
}

/// The first and the last ledger of a checkpoint.
pub fn expected_ledger_range(checkpoint: u32) -> (range: (u32, u32))
    ensures
        range.0 == first_ledger(checkpoint),
        range.1 == checkpoint,
{
    if checkpoint >= CHECKPOINT_FREQUENCY {
        (checkpoint - CHECKPOINT_FREQUENCY + 1, checkpoint)
    } else {
        (GENESIS_LEDGER, checkpoint)
    }
}

/// The checkpoint that a ledger belongs to.
pub open spec fn checkpoint_of(ledger: u32) -> int {
    ledger / CHECKPOINT_FREQUENCY * CHECKPOINT_FREQUENCY + CHECKPOINT_FREQUENCY - 1
}

/// The checkpoint that a ledger belongs to.
pub fn round_to_upper_checkpoint(ledger: u32) -> (checkpoint: u32)
    ensures
        checkpoint == checkpoint_of(ledger),
{
    ledger / CHECKPOINT_FREQUENCY * CHECKPOINT_FREQUENCY + (CHECKPOINT_FREQUENCY - 1)
}

// ===== Errors =====

/// What a verification error is about.
#[derive(Debug, Clone, Copy, PartialEq, Eq, Structural)]
pub enum VerificationErrorType {
    /// The files of a checkpoint.
    Checkpoint(u32),
    /// A single ledger.
    Ledger(u32),
    /// The boundary between a checkpoint and the one before it.
    Boundary(u32),
}

/// An inconsistency that the verification has found.
#[derive(Debug)]
pub struct VerificationError {
    pub kind: VerificationErrorType,
    pub message: String,
}

/// The mathematical counterpart of [`VerificationError`].
pub struct VerificationErrorView {
    pub kind: VerificationErrorType,
    pub message: Seq<char>,
}

impl View for VerificationError {
    type V = VerificationErrorView;

    open spec fn view(&self) -> VerificationErrorView {
        VerificationErrorView { kind: self.kind, message: self.message@ }
    }
}

impl Clone for VerificationError {
    fn clone(&self) -> (copy: Self)
        ensures
            copy@ == self@,
    {
        VerificationError { kind: self.kind, message: self.message.clone() }
    }
}

/// What a list of errors says.
pub open spec fn errors_view(errors: Seq<VerificationError>) -> Seq<VerificationErrorView> {
    errors.map_values(|error: VerificationError| error@)
}

/// The error with this message, where the condition holds.
pub open spec fn flagged(
    condition: bool,
    kind: VerificationErrorType,
    message: Seq<char>,
) -> Seq<VerificationErrorView> {
    if condition {
        seq![VerificationErrorView { kind, message }]
    } else {
        Seq::empty()
    }
}

/// Adds the error with this message, where the condition holds.
fn flag(
    errors: &mut Vec<VerificationError>,
    condition: bool,
    kind: VerificationErrorType,
    message: &str,
)
    ensures
        errors_view(final(errors)@) == errors_view(old(errors)@) + flagged(
            condition,
            kind,
            message@,
        ),
{
    if condition {
        errors.push(VerificationError { kind, message: message.to_owned() });
    }
    assert(errors_view(errors@) =~= errors_view(old(errors)@) + flagged(condition, kind, message@));
}

// ===== A single ledger =====

/// The errors of a ledger with an empty transaction set whose predecessor has this version.
pub open spec fn predecessor_errors(
    kind: VerificationErrorType,
    info: EmptyTxSetInfo,
    version: u32,
) -> Seq<VerificationErrorView> {
    flagged(
        version < EMPTY_TX_SET_PROTOCOL,
        kind,
        "empty-tx-set ledger requires predecessor protocol >= 28"@,
    ) + flagged(
        info.proposed_prev_ledger_version != version,
        kind,
        "empty-tx-set ledger: proposed previous ledger version is not that of its predecessor"@,
    )
}

/// The header of a ledger, where it was recorded.
pub open spec fn lookup<V>(map: Map<u32, V>, key: u32) -> Option<V> {
    if map.contains_key(key) {
        Some(map[key])
    } else {
        None
    }
}

/// The errors of the link from a ledger to its predecessor.
pub open spec fn link_errors(
    seq: u32,
    header: LedgerHeaderVerificationData,
    prev: Option<LedgerHeaderVerificationData>,
) -> Seq<VerificationErrorView> {
    match prev {
        Some(prev) => flagged(
            prev.computed_hash@ != header.prev_ledger_hash@,
            VerificationErrorType::Ledger(seq),
            "hash chain break"@,
        ),
        None => Seq::empty(),
    }
}

/// The errors of a ledger's claim to have closed with an empty transaction set, or of the lack of
/// one. Only genesis has a zero transaction set hash without such a claim.
pub open spec fn empty_tx_set_errors(
    seq: u32,
    header: LedgerHeaderVerificationData,
    prev: Option<LedgerHeaderVerificationData>,
) -> Seq<VerificationErrorView> {
    let kind = VerificationErrorType::Ledger(seq);
    match header.empty_tx_set {
        None => flagged(
            is_zero(header.expected_tx_set_hash@) && seq != GENESIS_LEDGER,
            kind,
            "zero tx set hash without an empty-tx-set value"@,
        ),
        Some(info) => {
            flagged(
                !is_zero(header.expected_tx_set_hash@),
                kind,
                "empty-tx-set ledger has non-zero tx set hash"@,
            ) + flagged(
                header.ledger_version < EMPTY_TX_SET_PROTOCOL,
                kind,
                "empty-tx-set ledger requires protocol >= 28"@,
            ) + flagged(
                info.proposed_prev_ledger_hash@ != header.prev_ledger_hash@,
                kind,
                "empty-tx-set ledger: proposed previous_ledger_hash is not that of the header"@,
            ) + flagged(
                header.expected_result_hash@ != EMPTY_XDR_ARRAY_HASH@,
                kind,
                "empty-tx-set ledger has non-empty result hash"@,
            ) + (match prev {
                Some(prev) => predecessor_errors(kind, info, prev.ledger_version),
                None => Seq::empty(),
            })
        },
    }
}

/// A ledger may lack a transactions entry: it is genesis, or both its hashes stand for an empty
/// ledger.
pub open spec fn lacks_transactions(seq: u32, header: LedgerHeaderVerificationData) -> bool {
    ||| seq == GENESIS_LEDGER && is_zero(header.expected_tx_set_hash@) && is_zero(
        header.expected_result_hash@,
    )
    ||| is_empty_set_hash(header.expected_tx_set_hash@, header.prev_ledger_hash@)
        && header.expected_result_hash@ == EMPTY_XDR_ARRAY_HASH@
}

/// The errors of the transactions file, where it was recorded, about a ledger.
pub open spec fn transaction_errors(
    seq: u32,
    header: LedgerHeaderVerificationData,
    recorded: Option<Map<u32, Hash256>>,
) -> Seq<VerificationErrorView> {
    let kind = VerificationErrorType::Ledger(seq);
    match recorded {
        None => Seq::empty(),
        Some(hashes) => match lookup(hashes, seq) {
            Some(hash) => if header.empty_tx_set is Some {
                flagged(true, kind, "transactions entry present for empty-tx-set ledger"@)
            } else {
                flagged(hash@ != header.expected_tx_set_hash@, kind, "tx set hash mismatch"@)
            },
            None => flagged(!lacks_transactions(seq, header), kind, "missing tx set entry"@),
        },
    }
}

/// A ledger may lack a results entry: its result hash is that of an empty result set, or it is
/// genesis.
pub open spec fn lacks_results(seq: u32, header: LedgerHeaderVerificationData) -> bool {
    ||| header.expected_result_hash@ == EMPTY_XDR_ARRAY_HASH@
    ||| seq == GENESIS_LEDGER && is_zero(header.expected_result_hash@)
}

/// The errors of the results file, where it was recorded, about a ledger.
pub open spec fn result_errors(
    seq: u32,
    header: LedgerHeaderVerificationData,
    recorded: Option<Map<u32, Hash256>>,
) -> Seq<VerificationErrorView> {
    let kind = VerificationErrorType::Ledger(seq);
    match recorded {
        None => Seq::empty(),
        Some(hashes) => match lookup(hashes, seq) {
            Some(hash) => if header.empty_tx_set is Some {
                flagged(true, kind, "results entry present for empty-tx-set ledger"@)
            } else {
                flagged(hash@ != header.expected_result_hash@, kind, "result set hash mismatch"@)
            },
            None => flagged(!lacks_results(seq, header), kind, "missing result entry"@),
        },
    }
}

fn flag_predecessor(
    errors: &mut Vec<VerificationError>,
    kind: VerificationErrorType,
    info: &EmptyTxSetInfo,
    version: u32,
)
    ensures
        errors_view(final(errors)@) == errors_view(old(errors)@) + predecessor_errors(
            kind,
            *info,
            version,
        ),
{
    flag(
        errors,
        version < EMPTY_TX_SET_PROTOCOL,
        kind,
        "empty-tx-set ledger requires predecessor protocol >= 28",
    );
    flag(
        errors,
        info.proposed_prev_ledger_version != version,
        kind,
        "empty-tx-set ledger: proposed previous ledger version is not that of its predecessor",
    );
    assert(errors_view(errors@) =~= errors_view(old(errors)@) + predecessor_errors(
        kind,
        *info,
        version,
    ));
}

fn flag_link(
    errors: &mut Vec<VerificationError>,
    seq: u32,
    header: &LedgerHeaderVerificationData,
    prev: Option<&LedgerHeaderVerificationData>,
)
    ensures
        errors_view(final(errors)@) == errors_view(old(errors)@) + link_errors(
            seq,
            *header,
            opt_copy(prev),
        ),
{
    match prev {
        Some(prev) => flag(
            errors,
            !same_hash(&prev.computed_hash, &header.prev_ledger_hash),
            VerificationErrorType::Ledger(seq),
            "hash chain break",
        ),
        None => {},
    }
    assert(errors_view(errors@) =~= errors_view(old(errors)@) + link_errors(
        seq,
        *header,
        opt_copy(prev),
    ));
}

/// The value behind an optional reference.
pub open spec fn opt_copy<T>(value: Option<&T>) -> Option<T> {
    match value {
        Some(value) => Some(*value),
        None => None,
    }
}

fn flag_empty_tx_set(
    errors: &mut Vec<VerificationError>,
    seq: u32,
    header: &LedgerHeaderVerificationData,
    prev: Option<&LedgerHeaderVerificationData>,
)
    ensures
        errors_view(final(errors)@) == errors_view(old(errors)@) + empty_tx_set_errors(
            seq,
            *header,
            opt_copy(prev),
        ),
{
    let kind = VerificationErrorType::Ledger(seq);
    let empty_results = Hash256(EMPTY_XDR_ARRAY_HASH);
    match &header.empty_tx_set {
        None => flag(
            errors,
            zero_hash(&header.expected_tx_set_hash) && seq != GENESIS_LEDGER,
            kind,
            "zero tx set hash without an empty-tx-set value",
        ),
        Some(info) => {
            flag(
                errors,
                !zero_hash(&header.expected_tx_set_hash),
                kind,
                "empty-tx-set ledger has non-zero tx set hash",
            );
            flag(
                errors,
                header.ledger_version < EMPTY_TX_SET_PROTOCOL,
                kind,
                "empty-tx-set ledger requires protocol >= 28",
            );
            flag(
                errors,
                !same_hash(&info.proposed_prev_ledger_hash, &header.prev_ledger_hash),
                kind,
                "empty-tx-set ledger: proposed previous_ledger_hash is not that of the header",
            );
            flag(
                errors,
                !same_hash(&header.expected_result_hash, &empty_results),
                kind,
                "empty-tx-set ledger has non-empty result hash",
            );
            match prev {
                Some(prev) => flag_predecessor(errors, kind, info, prev.ledger_version),
                None => {},
            }
        },
    }
    assert(errors_view(errors@) =~= errors_view(old(errors)@) + empty_tx_set_errors(
        seq,
        *header,
        opt_copy(prev),
    ));
}

/// The hashes of a file, where it was recorded.
pub open spec fn recorded_view(recorded: Option<&BTreeMap<u32, Hash256>>) -> Option<Map<u32, Hash256>> {
    match recorded {
        Some(hashes) => Some(hashes@),
        None => None,
    }
}

fn flag_transactions(
    errors: &mut Vec<VerificationError>,
    seq: u32,
    header: &LedgerHeaderVerificationData,
    recorded: Option<&BTreeMap<u32, Hash256>>,
)
    ensures
        errors_view(final(errors)@) == errors_view(old(errors)@) + transaction_errors(
            seq,
            *header,
            recorded_view(recorded),
        ),
{
    let kind = VerificationErrorType::Ledger(seq);
    let empty_results = Hash256(EMPTY_XDR_ARRAY_HASH);
    if let Some(hashes) = recorded {
        match hashes.get(&seq) {
            Some(hash) => if header.empty_tx_set.is_some() {
                flag(errors, true, kind, "transactions entry present for empty-tx-set ledger");
            } else {
                flag(
                    errors,
                    !same_hash(hash, &header.expected_tx_set_hash),
                    kind,
                    "tx set hash mismatch",
                );
            },
            None => {
                let genesis = seq == GENESIS_LEDGER && zero_hash(&header.expected_tx_set_hash)
                    && zero_hash(&header.expected_result_hash);
                let empty = is_empty_tx_set_hash(
                    &header.expected_tx_set_hash,
                    &header.prev_ledger_hash,
                ) && same_hash(&header.expected_result_hash, &empty_results);
                flag(errors, !(genesis || empty), kind, "missing tx set entry");
            },
        }
    }
    assert(errors_view(errors@) =~= errors_view(old(errors)@) + transaction_errors(
        seq,
        *header,
        recorded_view(recorded),
    ));
}

fn flag_results(
    errors: &mut Vec<VerificationError>,
    seq: u32,
    header: &LedgerHeaderVerificationData,
    recorded: Option<&BTreeMap<u32, Hash256>>,
)
    ensures
        errors_view(final(errors)@) == errors_view(old(errors)@) + result_errors(
            seq,
            *header,
            recorded_view(recorded),
        ),
{
    let kind = VerificationErrorType::Ledger(seq);
    let empty_results = Hash256(EMPTY_XDR_ARRAY_HASH);
    if let Some(hashes) = recorded {
        match hashes.get(&seq) {
            Some(hash) => if header.empty_tx_set.is_some() {
                flag(errors, true, kind, "results entry present for empty-tx-set ledger");
            } else {
                flag(
                    errors,
                    !same_hash(hash, &header.expected_result_hash),
                    kind,
                    "result set hash mismatch",
                );
            },
            None => {
                let empty = same_hash(&header.expected_result_hash, &empty_results);
                let genesis = seq == GENESIS_LEDGER && zero_hash(&header.expected_result_hash);
                flag(errors, !(empty || genesis), kind, "missing result entry");
            },
        }
    }
    assert(errors_view(errors@) =~= errors_view(old(errors)@) + result_errors(
        seq,
        *header,
        recorded_view(recorded),
    ));
}


// ===== A checkpoint =====

/// The header before a ledger, where that is in the same checkpoint and was recorded.
pub open spec fn predecessor(
    checkpoint: u32,
    headers: Map<u32, LedgerHeaderVerificationData>,
    seq: u32,
) -> Option<LedgerHeaderVerificationData> {
    if seq > first_ledger(checkpoint) {
        lookup(headers, (seq - 1) as u32)
    } else {
        None
    }
}

/// The errors about a ledger of a checkpoint. A ledger without a header has none of its own.
pub open spec fn ledger_errors(
    checkpoint: u32,
    headers: Map<u32, LedgerHeaderVerificationData>,
    transactions: Option<Map<u32, Hash256>>,
    results: Option<Map<u32, Hash256>>,
    seq: u32,
) -> Seq<VerificationErrorView> {
    match lookup(headers, seq) {
        Some(header) => {
            let prev = predecessor(checkpoint, headers, seq);
            link_errors(seq, header, prev) + empty_tx_set_errors(seq, header, prev)
                + transaction_errors(seq, header, transactions) + result_errors(
                seq,
                header,
                results,
            )
        },
        None => Seq::empty(),
    }
}

/// The errors about the ledgers of a checkpoint that come before `end`, in their order.
pub open spec fn errors_before(
    checkpoint: u32,
    headers: Map<u32, LedgerHeaderVerificationData>,
    transactions: Option<Map<u32, Hash256>>,
    results: Option<Map<u32, Hash256>>,
    end: int,
) -> Seq<VerificationErrorView>
    decreases end - first_ledger(checkpoint),
{
    if end <= first_ledger(checkpoint) {
        Seq::empty()
    } else {
        errors_before(checkpoint, headers, transactions, results, end - 1) + ledger_errors(
            checkpoint,
            headers,
            transactions,
            results,
            (end - 1) as u32,
        )
    }
}

/// A ledger belongs to a checkpoint.
pub open spec fn in_checkpoint(checkpoint: u32, seq: u32) -> bool {
    first_ledger(checkpoint) <= seq <= checkpoint
}

/// A ledger of the checkpoint has no header.
pub open spec fn lacks_headers(
    checkpoint: u32,
    headers: Map<u32, LedgerHeaderVerificationData>,
) -> bool {
    exists|seq: u32| in_checkpoint(checkpoint, seq) && !#[trigger] headers.contains_key(seq)
}

/// A header belongs to no ledger of the checkpoint.
pub open spec fn has_foreign_headers(
    checkpoint: u32,
    headers: Map<u32, LedgerHeaderVerificationData>,
) -> bool {
    exists|seq: u32| !in_checkpoint(checkpoint, seq) && #[trigger] headers.contains_key(seq)
}

/// The errors of a checkpoint: of its headers as a whole, and then of each of its ledgers.
pub open spec fn checkpoint_errors(
    checkpoint: u32,
    headers: Map<u32, LedgerHeaderVerificationData>,
    transactions: Option<Map<u32, Hash256>>,
    results: Option<Map<u32, Hash256>>,
) -> Seq<VerificationErrorView> {
    let kind = VerificationErrorType::Checkpoint(checkpoint);
    flagged(lacks_headers(checkpoint, headers), kind, "missing ledger-header entries"@) + flagged(
        has_foreign_headers(checkpoint, headers),
        kind,
        "unexpected ledger-header entries outside range"@,
    ) + errors_before(checkpoint, headers, transactions, results, checkpoint + 1)
}

/// Whether a ledger of the checkpoint has no header.
fn any_header_missing(
    checkpoint: u32,
    headers: &BTreeMap<u32, LedgerHeaderVerificationData>,
) -> (missing: bool)
    ensures
        missing == lacks_headers(checkpoint, headers@),
{
    let (first, last) = expected_ledger_range(checkpoint);
    let mut seq: u32 = first;
    while seq <= last
        invariant
            first == first_ledger(checkpoint),
            last == checkpoint,
            first <= seq,
            forall|s: u32| first <= s < seq ==> #[trigger] headers@.contains_key(s),
        decreases last - seq,
    {
        if !headers.contains_key(&seq) {
            return true;
        }
        if seq == last {
            return false;
        }
        seq = seq + 1;
    }
    false
}

/// Whether a header belongs to no ledger of the checkpoint.
fn any_header_foreign(
    checkpoint: u32,
    headers: &BTreeMap<u32, LedgerHeaderVerificationData>,
) -> (foreign: bool)
    ensures
        foreign == has_foreign_headers(checkpoint, headers@),
{
    let (first, last) = expected_ledger_range(checkpoint);
    let ghost entries = headers.iter().remaining();
    let mut foreign = false;
    for entry in it: headers.iter()
        invariant
            first == first_ledger(checkpoint),
            last == checkpoint,
            it.seq() == entries,
            foreign == exists|i: int|
                0 <= i < it.index() && !in_checkpoint(checkpoint, *(#[trigger] entries[i]).0),
    {
        let seq: u32 = *entry.0;
        if seq < first || seq > last {
            foreign = true;
        }
    }
    proof {
        if foreign {
            let i = choose|i: int|
                0 <= i < entries.len() && !in_checkpoint(checkpoint, *(#[trigger] entries[i]).0);
            assert(headers@.contains_key(*entries[i].0));
        }
        assert forall|seq: u32| #[trigger] headers@.contains_key(seq) && !in_checkpoint(
            checkpoint,
            seq,
        ) implies foreign by {
            assert(entries.contains((&seq, &headers@[seq])));
            let i = choose|i: int| 0 <= i < entries.len() && entries[i] == (&seq, &headers@[seq]);
            assert(*entries[i].0 == seq);
        }
    }
    foreign
}

fn flag_ledger(
    errors: &mut Vec<VerificationError>,
    checkpoint: u32,
    headers: &BTreeMap<u32, LedgerHeaderVerificationData>,
    transactions: Option<&BTreeMap<u32, Hash256>>,
    results: Option<&BTreeMap<u32, Hash256>>,
    seq: u32,
)
    ensures
        errors_view(final(errors)@) == errors_view(old(errors)@) + ledger_errors(
            checkpoint,
            headers@,
            recorded_view(transactions),
            recorded_view(results),
            seq,
        ),
{
    if let Some(header) = headers.get(&seq) {
        let (first, _) = expected_ledger_range(checkpoint);
        let prev = if seq > first {
            headers.get(&(seq - 1))
        } else {
            None
        };
        flag_link(errors, seq, header, prev);
        flag_empty_tx_set(errors, seq, header, prev);
        flag_transactions(errors, seq, header, transactions);
        flag_results(errors, seq, header, results);
        proof {
            lemma_four_more(
                errors_view(old(errors)@),
                link_errors(seq, *header, opt_copy(prev)),
                empty_tx_set_errors(seq, *header, opt_copy(prev)),
                transaction_errors(seq, *header, recorded_view(transactions)),
                result_errors(seq, *header, recorded_view(results)),
            );
        }
    } else {
        assert(errors_view(errors@) =~= errors_view(old(errors)@) + Seq::empty());
    }
}

/// Adding four lists one by one is adding them as one.
proof fn lemma_four_more<T>(s: Seq<T>, a: Seq<T>, b: Seq<T>, c: Seq<T>, d: Seq<T>)
    ensures
        s + a + b + c + d == s + (a + b + c + d),
{
    assert(s + a + b + c + d =~= s + (a + b + c + d));
}

fn flag_checkpoint(
    errors: &mut Vec<VerificationError>,
    checkpoint: u32,
    headers: &BTreeMap<u32, LedgerHeaderVerificationData>,
    transactions: Option<&BTreeMap<u32, Hash256>>,
    results: Option<&BTreeMap<u32, Hash256>>,
)
    ensures
        errors_view(final(errors)@) == errors_view(old(errors)@) + checkpoint_errors(
            checkpoint,
            headers@,
            recorded_view(transactions),
            recorded_view(results),
        ),
{
    let kind = VerificationErrorType::Checkpoint(checkpoint);
    let missing = any_header_missing(checkpoint, headers);
    flag(errors, missing, kind, "missing ledger-header entries");
    let foreign = any_header_foreign(checkpoint, headers);
    flag(errors, foreign, kind, "unexpected ledger-header entries outside range");
    let ghost before = errors_view(errors@);
    let ghost transactions_view = recorded_view(transactions);
    let ghost results_view = recorded_view(results);
    let (first, last) = expected_ledger_range(checkpoint);
    let mut left: u32 = if first <= last {
        last - first + 1
    } else {
        0
    };
    assert(errors_view(errors@) =~= before + errors_before(
        checkpoint,
        headers@,
        transactions_view,
        results_view,
        first as int,
    ));
    while left > 0
        invariant
            first == first_ledger(checkpoint),
            last == checkpoint,
            left > 0 ==> first <= last,
            left <= last - first + 1 || left == 0,
            transactions_view == recorded_view(transactions),
            results_view == recorded_view(results),
            errors_view(errors@) == before + errors_before(
                checkpoint,
                headers@,
                transactions_view,
                results_view,
                if first <= last {
                    last + 1 - left
                } else {
                    first as int
                },
            ),
        decreases left,
    {
        let seq: u32 = last - (left - 1);
        flag_ledger(errors, checkpoint, headers, transactions, results, seq);
        assert(errors_view(errors@) =~= before + errors_before(
            checkpoint,
            headers@,
            transactions_view,
            results_view,
            seq + 1,
        ));
        left = left - 1;
    }
    proof {
        lemma_three_more(
            errors_view(old(errors)@),
            flagged(missing, kind, "missing ledger-header entries"@),
            flagged(foreign, kind, "unexpected ledger-header entries outside range"@),
            errors_before(checkpoint, headers@, transactions_view, results_view, checkpoint + 1),
        );
    }
}

/// Adding three lists one by one is adding them as one.
proof fn lemma_three_more<T>(s: Seq<T>, a: Seq<T>, b: Seq<T>, c: Seq<T>)
    ensures
        s + a + b + c == s + (a + b + c),
{
    assert(s + a + b + c =~= s + (a + b + c));
}

// ===== The manager =====

/// The first and the last header of a verified checkpoint, each where it was there.
#[derive(Debug, Clone, Copy)]
pub struct Boundary {
    pub first: Option<LedgerHeaderVerificationData>,
    pub last: Option<LedgerHeaderVerificationData>,
}

/// The first and the last header of a checkpoint.
pub open spec fn boundary_of(
    checkpoint: u32,
    headers: Map<u32, LedgerHeaderVerificationData>,
) -> Boundary {
    Boundary {
        first: lookup(headers, first_ledger(checkpoint) as u32),
        last: lookup(headers, checkpoint),
    }
}

fn header_at(headers: &BTreeMap<u32, LedgerHeaderVerificationData>, seq: u32) -> (header: Option<
    LedgerHeaderVerificationData,
>)
    ensures
        header == lookup(headers@, seq),
{
    match headers.get(&seq) {
        Some(header) => Some(*header),
        None => None,
    }
}

/// Collects what the files of an archive say about its ledgers, checkpoint by checkpoint, and the
/// inconsistencies found. The data of a checkpoint is released once it is verified: only its
/// boundary is kept.
#[derive(Debug)]
pub struct XdrVerificationManager {
    headers: BTreeMap<u32, BTreeMap<u32, LedgerHeaderVerificationData>>,
    transactions: BTreeMap<u32, BTreeMap<u32, Hash256>>,
    results: BTreeMap<u32, BTreeMap<u32, Hash256>>,
    boundaries: BTreeMap<u32, Boundary>,
    errors: Vec<VerificationError>,
}

/// The mathematical counterpart of [`XdrVerificationManager`].
pub struct ManagerView {
    /// The headers recorded, by checkpoint and ledger.
    pub headers: Map<u32, Map<u32, LedgerHeaderVerificationData>>,
    /// The transaction set hashes recorded, by checkpoint and ledger.
    pub transactions: Map<u32, Map<u32, Hash256>>,
    /// The result hashes recorded, by checkpoint and ledger.
    pub results: Map<u32, Map<u32, Hash256>>,
    /// The boundaries of the verified checkpoints.
    pub boundaries: Map<u32, Boundary>,
    /// The errors found, in the order in which they were.
    pub errors: Seq<VerificationErrorView>,
}

/// A map of maps, by the views of the inner ones.
pub open spec fn nested_view<V>(map: Map<u32, BTreeMap<u32, V>>) -> Map<u32, Map<u32, V>> {
    map.map_values(|inner: BTreeMap<u32, V>| inner@)
}

impl View for XdrVerificationManager {
    type V = ManagerView;

    closed spec fn view(&self) -> ManagerView {
        ManagerView {
            headers: nested_view(self.headers@),
            transactions: nested_view(self.transactions@),
            results: nested_view(self.results@),
            boundaries: self.boundaries@,
            errors: errors_view(self.errors@),
        }
    }
}

/// The errors of the boundary after a checkpoint, where both sides were verified and have the
/// headers next to it.
pub open spec fn boundary_errors(boundaries: Map<u32, Boundary>, checkpoint: u32) -> Seq<
    VerificationErrorView,
> {
    let next = (checkpoint + CHECKPOINT_FREQUENCY) as u32;
    if checkpoint > u32::MAX - CHECKPOINT_FREQUENCY || !boundaries.contains_key(checkpoint)
        || !boundaries.contains_key(next) {
        Seq::empty()
    } else {
        match (boundaries[checkpoint].last, boundaries[next].first) {
            (Some(last), Some(first)) => {
                let kind = VerificationErrorType::Boundary(next);
                flagged(
                    last.computed_hash@ != first.prev_ledger_hash@,
                    kind,
                    "hash chain break between checkpoints"@,
                ) + (match first.empty_tx_set {
                    Some(info) => predecessor_errors(kind, info, last.ledger_version),
                    None => Seq::empty(),
                })
            },
            _ => Seq::empty(),
        }
    }
}

/// The errors of the boundaries after the checkpoints below `end`, in the order of the checkpoints.
pub open spec fn boundary_errors_below(boundaries: Map<u32, Boundary>, end: int) -> Seq<
    VerificationErrorView,
>
    decreases end,
{
    if end <= 0 {
        Seq::empty()
    } else {
        boundary_errors_below(boundaries, end - 1) + boundary_errors(boundaries, (end - 1) as u32)
    }
}

/// The checkpoints that an error is about: a boundary has one on each side.
pub open spec fn failed_checkpoints_of(kind: VerificationErrorType) -> Set<u32> {
    match kind {
        VerificationErrorType::Checkpoint(checkpoint) => set![checkpoint],
        VerificationErrorType::Ledger(ledger) => set![checkpoint_of(ledger) as u32],
        VerificationErrorType::Boundary(checkpoint) => if checkpoint >= CHECKPOINT_FREQUENCY {
            set![checkpoint, (checkpoint - CHECKPOINT_FREQUENCY) as u32]
        } else {
            set![checkpoint]
        },
    }
}

/// The checkpoints that errors are about.
pub open spec fn failed_checkpoints(errors: Seq<VerificationErrorView>) -> Set<u32>
    decreases errors.len(),
{
    if errors.len() == 0 {
        Set::empty()
    } else {
        failed_checkpoints(errors.drop_last()).union(failed_checkpoints_of(errors.last().kind))
    }
}

impl ManagerView {
    /// A manager that nothing was recorded with.
    pub open spec fn empty() -> ManagerView {
        ManagerView {
            headers: Map::empty(),
            transactions: Map::empty(),
            results: Map::empty(),
            boundaries: Map::empty(),
            errors: Seq::empty(),
        }
    }

    /// The manager after the headers of a checkpoint were recorded.
    pub open spec fn with_headers(
        self,
        checkpoint: u32,
        headers: Map<u32, LedgerHeaderVerificationData>,
    ) -> ManagerView {
        ManagerView { headers: self.headers.insert(checkpoint, headers), ..self }
    }

    /// The manager after the transaction set hashes of a checkpoint were recorded.
    pub open spec fn with_transactions(
        self,
        checkpoint: u32,
        hashes: Map<u32, Hash256>,
    ) -> ManagerView {
        ManagerView { transactions: self.transactions.insert(checkpoint, hashes), ..self }
    }

    /// The manager after the result hashes of a checkpoint were recorded.
    pub open spec fn with_results(
        self,
        checkpoint: u32,
        hashes: Map<u32, Hash256>,
    ) -> ManagerView {
        ManagerView { results: self.results.insert(checkpoint, hashes), ..self }
    }

    /// The manager after its errors were handed over.
    pub open spec fn drained(self) -> ManagerView {
        ManagerView { errors: Seq::empty(), ..self }
    }

    /// The manager after a checkpoint was verified and released. Without headers, what else was
    /// recorded of the checkpoint is one error; without anything recorded, there is none.
    pub open spec fn released(self, checkpoint: u32) -> ManagerView {
        let transactions = lookup(self.transactions, checkpoint);
        let results = lookup(self.results, checkpoint);
        let rest = ManagerView {
            headers: self.headers.remove(checkpoint),
            transactions: self.transactions.remove(checkpoint),
            results: self.results.remove(checkpoint),
            ..self
        };
        match lookup(self.headers, checkpoint) {
            None => ManagerView {
                errors: self.errors + flagged(
                    transactions is Some || results is Some,
                    VerificationErrorType::Checkpoint(checkpoint),
                    "missing ledger verification data"@,
                ),
                ..rest
            },
            Some(headers) => ManagerView {
                boundaries: self.boundaries.insert(checkpoint, boundary_of(checkpoint, headers)),
                errors: self.errors + checkpoint_errors(checkpoint, headers, transactions, results),
                ..rest
            },
        }
    }

    /// The manager after the boundaries of consecutive checkpoints were verified.
    pub open spec fn chained(self) -> ManagerView {
        ManagerView {
            errors: self.errors + boundary_errors_below(self.boundaries, u32::MAX + 1),
            ..self
        }
    }
}

/// Checkpoints without a boundary add no errors.
proof fn lemma_no_boundaries(boundaries: Map<u32, Boundary>, from: int, to: int)
    requires
        0 <= from <= to <= u32::MAX + 1,
        forall|checkpoint: u32|
            from <= checkpoint < to ==> !#[trigger] boundaries.contains_key(checkpoint),
    ensures
        boundary_errors_below(boundaries, to) == boundary_errors_below(boundaries, from),
    decreases to - from,
{
    if from < to {
        lemma_no_boundaries(boundaries, from, to - 1);
        assert(!boundaries.contains_key((to - 1) as u32));
        assert(boundary_errors_below(boundaries, to) =~= boundary_errors_below(boundaries, to - 1));
    }
}

/// In an increasing sequence of numbers, each is below the later ones.
proof fn lemma_increasing(numbers: Seq<u32>)
    requires
        increasing_seq(numbers),
    ensures
        forall|i: int, j: int| 0 <= i < j < numbers.len() ==> numbers[i] < numbers[j],
{
    assert forall|i: int, j: int| 0 <= i < j < numbers.len() implies numbers[i] < numbers[j] by {
        assert(numbers[i].cmp_spec(&numbers[j]) is Less);
    }
}

/// The checkpoints with a boundary, in increasing order.
fn checkpoints_of(boundaries: &BTreeMap<u32, Boundary>) -> (checkpoints: Vec<u32>)
    ensures
        forall|i: int, j: int| 0 <= i < j < checkpoints@.len() ==> checkpoints@[i] < checkpoints@[j],
        forall|checkpoint: u32|
            #[trigger] boundaries@.contains_key(checkpoint) <==> checkpoints@.contains(checkpoint),
{
    let iter = boundaries.iter();
    let ghost entries = iter.remaining();
    let mut checkpoints: Vec<u32> = Vec::new();
    for entry in it: iter
        invariant
            it.seq() == entries,
            checkpoints@ == entries.take(it.index()).map_values(
                |entry: (&u32, &Boundary)| *entry.0,
            ),
    {
        checkpoints.push(*entry.0);
    }
    proof {
        let keys = entries.map_values(|entry: (&u32, &Boundary)| *entry.0);
        lemma_increasing(keys);
        assert(entries.take(entries.len() as int) =~= entries);
        assert(checkpoints@ == keys);
        assert forall|checkpoint: u32| #[trigger] boundaries@.contains_key(checkpoint) implies keys.contains(
            checkpoint,
        ) by {
            let entry = (&checkpoint, &boundaries@[checkpoint]);
            assert(entries.contains(entry));
            let i = choose|i: int| 0 <= i < entries.len() && entries[i] == entry;
            assert(keys[i] == checkpoint);
        }
        assert forall|checkpoint: u32| keys.contains(checkpoint) implies
            #[trigger] boundaries@.contains_key(checkpoint) by {
            let i = choose|i: int| 0 <= i < keys.len() && keys[i] == checkpoint;
            assert(boundaries@.contains_key(*entries[i].0));
        }
    }
    checkpoints
}

fn flag_boundary(
    errors: &mut Vec<VerificationError>,
    boundaries: &BTreeMap<u32, Boundary>,
    checkpoint: u32,
)
    ensures
        errors_view(final(errors)@) == errors_view(old(errors)@) + boundary_errors(
            boundaries@,
            checkpoint,
        ),
{
    if checkpoint <= u32::MAX - CHECKPOINT_FREQUENCY {
        let next: u32 = checkpoint + CHECKPOINT_FREQUENCY;
        if let (Some(before), Some(after)) = (boundaries.get(&checkpoint), boundaries.get(&next)) {
            if let (Some(last), Some(first)) = (&before.last, &after.first) {
                let kind = VerificationErrorType::Boundary(next);
                flag(
                    errors,
                    !same_hash(&last.computed_hash, &first.prev_ledger_hash),
                    kind,
                    "hash chain break between checkpoints",
                );
                if let Some(info) = &first.empty_tx_set {
                    flag_predecessor(errors, kind, info, last.ledger_version);
                }
            }
        }
    }
    assert(errors_view(errors@) =~= errors_view(old(errors)@) + boundary_errors(
        boundaries@,
        checkpoint,
    ));
}

impl XdrVerificationManager {
    /// A manager that nothing was recorded with.
    pub fn new() -> (manager: Self)
        ensures
            manager@ == ManagerView::empty(),
    {
        let manager = Self {
            headers: BTreeMap::new(),
            transactions: BTreeMap::new(),
            results: BTreeMap::new(),
            boundaries: BTreeMap::new(),
            errors: Vec::new(),
        };
        assert(manager@.headers =~= Map::empty());
        assert(manager@.transactions =~= Map::empty());
        assert(manager@.results =~= Map::empty());
        assert(manager@.errors =~= Seq::empty());
        manager
    }

    /// Records the headers of a checkpoint.
    pub fn record_header_data(
        &mut self,
        checkpoint: u32,
        data: BTreeMap<u32, LedgerHeaderVerificationData>,
    )
        ensures
            final(self)@ == (ManagerView {
                headers: old(self)@.headers.insert(checkpoint, data@),
                ..old(self)@
            }),
            final(self)@ == old(self)@.with_headers(checkpoint, data@),
    {
        self.headers.insert(checkpoint, data);
        assert(nested_view(self.headers@) =~= nested_view(old(self).headers@).insert(
            checkpoint,
            data@,
        ));
    }

    /// Records the transaction set hashes of a checkpoint.
    pub fn record_tx_set_hashes(&mut self, checkpoint: u32, hashes: BTreeMap<u32, Hash256>)
        ensures
            final(self)@ == (ManagerView {
                transactions: old(self)@.transactions.insert(checkpoint, hashes@),
                ..old(self)@
            }),
            final(self)@ == old(self)@.with_transactions(checkpoint, hashes@),
    {
        self.transactions.insert(checkpoint, hashes);
        assert(nested_view(self.transactions@) =~= nested_view(old(self).transactions@).insert(
            checkpoint,
            hashes@,
        ));
    }

    /// Records the result hashes of a checkpoint.
    pub fn record_result_hashes(&mut self, checkpoint: u32, hashes: BTreeMap<u32, Hash256>)
        ensures
            final(self)@ == (ManagerView {
                results: old(self)@.results.insert(checkpoint, hashes@),
                ..old(self)@
            }),
            final(self)@ == old(self)@.with_results(checkpoint, hashes@),
    {
        self.results.insert(checkpoint, hashes);
        assert(nested_view(self.results@) =~= nested_view(old(self).results@).insert(
            checkpoint,
            hashes@,
        ));
    }

    /// Verifies the ledgers of a checkpoint against each other and against its transactions and
    /// results files, as far as those were recorded, and releases their data.
    pub fn verify_and_release(&mut self, checkpoint: u32)
        ensures
            final(self)@ == old(self)@.released(checkpoint),
    {
        let headers = self.headers.remove(&checkpoint);
        let transactions = self.transactions.remove(&checkpoint);
        let results = self.results.remove(&checkpoint);
        assert(nested_view(self.headers@) =~= nested_view(old(self).headers@).remove(checkpoint));
        assert(nested_view(self.transactions@) =~= nested_view(old(self).transactions@).remove(
            checkpoint,
        ));
        assert(nested_view(self.results@) =~= nested_view(old(self).results@).remove(checkpoint));
        match headers {
            None => {
                flag(
                    &mut self.errors,
                    transactions.is_some() || results.is_some(),
                    VerificationErrorType::Checkpoint(checkpoint),
                    "missing ledger verification data",
                );
            },
            Some(headers) => {
                flag_checkpoint(
                    &mut self.errors,
                    checkpoint,
                    &headers,
                    transactions.as_ref(),
                    results.as_ref(),
                );
                let (first, last) = expected_ledger_range(checkpoint);
                let boundary = Boundary {
                    first: header_at(&headers, first),
                    last: header_at(&headers, last),
                };
                self.boundaries.insert(checkpoint, boundary);
            },
        }
    }

    /// Verifies that the verified checkpoints that follow each other link up: the first ledger of
    /// one names the last ledger of the one before it.
    pub fn verify_checkpoint_chain(&mut self)
        ensures
            final(self)@ == old(self)@.chained(),
    {
        let checkpoints = checkpoints_of(&self.boundaries);
        let ghost boundaries = self.boundaries@;
        let ghost before = self@.errors;
        let ghost mut below: int = 0;
        let mut i: usize = 0;
        assert(before =~= before + boundary_errors_below(boundaries, 0));
        while i < checkpoints.len()
            invariant
                i <= checkpoints@.len(),
                forall|a: int, b: int|
                    0 <= a < b < checkpoints@.len() ==> checkpoints@[a] < checkpoints@[b],
                forall|checkpoint: u32|
                    #[trigger] boundaries.contains_key(checkpoint) <==> checkpoints@.contains(
                        checkpoint,
                    ),
                self.boundaries@ == boundaries,
                self@ == (ManagerView { errors: self@.errors, ..old(self)@ }),
                self@.errors == before + boundary_errors_below(boundaries, below),
                0 <= below <= u32::MAX + 1,
                forall|a: int| 0 <= a < i ==> #[trigger] checkpoints@[a] < below,
                forall|a: int| i <= a < checkpoints@.len() ==> below <= #[trigger] checkpoints@[a],
            decreases checkpoints@.len() - i,
        {
            let checkpoint: u32 = checkpoints[i];
            flag_boundary(&mut self.errors, &self.boundaries, checkpoint);
            proof {
                assert forall|c: u32| below <= c < checkpoint implies
                    !#[trigger] boundaries.contains_key(c) by {
                    if checkpoints@.contains(c) {
                        let a = choose|a: int| 0 <= a < checkpoints@.len() && checkpoints@[a] == c;
                        assert(a >= i);
                    }
                }
                lemma_no_boundaries(boundaries, below, checkpoint as int);
                assert(self@.errors =~= before + boundary_errors_below(boundaries, checkpoint + 1));
                below = checkpoint + 1;
            }
            i = i + 1;
        }
        proof {
            assert forall|c: u32| below <= c < u32::MAX + 1 implies
                !#[trigger] boundaries.contains_key(c) by {
                if checkpoints@.contains(c) {
                    let a = choose|a: int| 0 <= a < checkpoints@.len() && checkpoints@[a] == c;
                    assert(checkpoints@[a] < below);
                }
            }
            lemma_no_boundaries(boundaries, below, u32::MAX + 1);
        }
    }

    /// Hands the checkpoints that the errors are about over to `failures`, and forgets the errors.
    pub fn drain_all_errors(&mut self, failures: &mut FailureTracker)
        ensures
            final(self)@ == (ManagerView { errors: Seq::empty(), ..old(self)@ }),
            final(failures).checkpoints@ == old(failures).checkpoints@.union(
                failed_checkpoints(old(self)@.errors),
            ),
            final(failures).files == old(failures).files,
            final(failures).buckets == old(failures).buckets,
            final(failures).well_known == old(failures).well_known,
            final(self)@ == old(self)@.drained(),
            forall|checkpoint: u32|
                #[trigger] final(failures).checkpoints@.contains(checkpoint) <==> old(
                    failures,
                ).checkpoints@.contains(checkpoint) || exists|i: int|
                    0 <= i < old(self)@.errors.len() && concerns(
                        #[trigger] old(self)@.errors[i],
                        checkpoint,
                    ),
    {
        let mut i: usize = 0;
        assert(failures.checkpoints@ =~= failures.checkpoints@.union(
            failed_checkpoints(self@.errors.take(0)),
        ));
        while i < self.errors.len()
            invariant
                i <= self.errors@.len(),
                self@ == old(self)@,
                failures.checkpoints@ == old(failures).checkpoints@.union(
                    failed_checkpoints(self@.errors.take(i as int)),
                ),
                failures.files == old(failures).files,
                failures.buckets == old(failures).buckets,
                failures.well_known == old(failures).well_known,
            decreases self.errors@.len() - i,
        {
            let kind = self.errors[i].kind;
            assert(self@.errors.take(i + 1).drop_last() =~= self@.errors.take(i as int));
            assert(self@.errors.take(i + 1).last() == self.errors@[i as int]@);
            match kind {
                VerificationErrorType::Checkpoint(checkpoint) => {
                    failures.checkpoints.insert(checkpoint);
                },
                VerificationErrorType::Ledger(ledger) => {
                    failures.checkpoints.insert(round_to_upper_checkpoint(ledger));
                },
                VerificationErrorType::Boundary(checkpoint) => {
                    failures.checkpoints.insert(checkpoint);
                    if checkpoint >= CHECKPOINT_FREQUENCY {
                        failures.checkpoints.insert(checkpoint - CHECKPOINT_FREQUENCY);
                    }
                },
            }
            assert(failures.checkpoints@ =~= old(failures).checkpoints@.union(
                failed_checkpoints(self@.errors.take(i + 1)),
            ));
            i = i + 1;
        }
        assert(self@.errors.take(i as int) =~= self@.errors);
        self.errors = Vec::new();
        assert(self@.errors =~= Seq::empty());
        proof {
            assert forall|checkpoint: u32|
                #[trigger] failures.checkpoints@.contains(checkpoint) <==> old(
                    failures,
                ).checkpoints@.contains(checkpoint) || exists|i: int|
                    0 <= i < old(self)@.errors.len() && concerns(
                        #[trigger] old(self)@.errors[i],
                        checkpoint,
                    ) by {
                law_failed_checkpoints_are_those_with_errors(old(self)@.errors, checkpoint);
            }
        }
    }

    /// The errors found so far, in the order in which they were.
    pub fn get_errors(&self) -> (errors: Vec<VerificationError>)
        ensures
            errors_view(errors@) == self@.errors,
    {
        let mut errors: Vec<VerificationError> = Vec::new();
        let mut i: usize = 0;
        while i < self.errors.len()
            invariant
                i <= self.errors@.len(),
                errors_view(errors@) == errors_view(self.errors@).take(i as int),
            decreases self.errors@.len() - i,
        {
            let ghost before = errors_view(errors@);
            errors.push(self.errors[i].clone());
            assert(errors_view(errors@) =~= before.push(self.errors@[i as int]@));
            assert(errors_view(self.errors@).take(i + 1) =~= before.push(
                errors_view(self.errors@)[i as int],
            ));
            i = i + 1;
        }
        assert(errors_view(self.errors@).take(i as int) =~= errors_view(self.errors@));
        errors
    }
}

// ===== What a clean verification means =====

/// Releasing a checkpoint a second time changes nothing.
pub proof fn law_release_is_idempotent(manager: ManagerView, checkpoint: u32)
    ensures
        manager.released(checkpoint).released(checkpoint) == manager.released(checkpoint),
{
    let once = manager.released(checkpoint);
    let twice = once.released(checkpoint);
    assert(twice.headers =~= once.headers);
    assert(twice.transactions =~= once.transactions);
    assert(twice.results =~= once.results);
    assert(twice.errors =~= once.errors);
}

/// Nothing that was recorded of a checkpoint is kept once it is released.
pub proof fn law_release_frees_the_checkpoint(manager: ManagerView, checkpoint: u32)
    ensures
        !manager.released(checkpoint).headers.contains_key(checkpoint),
        !manager.released(checkpoint).transactions.contains_key(checkpoint),
        !manager.released(checkpoint).results.contains_key(checkpoint),
{
}

/// The errors before a ledger are among those before a later one.
proof fn lemma_errors_before_grow(
    checkpoint: u32,
    headers: Map<u32, LedgerHeaderVerificationData>,
    transactions: Option<Map<u32, Hash256>>,
    results: Option<Map<u32, Hash256>>,
    from: int,
    to: int,
)
    requires
        from <= to,
    ensures
        errors_before(checkpoint, headers, transactions, results, from).len() <= errors_before(
            checkpoint,
            headers,
            transactions,
            results,
            to,
        ).len(),
    decreases to - from,
{
    if from < to {
        lemma_errors_before_grow(checkpoint, headers, transactions, results, from, to - 1);
    }
}

/// A checkpoint without errors has a header for each of its ledgers and for no others, each ledger
/// names the one before it, and its hashes are those of the transactions and results files wherever
/// those have an entry.
pub proof fn law_clean_checkpoint_is_consistent(
    checkpoint: u32,
    headers: Map<u32, LedgerHeaderVerificationData>,
    transactions: Option<Map<u32, Hash256>>,
    results: Option<Map<u32, Hash256>>,
    seq: u32,
)
    requires
        checkpoint_errors(checkpoint, headers, transactions, results).len() == 0,
    ensures
        headers.contains_key(seq) <==> in_checkpoint(checkpoint, seq),
        in_checkpoint(checkpoint, seq) && seq > first_ledger(checkpoint) ==> headers[(seq
            - 1) as u32].computed_hash@ == headers[seq].prev_ledger_hash@,
        in_checkpoint(checkpoint, seq) ==> match transactions {
            Some(hashes) if hashes.contains_key(seq) => hashes[seq]@
                == headers[seq].expected_tx_set_hash@ && headers[seq].empty_tx_set is None,
            Some(_) => lacks_transactions(seq, headers[seq]),
            None => true,
        },
        in_checkpoint(checkpoint, seq) ==> match results {
            Some(hashes) if hashes.contains_key(seq) => hashes[seq]@
                == headers[seq].expected_result_hash@ && headers[seq].empty_tx_set is None,
            Some(_) => lacks_results(seq, headers[seq]),
            None => true,
        },
{
    assert(!lacks_headers(checkpoint, headers));
    assert(!has_foreign_headers(checkpoint, headers));
    if in_checkpoint(checkpoint, seq) {
        assert(headers.contains_key(seq));
        lemma_errors_before_grow(
            checkpoint,
            headers,
            transactions,
            results,
            seq + 1,
            checkpoint + 1,
        );
        assert(ledger_errors(checkpoint, headers, transactions, results, seq).len() == 0);
        if seq > first_ledger(checkpoint) {
            assert(headers.contains_key((seq - 1) as u32));
        }
    }
}

proof fn lemma_boundary_errors_grow(boundaries: Map<u32, Boundary>, from: int, to: int)
    requires
        from <= to,
    ensures
        boundary_errors_below(boundaries, from).len() <= boundary_errors_below(
            boundaries,
            to,
        ).len(),
    decreases to - from,
{
    if from < to {
        lemma_boundary_errors_grow(boundaries, from, to - 1);
    }
}

/// Where the chain of checkpoints adds no errors, the first ledger of each checkpoint names the
/// last one of the checkpoint before it, if both are there.
pub proof fn law_clean_chain_links_checkpoints(
    manager: ManagerView,
    checkpoint: u32,
    last: LedgerHeaderVerificationData,
    first: LedgerHeaderVerificationData,
)
    requires
        manager.chained().errors == manager.errors,
        checkpoint <= u32::MAX - CHECKPOINT_FREQUENCY,
        manager.boundaries.contains_key(checkpoint),
        manager.boundaries.contains_key((checkpoint + CHECKPOINT_FREQUENCY) as u32),
        manager.boundaries[checkpoint].last == Some(last),
        manager.boundaries[(checkpoint + CHECKPOINT_FREQUENCY) as u32].first == Some(first),
    ensures
        last.computed_hash@ == first.prev_ledger_hash@,
{
    let all = boundary_errors_below(manager.boundaries, u32::MAX + 1);
    assert(all.len() == 0) by {
        assert((manager.errors + all).len() == manager.errors.len());
    }
    lemma_boundary_errors_grow(manager.boundaries, checkpoint + 1, u32::MAX + 1);
    assert(boundary_errors(manager.boundaries, checkpoint).len() == 0);
}

/// A ledger belongs to the checkpoint that it is rounded to, and that checkpoint is a multiple of
/// the checkpoint frequency away from zero, less one.
pub proof fn law_ledgers_belong_to_their_checkpoint(ledger: u32)
    requires
        ledger >= GENESIS_LEDGER,
    ensures
        checkpoint_of(ledger) <= u32::MAX,
        in_checkpoint(checkpoint_of(ledger) as u32, ledger),
        (checkpoint_of(ledger) + 1) % CHECKPOINT_FREQUENCY as int == 0,
{
}

/// Draining errors a second time adds no checkpoints.
pub proof fn law_drained_errors_are_gone(manager: ManagerView, checkpoints: Set<u32>)
    ensures
        ({
            let drained = ManagerView { errors: Seq::empty(), ..manager };
            checkpoints.union(failed_checkpoints(drained.errors)) == checkpoints
        }),
{
    assert(checkpoints.union(Set::empty()) =~= checkpoints);
}

} // verus!
