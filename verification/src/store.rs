//! The write-once record store and its single write operation.
//!
//! The store models the host's atomic allocate-if-absent storage: at most
//! one record per derived address, written once and never mutated. The one
//! transition an address can make is unoccupied to occupied, and it is
//! terminal.

use vstd::prelude::*;
use crate::address::{
    attestation_seed, bytes32_eq, created_address, derive_attestation_address, found_address,
};
use crate::classification::{classification_from_byte, spec_classification_from_byte};
use crate::record::{record_well_formed, RecordSignalParams, SignalAttestation};

verus! {

/// Why a write was refused. Every failure aborts the whole operation with
/// no partial write.
#[derive(Clone, Copy, PartialEq, Eq, Structural, Debug)]
pub enum AttestationError {
    /// The derived address already holds a record.
    AlreadyExists,
    /// The writing identity is not a verified signer.
    Unauthorized,
    /// No valid proof byte exists for the derivation inputs.
    InvalidDerivation,
    /// A field fails its domain constraint.
    MalformedInput,
}

/// The runtime-observed facts that accompany one `record_signal` call: the
/// identity paying for and authorizing the allocation, and whether the
/// runtime verified its signature. The stored authority comes from here,
/// never from caller parameters.
#[derive(Clone, Copy, Debug)]
pub struct RecordSignal {
    /// The would-be writer's public key.
    pub authority: [u8; 32],
    /// Whether the runtime verified the writer's signature.
    pub authority_is_signer: bool,
}

/// The caller's parameters pass their domain constraints: the
/// classification byte decodes to a known variant and the confidence lies
/// within basis-point range.
pub open spec fn params_well_formed(params: RecordSignalParams) -> bool {
    &&& spec_classification_from_byte(params.classification) is Some
    &&& params.confidence_bps <= 10000
}

/// The record that a successful write stores: every field copied verbatim
/// from the parameters, except the authority, which is the verified
/// signer, and the proof byte, which address derivation produced.
pub open spec fn attestation_of(params: RecordSignalParams, authority: [u8; 32], bump: u8) -> SignalAttestation {
    SignalAttestation {
        signal_hash: params.signal_hash,
        market_id_hash: params.market_id_hash,
        classification: params.classification,
        confidence_bps: params.confidence_bps,
        timestamp: params.timestamp,
        authority: authority,
        bump: bump,
    }
}

/// The records that a sequence of (address, record) entries holds, as a
/// map from address to record.
pub open spec fn entries_map(s: Seq<([u8; 32], SignalAttestation)>) -> Map<Seq<u8>, SignalAttestation>
    decreases s.len(),
{
    if s.len() == 0 {
        Map::empty()
    } else {
        entries_map(s.drop_last()).insert(s.last().0@, s.last().1)
    }
}

proof fn lemma_entries_map_contains(s: Seq<([u8; 32], SignalAttestation)>, k: Seq<u8>)
    ensures
        entries_map(s).contains_key(k) <==> exists|i: int| 0 <= i < s.len() && s[i].0@ == k,
    decreases s.len(),
{
    if s.len() > 0 {
        lemma_entries_map_contains(s.drop_last(), k);
        if s.last().0@ == k {
            assert(s[s.len() - 1].0@ == k);
        } else {
            assert(forall|i: int| 0 <= i < s.len() - 1 ==> s.drop_last()[i] == s[i]);
            if exists|i: int| 0 <= i < s.len() && s[i].0@ == k {
                let i = choose|i: int| 0 <= i < s.len() && s[i].0@ == k;
                assert(s.drop_last()[i].0@ == k);
            }
        }
    }
}

proof fn lemma_entries_map_index(s: Seq<([u8; 32], SignalAttestation)>, i: int)
    requires
        0 <= i < s.len(),
        forall|j: int| i < j < s.len() ==> s[j].0@ != s[i].0@,
    ensures
        entries_map(s).contains_key(s[i].0@),
        entries_map(s)[s[i].0@] == s[i].1,
    decreases s.len(),
{
    if i < s.len() - 1 {
        assert(forall|j: int| 0 <= j < s.len() - 1 ==> s.drop_last()[j] == s[j]);
        lemma_entries_map_index(s.drop_last(), i);
    }
}

/// The record store: the program's configured id, and the records written
/// so far, keyed by their derived address.
pub struct AttestationStore {
    program_id: [u8; 32],
    entries: Vec<([u8; 32], SignalAttestation)>,
}

impl AttestationStore {
    /// The program id this store was configured with at startup.
    pub closed spec fn spec_program_id(self) -> Seq<u8> {
        self.program_id@
    }

    /// The stored records, keyed by address.
    pub closed spec fn records(self) -> Map<Seq<u8>, SignalAttestation> {
        entries_map(self.entries@)
    }

    /// Well-formedness: every address holds at most one record, and every
    /// stored record passed validation when it was written.
    pub closed spec fn wf(self) -> bool {
        &&& forall|i: int, j: int|
            #![trigger self.entries@[i], self.entries@[j]]
            0 <= i < j < self.entries@.len() ==> self.entries@[i].0@ != self.entries@[j].0@
        &&& forall|i: int|
            0 <= i < self.entries@.len() ==> record_well_formed(#[trigger] self.entries@[i].1)
    }

    /// An empty store configured with a program id.
    pub fn new(program_id: [u8; 32]) -> (s: AttestationStore)
        ensures
            s.wf(),
            s.spec_program_id() == program_id@,
            s.records() == Map::<Seq<u8>, SignalAttestation>::empty(),
    {
        AttestationStore { program_id, entries: Vec::new() }
    }

    /// The configured program id.
    pub fn program_id(&self) -> (r: &[u8; 32])
        ensures
            r@ == self.spec_program_id(),
    {
        &self.program_id
    }

    fn find_index(&self, address: &[u8; 32]) -> (r: Option<usize>)
        requires
            self.wf(),
        ensures
            r matches Some(i) ==> (i < self.entries@.len() && self.entries@[i as int].0@
                == address@ && self.records().contains_key(address@) && self.records()[address@]
                == self.entries@[i as int].1),
            r is None ==> !self.records().contains_key(address@),
    {
        let n: usize = self.entries.len();
        let mut j: usize = 0;
        while j < n
            invariant
                self.wf(),
                n == self.entries@.len(),
                j <= n,
                forall|t: int| 0 <= t < j ==> self.entries@[t].0@ != address@,
            decreases n - j,
        {
            if bytes32_eq(&self.entries[j].0, address) {
                proof {
                    lemma_entries_map_index(self.entries@, j as int);
                }
                return Some(j);
            }
            j = j + 1;
        }
        proof {
            lemma_entries_map_contains(self.entries@, address@);
        }
        None
    }

    /// Look up the record stored at an address, if any. A returned record
    /// always passed validation when it was written.
    pub fn get(&self, address: &[u8; 32]) -> (r: Option<&SignalAttestation>)
        requires
            self.wf(),
        ensures
            r matches Some(rec) ==> (self.records().contains_key(address@) && *rec
                == self.records()[address@] && record_well_formed(*rec)),
            r is None ==> !self.records().contains_key(address@),
    {
        match self.find_index(address) {
            Some(i) => Some(&self.entries[i].1),
            None => None,
        }
    }
}

/// The exact outcome of one write on given records: the result, and the
/// records afterwards. Authorization is checked first, then the field
/// domains, then address derivation; an occupied address refuses the write
/// and every failure leaves the records exactly as they were.
pub open spec fn record_signal_outcome(
    records: Map<Seq<u8>, SignalAttestation>,
    program_id: Seq<u8>,
    ctx: RecordSignal,
    params: RecordSignalParams,
) -> (Result<(), AttestationError>, Map<Seq<u8>, SignalAttestation>) {
    if !ctx.authority_is_signer {
        (Err(AttestationError::Unauthorized), records)
    } else if !params_well_formed(params) {
        (Err(AttestationError::MalformedInput), records)
    } else {
        match found_address(attestation_seed(), ctx.authority@, params.movement_id_hash@, program_id) {
            None => (Err(AttestationError::InvalidDerivation), records),
            Some(pair) => if records.contains_key(pair.0) {
                (Err(AttestationError::AlreadyExists), records)
            } else {
                (Ok(()), records.insert(pair.0, attestation_of(params, ctx.authority, pair.1)))
            },
        }
    }
}

/// Write one attestation record at the address derived from the verified
/// signer and the subject hash. The first write to an address succeeds and
/// stores the caller's fields verbatim, with the authority taken from the
/// verified signer and the proof byte from the derivation; any later write
/// to the same address fails with AlreadyExists and changes nothing. On
/// success the stored proof byte rebuilds the record's address.
pub fn record_signal(
    store: &mut AttestationStore,
    ctx: &RecordSignal,
    params: &RecordSignalParams,
) -> (r: Result<(), AttestationError>)
    requires
        old(store).wf(),
    ensures
        final(store).wf(),
        final(store).spec_program_id() == old(store).spec_program_id(),
        r == record_signal_outcome(
            old(store).records(),
            old(store).spec_program_id(),
            *ctx,
            *params,
        ).0,
        final(store).records() =~= record_signal_outcome(
            old(store).records(),
            old(store).spec_program_id(),
            *ctx,
            *params,
        ).1,
        r is Ok ==> ({
            let pair = found_address(
                attestation_seed(),
                ctx.authority@,
                params.movement_id_hash@,
                old(store).spec_program_id(),
            )->Some_0;
            created_address(
                attestation_seed(),
                ctx.authority@,
                params.movement_id_hash@,
                pair.1,
                old(store).spec_program_id(),
            ) == Some(pair.0)
        }),
{
    if !ctx.authority_is_signer {
        return Err(AttestationError::Unauthorized);
    }
    if classification_from_byte(params.classification).is_none() || params.confidence_bps > 10000 {
        return Err(AttestationError::MalformedInput);
    }
    let derived = derive_attestation_address(
        &ctx.authority,
        &params.movement_id_hash,
        &store.program_id,
    );
    match derived {
        None => Err(AttestationError::InvalidDerivation),
        Some((address, bump)) => {
            match store.find_index(&address) {
                Some(_) => Err(AttestationError::AlreadyExists),
                None => {
                    let ghost old_entries = store.entries@;
                    let record = SignalAttestation {
                        signal_hash: params.signal_hash,
                        market_id_hash: params.market_id_hash,
                        classification: params.classification,
                        confidence_bps: params.confidence_bps,
                        timestamp: params.timestamp,
                        authority: ctx.authority,
                        bump: bump,
                    };
                    store.entries.push((address, record));
                    proof {
                        lemma_entries_map_contains(old_entries, address@);
                        assert(store.entries@.drop_last() =~= old_entries);
                        assert(store.entries@.last() == (address, record));
                        assert(record == attestation_of(*params, ctx.authority, bump));
                        assert(forall|t: int|
                            0 <= t < old_entries.len() ==> store.entries@[t] == old_entries[t]);
                    }
                    Ok(())
                },
            }
        },
    }
}

/// Law: a write never overwrites. If a write succeeds on some records, a
/// second write by the same authority for the same derivation subject
/// fails with AlreadyExists and leaves every record exactly as the first
/// write left it, whatever its other parameters.
pub proof fn lemma_write_once(
    records: Map<Seq<u8>, SignalAttestation>,
    program_id: Seq<u8>,
    ctx1: RecordSignal,
    params1: RecordSignalParams,
    ctx2: RecordSignal,
    params2: RecordSignalParams,
)
    requires
        ctx1.authority == ctx2.authority,
        params1.movement_id_hash == params2.movement_id_hash,
        ctx2.authority_is_signer,
        params_well_formed(params2),
        record_signal_outcome(records, program_id, ctx1, params1).0 is Ok,
    ensures
        ({
            let after_first = record_signal_outcome(records, program_id, ctx1, params1).1;
            &&& record_signal_outcome(after_first, program_id, ctx2, params2).0
                == Err::<(), AttestationError>(AttestationError::AlreadyExists)
            &&& record_signal_outcome(after_first, program_id, ctx2, params2).1 == after_first
        }),
{
}

/// Law: the first write to an unoccupied derived address by a verified
/// signer with well-formed parameters succeeds, and the record it stores
/// holds exactly the caller's fields, the verified signer as authority,
/// and the derivation's proof byte; no other record changes.
pub proof fn lemma_first_write_succeeds(
    records: Map<Seq<u8>, SignalAttestation>,
    program_id: Seq<u8>,
    ctx: RecordSignal,
    params: RecordSignalParams,
)
    requires
        ctx.authority_is_signer,
        params_well_formed(params),
        found_address(attestation_seed(), ctx.authority@, params.movement_id_hash@, program_id)
            is Some,
        !records.contains_key(
            found_address(
                attestation_seed(),
                ctx.authority@,
                params.movement_id_hash@,
                program_id,
            )->Some_0.0,
        ),
    ensures
        record_signal_outcome(records, program_id, ctx, params).0 is Ok,
        ({
            let pair = found_address(
                attestation_seed(),
                ctx.authority@,
                params.movement_id_hash@,
                program_id,
            )->Some_0;
            let after = record_signal_outcome(records, program_id, ctx, params).1;
            let stored = after[pair.0];
            &&& after == records.insert(pair.0, attestation_of(params, ctx.authority, pair.1))
            &&& stored.signal_hash == params.signal_hash
            &&& stored.market_id_hash == params.market_id_hash
            &&& stored.classification == params.classification
            &&& stored.confidence_bps == params.confidence_bps
            &&& stored.timestamp == params.timestamp
            &&& stored.authority == ctx.authority
            &&& stored.bump == pair.1
            &&& forall|k: Seq<u8>| #![trigger after.contains_key(k)]
                k != pair.0 ==> (after.contains_key(k) <==> records.contains_key(k))
                    && (records.contains_key(k) ==> after[k] == records[k])
        }),
{
}

/// Law: a well-formed store only holds records that passed validation.
pub proof fn lemma_stored_records_well_formed(s: AttestationStore, k: Seq<u8>)
    requires
        s.wf(),
        s.records().contains_key(k),
    ensures
        record_well_formed(s.records()[k]),
{
    lemma_entries_map_contains(s.entries@, k);
    let i = choose|i: int| 0 <= i < s.entries@.len() && s.entries@[i].0@ == k;
    lemma_entries_map_index(s.entries@, i);
}

} // verus!
