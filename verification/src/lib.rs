//! A minimal append-only, deterministically addressed record store.
//!
//! The library persists one immutable attestation record per
//! (authority, subject) pair at an address derived from a fixed namespace
//! seed, the authority's key and the subject hash, and refuses any second
//! write to the same address.

pub mod address;
pub mod classification;
pub mod record;
pub mod store;

pub use address::{derive_attestation_address, verify_attestation_address};
pub use classification::Classification;
pub use record::{serialize_record, RecordSignalParams, SignalAttestation, ATTESTATION_SIZE};
pub use store::{record_signal, AttestationError, AttestationStore, RecordSignal};
