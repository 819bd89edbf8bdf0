/// Principals, campaign identifiers and one-shot delegated grants.
pub mod auth;
/// The campaign ledger: funding state machine and escrow accounting.
pub mod campaign;
/// The donation ledger: append-only contribution records.
pub mod donation;
/// The verification engine: milestone attestation and fund release.
pub mod verification;

mod keyed;
