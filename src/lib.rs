//! Milestone-based research-grant escrow.
//!
//! A funder deposits a fixed amount of a token; the grant's manager registers
//! milestones; the manager, the supervisor and the researcher must each approve
//! a milestone before a fixed share of the deposit is paid to the researcher.
//! The ledger host (authorisation, storage, the token itself) stays outside:
//! operations hand back the token movement that the host must carry out in the
//! same transaction.
mod escrow;
mod laws;
mod state;
mod types;

pub use types::{
    Address, Grant, GrantError, GrantView, Milestone, MilestoneStatus, MilestoneView, StorageKey,
    Transfer,
};
pub use escrow::GrantContract;
pub use state::{
    create_grant_error, grant_wf, milestone_wf, new_grant, new_milestone, paid_count, EscrowState,
};
pub use laws::{
    lemma_approval_order_irrelevant, lemma_approved_iff_all_three, lemma_claim_at_most_once,
    lemma_claim_pays_share, lemma_create_grant_moves_total, lemma_create_grant_takes_next_id,
    lemma_duplicate_participants_rejected, lemma_other_operations_keep_next_id,
    lemma_repeat_approval_rejected, participants,
};
