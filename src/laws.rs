use vstd::prelude::*;
use vstd::set_lib::lemma_subset_equality;

use crate::state::{grant_wf, lemma_claim_fits, milestone_wf, EscrowState};
use crate::types::{Address, GrantError, MilestoneStatus, Transfer};

verus! {

/// The three identities that approve a milestone of grant `grant_id`.
pub open spec fn participants(s: EscrowState, grant_id: u64) -> Set<Address> {
    set![s.grant(grant_id).manager, s.grant(grant_id).supervisor, s.grant(grant_id).researcher]
}

/// Grant ids start at 1, and each successful creation takes the next id and
/// moves the counter on by one, while a failed creation changes nothing: the
/// ids of successful creations are 1, 2, 3, ... with none skipped or reused.
pub proof fn lemma_create_grant_takes_next_id(
    s: EscrowState,
    funder: Address,
    manager: Address,
    supervisor: Address,
    researcher: Address,
    name: Seq<char>,
    total_amount: i128,
    total_milestones: u32,
    timestamp: u64,
)
    ensures
        EscrowState::empty().next_grant_id() == 1,
        ({
            let (s2, r) = s.create_grant_result(
                funder,
                manager,
                supervisor,
                researcher,
                name,
                total_amount,
                total_milestones,
                timestamp,
            );
            &&& s.grants.len() < u64::MAX ==> (r matches Ok((id, _)) ==> id == s.next_grant_id())
            &&& r is Ok ==> s2.next_grant_id() == s.next_grant_id() + 1
            &&& r is Err ==> s2 == s
        }),
{
}

/// Registering, approving and claiming never change the id that the next
/// created grant receives, whether they succeed or fail.
pub proof fn lemma_other_operations_keep_next_id(
    s: EscrowState,
    caller: Address,
    grant_id: u64,
    milestone_id: u32,
    name: Seq<char>,
    description: Seq<char>,
)
    ensures
        s.register_milestone_result(caller, grant_id, name, description).0.next_grant_id()
            == s.next_grant_id(),
        s.approve_milestone_result(caller, grant_id, milestone_id).0.next_grant_id()
            == s.next_grant_id(),
        s.claim_payment_result(caller, grant_id, milestone_id).0.next_grant_id()
            == s.next_grant_id(),
{
}

/// A successful creation moves exactly the total amount out of the funder and
/// into the escrow, and no other account is touched; a failed one moves
/// nothing.
pub proof fn lemma_create_grant_moves_total(
    s: EscrowState,
    funder: Address,
    manager: Address,
    supervisor: Address,
    researcher: Address,
    name: Seq<char>,
    total_amount: i128,
    total_milestones: u32,
    timestamp: u64,
)
    ensures
        ({
            let r = s.create_grant_result(
                funder,
                manager,
                supervisor,
                researcher,
                name,
                total_amount,
                total_milestones,
                timestamp,
            ).1;
            r matches Ok((_, t)) ==> {
                &&& t.account_delta(funder) == -total_amount
                &&& t.escrow_delta() == total_amount
                &&& forall|a: Address| a != funder ==> #[trigger] t.account_delta(a) == 0
            }
        }),
{
}

/// With a valid amount and milestone count, creation fails with
/// `DuplicateParticipant`, changing nothing, whenever any two of manager,
/// supervisor and researcher are the same identity.
pub proof fn lemma_duplicate_participants_rejected(
    s: EscrowState,
    funder: Address,
    manager: Address,
    supervisor: Address,
    researcher: Address,
    name: Seq<char>,
    total_amount: i128,
    total_milestones: u32,
    timestamp: u64,
)
    requires
        total_amount > 0,
        total_milestones > 0,
        manager == supervisor || manager == researcher || supervisor == researcher,
    ensures
        s.create_grant_result(
            funder,
            manager,
            supervisor,
            researcher,
            name,
            total_amount,
            total_milestones,
            timestamp,
        ) == (s, Err::<(u64, Transfer), GrantError>(GrantError::DuplicateParticipant)),
{
}

/// In a well-formed escrow a milestone is approved exactly when its set of
/// approvers is the grant's manager, supervisor and researcher.
pub proof fn lemma_approved_iff_all_three(s: EscrowState, grant_id: u64, milestone_id: u32)
    requires
        s.wf(),
        s.has_milestone(grant_id, milestone_id),
    ensures
        s.milestone(grant_id, milestone_id).status == MilestoneStatus::Approved
            <==> s.milestone(grant_id, milestone_id).approvers.to_set() == participants(
            s,
            grant_id,
        ),
{
    let g = s.grant(grant_id);
    let ms = s.milestones[grant_id - 1];
    let m = s.milestone(grant_id, milestone_id);
    let p = participants(s, grant_id);
    assert(grant_wf(g, ms));
    assert(milestone_wf(g, ms[milestone_id - 1]));
    m.approvers.unique_seq_to_set();
    assert(p.len() == 3);
    assert(m.approvers.to_set().subset_of(p)) by {
        assert forall|a: Address| m.approvers.to_set().contains(a) implies p.contains(a) by {
            let k = choose|k: int| 0 <= k < m.approvers.len() && m.approvers[k] == a;
            assert(g.is_participant(m.approvers[k]));
        }
    }
    if m.approvers.len() == 3 {
        lemma_subset_equality(m.approvers.to_set(), p);
    }
}

/// Starting from a fresh milestone, the three participants' approvals, in
/// any order, all succeed and leave the milestone approved with exactly the
/// three of them as approvers.
pub proof fn lemma_approval_order_irrelevant(
    s: EscrowState,
    grant_id: u64,
    milestone_id: u32,
    a: Address,
    b: Address,
    c: Address,
)
    requires
        s.wf(),
        s.has_milestone(grant_id, milestone_id),
        s.milestone(grant_id, milestone_id).status == MilestoneStatus::Pending,
        s.milestone(grant_id, milestone_id).approvers.len() == 0,
        set![a, b, c] == participants(s, grant_id),
    ensures
        ({
            let (s1, r1) = s.approve_milestone_result(a, grant_id, milestone_id);
            let (s2, r2) = s1.approve_milestone_result(b, grant_id, milestone_id);
            let (s3, r3) = s2.approve_milestone_result(c, grant_id, milestone_id);
            &&& r1 is Ok
            &&& r2 is Ok
            &&& r3 is Ok
            &&& s3.milestone(grant_id, milestone_id).status == MilestoneStatus::Approved
            &&& s3.milestone(grant_id, milestone_id).approvers.to_set() == participants(
                s,
                grant_id,
            )
        }),
{
    let g = s.grant(grant_id);
    assert(grant_wf(g, s.milestones[grant_id - 1]));
    let p = participants(s, grant_id);
    assert(p.contains(g.manager) && p.contains(g.supervisor) && p.contains(g.researcher));
    assert(set![a, b, c].contains(a) && set![a, b, c].contains(b) && set![a, b, c].contains(c));
    assert(a != b && b != c && a != c) by {
        assert(p.len() == 3);
        if a == b || b == c || a == c {
            assert(set![a, b, c].len() <= 2);
        }
    }
    let (s1, r1) = s.approve_milestone_result(a, grant_id, milestone_id);
    assert(s.milestone(grant_id, milestone_id).approvers.push(a) =~= seq![a]);
    let (s2, r2) = s1.approve_milestone_result(b, grant_id, milestone_id);
    assert(s1.milestone(grant_id, milestone_id).approvers.push(b) =~= seq![a, b]);
    let (s3, r3) = s2.approve_milestone_result(c, grant_id, milestone_id);
    assert(s2.milestone(grant_id, milestone_id).approvers.push(c) =~= seq![a, b, c]);
    assert(seq![a, b, c].to_set() =~= set![a, b, c]) by {
        assert forall|x: Address| seq![a, b, c].to_set().contains(x) implies set![a, b, c].contains(x) by {
            let k = choose|k: int| 0 <= k < 3 && seq![a, b, c][k] == x;
        }
        assert(seq![a, b, c][0] == a && seq![a, b, c][1] == b && seq![a, b, c][2] == c);
    }
}

/// An approval by a participant who already approved fails and changes
/// nothing: with `DuplicateApproval` while the milestone is pending, and with
/// `InvalidState` once it is approved.
pub proof fn lemma_repeat_approval_rejected(
    s: EscrowState,
    signer: Address,
    grant_id: u64,
    milestone_id: u32,
)
    requires
        s.wf(),
        s.has_milestone(grant_id, milestone_id),
        s.milestone(grant_id, milestone_id).approvers.contains(signer),
    ensures
        s.approve_milestone_result(signer, grant_id, milestone_id).0 == s,
        s.milestone(grant_id, milestone_id).status == MilestoneStatus::Pending ==> s.approve_milestone_result(
            signer,
            grant_id,
            milestone_id,
        ).1 == Err::<(), GrantError>(GrantError::DuplicateApproval),
        s.milestone(grant_id, milestone_id).status == MilestoneStatus::Approved ==> s.approve_milestone_result(
            signer,
            grant_id,
            milestone_id,
        ).1 == Err::<(), GrantError>(GrantError::InvalidState),
{
    let g = s.grant(grant_id);
    let m = s.milestone(grant_id, milestone_id);
    assert(grant_wf(g, s.milestones[grant_id - 1]));
    assert(milestone_wf(g, m));
    let k = choose|k: int| 0 <= k < m.approvers.len() && m.approvers[k] == signer;
    assert(g.is_participant(m.approvers[k]));
}

/// A successful claim pays the researcher exactly the total divided by the
/// number of milestones, rounded down, takes the same amount out of the
/// escrow, and adds it to the grant's claimed amount.
pub proof fn lemma_claim_pays_share(s: EscrowState, claimer: Address, grant_id: u64, milestone_id: u32)
    requires
        s.wf(),
    ensures
        ({
            let (s1, r) = s.claim_payment_result(claimer, grant_id, milestone_id);
            let g = s.grant(grant_id);
            let share = g.total_amount as int / g.total_milestones as int;
            r matches Ok(t) ==> {
                &&& t.account_delta(g.researcher) == share
                &&& t.escrow_delta() == -share
                &&& s1.grant(grant_id).claimed_amount == g.claimed_amount + share
                &&& s1.milestone(grant_id, milestone_id).paid
            }
        }),
{
    let (s1, r) = s.claim_payment_result(claimer, grant_id, milestone_id);
    if r is Ok {
        let g = s.grant(grant_id);
        assert(grant_wf(g, s.milestones[grant_id - 1]));
        lemma_claim_fits(g, s.milestones[grant_id - 1], milestone_id - 1);
    }
}

/// A milestone is paid at most once: after a successful claim every further
/// claim on it fails and changes nothing, with `AlreadyPaid` when made by a
/// participant.
pub proof fn lemma_claim_at_most_once(
    s: EscrowState,
    claimer: Address,
    next_claimer: Address,
    grant_id: u64,
    milestone_id: u32,
)
    requires
        s.wf(),
    ensures
        ({
            let (s1, r1) = s.claim_payment_result(claimer, grant_id, milestone_id);
            let (s2, r2) = s1.claim_payment_result(next_claimer, grant_id, milestone_id);
            r1 is Ok ==> {
                &&& s2 == s1
                &&& r2 is Err
                &&& s.grant(grant_id).is_participant(next_claimer) ==> r2 == Err::<
                    Transfer,
                    GrantError,
                >(GrantError::AlreadyPaid)
            }
        }),
{
}

} // verus!
