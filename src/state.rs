use vstd::prelude::*;

use crate::types::{Address, GrantError, GrantView, MilestoneStatus, MilestoneView, Transfer};

verus! {

/// The mathematical value of the whole escrow: the configured token (once
/// initialised), the grants in order of creation (grant id `i + 1` at index
/// `i`), and for each grant its milestones in order of registration
/// (milestone id `j + 1` at index `j`).
pub struct EscrowState {
    pub token: Option<Address>,
    pub grants: Seq<GrantView>,
    pub milestones: Seq<Seq<MilestoneView>>,
}

/// How many of the milestones have been paid.
pub open spec fn paid_count(ms: Seq<MilestoneView>) -> nat
    decreases ms.len(),
{
    if ms.len() == 0 {
        0
    } else {
        paid_count(ms.drop_last()) + if ms.last().paid { 1nat } else { 0nat }
    }
}

/// A milestone's approvals are distinct participants of its grant, it is
/// approved exactly when all three have approved, and only an approved
/// milestone can have been paid.
pub open spec fn milestone_wf(g: GrantView, m: MilestoneView) -> bool {
    &&& m.approvers.no_duplicates()
    &&& m.approvers.len() <= 3
    &&& forall|k: int| 0 <= k < m.approvers.len() ==> g.is_participant(#[trigger] m.approvers[k])
    &&& m.status != MilestoneStatus::Rejected
    &&& (m.status == MilestoneStatus::Approved <==> m.approvers.len() == 3)
    &&& m.paid ==> m.status == MilestoneStatus::Approved
}

/// A grant as creation made it and registration and settlement keep it.
pub open spec fn grant_wf(g: GrantView, ms: Seq<MilestoneView>) -> bool {
    &&& g.total_amount > 0
    &&& g.total_milestones > 0
    &&& g.manager != g.supervisor
    &&& g.manager != g.researcher
    &&& g.supervisor != g.researcher
    &&& g.registered_milestones == ms.len()
    &&& ms.len() <= g.total_milestones
    &&& g.claimed_amount == paid_count(ms) * g.share()
    &&& forall|j: int| 0 <= j < ms.len() ==> milestone_wf(g, #[trigger] ms[j])
}

/// A fresh milestone: pending, with no approvals, unpaid.
pub open spec fn new_milestone(name: Seq<char>, description: Seq<char>) -> MilestoneView {
    MilestoneView {
        name,
        description,
        status: MilestoneStatus::Pending,
        approvers: Seq::empty(),
        paid: false,
    }
}

/// A fresh grant, with nothing registered or claimed yet.
pub open spec fn new_grant(
    funder: Address,
    manager: Address,
    supervisor: Address,
    researcher: Address,
    name: Seq<char>,
    total_amount: i128,
    total_milestones: u32,
    timestamp: u64,
) -> GrantView {
    GrantView {
        manager,
        supervisor,
        researcher,
        funder,
        total_amount,
        claimed_amount: 0,
        name,
        total_milestones,
        registered_milestones: 0,
        creation_timestamp: timestamp,
    }
}

/// The first check that a grant creation fails, if any.
pub open spec fn create_grant_error(
    s: EscrowState,
    manager: Address,
    supervisor: Address,
    researcher: Address,
    total_amount: i128,
    total_milestones: u32,
) -> Option<GrantError> {
    if total_amount <= 0 {
        Some(GrantError::InvalidAmount)
    } else if total_milestones == 0 {
        Some(GrantError::InvalidMilestoneCount)
    } else if manager == supervisor || manager == researcher || supervisor == researcher {
        Some(GrantError::DuplicateParticipant)
    } else if s.token is None {
        Some(GrantError::NotInitialized)
    } else {
        None
    }
}

impl EscrowState {
    /// The state before initialisation.
    pub open spec fn empty() -> EscrowState {
        EscrowState { token: None, grants: Seq::empty(), milestones: Seq::empty() }
    }

    /// Every grant is well formed, and there are grants only once a token is
    /// configured.
    pub open spec fn wf(self) -> bool {
        &&& self.grants.len() == self.milestones.len()
        &&& self.grants.len() > 0 ==> self.token is Some
        &&& forall|i: int|
            0 <= i < self.grants.len() ==> grant_wf(#[trigger] self.grants[i], self.milestones[i])
    }

    /// The id that the next created grant receives.
    pub open spec fn next_grant_id(self) -> int {
        self.grants.len() + 1int
    }

    pub open spec fn has_grant(self, grant_id: u64) -> bool {
        1 <= grant_id <= self.grants.len()
    }

    pub open spec fn grant(self, grant_id: u64) -> GrantView {
        self.grants[grant_id - 1]
    }

    pub open spec fn has_milestone(self, grant_id: u64, milestone_id: u32) -> bool {
        &&& self.has_grant(grant_id)
        &&& 1 <= milestone_id <= self.milestones[grant_id - 1].len()
    }

    pub open spec fn milestone(self, grant_id: u64, milestone_id: u32) -> MilestoneView {
        self.milestones[grant_id - 1][milestone_id - 1]
    }

    /// This state with one milestone replaced.
    pub open spec fn with_milestone(
        self,
        grant_id: u64,
        milestone_id: u32,
        m: MilestoneView,
    ) -> EscrowState {
        EscrowState {
            milestones: self.milestones.update(
                grant_id - 1,
                self.milestones[grant_id - 1].update(milestone_id - 1, m),
            ),
            ..self
        }
    }

    /// What `initialize` leaves and returns.
    pub open spec fn initialize_result(self, token: Address) -> (EscrowState, Result<(), GrantError>) {
        if self.token is Some {
            (self, Err(GrantError::AlreadyInitialized))
        } else {
            (EscrowState { token: Some(token), ..self }, Ok(()))
        }
    }

    /// What `create_grant` leaves and returns: on success the grant gets the
    /// next id and the funder's deposit of the whole amount is to be made.
    pub open spec fn create_grant_result(
        self,
        funder: Address,
        manager: Address,
        supervisor: Address,
        researcher: Address,
        name: Seq<char>,
        total_amount: i128,
        total_milestones: u32,
        timestamp: u64,
    ) -> (EscrowState, Result<(u64, Transfer), GrantError>) {
        match create_grant_error(self, manager, supervisor, researcher, total_amount, total_milestones) {
            Some(e) => (self, Err(e)),
            None => (
                EscrowState {
                    token: self.token,
                    grants: self.grants.push(
                        new_grant(
                            funder,
                            manager,
                            supervisor,
                            researcher,
                            name,
                            total_amount,
                            total_milestones,
                            timestamp,
                        ),
                    ),
                    milestones: self.milestones.push(Seq::empty()),
                },
                Ok(
                    (
                        self.next_grant_id() as u64,
                        Transfer::Deposit { token: self.token.unwrap(), from: funder, amount: total_amount },
                    ),
                ),
            ),
        }
    }

    /// The first check that a milestone registration fails, if any.
    pub open spec fn register_milestone_error(self, manager: Address, grant_id: u64) -> Option<GrantError> {
        if !self.has_grant(grant_id) {
            Some(GrantError::NotFound)
        } else if self.grant(grant_id).manager != manager {
            Some(GrantError::Unauthorized)
        } else if self.grant(grant_id).registered_milestones >= self.grant(grant_id).total_milestones {
            Some(GrantError::MilestoneLimitReached)
        } else {
            None
        }
    }

    /// What `register_milestone` leaves and returns: on success a pending
    /// milestone with the next id of its grant.
    pub open spec fn register_milestone_result(
        self,
        manager: Address,
        grant_id: u64,
        name: Seq<char>,
        description: Seq<char>,
    ) -> (EscrowState, Result<u32, GrantError>) {
        match self.register_milestone_error(manager, grant_id) {
            Some(e) => (self, Err(e)),
            None => {
                let g = self.grant(grant_id);
                let id = (g.registered_milestones + 1) as u32;
                (
                    EscrowState {
                        token: self.token,
                        grants: self.grants.update(
                            grant_id - 1,
                            GrantView { registered_milestones: id, ..g },
                        ),
                        milestones: self.milestones.update(
                            grant_id - 1,
                            self.milestones[grant_id - 1].push(new_milestone(name, description)),
                        ),
                    },
                    Ok(id),
                )
            },
        }
    }

    /// The first check that an approval fails, if any.
    pub open spec fn approve_milestone_error(
        self,
        signer: Address,
        grant_id: u64,
        milestone_id: u32,
    ) -> Option<GrantError> {
        if !self.has_milestone(grant_id, milestone_id) {
            Some(GrantError::NotFound)
        } else if !self.grant(grant_id).is_participant(signer) {
            Some(GrantError::Unauthorized)
        } else if self.milestone(grant_id, milestone_id).status != MilestoneStatus::Pending {
            Some(GrantError::InvalidState)
        } else if self.milestone(grant_id, milestone_id).approvers.contains(signer) {
            Some(GrantError::DuplicateApproval)
        } else {
            None
        }
    }

    /// What `approve_milestone` leaves and returns: on success the signer is
    /// added to the approvers, and the third approval makes the milestone
    /// approved.
    pub open spec fn approve_milestone_result(
        self,
        signer: Address,
        grant_id: u64,
        milestone_id: u32,
    ) -> (EscrowState, Result<(), GrantError>) {
        match self.approve_milestone_error(signer, grant_id, milestone_id) {
            Some(e) => (self, Err(e)),
            None => {
                let m = self.milestone(grant_id, milestone_id);
                let approvers = m.approvers.push(signer);
                let status = if approvers.len() == 3 {
                    MilestoneStatus::Approved
                } else {
                    m.status
                };
                (
                    self.with_milestone(
                        grant_id,
                        milestone_id,
                        MilestoneView { approvers, status, ..m },
                    ),
                    Ok(()),
                )
            },
        }
    }

    /// The first check that a claim fails, if any.
    pub open spec fn claim_payment_error(
        self,
        claimer: Address,
        grant_id: u64,
        milestone_id: u32,
    ) -> Option<GrantError> {
        if !self.has_milestone(grant_id, milestone_id) {
            Some(GrantError::NotFound)
        } else if !self.grant(grant_id).is_participant(claimer) {
            Some(GrantError::Unauthorized)
        } else if self.milestone(grant_id, milestone_id).status != MilestoneStatus::Approved {
            Some(GrantError::InvalidState)
        } else if self.milestone(grant_id, milestone_id).paid {
            Some(GrantError::AlreadyPaid)
        } else {
            None
        }
    }

    /// What `claim_payment` leaves and returns: on success the milestone is
    /// paid, the grant's claimed amount grows by one share, and that share is
    /// to be paid to the researcher.
    pub open spec fn claim_payment_result(
        self,
        claimer: Address,
        grant_id: u64,
        milestone_id: u32,
    ) -> (EscrowState, Result<Transfer, GrantError>) {
        match self.claim_payment_error(claimer, grant_id, milestone_id) {
            Some(e) => (self, Err(e)),
            None => {
                let g = self.grant(grant_id);
                let m = self.milestone(grant_id, milestone_id);
                let s1 = self.with_milestone(grant_id, milestone_id, MilestoneView { paid: true, ..m });
                (
                    EscrowState {
                        grants: s1.grants.update(
                            grant_id - 1,
                            GrantView { claimed_amount: (g.claimed_amount + g.share()) as i128, ..g },
                        ),
                        ..s1
                    },
                    Ok(
                        Transfer::Payout {
                            token: self.token.unwrap(),
                            to: g.researcher,
                            amount: g.share() as i128,
                        },
                    ),
                )
            },
        }
    }
}

} // verus!

verus! {

pub proof fn lemma_paid_count_bounded(ms: Seq<MilestoneView>)
    ensures
        paid_count(ms) <= ms.len(),
    decreases ms.len(),
{
    if ms.len() > 0 {
        lemma_paid_count_bounded(ms.drop_last());
    }
}

pub proof fn lemma_paid_count_push(ms: Seq<MilestoneView>, m: MilestoneView)
    ensures
        paid_count(ms.push(m)) == paid_count(ms) + if m.paid { 1nat } else { 0nat },
{
    assert(ms.push(m).drop_last() =~= ms);
}

pub proof fn lemma_paid_count_update(ms: Seq<MilestoneView>, i: int, m: MilestoneView)
    requires
        0 <= i < ms.len(),
    ensures
        paid_count(ms.update(i, m)) + (if ms[i].paid { 1nat } else { 0nat }) == paid_count(ms)
            + if m.paid { 1nat } else { 0nat },
    decreases ms.len(),
{
    if i == ms.len() - 1 {
        assert(ms.update(i, m).drop_last() =~= ms.drop_last());
    } else {
        assert(ms.update(i, m).drop_last() =~= ms.drop_last().update(i, m));
        lemma_paid_count_update(ms.drop_last(), i, m);
    }
}

} // verus!

verus! {

/// Paying one more milestone of a well-formed grant keeps the claimed amount
/// within the total.
pub proof fn lemma_claim_fits(g: GrantView, ms: Seq<MilestoneView>, i: int)
    requires
        grant_wf(g, ms),
        0 <= i < ms.len(),
        !ms[i].paid,
    ensures
        0 <= g.share() <= g.total_amount,
        g.claimed_amount + g.share() <= g.total_amount,
        paid_count(ms.update(i, MilestoneView { paid: true, ..ms[i] })) * g.share()
            == g.claimed_amount + g.share(),
{
    lemma_paid_count_update(ms, i, MilestoneView { paid: true, ..ms[i] });
    lemma_paid_count_bounded(ms.update(i, MilestoneView { paid: true, ..ms[i] }));
    let pc = paid_count(ms);
    let n = g.total_milestones as int;
    let total = g.total_amount as int;
    let share = g.share();
    assert(0 <= share <= total) by (nonlinear_arith)
        requires
            share == total / n,
            total > 0,
            n > 0,
    ;
    assert(n * share <= total) by (nonlinear_arith)
        requires
            share == total / n,
            total > 0,
            n > 0,
    ;
    assert((pc + 1) * share <= n * share) by (nonlinear_arith)
        requires
            pc + 1 <= n,
            share >= 0,
    ;
    assert((pc + 1) * share == pc * share + share) by (nonlinear_arith);
}

} // verus!
