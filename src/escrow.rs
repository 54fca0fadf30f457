use vstd::prelude::*;

use crate::state::{
    grant_wf, lemma_claim_fits, lemma_paid_count_push, lemma_paid_count_update, milestone_wf,
    new_grant, new_milestone, paid_count, EscrowState,
};
use crate::types::{
    Address, Grant, GrantError, GrantView, Milestone, MilestoneStatus, MilestoneView, Transfer,
};

verus! {

/// The escrow: its configuration, its grants and their milestones.
///
/// Every operation either succeeds, or fails with a [`GrantError`] and leaves
/// the escrow as it was. Callers are expected to have checked the
/// authorisation of the acting address.
pub struct GrantContract {
    token: Option<Address>,
    grants: Vec<Grant>,
    milestones: Vec<Vec<Milestone>>,
}

impl View for GrantContract {
    type V = EscrowState;

    closed spec fn view(&self) -> EscrowState {
        EscrowState {
            token: self.token,
            grants: self.grants@.map_values(|g: Grant| g@),
            milestones: self.milestones@.map_values(
                |v: Vec<Milestone>| v@.map_values(|m: Milestone| m@),
            ),
        }
    }
}

impl GrantContract {
    /// An escrow that has not been initialised yet.
    pub fn new() -> (r: GrantContract)
        ensures
            r@ == EscrowState::empty(),
            r@.wf(),
    {
        let r = GrantContract { token: None, grants: Vec::new(), milestones: Vec::new() };
        assert(r@.grants =~= Seq::empty());
        assert(r@.milestones =~= Seq::empty());
        r
    }

    /// Sets the token that the escrow holds. Fails if it was already set.
    pub fn initialize(&mut self, token_address: Address) -> (r: Result<(), GrantError>)
        requires
            old(self)@.wf(),
        ensures
            final(self)@.wf(),
            (final(self)@, r) == old(self)@.initialize_result(token_address),
    {
        if self.token.is_some() {
            return Err(GrantError::AlreadyInitialized);
        }
        self.token = Some(token_address);
        Ok(())
    }

    /// Opens a grant funded by `funder` and returns its id together with the
    /// deposit of `total_amount` that the host must pull from the funder.
    ///
    /// The amount and the milestone count must be positive and the three
    /// participants pairwise distinct; the escrow must be initialised.
    pub fn create_grant(
        &mut self,
        funder: Address,
        manager: Address,
        supervisor: Address,
        researcher: Address,
        name: String,
        total_amount: i128,
        total_milestones: u32,
        timestamp: u64,
    ) -> (r: Result<(u64, Transfer), GrantError>)
        requires
            old(self)@.wf(),
            old(self)@.grants.len() < u64::MAX,
        ensures
            final(self)@.wf(),
            (final(self)@, r) == old(self)@.create_grant_result(
                funder,
                manager,
                supervisor,
                researcher,
                name@,
                total_amount,
                total_milestones,
                timestamp,
            ),
    {
        if total_amount <= 0 {
            return Err(GrantError::InvalidAmount);
        }
        if total_milestones == 0 {
            return Err(GrantError::InvalidMilestoneCount);
        }
        if manager == supervisor || manager == researcher || supervisor == researcher {
            return Err(GrantError::DuplicateParticipant);
        }
        let token = match self.token {
            Some(t) => t,
            None => {
                return Err(GrantError::NotInitialized);
            },
        };
        let grant_id = self.grants.len() as u64 + 1;
        let ghost name_view = name@;
        self.grants.push(
            Grant {
                manager,
                supervisor,
                researcher,
                funder,
                total_amount,
                claimed_amount: 0,
                name,
                total_milestones,
                registered_milestones: 0,
                creation_timestamp: timestamp,
            },
        );
        self.milestones.push(Vec::new());
        proof {
            let pre = old(self)@;
            let g = new_grant(
                funder,
                manager,
                supervisor,
                researcher,
                name_view,
                total_amount,
                total_milestones,
                timestamp,
            );
            assert(self@.grants =~= pre.grants.push(g));
            assert(self.milestones@.last()@.map_values(|m: Milestone| m@) =~= Seq::empty());
            assert(self@.milestones =~= pre.milestones.push(Seq::empty()));
            assert(paid_count(Seq::<MilestoneView>::empty()) == 0);
            assert(grant_wf(g, Seq::empty()));
        }
        Ok((grant_id, Transfer::Deposit { token, from: funder, amount: total_amount }))
    }

    /// Registers the next milestone of a grant, on behalf of its manager, and
    /// returns its id within the grant.
    pub fn register_milestone(
        &mut self,
        manager: Address,
        grant_id: u64,
        name: String,
        description: String,
    ) -> (r: Result<u32, GrantError>)
        requires
            old(self)@.wf(),
        ensures
            final(self)@.wf(),
            (final(self)@, r) == old(self)@.register_milestone_result(
                manager,
                grant_id,
                name@,
                description@,
            ),
    {
        if grant_id == 0 || grant_id > self.grants.len() as u64 {
            return Err(GrantError::NotFound);
        }
        let gi = (grant_id - 1) as usize;
        if self.grants[gi].manager != manager {
            return Err(GrantError::Unauthorized);
        }
        if self.grants[gi].registered_milestones >= self.grants[gi].total_milestones {
            return Err(GrantError::MilestoneLimitReached);
        }
        let milestone_id = self.grants[gi].registered_milestones + 1;
        let ghost m = new_milestone(name@, description@);
        self.milestones[gi].push(
            Milestone {
                name,
                description,
                status: MilestoneStatus::Pending,
                approvers: Vec::new(),
                paid: false,
            },
        );
        self.grants[gi].registered_milestones = milestone_id;
        proof {
            let pre = old(self)@;
            let ms = pre.milestones[gi as int];
            let g = pre.grants[gi as int];
            assert(self.milestones@[gi as int]@.last()@.approvers =~= Seq::<Address>::empty());
            assert(self@.milestones[gi as int] =~= ms.push(m));
            assert(self@.milestones =~= pre.milestones.update(gi as int, ms.push(m)));
            assert(self@.grants =~= pre.grants.update(
                gi as int,
                GrantView { registered_milestones: milestone_id, ..g },
            ));
            lemma_paid_count_push(ms, m);
            assert(grant_wf(self@.grants[gi as int], self@.milestones[gi as int]));
            assert forall|i: int| 0 <= i < self@.grants.len() implies grant_wf(
                #[trigger] self@.grants[i],
                self@.milestones[i],
            ) by {
                if i != gi {
                    assert(grant_wf(pre.grants[i], pre.milestones[i]));
                }
            }
        }
        Ok(milestone_id)
    }

    /// Records `signer`'s approval of a pending milestone. The approval that
    /// completes the set of all three participants makes it approved.
    pub fn approve_milestone(&mut self, signer: Address, grant_id: u64, milestone_id: u32) -> (r:
        Result<(), GrantError>)
        requires
            old(self)@.wf(),
        ensures
            final(self)@.wf(),
            (final(self)@, r) == old(self)@.approve_milestone_result(signer, grant_id, milestone_id),
    {
        let (gi, mi) = match self.locate(grant_id, milestone_id) {
            Some(p) => p,
            None => {
                return Err(GrantError::NotFound);
            },
        };
        let g = &self.grants[gi];
        if signer != g.manager && signer != g.supervisor && signer != g.researcher {
            return Err(GrantError::Unauthorized);
        }
        if self.milestones[gi][mi].status != MilestoneStatus::Pending {
            return Err(GrantError::InvalidState);
        }
        if self.milestones[gi][mi].has_approved(signer) {
            return Err(GrantError::DuplicateApproval);
        }
        let ghost pre = self@;
        self.milestones[gi][mi].approvers.push(signer);
        if self.milestones[gi][mi].approvers.len() == 3 {
            self.milestones[gi][mi].status = MilestoneStatus::Approved;
        }
        proof {
            let ms = pre.milestones[gi as int];
            let m = ms[mi as int];
            let g = pre.grants[gi as int];
            let approvers = m.approvers.push(signer);
            let status = if approvers.len() == 3 {
                MilestoneStatus::Approved
            } else {
                m.status
            };
            let m2 = MilestoneView { approvers, status, ..m };
            assert(grant_wf(g, ms));
            assert(milestone_wf(g, m));
            assert(self@.milestones[gi as int][mi as int].approvers =~= approvers);
            assert(self@.milestones[gi as int] =~= ms.update(mi as int, m2));
            assert(self@.milestones =~= pre.milestones.update(gi as int, ms.update(mi as int, m2)));
            assert(self@.grants =~= pre.grants);
            lemma_paid_count_update(ms, mi as int, m2);
            assert(milestone_wf(g, m2)) by {
                assert forall|k: int| 0 <= k < approvers.len() implies g.is_participant(
                    #[trigger] approvers[k],
                ) by {
                    if k < m.approvers.len() {
                        assert(approvers[k] == m.approvers[k]);
                    }
                }
            }
            assert(grant_wf(g, ms.update(mi as int, m2))) by {
                assert forall|j: int| 0 <= j < ms.len() implies milestone_wf(
                    g,
                    #[trigger] ms.update(mi as int, m2)[j],
                ) by {
                    if j != mi {
                        assert(milestone_wf(g, ms[j]));
                    }
                }
            }
            assert forall|i: int| 0 <= i < self@.grants.len() implies grant_wf(
                #[trigger] self@.grants[i],
                self@.milestones[i],
            ) by {
                if i != gi {
                    assert(grant_wf(pre.grants[i], pre.milestones[i]));
                }
            }
        }
        Ok(())
    }

    /// Settles an approved milestone, on behalf of any participant: marks it
    /// paid, adds one share to the grant's claimed amount, and returns the
    /// payout of that share to the researcher that the host must make.
    pub fn claim_payment(&mut self, claimer: Address, grant_id: u64, milestone_id: u32) -> (r:
        Result<Transfer, GrantError>)
        requires
            old(self)@.wf(),
        ensures
            final(self)@.wf(),
            (final(self)@, r) == old(self)@.claim_payment_result(claimer, grant_id, milestone_id),
    {
        let (gi, mi) = match self.locate(grant_id, milestone_id) {
            Some(p) => p,
            None => {
                return Err(GrantError::NotFound);
            },
        };
        let g = &self.grants[gi];
        if claimer != g.manager && claimer != g.supervisor && claimer != g.researcher {
            return Err(GrantError::Unauthorized);
        }
        if self.milestones[gi][mi].status != MilestoneStatus::Approved {
            return Err(GrantError::InvalidState);
        }
        if self.milestones[gi][mi].paid {
            return Err(GrantError::AlreadyPaid);
        }
        let ghost pre = self@;
        proof {
            let ms = pre.milestones[gi as int];
            assert(grant_wf(pre.grants[gi as int], ms));
            lemma_claim_fits(pre.grants[gi as int], ms, mi as int);
        }
        let share = g.total_amount / (g.total_milestones as i128);
        let researcher = g.researcher;
        let claimed = g.claimed_amount + share;
        self.milestones[gi][mi].paid = true;
        self.grants[gi].claimed_amount = claimed;
        let token = self.token.unwrap();
        proof {
            let ms = pre.milestones[gi as int];
            let m = ms[mi as int];
            let gv = pre.grants[gi as int];
            let m2 = MilestoneView { paid: true, ..m };
            let g2 = GrantView { claimed_amount: claimed, ..gv };
            assert(milestone_wf(gv, m));
            assert(self@.milestones[gi as int] =~= ms.update(mi as int, m2));
            assert(self@.milestones =~= pre.milestones.update(gi as int, ms.update(mi as int, m2)));
            assert(self@.grants =~= pre.grants.update(gi as int, g2));
            assert(grant_wf(g2, ms.update(mi as int, m2))) by {
                assert forall|j: int| 0 <= j < ms.len() implies milestone_wf(
                    g2,
                    #[trigger] ms.update(mi as int, m2)[j],
                ) by {
                    assert(milestone_wf(gv, ms[j]));
                }
            }
            assert forall|i: int| 0 <= i < self@.grants.len() implies grant_wf(
                #[trigger] self@.grants[i],
                self@.milestones[i],
            ) by {
                if i != gi {
                    assert(grant_wf(pre.grants[i], pre.milestones[i]));
                }
            }
        }
        Ok(Transfer::Payout { token, to: researcher, amount: share })
    }

    /// How many grants exist; the next created grant receives this plus one
    /// as its id.
    pub fn grant_count(&self) -> (r: usize)
        ensures
            r == self@.grants.len(),
    {
        self.grants.len()
    }

    /// The configured token, once the escrow is initialised.
    pub fn token_address(&self) -> (r: Option<Address>)
        ensures
            r == self@.token,
    {
        self.token
    }

    /// Looks up a grant by id.
    pub fn get_grant(&self, grant_id: u64) -> (r: Result<&Grant, GrantError>)
        ensures
            r is Ok <==> self@.has_grant(grant_id),
            r matches Ok(g) ==> g@ == self@.grant(grant_id),
            r matches Err(e) ==> e == GrantError::NotFound,
    {
        if grant_id == 0 || grant_id > self.grants.len() as u64 {
            return Err(GrantError::NotFound);
        }
        Ok(&self.grants[(grant_id - 1) as usize])
    }

    /// Looks up a milestone by its grant's id and its own.
    pub fn get_milestone(&self, grant_id: u64, milestone_id: u32) -> (r: Result<
        &Milestone,
        GrantError,
    >)
        requires
            self@.wf(),
        ensures
            r is Ok <==> self@.has_milestone(grant_id, milestone_id),
            r matches Ok(m) ==> m@ == self@.milestone(grant_id, milestone_id),
            r matches Err(e) ==> e == GrantError::NotFound,
    {
        match self.locate(grant_id, milestone_id) {
            Some((gi, mi)) => Ok(&self.milestones[gi][mi]),
            None => Err(GrantError::NotFound),
        }
    }

    /// The positions of a milestone in the tables, if it exists.
    fn locate(&self, grant_id: u64, milestone_id: u32) -> (r: Option<(usize, usize)>)
        requires
            self@.wf(),
        ensures
            r is Some <==> self@.has_milestone(grant_id, milestone_id),
            r matches Some((gi, mi)) ==> {
                &&& gi == grant_id - 1
                &&& mi == milestone_id - 1
                &&& gi < self.grants@.len()
                &&& gi < self.milestones@.len()
                &&& mi < self.milestones@[gi as int]@.len()
            },
    {
        if grant_id == 0 || grant_id > self.grants.len() as u64 {
            return None;
        }
        let gi = (grant_id - 1) as usize;
        assert(self.milestones@[gi as int]@.map_values(|m: Milestone| m@).len()
            == self.milestones@[gi as int]@.len());
        if milestone_id == 0 || milestone_id as usize > self.milestones[gi].len() {
            return None;
        }
        Some((gi, (milestone_id - 1) as usize))
    }
}

} // verus!
