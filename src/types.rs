use vstd::prelude::*;

verus! {

/// An account or contract on the ledger, identified by a number that the host
/// assigns to it. Two addresses are the same identity exactly when their ids
/// are equal.
#[derive(Clone, Copy, Debug, PartialEq, Eq, Structural)]
pub struct Address {
    pub id: u64,
}

/// Where a milestone stands in its approval workflow.
///
/// `Rejected` is a declared state that no operation currently produces.
#[derive(Clone, Copy, Debug, PartialEq, Eq, Structural)]
pub enum MilestoneStatus {
    Pending,
    Approved,
    Rejected,
}

/// The records that the host persists for the escrow.
#[derive(Clone, Copy, Debug, PartialEq, Eq, Structural)]
pub enum StorageKey {
    TokenAddress,
    NextGrantId,
    Grants,
    Milestones,
}

/// Why an operation was refused. A refused operation changes nothing.
#[derive(Clone, Copy, Debug, PartialEq, Eq, Structural)]
pub enum GrantError {
    AlreadyInitialized,
    NotInitialized,
    InvalidAmount,
    InvalidMilestoneCount,
    DuplicateParticipant,
    NotFound,
    Unauthorized,
    MilestoneLimitReached,
    InvalidState,
    DuplicateApproval,
    AlreadyPaid,
}

/// A movement of tokens that the host must perform, atomically, as part of the
/// operation that produced it.
#[derive(Clone, Copy, Debug, PartialEq, Eq, Structural)]
pub enum Transfer {
    /// Pull `amount` of `token` from `from` into the escrow's custody.
    Deposit { token: Address, from: Address, amount: i128 },
    /// Pay `amount` of `token` out of the escrow's custody to `to`.
    Payout { token: Address, to: Address, amount: i128 },
}

impl Transfer {
    /// The change that this movement makes to the balance of `account`, an
    /// account other than the escrow itself.
    pub open spec fn account_delta(self, account: Address) -> int {
        match self {
            Transfer::Deposit { from, amount, .. } => if from == account { -amount } else { 0 },
            Transfer::Payout { to, amount, .. } => if to == account { amount as int } else { 0 },
        }
    }

    /// The change that this movement makes to the escrow's own balance.
    pub open spec fn escrow_delta(self) -> int {
        match self {
            Transfer::Deposit { amount, .. } => amount as int,
            Transfer::Payout { amount, .. } => -amount,
        }
    }
}

/// One deliverable of a grant.
#[derive(Debug)]
pub struct Milestone {
    pub name: String,
    pub description: String,
    pub status: MilestoneStatus,
    pub approvers: Vec<Address>,
    pub paid: bool,
}

/// The mathematical value of a [`Milestone`].
pub struct MilestoneView {
    pub name: Seq<char>,
    pub description: Seq<char>,
    pub status: MilestoneStatus,
    pub approvers: Seq<Address>,
    pub paid: bool,
}

impl View for Milestone {
    type V = MilestoneView;

    open spec fn view(&self) -> MilestoneView {
        MilestoneView {
            name: self.name@,
            description: self.description@,
            status: self.status,
            approvers: self.approvers@,
            paid: self.paid,
        }
    }
}

impl Milestone {
    /// Whether `who` is among the approvers.
    pub fn has_approved(&self, who: Address) -> (r: bool)
        ensures
            r == self@.approvers.contains(who),
    {
        let mut k: usize = 0;
        while k < self.approvers.len()
            invariant
                k <= self.approvers@.len(),
                forall|j: int| 0 <= j < k ==> self.approvers@[j] != who,
            decreases self.approvers@.len() - k,
        {
            if self.approvers[k] == who {
                return true;
            }
            k = k + 1;
        }
        false
    }
}

/// A funded research agreement.
#[derive(Debug)]
pub struct Grant {
    pub manager: Address,
    pub supervisor: Address,
    pub researcher: Address,
    pub funder: Address,
    pub total_amount: i128,
    pub claimed_amount: i128,
    pub name: String,
    pub total_milestones: u32,
    pub registered_milestones: u32,
    pub creation_timestamp: u64,
}

/// The mathematical value of a [`Grant`].
pub struct GrantView {
    pub manager: Address,
    pub supervisor: Address,
    pub researcher: Address,
    pub funder: Address,
    pub total_amount: i128,
    pub claimed_amount: i128,
    pub name: Seq<char>,
    pub total_milestones: u32,
    pub registered_milestones: u32,
    pub creation_timestamp: u64,
}

impl View for Grant {
    type V = GrantView;

    open spec fn view(&self) -> GrantView {
        GrantView {
            manager: self.manager,
            supervisor: self.supervisor,
            researcher: self.researcher,
            funder: self.funder,
            total_amount: self.total_amount,
            claimed_amount: self.claimed_amount,
            name: self.name@,
            total_milestones: self.total_milestones,
            registered_milestones: self.registered_milestones,
            creation_timestamp: self.creation_timestamp,
        }
    }
}

impl GrantView {
    /// One of the three identities that may approve and claim.
    pub open spec fn is_participant(self, a: Address) -> bool {
        a == self.manager || a == self.supervisor || a == self.researcher
    }

    /// The amount paid out for each approved milestone: the total divided by
    /// the number of milestones, rounded down. Any remainder stays in custody.
    pub open spec fn share(self) -> int {
        self.total_amount as int / self.total_milestones as int
    }
}

} // verus!
