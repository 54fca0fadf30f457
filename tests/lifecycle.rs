use beca::{Address, GrantContract, GrantError, MilestoneStatus, Transfer};

const TOKEN: Address = Address { id: 100 };
const FUNDER: Address = Address { id: 1 };
const MANAGER: Address = Address { id: 2 };
const SUPERVISOR: Address = Address { id: 3 };
const RESEARCHER: Address = Address { id: 4 };
const OUTSIDER: Address = Address { id: 5 };

fn ready() -> GrantContract {
    let mut c = GrantContract::new();
    assert_eq!(c.initialize(TOKEN), Ok(()));
    c
}

fn open_grant(c: &mut GrantContract, total_amount: i128, total_milestones: u32) -> u64 {
    c.create_grant(
        FUNDER,
        MANAGER,
        SUPERVISOR,
        RESEARCHER,
        "Grant".to_string(),
        total_amount,
        total_milestones,
        42,
    )
    .unwrap()
    .0
}

fn register(c: &mut GrantContract, grant_id: u64) -> Result<u32, GrantError> {
    c.register_milestone(MANAGER, grant_id, "M".to_string(), "D".to_string())
}

#[test]
fn initialize_twice_fails() {
    let mut c = ready();
    assert_eq!(c.initialize(Address { id: 7 }), Err(GrantError::AlreadyInitialized));
    let (_, t) = c
        .create_grant(FUNDER, MANAGER, SUPERVISOR, RESEARCHER, "G".to_string(), 10, 1, 0)
        .unwrap();
    assert_eq!(t, Transfer::Deposit { token: TOKEN, from: FUNDER, amount: 10 });
}

#[test]
fn create_before_initialize_fails() {
    let mut c = GrantContract::new();
    let r = c.create_grant(FUNDER, MANAGER, SUPERVISOR, RESEARCHER, "G".to_string(), 10, 1, 0);
    assert_eq!(r, Err(GrantError::NotInitialized));
    assert_eq!(c.get_grant(1).err(), Some(GrantError::NotFound));
}

#[test]
fn create_rejects_bad_amount_and_count() {
    let mut c = ready();
    let r = c.create_grant(FUNDER, MANAGER, SUPERVISOR, RESEARCHER, "G".to_string(), 0, 1, 0);
    assert_eq!(r, Err(GrantError::InvalidAmount));
    let r = c.create_grant(FUNDER, MANAGER, SUPERVISOR, RESEARCHER, "G".to_string(), -5, 1, 0);
    assert_eq!(r, Err(GrantError::InvalidAmount));
    let r = c.create_grant(FUNDER, MANAGER, SUPERVISOR, RESEARCHER, "G".to_string(), 10, 0, 0);
    assert_eq!(r, Err(GrantError::InvalidMilestoneCount));
    // the amount is checked before the participants
    let r = c.create_grant(FUNDER, MANAGER, MANAGER, RESEARCHER, "G".to_string(), 0, 1, 0);
    assert_eq!(r, Err(GrantError::InvalidAmount));
    assert_eq!(c.get_grant(1).err(), Some(GrantError::NotFound));
}

#[test]
fn grant_ids_increase_from_one_without_reuse() {
    let mut c = ready();
    assert_eq!(open_grant(&mut c, 100, 1), 1);
    let failed = c.create_grant(FUNDER, MANAGER, MANAGER, RESEARCHER, "G".to_string(), 100, 1, 0);
    assert_eq!(failed, Err(GrantError::DuplicateParticipant));
    assert_eq!(c.register_milestone(OUTSIDER, 1, "M".to_string(), "D".to_string()), Err(GrantError::Unauthorized));
    assert_eq!(open_grant(&mut c, 100, 1), 2);
    assert_eq!(open_grant(&mut c, 100, 1), 3);
    assert_eq!(c.get_grant(3).unwrap().creation_timestamp, 42);
    assert_eq!(c.get_grant(4).err(), Some(GrantError::NotFound));
    assert_eq!(c.get_grant(0).err(), Some(GrantError::NotFound));
}

#[test]
fn create_moves_exactly_the_total() {
    let mut c = ready();
    let (id, t) = c
        .create_grant(FUNDER, MANAGER, SUPERVISOR, RESEARCHER, "G".to_string(), 1234, 5, 9)
        .unwrap();
    assert_eq!(id, 1);
    assert_eq!(t, Transfer::Deposit { token: TOKEN, from: FUNDER, amount: 1234 });
    let g = c.get_grant(1).unwrap();
    assert_eq!(g.total_amount, 1234);
    assert_eq!(g.claimed_amount, 0);
    assert_eq!(g.total_milestones, 5);
    assert_eq!(g.registered_milestones, 0);
    assert_eq!(g.funder, FUNDER);
    assert_eq!(g.name, "G".to_string());
}

#[test]
fn duplicate_participants_in_every_ordering() {
    let mut c = ready();
    let cases = [
        (MANAGER, MANAGER, RESEARCHER),
        (MANAGER, SUPERVISOR, MANAGER),
        (MANAGER, SUPERVISOR, SUPERVISOR),
        (MANAGER, MANAGER, MANAGER),
    ];
    for (m, s, r) in cases {
        let res = c.create_grant(FUNDER, m, s, r, "G".to_string(), 1000, 2, 0);
        // refused before any deposit is asked for
        assert_eq!(res, Err(GrantError::DuplicateParticipant));
    }
    assert_eq!(c.get_grant(1).err(), Some(GrantError::NotFound));
    assert_eq!(open_grant(&mut c, 1000, 2), 1);
}

#[test]
fn approval_completes_in_any_order() {
    let mut c = ready();
    let g = open_grant(&mut c, 900, 3);
    let m = register(&mut c, g).unwrap();
    assert_eq!(c.approve_milestone(MANAGER, g, m), Ok(()));
    assert_eq!(c.approve_milestone(MANAGER, g, m), Err(GrantError::DuplicateApproval));
    assert_eq!(c.approve_milestone(RESEARCHER, g, m), Ok(()));
    assert_eq!(c.get_milestone(g, m).unwrap().status, MilestoneStatus::Pending);
    assert_eq!(c.approve_milestone(SUPERVISOR, g, m), Ok(()));
    let ms = c.get_milestone(g, m).unwrap();
    assert_eq!(ms.status, MilestoneStatus::Approved);
    assert_eq!(ms.approvers, vec![MANAGER, RESEARCHER, SUPERVISOR]);
    // after completion every further approval is refused
    assert_eq!(c.approve_milestone(SUPERVISOR, g, m), Err(GrantError::InvalidState));
    assert_eq!(c.approve_milestone(MANAGER, g, m), Err(GrantError::InvalidState));
}

#[test]
fn approval_errors() {
    let mut c = ready();
    let g = open_grant(&mut c, 900, 3);
    let m = register(&mut c, g).unwrap();
    assert_eq!(c.approve_milestone(OUTSIDER, g, m), Err(GrantError::Unauthorized));
    assert_eq!(c.approve_milestone(FUNDER, g, m), Err(GrantError::Unauthorized));
    assert_eq!(c.approve_milestone(MANAGER, g, 2), Err(GrantError::NotFound));
    assert_eq!(c.approve_milestone(MANAGER, 2, 1), Err(GrantError::NotFound));
    assert_eq!(c.get_milestone(g, 0).err(), Some(GrantError::NotFound));
    assert!(c.get_milestone(g, m).unwrap().approvers.is_empty());
}

#[test]
fn claim_errors() {
    let mut c = ready();
    let g = open_grant(&mut c, 900, 3);
    let m = register(&mut c, g).unwrap();
    assert_eq!(c.claim_payment(MANAGER, g, m), Err(GrantError::InvalidState));
    c.approve_milestone(MANAGER, g, m).unwrap();
    c.approve_milestone(SUPERVISOR, g, m).unwrap();
    assert_eq!(c.claim_payment(MANAGER, g, m), Err(GrantError::InvalidState));
    c.approve_milestone(RESEARCHER, g, m).unwrap();
    assert_eq!(c.claim_payment(OUTSIDER, g, m), Err(GrantError::Unauthorized));
    assert_eq!(c.claim_payment(MANAGER, g, 9), Err(GrantError::NotFound));
    assert_eq!(c.get_grant(g).unwrap().claimed_amount, 0);
    assert_eq!(
        c.claim_payment(SUPERVISOR, g, m),
        Ok(Transfer::Payout { token: TOKEN, to: RESEARCHER, amount: 300 })
    );
    assert_eq!(c.claim_payment(RESEARCHER, g, m), Err(GrantError::AlreadyPaid));
    assert_eq!(c.claim_payment(OUTSIDER, g, m), Err(GrantError::Unauthorized));
    assert_eq!(c.get_grant(g).unwrap().claimed_amount, 300);
}

#[test]
fn end_to_end_twelve_hundred_over_three() {
    let mut c = ready();
    let g = open_grant(&mut c, 1200, 3);
    let m = register(&mut c, g).unwrap();
    assert_eq!(m, 1);
    c.approve_milestone(RESEARCHER, g, m).unwrap();
    c.approve_milestone(SUPERVISOR, g, m).unwrap();
    c.approve_milestone(MANAGER, g, m).unwrap();
    assert_eq!(c.get_milestone(g, m).unwrap().status, MilestoneStatus::Approved);
    let t = c.claim_payment(MANAGER, g, m).unwrap();
    assert_eq!(t, Transfer::Payout { token: TOKEN, to: RESEARCHER, amount: 400 });
    assert!(c.get_milestone(g, m).unwrap().paid);
    assert_eq!(c.get_grant(g).unwrap().claimed_amount, 400);
}

#[test]
fn uneven_split_leaves_remainder_in_custody() {
    let mut c = ready();
    let g = open_grant(&mut c, 1000, 3);
    let mut paid: i128 = 0;
    for expected_id in 1..=3u32 {
        let m = register(&mut c, g).unwrap();
        assert_eq!(m, expected_id);
        c.approve_milestone(SUPERVISOR, g, m).unwrap();
        c.approve_milestone(RESEARCHER, g, m).unwrap();
        c.approve_milestone(MANAGER, g, m).unwrap();
        match c.claim_payment(RESEARCHER, g, m).unwrap() {
            Transfer::Payout { to, amount, .. } => {
                assert_eq!(to, RESEARCHER);
                assert_eq!(amount, 333);
                paid += amount;
            }
            other => panic!("unexpected movement {:?}", other),
        }
    }
    assert_eq!(paid, 999);
    assert_eq!(c.get_grant(g).unwrap().claimed_amount, 999);
}

#[test]
fn milestone_limit_reached_after_total() {
    let mut c = ready();
    let g = open_grant(&mut c, 100, 2);
    assert_eq!(register(&mut c, g), Ok(1));
    assert_eq!(register(&mut c, g), Ok(2));
    assert_eq!(register(&mut c, g), Err(GrantError::MilestoneLimitReached));
    assert_eq!(c.get_grant(g).unwrap().registered_milestones, 2);
    assert_eq!(c.get_milestone(g, 3).err(), Some(GrantError::NotFound));
}

#[test]
fn register_errors() {
    let mut c = ready();
    let g = open_grant(&mut c, 100, 2);
    assert_eq!(
        c.register_milestone(SUPERVISOR, g, "M".to_string(), "D".to_string()),
        Err(GrantError::Unauthorized)
    );
    assert_eq!(register(&mut c, 5), Err(GrantError::NotFound));
    let m = c
        .register_milestone(MANAGER, g, "Report".to_string(), "First report".to_string())
        .unwrap();
    let ms = c.get_milestone(g, m).unwrap();
    assert_eq!(ms.name, "Report".to_string());
    assert_eq!(ms.description, "First report".to_string());
    assert_eq!(ms.status, MilestoneStatus::Pending);
    assert!(!ms.paid);
}

#[test]
fn largest_share_is_whole_amount() {
    let mut c = ready();
    let g = open_grant(&mut c, i128::MAX, 1);
    let m = register(&mut c, g).unwrap();
    c.approve_milestone(MANAGER, g, m).unwrap();
    c.approve_milestone(SUPERVISOR, g, m).unwrap();
    c.approve_milestone(RESEARCHER, g, m).unwrap();
    assert_eq!(
        c.claim_payment(RESEARCHER, g, m),
        Ok(Transfer::Payout { token: TOKEN, to: RESEARCHER, amount: i128::MAX })
    );
    assert_eq!(c.get_grant(g).unwrap().claimed_amount, i128::MAX);
}
