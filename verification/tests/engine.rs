use fundingme_dapp::errors::CustomError;
use fundingme_dapp::port::TransferPort;
use fundingme_dapp::project::project_address;
use fundingme_dapp::registry::Registry;
use fundingme_dapp::status::ProjectStatus;

/// An in-memory value-transfer primitive: accounts with balances, and a set
/// of closed accounts that reject any transfer touching them.
struct Bank {
    accounts: Vec<(u64, u64)>,
    closed: Vec<u64>,
}

impl Bank {
    fn new() -> Bank {
        Bank { accounts: Vec::new(), closed: Vec::new() }
    }

    fn fund(mut self, id: u64, balance: u64) -> Bank {
        self.accounts.push((id, balance));
        self
    }

    fn balance_of(&self, id: u64) -> u64 {
        self.accounts
            .iter()
            .find(|(account, _)| *account == id)
            .map(|(_, balance)| *balance)
            .unwrap_or(0)
    }

    fn close(&mut self, id: u64) {
        self.closed.push(id);
    }

    fn reopen(&mut self, id: u64) {
        self.closed.retain(|closed| *closed != id);
    }

    fn credit(&mut self, id: u64, amount: u64) {
        for entry in self.accounts.iter_mut() {
            if entry.0 == id {
                entry.1 = entry.1.checked_add(amount).expect("test bank balance overflow");
                return;
            }
        }
        self.accounts.push((id, amount));
    }
}

impl TransferPort for Bank {
    fn transfer(&mut self, from: u64, to: u64, amount: u64) -> bool {
        if self.closed.contains(&from) || self.closed.contains(&to) {
            return false;
        }
        if self.balance_of(from) < amount {
            return false;
        }
        for entry in self.accounts.iter_mut() {
            if entry.0 == from {
                entry.1 -= amount;
            }
        }
        self.credit(to, amount);
        true
    }
}

#[test]
fn create_project_initializes_active_and_empty() {
    let mut reg = Registry::new(16);
    let created = reg.create_project(1, "trip".to_string(), 1000);
    assert_eq!(created, Ok(project_address(1)));
    let project = reg.lookup(project_address(1)).expect("project must exist");
    assert_eq!(project.owner, 1);
    assert_eq!(project.name, "trip");
    assert_eq!(project.financial_target, 1000);
    assert_eq!(project.balance, 0);
    assert_eq!(project.status, ProjectStatus::Active);
    assert_eq!(project.donations.len(), 0);
    assert_ne!(project_address(1), 1, "custody address is domain-separated from the owner identity");
}

#[test]
fn create_project_zero_target_rejected() {
    let mut reg = Registry::new(16);
    let created = reg.create_project(1, "trip".to_string(), 0);
    assert_eq!(created, Err(CustomError::InvalidTarget));
    assert_eq!(reg.projects.len(), 0);
}

#[test]
fn create_project_duplicate_rejected() {
    let mut reg = Registry::new(16);
    assert!(reg.create_project(1, "first".to_string(), 100).is_ok());
    let second = reg.create_project(1, "second".to_string(), 200);
    assert_eq!(second, Err(CustomError::DuplicateProject));
    assert_eq!(reg.projects.len(), 1);
    assert_eq!(reg.lookup(project_address(1)).unwrap().name, "first");
}

#[test]
fn create_project_after_resolution_starts_anew() {
    let mut bank = Bank::new();
    let mut reg = Registry::new(16);
    reg.create_project(1, "first".to_string(), 100).unwrap();
    let closed = reg.close_project(&mut bank, 99, project_address(1));
    assert_eq!(closed, Ok(ProjectStatus::Failed));
    let again = reg.create_project(1, "second".to_string(), 500);
    assert_eq!(again, Ok(project_address(1)));
    let project = reg.lookup(project_address(1)).unwrap();
    assert_eq!(project.name, "second");
    assert_eq!(project.status, ProjectStatus::Active);
    assert_eq!(project.balance, 0);
    assert_eq!(reg.projects.len(), 1);
}

#[test]
fn donate_zero_amount_rejected() {
    let mut bank = Bank::new().fund(2, 50);
    let mut reg = Registry::new(16);
    reg.create_project(1, "trip".to_string(), 1000).unwrap();
    let donated = reg.donate(&mut bank, project_address(1), 2, 0);
    assert_eq!(donated, Err(CustomError::InvalidTarget));
    let project = reg.lookup(project_address(1)).unwrap();
    assert_eq!(project.balance, 0);
    assert_eq!(project.donations.len(), 0);
    assert_eq!(bank.balance_of(2), 50);
    assert_eq!(bank.balance_of(project_address(1)), 0);
}

#[test]
fn donate_accumulates_balance_and_records_in_order() {
    let mut bank = Bank::new().fund(2, 100).fund(3, 100);
    let mut reg = Registry::new(16);
    reg.create_project(1, "trip".to_string(), 1000).unwrap();
    let pid = project_address(1);
    assert_eq!(reg.donate(&mut bank, pid, 2, 10), Ok((10, ProjectStatus::Active)));
    assert_eq!(reg.donate(&mut bank, pid, 3, 20), Ok((30, ProjectStatus::Active)));
    assert_eq!(reg.donate(&mut bank, pid, 2, 30), Ok((60, ProjectStatus::Active)));
    let project = reg.lookup(pid).unwrap();
    assert_eq!(project.balance, 60);
    assert_eq!(project.donations.len(), 3);
    let expected = [(2u64, 10u64, 0u64), (3, 20, 1), (2, 30, 2)];
    for (donation, (donor, amount, sequence)) in project.donations.iter().zip(expected) {
        assert_eq!(donation.donor_id, donor);
        assert_eq!(donation.amount, amount);
        assert_eq!(donation.sequence, sequence);
        assert_eq!(donation.project_id, pid);
        assert!(!donation.settled);
    }
    assert_eq!(bank.balance_of(pid), 60);
    assert_eq!(bank.balance_of(2), 60);
    assert_eq!(bank.balance_of(3), 80);
}

#[test]
fn donation_crossing_target_marks_target_reached() {
    let mut bank = Bank::new().fund(2, 2000).fund(3, 2000);
    let mut reg = Registry::new(16);
    reg.create_project(1, "trip".to_string(), 1000).unwrap();
    let pid = project_address(1);
    assert_eq!(reg.donate(&mut bank, pid, 2, 400), Ok((400, ProjectStatus::Active)));
    assert_eq!(reg.donate(&mut bank, pid, 3, 700), Ok((1100, ProjectStatus::TargetReached)));
    let late = reg.donate(&mut bank, pid, 2, 5);
    assert_eq!(late, Err(CustomError::InvalidProjectStatus));
    let project = reg.lookup(pid).unwrap();
    assert_eq!(project.balance, 1100);
    assert_eq!(project.status, ProjectStatus::TargetReached);
    assert_eq!(project.donations.len(), 2);
    assert_eq!(bank.balance_of(2), 1600, "the rejected late donation moved nothing");
}

#[test]
fn donate_rejected_transfer_changes_nothing() {
    let mut bank = Bank::new();
    let mut reg = Registry::new(16);
    reg.create_project(1, "trip".to_string(), 1000).unwrap();
    let pid = project_address(1);
    let donated = reg.donate(&mut bank, pid, 2, 10);
    assert_eq!(donated, Err(CustomError::TransferFailed), "the donor has no funds");
    let project = reg.lookup(pid).unwrap();
    assert_eq!(project.balance, 0);
    assert_eq!(project.donations.len(), 0);
    assert_eq!(project.status, ProjectStatus::Active);
}

#[test]
fn donate_over_capacity_rejected() {
    let mut bank = Bank::new().fund(2, 100);
    let mut reg = Registry::new(2);
    reg.create_project(1, "trip".to_string(), 1000).unwrap();
    let pid = project_address(1);
    assert!(reg.donate(&mut bank, pid, 2, 10).is_ok());
    assert!(reg.donate(&mut bank, pid, 2, 20).is_ok());
    let third = reg.donate(&mut bank, pid, 2, 30);
    assert_eq!(third, Err(CustomError::CapacityExceeded));
    let project = reg.lookup(pid).unwrap();
    assert_eq!(project.balance, 30);
    assert_eq!(project.donations.len(), 2);
    assert_eq!(bank.balance_of(2), 70);
}

#[test]
fn donate_overflowing_balance_rejected() {
    let mut bank = Bank::new().fund(2, u64::MAX);
    let mut reg = Registry::new(16);
    reg.create_project(1, "trip".to_string(), u64::MAX).unwrap();
    let pid = project_address(1);
    assert_eq!(
        reg.donate(&mut bank, pid, 2, u64::MAX - 1),
        Ok((u64::MAX - 1, ProjectStatus::Active))
    );
    let overflowing = reg.donate(&mut bank, pid, 2, 2);
    assert_eq!(overflowing, Err(CustomError::ArithmeticOverflow));
    let project = reg.lookup(pid).unwrap();
    assert_eq!(project.balance, u64::MAX - 1);
    assert_eq!(project.donations.len(), 1);
}

#[test]
fn resolve_active_refunds_single_donor() {
    let mut bank = Bank::new().fund(5, 300);
    let mut reg = Registry::new(16);
    reg.create_project(1, "trip".to_string(), 1000).unwrap();
    let pid = project_address(1);
    assert_eq!(reg.donate(&mut bank, pid, 5, 300), Ok((300, ProjectStatus::Active)));
    assert_eq!(bank.balance_of(5), 0);
    let resolved = reg.close_project(&mut bank, 99, pid);
    assert_eq!(resolved, Ok(ProjectStatus::Failed), "any caller may trigger the refund path");
    let project = reg.lookup(pid).unwrap();
    assert_eq!(project.status, ProjectStatus::Failed);
    assert_eq!(project.balance, 0);
    assert!(project.donations[0].settled);
    assert_eq!(bank.balance_of(5), 300, "the donor recovered exactly the donation");
    assert_eq!(bank.balance_of(pid), 0);
}

#[test]
fn resolve_target_reached_pays_owner_everything() {
    let mut bank = Bank::new().fund(2, 400).fund(3, 700);
    let mut reg = Registry::new(16);
    reg.create_project(1, "trip".to_string(), 1000).unwrap();
    let pid = project_address(1);
    assert_eq!(reg.donate(&mut bank, pid, 2, 400), Ok((400, ProjectStatus::Active)));
    assert_eq!(reg.donate(&mut bank, pid, 3, 700), Ok((1100, ProjectStatus::TargetReached)));
    let resolved = reg.close_project(&mut bank, 1, pid);
    assert_eq!(resolved, Ok(ProjectStatus::Success));
    let project = reg.lookup(pid).unwrap();
    assert_eq!(project.status, ProjectStatus::Success);
    assert_eq!(project.balance, 0);
    assert!(project.donations.iter().all(|d| d.settled));
    assert_eq!(bank.balance_of(1), 1100, "the owner received exactly the pre-resolution balance");
    assert_eq!(bank.balance_of(pid), 0);
}

#[test]
fn resolve_payout_only_for_owner() {
    let mut bank = Bank::new().fund(2, 1500);
    let mut reg = Registry::new(16);
    reg.create_project(1, "trip".to_string(), 1000).unwrap();
    let pid = project_address(1);
    assert_eq!(reg.donate(&mut bank, pid, 2, 1200), Ok((1200, ProjectStatus::TargetReached)));
    let resolved = reg.close_project(&mut bank, 2, pid);
    assert_eq!(resolved, Err(CustomError::InvalidProjectStatus));
    let project = reg.lookup(pid).unwrap();
    assert_eq!(project.status, ProjectStatus::TargetReached);
    assert_eq!(project.balance, 1200);
    assert!(!project.donations[0].settled);
    assert_eq!(bank.balance_of(1), 0);
    assert_eq!(bank.balance_of(pid), 1200);
}

#[test]
fn resolve_is_once_only() {
    let mut bank = Bank::new().fund(2, 1500);
    let mut reg = Registry::new(16);
    reg.create_project(1, "won".to_string(), 1000).unwrap();
    reg.create_project(4, "lost".to_string(), 1000).unwrap();
    let won = project_address(1);
    let lost = project_address(4);
    reg.donate(&mut bank, won, 2, 1000).unwrap();
    assert_eq!(reg.close_project(&mut bank, 1, won), Ok(ProjectStatus::Success));
    assert_eq!(reg.close_project(&mut bank, 1, won), Err(CustomError::InvalidProjectStatus));
    assert_eq!(reg.lookup(won).unwrap().status, ProjectStatus::Success);
    assert_eq!(reg.close_project(&mut bank, 4, lost), Ok(ProjectStatus::Failed));
    assert_eq!(reg.close_project(&mut bank, 4, lost), Err(CustomError::InvalidProjectStatus));
    assert_eq!(reg.lookup(lost).unwrap().status, ProjectStatus::Failed);
    assert_eq!(bank.balance_of(1), 1000, "the repeated resolution moved nothing more");
}

#[test]
fn resolve_rejected_payout_changes_nothing_and_can_be_retried() {
    let mut bank = Bank::new().fund(2, 1500);
    let mut reg = Registry::new(16);
    reg.create_project(1, "trip".to_string(), 1000).unwrap();
    let pid = project_address(1);
    reg.donate(&mut bank, pid, 2, 1100).unwrap();
    bank.close(1);
    let resolved = reg.close_project(&mut bank, 1, pid);
    assert_eq!(resolved, Err(CustomError::PayoutFailed));
    {
        let project = reg.lookup(pid).unwrap();
        assert_eq!(project.status, ProjectStatus::TargetReached);
        assert_eq!(project.balance, 1100);
        assert!(!project.donations[0].settled);
    }
    bank.reopen(1);
    assert_eq!(reg.close_project(&mut bank, 1, pid), Ok(ProjectStatus::Success));
    assert_eq!(bank.balance_of(1), 1100);
}

#[test]
fn resolve_refund_failure_then_retry_conserves_funds() {
    let mut bank = Bank::new().fund(2, 100).fund(3, 200).fund(4, 300);
    let mut reg = Registry::new(16);
    reg.create_project(1, "trip".to_string(), 1000).unwrap();
    let pid = project_address(1);
    reg.donate(&mut bank, pid, 2, 100).unwrap();
    reg.donate(&mut bank, pid, 3, 200).unwrap();
    reg.donate(&mut bank, pid, 4, 300).unwrap();
    assert_eq!(bank.balance_of(pid), 600);

    bank.close(3);
    let first = reg.close_project(&mut bank, 99, pid);
    assert_eq!(first, Err(CustomError::RefundFailed));
    {
        let project = reg.lookup(pid).unwrap();
        assert_eq!(project.status, ProjectStatus::Active, "no status change is committed");
        assert_eq!(project.balance, 500, "only the first refund left custody");
        assert!(project.donations[0].settled);
        assert!(!project.donations[1].settled);
        assert!(!project.donations[2].settled, "the fan-out stopped at the rejected refund");
    }
    assert_eq!(bank.balance_of(2), 100);
    assert_eq!(bank.balance_of(3), 0);

    bank.reopen(3);
    let retry = reg.close_project(&mut bank, 42, pid);
    assert_eq!(retry, Ok(ProjectStatus::Failed));
    let project = reg.lookup(pid).unwrap();
    assert_eq!(project.status, ProjectStatus::Failed);
    assert_eq!(project.balance, 0);
    assert!(project.donations.iter().all(|d| d.settled));
    assert_eq!(bank.balance_of(2), 100, "the retry did not refund the first donor twice");
    assert_eq!(bank.balance_of(3), 200);
    assert_eq!(bank.balance_of(4), 300);
    assert_eq!(bank.balance_of(pid), 0, "conservation: everything held went back out");
}

#[test]
fn status_transition_table_is_exact() {
    let everything = [
        ProjectStatus::Active,
        ProjectStatus::TargetReached,
        ProjectStatus::Success,
        ProjectStatus::Failed,
    ];
    for from in everything {
        for to in everything {
            let legal = matches!(
                (from, to),
                (ProjectStatus::Active, ProjectStatus::TargetReached)
                    | (ProjectStatus::Active, ProjectStatus::Failed)
                    | (ProjectStatus::TargetReached, ProjectStatus::Success)
            );
            assert_eq!(from.can_transition(to), legal);
            if legal {
                assert_eq!(from.transition(to), Ok(to));
            } else {
                assert_eq!(from.transition(to), Err(CustomError::InvalidProjectStatus));
            }
        }
    }
    assert!(!ProjectStatus::Active.is_terminal());
    assert!(!ProjectStatus::TargetReached.is_terminal());
    assert!(ProjectStatus::Success.is_terminal());
    assert!(ProjectStatus::Failed.is_terminal());
}

#[test]
fn donate_after_resolution_rejected() {
    let mut bank = Bank::new().fund(2, 2000).fund(3, 100);
    let mut reg = Registry::new(16);
    reg.create_project(1, "won".to_string(), 1000).unwrap();
    reg.create_project(4, "lost".to_string(), 1000).unwrap();
    let won = project_address(1);
    let lost = project_address(4);
    reg.donate(&mut bank, won, 2, 1000).unwrap();
    reg.close_project(&mut bank, 1, won).unwrap();
    reg.close_project(&mut bank, 7, lost).unwrap();
    assert_eq!(reg.donate(&mut bank, won, 3, 10), Err(CustomError::InvalidProjectStatus));
    assert_eq!(reg.donate(&mut bank, lost, 3, 10), Err(CustomError::InvalidProjectStatus));
    assert_eq!(bank.balance_of(3), 100, "late donations moved nothing");
    assert_eq!(reg.lookup(won).unwrap().balance, 0);
    assert_eq!(reg.lookup(lost).unwrap().balance, 0);
}

#[test]
fn check_donation_previews_the_outcome() {
    let mut bank = Bank::new().fund(2, 2000);
    let mut reg = Registry::new(16);
    reg.create_project(1, "trip".to_string(), 1000).unwrap();
    let pid = project_address(1);
    assert_eq!(reg.lookup(pid).unwrap().check_donation(5, 16), Ok(()));
    assert_eq!(
        reg.lookup(pid).unwrap().check_donation(0, 16),
        Err(CustomError::InvalidTarget)
    );
    reg.donate(&mut bank, pid, 2, 1000).unwrap();
    assert_eq!(
        reg.lookup(pid).unwrap().check_donation(5, 16),
        Err(CustomError::InvalidProjectStatus)
    );
}

#[test]
fn lookup_absent_is_none() {
    let reg = Registry::new(4);
    assert!(reg.lookup(project_address(9)).is_none());
}
