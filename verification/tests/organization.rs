use git_voucher_escrow::context::{
    Account, Deposit, InitializeOrganization, ManageMaintainer, Transfer, Withdraw,
};
use git_voucher_escrow::error::ErrorCode;
use git_voucher_escrow::identity::Identity;
use git_voucher_escrow::organization::{
    add_maintainer, deposit, initialize_organization, remove_maintainer, withdraw,
};
use git_voucher_escrow::record::{OrganizationEscrow, MAX_MAINTAINERS};

fn who(n: u8) -> Identity {
    Identity::new([n; 32])
}

const ADMIN: u8 = 1;
const ORG: u8 = 100;

fn organization(balance: u64, maintainers: Vec<Identity>) -> Account<OrganizationEscrow> {
    Account {
        key: who(ORG),
        data: OrganizationEscrow {
            org_github_id: 42,
            admin: who(ADMIN),
            balance,
            maintainers,
            total_vouchers_created: 0,
            bump: 254,
        },
    }
}

#[test]
fn initialize_organization_writes_an_empty_record() {
    let mut ctx = InitializeOrganization {
        organization: Account { key: who(ORG), data: None },
        admin: who(ADMIN),
    };
    assert_eq!(initialize_organization(&mut ctx, 42, 254), Ok(()));
    assert_eq!(ctx.admin, who(ADMIN));
    assert_eq!(ctx.organization.key, who(ORG));
    assert_eq!(
        ctx.organization.data,
        Some(OrganizationEscrow {
            org_github_id: 42,
            admin: who(ADMIN),
            balance: 0,
            maintainers: vec![],
            total_vouchers_created: 0,
            bump: 254,
        })
    );
}

#[test]
fn initialize_organization_refuses_an_address_in_use() {
    let existing = organization(500, vec![who(7)]).data;
    let mut ctx = InitializeOrganization {
        organization: Account { key: who(ORG), data: Some(existing) },
        admin: who(9),
    };
    let before = ctx.clone();
    assert_eq!(initialize_organization(&mut ctx, 43, 1), Err(ErrorCode::AddressAlreadyInUse));
    assert_eq!(ctx, before);
}

#[test]
fn deposit_raises_the_balance_and_names_the_transfer() {
    let mut ctx = Deposit { organization: organization(0, vec![]), depositor: who(5) };
    assert_eq!(
        deposit(&mut ctx, 1000),
        Ok(Transfer { from: who(5), to: who(ORG), amount: 1000 })
    );
    assert_eq!(ctx.organization.data.balance, 1000);
    assert_eq!(ctx.organization.data.held(), 1000);
    assert_eq!(deposit(&mut ctx, 1), Ok(Transfer { from: who(5), to: who(ORG), amount: 1 }));
    assert_eq!(ctx.organization.data.balance, 1001);
    assert_eq!(ctx.organization, Account { key: who(ORG), data: organization(1001, vec![]).data });
    assert_eq!(ctx.depositor, who(5));
}

#[test]
fn deposit_of_zero_is_refused() {
    let mut ctx = Deposit { organization: organization(10, vec![]), depositor: who(5) };
    let before = ctx.clone();
    assert_eq!(deposit(&mut ctx, 0), Err(ErrorCode::ZeroAmount));
    assert_eq!(ctx, before);
}

#[test]
fn deposit_beyond_the_largest_balance_is_refused() {
    let mut ctx = Deposit { organization: organization(u64::MAX - 1, vec![]), depositor: who(5) };
    let before = ctx.clone();
    assert_eq!(deposit(&mut ctx, 2), Err(ErrorCode::Overflow));
    assert_eq!(ctx, before);
    assert_eq!(deposit(&mut ctx, 1), Ok(Transfer { from: who(5), to: who(ORG), amount: 1 }));
    assert_eq!(ctx.organization.data.balance, u64::MAX);
    assert_eq!(deposit(&mut ctx, 1), Err(ErrorCode::Overflow));
    assert_eq!(ctx.organization.data.balance, u64::MAX);
}

#[test]
fn withdraw_pays_the_admin() {
    let mut ctx = Withdraw { organization: organization(1000, vec![]), admin: who(ADMIN) };
    assert_eq!(
        withdraw(&mut ctx, 400),
        Ok(Transfer { from: who(ORG), to: who(ADMIN), amount: 400 })
    );
    assert_eq!(ctx.organization.data.balance, 600);
    assert_eq!(
        withdraw(&mut ctx, 600),
        Ok(Transfer { from: who(ORG), to: who(ADMIN), amount: 600 })
    );
    assert_eq!(ctx.organization.data.balance, 0);
}

#[test]
fn withdraw_by_another_identity_is_refused() {
    let mut ctx = Withdraw { organization: organization(1000, vec![who(2)]), admin: who(2) };
    let before = ctx.clone();
    assert_eq!(withdraw(&mut ctx, 400), Err(ErrorCode::NotAuthorized));
    assert_eq!(ctx, before);
    assert_eq!(withdraw(&mut ctx, 0), Err(ErrorCode::NotAuthorized));
    assert_eq!(withdraw(&mut ctx, 5000), Err(ErrorCode::NotAuthorized));
    assert_eq!(ctx, before);
}

#[test]
fn withdraw_of_zero_is_refused() {
    let mut ctx = Withdraw { organization: organization(1000, vec![]), admin: who(ADMIN) };
    let before = ctx.clone();
    assert_eq!(withdraw(&mut ctx, 0), Err(ErrorCode::ZeroAmount));
    assert_eq!(ctx, before);
}

#[test]
fn withdraw_of_more_than_the_balance_is_refused() {
    let mut ctx = Withdraw { organization: organization(1000, vec![]), admin: who(ADMIN) };
    let before = ctx.clone();
    assert_eq!(withdraw(&mut ctx, 1001), Err(ErrorCode::InsufficientBalance));
    assert_eq!(ctx, before);
    let mut empty = Withdraw { organization: organization(0, vec![]), admin: who(ADMIN) };
    assert_eq!(withdraw(&mut empty, 1), Err(ErrorCode::InsufficientBalance));
}

#[test]
fn add_maintainer_appends_in_order() {
    let mut ctx = ManageMaintainer { organization: organization(0, vec![]), admin: who(ADMIN) };
    assert_eq!(add_maintainer(&mut ctx, who(10)), Ok(()));
    assert_eq!(add_maintainer(&mut ctx, who(11)), Ok(()));
    assert_eq!(add_maintainer(&mut ctx, who(ADMIN)), Ok(()));
    assert_eq!(ctx.organization.data.maintainers, vec![who(10), who(11), who(ADMIN)]);
    assert!(ctx.organization.data.is_maintainer(&who(11)));
    assert!(!ctx.organization.data.is_maintainer(&who(12)));
    assert_eq!(ctx.organization.data.balance, 0);
    assert_eq!(ctx.organization.data.admin, who(ADMIN));
}

#[test]
fn add_maintainer_refuses_one_that_is_there() {
    let mut ctx =
        ManageMaintainer { organization: organization(0, vec![who(10), who(11)]), admin: who(ADMIN) };
    let before = ctx.clone();
    assert_eq!(add_maintainer(&mut ctx, who(11)), Err(ErrorCode::MaintainerAlreadyExists));
    assert_eq!(ctx, before);
}

#[test]
fn add_maintainer_by_another_identity_is_refused() {
    let mut ctx =
        ManageMaintainer { organization: organization(0, vec![who(10)]), admin: who(10) };
    let before = ctx.clone();
    assert_eq!(add_maintainer(&mut ctx, who(12)), Err(ErrorCode::NotAuthorized));
    assert_eq!(add_maintainer(&mut ctx, who(10)), Err(ErrorCode::NotAuthorized));
    assert_eq!(ctx, before);
}

#[test]
fn add_maintainer_stops_at_the_limit() {
    let mut ctx = ManageMaintainer { organization: organization(0, vec![]), admin: who(ADMIN) };
    for n in 0..10u8 {
        assert_eq!(add_maintainer(&mut ctx, who(10 + n)), Ok(()));
    }
    assert_eq!(ctx.organization.data.maintainers.len(), MAX_MAINTAINERS);
    let before = ctx.clone();
    assert_eq!(add_maintainer(&mut ctx, who(50)), Err(ErrorCode::MaintainerListFull));
    assert_eq!(add_maintainer(&mut ctx, who(15)), Err(ErrorCode::MaintainerAlreadyExists));
    assert_eq!(ctx, before);
    assert_eq!(remove_maintainer(&mut ctx, who(15)), Ok(()));
    assert_eq!(add_maintainer(&mut ctx, who(50)), Ok(()));
    assert_eq!(ctx.organization.data.maintainers.len(), 10);
    assert_eq!(ctx.organization.data.maintainers[9], who(50));
}

#[test]
fn remove_maintainer_keeps_the_others_in_order() {
    let mut ctx = ManageMaintainer {
        organization: organization(70, vec![who(10), who(11), who(12)]),
        admin: who(ADMIN),
    };
    assert_eq!(remove_maintainer(&mut ctx, who(11)), Ok(()));
    assert_eq!(ctx.organization.data.maintainers, vec![who(10), who(12)]);
    assert_eq!(remove_maintainer(&mut ctx, who(10)), Ok(()));
    assert_eq!(ctx.organization.data.maintainers, vec![who(12)]);
    assert_eq!(remove_maintainer(&mut ctx, who(12)), Ok(()));
    assert_eq!(ctx.organization.data.maintainers, vec![]);
    assert_eq!(ctx.organization.data.balance, 70);
}

#[test]
fn remove_maintainer_accepts_one_that_is_not_there() {
    let mut ctx =
        ManageMaintainer { organization: organization(0, vec![who(10), who(11)]), admin: who(ADMIN) };
    let before = ctx.clone();
    assert_eq!(remove_maintainer(&mut ctx, who(12)), Ok(()));
    assert_eq!(ctx, before);
}

#[test]
fn remove_maintainer_by_another_identity_is_refused() {
    let mut ctx =
        ManageMaintainer { organization: organization(0, vec![who(10), who(11)]), admin: who(10) };
    let before = ctx.clone();
    assert_eq!(remove_maintainer(&mut ctx, who(11)), Err(ErrorCode::NotAuthorized));
    assert_eq!(ctx, before);
}

#[test]
fn identities_are_equal_when_their_bytes_are() {
    let mut bytes = [3u8; 32];
    assert_eq!(Identity::new(bytes), who(3));
    assert_eq!(who(3).to_bytes(), bytes);
    bytes[31] = 4;
    assert_ne!(Identity::new(bytes), who(3));
    bytes[31] = 3;
    bytes[0] = 0;
    assert_ne!(Identity::new(bytes), who(3));
    assert!(Identity::new(bytes) == Identity::new(bytes));
}
