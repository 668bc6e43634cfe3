use lumi::{
    add_issuer, initialize_config, issue_lumi, issue_lumi_legacy, settle, AddIssuer, Address,
    AuthoritySeeds, Controller, InitializeConfig, IssueError, IssueLumi, IssueLumiLegacy, Issuer,
    LumiError, LumiIssued, MintRequest, PendingIssue, TokenLedger,
};

const ADMIN: u8 = 1;
const CONFIG: u8 = 200;
const MINT: u8 = 201;
const AUTHORITY: u8 = 202;
const DAY: i64 = 86_400;

fn address(tag: u8) -> Address {
    Address { bytes: [tag; 32] }
}

fn controller_with(cap: u64, wallets: &[u8]) -> Controller {
    let mut slot = None;
    let creation = InitializeConfig {
        admin: address(ADMIN),
        config: address(CONFIG),
        lumi_mint: address(MINT),
        mint_authority_bump: 253,
    };
    assert_eq!(initialize_config(&mut slot, &creation, cap), Ok(()));
    let mut controller = slot.unwrap();
    for tag in wallets {
        let ctx = AddIssuer { admin: address(ADMIN), issuer_wallet: address(*tag) };
        assert_eq!(add_issuer(&mut controller, &ctx), Ok(()));
    }
    controller
}

fn request_of(wallet: u8) -> IssueLumi {
    IssueLumi {
        wallet: address(wallet),
        mint_authority: address(AUTHORITY),
        to: address(50),
        to_ata: address(51),
    }
}

fn issue(
    controller: &mut Controller,
    wallet: u8,
    amount: u64,
    unix_timestamp: i64,
) -> Result<LumiIssued, IssueError<u32>> {
    let pending = issue_lumi(
        controller,
        &request_of(wallet),
        amount,
        *b"GRANT001",
        String::from("bafy-evidence"),
        unix_timestamp,
    )
    .map_err(IssueError::Rejected)?;
    settle(controller, pending, Ok(()))
}

#[test]
fn scenario_two_issuances_then_over_cap_then_next_day() {
    let mut c = controller_with(1000, &[10]);
    assert!(issue(&mut c, 10, 400, 10 * DAY).is_ok());
    assert!(issue(&mut c, 10, 500, 10 * DAY + 3_600).is_ok());
    assert_eq!(c.issuers[0].issued_today, 900);
    assert_eq!(c.issuers[0].last_issue_day, 10);
    assert_eq!(
        issue(&mut c, 10, 200, 10 * DAY + 7_200),
        Err(IssueError::Rejected(LumiError::DailyCapExceeded))
    );
    assert_eq!(c.issuers[0].issued_today, 900);
    assert_eq!(c.issuers[0].last_issue_day, 10);
    assert!(issue(&mut c, 10, 200, 11 * DAY).is_ok());
    assert_eq!(c.issuers[0].issued_today, 200);
    assert_eq!(c.issuers[0].last_issue_day, 11);
}

#[test]
fn issue_lumi_says_what_to_mint_and_changes_nothing() {
    let c = controller_with(1000, &[10]);
    let before = c.clone();
    let pending = issue_lumi(
        &c,
        &request_of(10),
        400,
        *b"GRANT001",
        String::from("bafy-evidence"),
        10 * DAY + 5,
    );
    assert_eq!(
        pending,
        Ok(PendingIssue {
            request: MintRequest {
                ledger: TokenLedger::Token2022,
                mint: address(MINT),
                to: address(51),
                authority: address(AUTHORITY),
                signer: AuthoritySeeds { config: address(CONFIG), bump: 253 },
                amount: 400,
            },
            issuer: address(10),
            to: address(50),
            day: 10,
            reason_code: *b"GRANT001",
            ipfs_cid: String::from("bafy-evidence"),
        })
    );
    assert_eq!(c, before);
}

#[test]
fn issue_lumi_legacy_names_the_legacy_ledger() {
    let c = controller_with(1000, &[10]);
    let ctx = IssueLumiLegacy {
        wallet: address(10),
        mint_authority: address(AUTHORITY),
        to: address(50),
        to_ata: address(51),
    };
    let pending =
        issue_lumi_legacy(&c, &ctx, 1000, *b"LEGACY01", String::from("cid"), 3 * DAY).unwrap();
    assert_eq!(
        pending.request,
        MintRequest {
            ledger: TokenLedger::Legacy,
            mint: address(MINT),
            to: address(51),
            authority: address(AUTHORITY),
            signer: AuthoritySeeds { config: address(CONFIG), bump: 253 },
            amount: 1000,
        }
    );
    assert_eq!(pending.issuer, address(10));
    assert_eq!(pending.to, address(50));
    assert_eq!(pending.day, 3);
    assert_eq!(pending.reason_code, *b"LEGACY01");
    assert_eq!(pending.ipfs_cid, "cid");
}

#[test]
fn issue_lumi_legacy_refuses_as_issue_lumi_does() {
    let mut c = controller_with(1000, &[10, 11]);
    c.issuers[1].active = false;
    let ctx = |wallet: u8| IssueLumiLegacy {
        wallet: address(wallet),
        mint_authority: address(AUTHORITY),
        to: address(50),
        to_ata: address(51),
    };
    assert_eq!(
        issue_lumi_legacy(&c, &ctx(12), 1, [0; 8], String::new(), 0),
        Err(LumiError::Unauthorized)
    );
    assert_eq!(
        issue_lumi_legacy(&c, &ctx(11), 1, [0; 8], String::new(), 0),
        Err(LumiError::IssuerInactive)
    );
    assert_eq!(
        issue_lumi_legacy(&c, &ctx(10), 1001, [0; 8], String::new(), 0),
        Err(LumiError::DailyCapExceeded)
    );
}

#[test]
fn settle_commits_and_gives_the_notification() {
    let mut c = controller_with(1000, &[10, 11]);
    let event = issue(&mut c, 11, 250, 10 * DAY).unwrap();
    assert_eq!(
        event,
        LumiIssued {
            issuer: address(11),
            to: address(50),
            amount: 250,
            reason_code: *b"GRANT001",
            ipfs_cid: String::from("bafy-evidence"),
        }
    );
    assert_eq!(c.issuers[0], Issuer::new(address(10)));
    assert_eq!(
        c.issuers[1],
        Issuer { wallet: address(11), issued_today: 250, last_issue_day: 10, active: true }
    );
}

#[test]
fn quota_holds_over_a_run_within_one_day() {
    let mut c = controller_with(1000, &[10]);
    let mut issued: u64 = 0;
    for amount in [100u64, 250, 0, 649, 1, 1, 500, 1000] {
        if issue(&mut c, 10, amount, 20 * DAY + 1).is_ok() {
            issued += amount;
        }
        assert!(issued <= 1000);
        assert_eq!(c.issuers[0].issued_today, issued);
    }
    assert_eq!(issued, 1000);
}

#[test]
fn over_cap_request_leaves_the_record_unchanged() {
    let mut c = controller_with(1000, &[10]);
    c.issuers[0].issued_today = 1000;
    c.issuers[0].last_issue_day = 10;
    let before = c.clone();
    assert_eq!(
        issue(&mut c, 10, 1, 10 * DAY),
        Err(IssueError::Rejected(LumiError::DailyCapExceeded))
    );
    assert_eq!(c, before);
    assert_eq!(
        issue(&mut c, 10, 1001, 11 * DAY),
        Err(IssueError::Rejected(LumiError::DailyCapExceeded))
    );
    assert_eq!(c, before);
}

#[test]
fn rollover_admits_up_to_the_cap_on_the_next_day() {
    for amount in [0u64, 1, 999, 1000] {
        let mut c = controller_with(1000, &[10]);
        c.issuers[0].issued_today = 1000;
        c.issuers[0].last_issue_day = 10;
        assert!(issue(&mut c, 10, amount, 11 * DAY).is_ok());
        assert_eq!(c.issuers[0].issued_today, amount);
        assert_eq!(c.issuers[0].last_issue_day, 11);
    }
}

#[test]
fn rollover_happens_on_an_earlier_day_too() {
    let mut c = controller_with(1000, &[10]);
    c.issuers[0].issued_today = 1000;
    c.issuers[0].last_issue_day = 10;
    assert!(issue(&mut c, 10, 30, -1).is_ok());
    assert_eq!(c.issuers[0].issued_today, 30);
    assert_eq!(c.issuers[0].last_issue_day, -1);
}

#[test]
fn stranger_is_unauthorized_whatever_the_amount() {
    let mut c = controller_with(1000, &[10, 11]);
    let before = c.clone();
    for amount in [0u64, 1, 1000, 1001, u64::MAX] {
        assert_eq!(
            issue(&mut c, 12, amount, 10 * DAY),
            Err(IssueError::Rejected(LumiError::Unauthorized))
        );
        assert_eq!(c, before);
    }
    let mut empty = controller_with(1000, &[]);
    assert_eq!(
        issue(&mut empty, 10, 1, 10 * DAY),
        Err(IssueError::Rejected(LumiError::Unauthorized))
    );
}

#[test]
fn administrator_is_no_issuer_by_itself() {
    let mut c = controller_with(1000, &[10]);
    assert_eq!(
        issue(&mut c, ADMIN, 1, 10 * DAY),
        Err(IssueError::Rejected(LumiError::Unauthorized))
    );
}

#[test]
fn inactive_issuer_is_refused_and_keeps_its_total() {
    let mut c = controller_with(1000, &[10]);
    assert!(issue(&mut c, 10, 300, 10 * DAY).is_ok());
    c.issuers[0].active = false;
    let before = c.clone();
    for (amount, time) in [(0u64, 10 * DAY), (1, 10 * DAY), (700, 11 * DAY), (5000, 12 * DAY)] {
        assert_eq!(
            issue(&mut c, 10, amount, time),
            Err(IssueError::Rejected(LumiError::IssuerInactive))
        );
        assert_eq!(c, before);
    }
    assert_eq!(c.issuers[0].issued_today, 300);
}

#[test]
fn inactive_is_reported_before_the_cap() {
    let mut c = controller_with(1000, &[10]);
    c.issuers[0].active = false;
    assert_eq!(c.screen(&address(10), 1001, 0), Err(LumiError::IssuerInactive));
    c.issuers[0].active = true;
    assert_eq!(c.screen(&address(10), 1001, 0), Err(LumiError::DailyCapExceeded));
    assert_eq!(c.screen(&address(10), 1000, 0), Ok(0));
}

#[test]
fn failed_mint_commits_nothing() {
    let mut c = controller_with(1000, &[10]);
    assert!(issue(&mut c, 10, 400, 10 * DAY).is_ok());
    let before = c.clone();
    let same_day =
        issue_lumi(&c, &request_of(10), 100, [1; 8], String::from("x"), 10 * DAY).unwrap();
    assert_eq!(settle(&mut c, same_day, Err("frozen")), Err(IssueError::Ledger("frozen")));
    assert_eq!(c, before);
    let next_day =
        issue_lumi(&c, &request_of(10), 100, [1; 8], String::from("x"), 11 * DAY).unwrap();
    assert_eq!(settle(&mut c, next_day, Err(17u32)), Err(IssueError::Ledger(17u32)));
    assert_eq!(c, before);
    assert_eq!(c.issuers[0].issued_today, 400);
    assert_eq!(c.issuers[0].last_issue_day, 10);
}

#[test]
fn settle_checks_again() {
    let mut c = controller_with(1000, &[10]);
    let first = issue_lumi(&c, &request_of(10), 600, [1; 8], String::new(), 10 * DAY).unwrap();
    let second = issue_lumi(&c, &request_of(10), 600, [2; 8], String::new(), 10 * DAY).unwrap();
    assert!(settle::<u32>(&mut c, first, Ok(())).is_ok());
    let before = c.clone();
    assert_eq!(
        settle::<u32>(&mut c, second, Ok(())),
        Err(IssueError::Rejected(LumiError::DailyCapExceeded))
    );
    assert_eq!(c, before);
    let unknown = PendingIssue {
        request: MintRequest {
            ledger: TokenLedger::Token2022,
            mint: address(MINT),
            to: address(51),
            authority: address(AUTHORITY),
            signer: AuthoritySeeds { config: address(CONFIG), bump: 253 },
            amount: 1,
        },
        issuer: address(99),
        to: address(50),
        day: 10,
        reason_code: [0; 8],
        ipfs_cid: String::new(),
    };
    assert_eq!(
        settle(&mut c, unknown, Err(3u32)),
        Err(IssueError::Rejected(LumiError::Unauthorized))
    );
    assert_eq!(c, before);
}

#[test]
fn cap_of_zero_admits_only_nothing() {
    let mut c = controller_with(0, &[10]);
    assert_eq!(
        issue(&mut c, 10, 1, 10 * DAY),
        Err(IssueError::Rejected(LumiError::DailyCapExceeded))
    );
    assert!(issue(&mut c, 10, 0, 10 * DAY).is_ok());
    assert_eq!(c.issuers[0].issued_today, 0);
    assert_eq!(c.issuers[0].last_issue_day, 10);
}

#[test]
fn sum_beyond_the_range_is_refused_not_wrapped() {
    let mut c = controller_with(u64::MAX - 1, &[10]);
    assert!(issue(&mut c, 10, 10, 10 * DAY).is_ok());
    assert_eq!(
        issue(&mut c, 10, u64::MAX, 10 * DAY),
        Err(IssueError::Rejected(LumiError::DailyCapExceeded))
    );
    assert_eq!(
        issue(&mut c, 10, u64::MAX - 9, 10 * DAY),
        Err(IssueError::Rejected(LumiError::DailyCapExceeded))
    );
    assert_eq!(c.issuers[0].issued_today, 10);
    assert!(issue(&mut c, 10, u64::MAX - 11, 10 * DAY).is_ok());
    assert_eq!(c.issuers[0].issued_today, u64::MAX - 1);
}

#[test]
fn total_is_held_at_the_largest_amount_under_the_largest_cap() {
    let mut c = controller_with(u64::MAX, &[10]);
    assert!(issue(&mut c, 10, u64::MAX, 10 * DAY).is_ok());
    assert_eq!(c.issuers[0].issued_today, u64::MAX);
    assert!(issue(&mut c, 10, 5, 10 * DAY).is_ok());
    assert_eq!(c.issuers[0].issued_today, u64::MAX);
}

#[test]
fn issuers_do_not_share_a_quota() {
    let mut c = controller_with(1000, &[10, 11]);
    assert!(issue(&mut c, 10, 1000, 10 * DAY).is_ok());
    assert!(issue(&mut c, 11, 1000, 10 * DAY).is_ok());
    assert_eq!(
        issue(&mut c, 10, 1, 10 * DAY),
        Err(IssueError::Rejected(LumiError::DailyCapExceeded))
    );
    assert_eq!(c.issuers[0].issued_today, 1000);
    assert_eq!(c.issuers[1].issued_today, 1000);
}

#[test]
fn fresh_issuer_on_day_zero_starts_from_nothing() {
    let mut c = controller_with(1000, &[10]);
    assert!(issue(&mut c, 10, 1000, 0).is_ok());
    assert_eq!(c.issuers[0].issued_today, 1000);
    assert_eq!(c.issuers[0].last_issue_day, 0);
    assert_eq!(
        issue(&mut c, 10, 1, 86_399),
        Err(IssueError::Rejected(LumiError::DailyCapExceeded))
    );
}
