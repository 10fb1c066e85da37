use crowdfunding::{
    authority_guard, clear_donations, create, donate, solvency_guard, withdraw, Campaign,
    CampaignError, Create, Donate, Donation, Identity, TransferOutcome, Withdraw,
};

fn id(tag: u8) -> Identity {
    let mut bytes = [0u8; 32];
    bytes[0] = tag;
    bytes[31] = tag;
    Identity::new(bytes)
}

fn campaign_of(admin: Identity) -> Campaign {
    let mut ctx = Create { campaign: None, user: admin };
    assert_eq!(create(&mut ctx, String::from("Help"), String::from("desc")), Ok(()));
    ctx.campaign.unwrap()
}

fn give(campaign: Campaign, donor: Identity, amount: u64) -> (Campaign, Result<(), CampaignError>) {
    let mut ctx = Donate { campaign, campaign_address: id(200), donor };
    let r = donate(&mut ctx, amount, TransferOutcome::Completed);
    (ctx.campaign, r)
}

#[test]
fn create_gives_an_empty_record() {
    let a = id(1);
    let mut ctx = Create { campaign: None, user: a };
    let r = create(&mut ctx, String::from("Help"), String::from("desc"));
    assert_eq!(r, Ok(()));
    let record = ctx.campaign.unwrap();
    assert_eq!(record.admin, a);
    assert_eq!(record.name, "Help");
    assert_eq!(record.description, "desc");
    assert!(record.donations.is_empty());
    assert_eq!(ctx.user, a);
}

#[test]
fn create_refuses_a_second_campaign() {
    let a = id(1);
    let mut first = campaign_of(a);
    first.donations.push(Donation { donor: id(2), amount: 7 });
    let mut ctx = Create { campaign: Some(first), user: a };
    let r = create(&mut ctx, String::from("Other"), String::from("text"));
    assert_eq!(r, Err(CampaignError::DuplicateCampaign));
    let kept = ctx.campaign.unwrap();
    assert_eq!(kept.name, "Help");
    assert_eq!(kept.description, "desc");
    assert_eq!(kept.donations, vec![Donation { donor: id(2), amount: 7 }]);
}

#[test]
fn same_donor_twice_adds_up() {
    let (a, b) = (id(1), id(2));
    let (c, r1) = give(campaign_of(a), b, 50);
    assert_eq!(r1, Ok(()));
    assert_eq!(c.donations, vec![Donation { donor: b, amount: 50 }]);
    let (c, r2) = give(c, b, 30);
    assert_eq!(r2, Ok(()));
    assert_eq!(c.donations, vec![Donation { donor: b, amount: 80 }]);
}

#[test]
fn withdraw_beyond_the_reserve_fails() {
    let (a, c) = (id(1), id(3));
    let reserve: u64 = 7_850_880;
    let (record, r) = give(campaign_of(a), c, 20);
    assert_eq!(r, Ok(()));
    let mut ctx = Withdraw {
        campaign: record,
        campaign_balance: 20 + reserve,
        user: a,
        user_balance: 5,
    };
    assert_eq!(withdraw(&mut ctx, 1000, reserve), Err(CampaignError::InsufficientFunds));
    assert_eq!(ctx.campaign.donations, vec![Donation { donor: c, amount: 20 }]);
    assert_eq!(ctx.campaign_balance, 20 + reserve);
    assert_eq!(ctx.user_balance, 5);
}

#[test]
fn withdraw_by_a_stranger_fails() {
    let (a, b) = (id(1), id(2));
    let mut ctx =
        Withdraw { campaign: campaign_of(a), campaign_balance: 1_000, user: b, user_balance: 3 };
    assert_eq!(withdraw(&mut ctx, 10, 100), Err(CampaignError::NotAuthorized));
    assert_eq!(ctx.campaign_balance, 1_000);
    assert_eq!(ctx.user_balance, 3);
    assert_eq!(ctx.campaign.admin, a);
    assert_eq!(ctx.user, b);
}

#[test]
fn clear_empties_the_table() {
    let (a, b, c) = (id(1), id(2), id(3));
    let (record, r1) = give(campaign_of(a), b, 10);
    let (record, r2) = give(record, c, 5);
    assert_eq!((r1, r2), (Ok(()), Ok(())));
    assert_eq!(
        record.donations,
        vec![Donation { donor: b, amount: 10 }, Donation { donor: c, amount: 5 }]
    );
    let mut ctx = Withdraw { campaign: record, campaign_balance: 15, user: a, user_balance: 0 };
    assert_eq!(clear_donations(&mut ctx), Ok(()));
    assert!(ctx.campaign.donations.is_empty());
    assert_eq!(ctx.campaign_balance, 15);
    assert_eq!(ctx.user_balance, 0);
}

#[test]
fn clearing_twice_is_clearing_once() {
    let (a, b) = (id(1), id(2));
    let (record, _) = give(campaign_of(a), b, 10);
    let mut ctx = Withdraw { campaign: record, campaign_balance: 15, user: a, user_balance: 0 };
    assert_eq!(clear_donations(&mut ctx), Ok(()));
    let once = ctx.campaign.donations.clone();
    assert_eq!(clear_donations(&mut ctx), Ok(()));
    assert_eq!(ctx.campaign.donations, once);
    assert!(ctx.campaign.donations.is_empty());
    assert_eq!(ctx.campaign.name, "Help");
    assert_eq!(ctx.campaign.description, "desc");
}

#[test]
fn clear_by_a_stranger_fails() {
    let (a, b) = (id(1), id(2));
    let (record, _) = give(campaign_of(a), b, 10);
    let mut ctx = Withdraw { campaign: record, campaign_balance: 15, user: b, user_balance: 0 };
    assert_eq!(clear_donations(&mut ctx), Err(CampaignError::NotAuthorized));
    assert_eq!(ctx.campaign.donations, vec![Donation { donor: b, amount: 10 }]);
}

#[test]
fn administrator_survives_every_operation() {
    let (a, b, c) = (id(1), id(2), id(3));
    let (record, _) = give(campaign_of(a), b, 10);
    let (record, _) = give(record, c, 5);
    assert_eq!(record.admin, a);
    let mut ctx = Withdraw { campaign: record, campaign_balance: 500, user: a, user_balance: 0 };
    assert_eq!(withdraw(&mut ctx, 100, 50), Ok(()));
    assert_eq!(ctx.campaign.admin, a);
    assert_eq!(clear_donations(&mut ctx), Ok(()));
    assert_eq!(ctx.campaign.admin, a);
    ctx.user = b;
    assert_eq!(withdraw(&mut ctx, 1, 50), Err(CampaignError::NotAuthorized));
    assert_eq!(ctx.campaign.admin, a);
    let (record, _) = give(ctx.campaign, a, 1);
    assert_eq!(record.admin, a);
    assert_eq!(record.name, "Help");
    assert_eq!(record.description, "desc");
}

#[test]
fn donations_of_one_donor_sum_in_one_line() {
    let (a, b, c) = (id(1), id(2), id(3));
    let mut record = campaign_of(a);
    let amounts: [u64; 5] = [1, 20, 300, 4_000, 50_000];
    for (turn, amount) in amounts.iter().enumerate() {
        let (next, r) = give(record, b, *amount);
        assert_eq!(r, Ok(()));
        let (next, r) = give(next, c, turn as u64 + 1);
        assert_eq!(r, Ok(()));
        record = next;
    }
    assert_eq!(
        record.donations,
        vec![Donation { donor: b, amount: 54_321 }, Donation { donor: c, amount: 15 }]
    );
}

#[test]
fn donation_keeps_the_order_of_the_lines() {
    let (a, b, c, d) = (id(1), id(2), id(3), id(4));
    let (record, _) = give(campaign_of(a), b, 1);
    let (record, _) = give(record, c, 2);
    let (record, _) = give(record, d, 3);
    let (record, r) = give(record, c, 40);
    assert_eq!(r, Ok(()));
    assert_eq!(
        record.donations,
        vec![
            Donation { donor: b, amount: 1 },
            Donation { donor: c, amount: 42 },
            Donation { donor: d, amount: 3 }
        ]
    );
}

#[test]
fn donation_of_zero_is_refused() {
    let (a, b) = (id(1), id(2));
    let (record, r) = give(campaign_of(a), b, 0);
    assert_eq!(r, Err(CampaignError::InvalidAmount));
    assert!(record.donations.is_empty());
}

#[test]
fn failed_transfer_records_nothing() {
    let (a, b) = (id(1), id(2));
    let (record, _) = give(campaign_of(a), b, 9);
    let mut ctx = Donate { campaign: record, campaign_address: id(200), donor: b };
    assert_eq!(donate(&mut ctx, 5, TransferOutcome::Failed), Err(CampaignError::TransferFailed));
    assert_eq!(ctx.campaign.donations, vec![Donation { donor: b, amount: 9 }]);
    let mut ctx = Donate { campaign: ctx.campaign, campaign_address: id(200), donor: id(3) };
    assert_eq!(donate(&mut ctx, 5, TransferOutcome::Failed), Err(CampaignError::TransferFailed));
    assert_eq!(ctx.campaign.donations, vec![Donation { donor: b, amount: 9 }]);
}

#[test]
fn donation_that_overflows_is_refused() {
    let (a, b) = (id(1), id(2));
    let (record, r) = give(campaign_of(a), b, u64::MAX - 1);
    assert_eq!(r, Ok(()));
    let (record, r) = give(record, b, 2);
    assert_eq!(r, Err(CampaignError::AmountOverflow));
    assert_eq!(record.donations, vec![Donation { donor: b, amount: u64::MAX - 1 }]);
    let (record, r) = give(record, b, 1);
    assert_eq!(r, Ok(()));
    assert_eq!(record.donations, vec![Donation { donor: b, amount: u64::MAX }]);
}

#[test]
fn record_donation_finds_or_appends() {
    let (a, b, c) = (id(1), id(2), id(3));
    let mut record = Campaign::new(a, String::from("n"), String::from("d"));
    assert_eq!(record.record_donation(b, 4), Ok(()));
    assert_eq!(record.record_donation(c, 6), Ok(()));
    assert_eq!(record.record_donation(b, 10), Ok(()));
    assert_eq!(
        record.donations,
        vec![Donation { donor: b, amount: 14 }, Donation { donor: c, amount: 6 }]
    );
    assert_eq!(record.record_donation(c, u64::MAX), Err(CampaignError::AmountOverflow));
    assert_eq!(
        record.donations,
        vec![Donation { donor: b, amount: 14 }, Donation { donor: c, amount: 6 }]
    );
}

#[test]
fn withdraw_moves_the_amount() {
    let a = id(1);
    let mut ctx =
        Withdraw { campaign: campaign_of(a), campaign_balance: 1_000, user: a, user_balance: 7 };
    assert_eq!(withdraw(&mut ctx, 400, 100), Ok(()));
    assert_eq!(ctx.campaign_balance, 600);
    assert_eq!(ctx.user_balance, 407);
    assert_eq!(withdraw(&mut ctx, 500, 100), Ok(()));
    assert_eq!(ctx.campaign_balance, 100);
    assert_eq!(ctx.user_balance, 907);
    assert_eq!(withdraw(&mut ctx, 1, 100), Err(CampaignError::InsufficientFunds));
    assert_eq!(ctx.campaign_balance, 100);
    assert_eq!(ctx.user_balance, 907);
}

#[test]
fn withdraw_of_zero_moves_nothing() {
    let a = id(1);
    let mut ctx =
        Withdraw { campaign: campaign_of(a), campaign_balance: 100, user: a, user_balance: 7 };
    assert_eq!(withdraw(&mut ctx, 0, 100), Ok(()));
    assert_eq!(ctx.campaign_balance, 100);
    assert_eq!(ctx.user_balance, 7);
}

#[test]
fn withdraw_below_the_reserve_fails_even_for_zero() {
    let a = id(1);
    let mut ctx =
        Withdraw { campaign: campaign_of(a), campaign_balance: 99, user: a, user_balance: 7 };
    assert_eq!(withdraw(&mut ctx, 0, 100), Err(CampaignError::InsufficientFunds));
    assert_eq!(withdraw(&mut ctx, u64::MAX, 100), Err(CampaignError::InsufficientFunds));
    assert_eq!(ctx.campaign_balance, 99);
    assert_eq!(ctx.user_balance, 7);
}

#[test]
fn withdraw_checks_authority_before_funds() {
    let (a, b) = (id(1), id(2));
    let mut ctx =
        Withdraw { campaign: campaign_of(a), campaign_balance: 10, user: b, user_balance: 0 };
    assert_eq!(withdraw(&mut ctx, 1_000, 100), Err(CampaignError::NotAuthorized));
}

#[test]
fn withdraw_that_overflows_the_caller_is_refused() {
    let a = id(1);
    let mut ctx = Withdraw {
        campaign: campaign_of(a),
        campaign_balance: 1_000,
        user: a,
        user_balance: u64::MAX - 5,
    };
    assert_eq!(withdraw(&mut ctx, 6, 0), Err(CampaignError::AmountOverflow));
    assert_eq!(ctx.campaign_balance, 1_000);
    assert_eq!(ctx.user_balance, u64::MAX - 5);
    assert_eq!(withdraw(&mut ctx, 5, 0), Ok(()));
    assert_eq!(ctx.campaign_balance, 995);
    assert_eq!(ctx.user_balance, u64::MAX);
}

#[test]
fn guards_decide_as_stated() {
    let (a, b) = (id(1), id(2));
    let record = campaign_of(a);
    assert_eq!(authority_guard(&record, &a), Ok(()));
    assert_eq!(authority_guard(&record, &b), Err(CampaignError::NotAuthorized));
    assert_eq!(solvency_guard(150, 100, 50), Ok(()));
    assert_eq!(solvency_guard(150, 100, 51), Err(CampaignError::InsufficientFunds));
    assert_eq!(solvency_guard(99, 100, 0), Err(CampaignError::InsufficientFunds));
    assert_eq!(solvency_guard(u64::MAX, 0, u64::MAX), Ok(()));
    assert_eq!(solvency_guard(0, u64::MAX, 0), Err(CampaignError::InsufficientFunds));
}

#[test]
fn identities_compare_byte_by_byte() {
    let mut bytes = [9u8; 32];
    let x = Identity::new(bytes);
    assert!(x.same(&Identity::new([9u8; 32])));
    assert_eq!(x, Identity::new([9u8; 32]));
    bytes[31] = 8;
    assert!(!x.same(&Identity::new(bytes)));
    assert_ne!(x, Identity::new(bytes));
    bytes[31] = 9;
    bytes[0] = 10;
    assert_ne!(x, Identity::new(bytes));
    assert_eq!(x.bytes, [9u8; 32]);
}
