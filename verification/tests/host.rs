use anchor_lang::prelude::Pubkey;
use crowdfunding::{
    donation_transfer, AccountRole, Campaign, CampaignError, Donate, Identity,
};

fn donation_accounts(donor: [u8; 32], address: [u8; 32]) -> Donate {
    Donate {
        campaign: Campaign::new(Identity::new([1u8; 32]), String::from("n"), String::from("d")),
        campaign_address: Identity::new(address),
        donor: Identity::new(donor),
    }
}

#[test]
fn donation_asks_the_system_program_for_a_transfer() {
    let ctx = donation_accounts([7u8; 32], [9u8; 32]);
    let ix = donation_transfer(&ctx, 0x0102_0304_0506_0708).unwrap();
    assert_eq!(ix.program, Identity::new([0u8; 32]));
    assert_eq!(
        ix.accounts,
        vec![
            AccountRole { account: Identity::new([7u8; 32]), signer: true, writable: true },
            AccountRole { account: Identity::new([9u8; 32]), signer: false, writable: true },
        ]
    );
    assert_eq!(ix.data, vec![2u8, 0, 0, 0, 8, 7, 6, 5, 4, 3, 2, 1]);
}

#[test]
fn donation_transfer_agrees_with_the_system_interface() {
    let ctx = donation_accounts([3u8; 32], [4u8; 32]);
    let ix = donation_transfer(&ctx, 50).unwrap();
    let built = solana_system_interface::instruction::transfer(
        &Pubkey::new_from_array([3u8; 32]),
        &Pubkey::new_from_array([4u8; 32]),
        50,
    );
    assert_eq!(ix.program.bytes, built.program_id.to_bytes());
    assert_eq!(ix.data, built.data);
    assert_eq!(ix.accounts.len(), built.accounts.len());
    assert_eq!(ix.accounts[0].account.bytes, built.accounts[0].pubkey.to_bytes());
    assert_eq!(ix.accounts[1].account.bytes, built.accounts[1].pubkey.to_bytes());
    assert_eq!(ix.data, vec![2u8, 0, 0, 0, 50, 0, 0, 0, 0, 0, 0, 0]);
}

#[test]
fn donation_transfer_refuses_zero() {
    let ctx = donation_accounts([3u8; 32], [4u8; 32]);
    assert_eq!(donation_transfer(&ctx, 0).err(), Some(CampaignError::InvalidAmount));
}
