use ncn_resolver::account_info::{
    load_signer, load_system_account, load_system_program, AccountData, AccountInfo,
};
use ncn_resolver::config::{Config, DEFAULT_SLOTS_PER_EPOCH};
use ncn_resolver::error::{ProgramError, ResolverError};
use ncn_resolver::ncn_resolver_program_config::NcnResolverProgramConfig;
use ncn_resolver::ncn_slash_proposal_ticket::NcnSlashProposalTicket;
use ncn_resolver::pubkey::{tag_seed, with_bump, Pubkey};
use ncn_resolver::resolver::Resolver;
use ncn_resolver::slash_proposal::SlashProposal;
use ncn_resolver::slasher::Slasher;

fn key(n: u8) -> Pubkey {
    let mut bytes = [0u8; 32];
    bytes[0] = n;
    bytes[31] = 0x5A;
    Pubkey::new_from_array(bytes)
}

fn outside(k: &Pubkey) -> solana_program::pubkey::Pubkey {
    solana_program::pubkey::Pubkey::new_from_array(k.bytes)
}

#[test]
fn the_null_address_is_all_zero_and_is_the_system_program() {
    assert_eq!(Pubkey::default().bytes, [0u8; 32]);
    assert_eq!(Pubkey::default().bytes, solana_program::system_program::id().to_bytes());
    assert_eq!(Pubkey::default().bytes, solana_program::pubkey::Pubkey::default().to_bytes());
}

#[test]
fn addresses_compare_by_their_bytes() {
    assert_eq!(key(1), key(1));
    assert_ne!(key(1), key(2));
    let mut bytes = key(1).bytes;
    bytes[17] = 1;
    assert_ne!(key(1), Pubkey::new_from_array(bytes));
    assert_eq!(key(3).to_vec(), key(3).bytes.to_vec());
    assert_eq!(key(3).to_vec().len(), 32);
}

#[test]
fn seeds_are_tag_and_keys() {
    assert_eq!(tag_seed("slash_proposal"), b"slash_proposal".to_vec());
    assert_eq!(Config::seeds(), vec![b"config".to_vec()]);
    assert_eq!(
        NcnResolverProgramConfig::seeds(&key(1)),
        vec![b"ncn_resolver_program_config".to_vec(), key(1).to_vec()]
    );
    assert_eq!(Resolver::seeds(&key(2)), vec![b"resolver".to_vec(), key(2).to_vec()]);
    assert_eq!(Slasher::seeds(&key(3)), vec![b"slasher".to_vec(), key(3).to_vec()]);
    assert_eq!(
        SlashProposal::seeds(&key(1), &key(2), &key(3)),
        vec![b"slash_proposal".to_vec(), key(1).to_vec(), key(2).to_vec(), key(3).to_vec()]
    );
    assert_eq!(
        NcnSlashProposalTicket::seeds(&key(1), &key(4)),
        vec![b"ncn_slash_proposal_ticket".to_vec(), key(1).to_vec(), key(4).to_vec()]
    );
    assert_eq!(
        with_bump(vec![vec![1u8, 2], vec![3u8]], 254),
        vec![vec![1u8, 2], vec![3u8], vec![254u8]]
    );
}

#[test]
fn derived_addresses_are_those_of_the_host() {
    let program_id = key(9);
    let (address, bump, seeds) =
        SlashProposal::find_program_address(&program_id, &key(1), &key(2), &key(3)).unwrap();
    let expected = solana_program::pubkey::Pubkey::find_program_address(
        &[b"slash_proposal", &key(1).bytes, &key(2).bytes, &key(3).bytes],
        &outside(&program_id),
    );
    assert_eq!(address.bytes, expected.0.to_bytes());
    assert_eq!(bump, expected.1);
    assert_eq!(seeds, SlashProposal::seeds(&key(1), &key(2), &key(3)));
    // a derived address is neither one of the keys nor the program
    assert_ne!(address, program_id);
    assert_ne!(address, key(1));

    let (address, bump, _) = Config::find_program_address(&program_id).unwrap();
    let expected =
        solana_program::pubkey::Pubkey::find_program_address(&[b"config"], &outside(&program_id));
    assert_eq!((address.bytes, bump), (expected.0.to_bytes(), expected.1));

    let (address, bump, _) =
        NcnResolverProgramConfig::find_program_address(&program_id, &key(1)).unwrap();
    let expected = solana_program::pubkey::Pubkey::find_program_address(
        &[b"ncn_resolver_program_config", &key(1).bytes],
        &outside(&program_id),
    );
    assert_eq!((address.bytes, bump), (expected.0.to_bytes(), expected.1));

    let (address, bump, _) = Resolver::find_program_address(&program_id, &key(5)).unwrap();
    let expected = solana_program::pubkey::Pubkey::find_program_address(
        &[b"resolver", &key(5).bytes],
        &outside(&program_id),
    );
    assert_eq!((address.bytes, bump), (expected.0.to_bytes(), expected.1));

    let (address, bump, _) = Slasher::find_program_address(&program_id, &key(5)).unwrap();
    let expected = solana_program::pubkey::Pubkey::find_program_address(
        &[b"slasher", &key(5).bytes],
        &outside(&program_id),
    );
    assert_eq!((address.bytes, bump), (expected.0.to_bytes(), expected.1));

    let (address, bump, _) =
        NcnSlashProposalTicket::find_program_address(&program_id, &key(1), &key(6)).unwrap();
    let expected = solana_program::pubkey::Pubkey::find_program_address(
        &[b"ncn_slash_proposal_ticket", &key(1).bytes, &key(6).bytes],
        &outside(&program_id),
    );
    assert_eq!((address.bytes, bump), (expected.0.to_bytes(), expected.1));
}

#[test]
fn derived_addresses_depend_on_every_seed_and_on_the_program() {
    let a = SlashProposal::find_program_address(&key(9), &key(1), &key(2), &key(3)).unwrap().0;
    let b = SlashProposal::find_program_address(&key(9), &key(1), &key(2), &key(4)).unwrap().0;
    let c = SlashProposal::find_program_address(&key(9), &key(1), &key(5), &key(3)).unwrap().0;
    let d = SlashProposal::find_program_address(&key(9), &key(6), &key(2), &key(3)).unwrap().0;
    let e = SlashProposal::find_program_address(&key(8), &key(1), &key(2), &key(3)).unwrap().0;
    let again = SlashProposal::find_program_address(&key(9), &key(1), &key(2), &key(3)).unwrap().0;
    assert_eq!(a, again);
    assert_ne!(a, b);
    assert_ne!(a, c);
    assert_ne!(a, d);
    assert_ne!(a, e);
    // a resolver and a slasher of the same base lie at different addresses
    assert_ne!(
        Resolver::find_program_address(&key(9), &key(1)).unwrap().0,
        Slasher::find_program_address(&key(9), &key(1)).unwrap().0
    );
}

#[test]
fn a_new_slash_proposal_is_open() {
    let p = SlashProposal::new(key(1), key(2), 100, 7, 107, 250);
    assert_eq!(p.operator, key(1));
    assert_eq!(p.slasher, key(2));
    assert_eq!(p.amount(), 100);
    assert_eq!(p.capture_slot, 7);
    assert_eq!(p.veto_deadline_slot(), 107);
    assert_eq!(p.delete_deadline_slot(), 107);
    assert!(!p.completed());
    assert_eq!(p.bump, 250);
}

#[test]
fn the_checks_of_a_slash_proposal() {
    let mut p = SlashProposal::new(key(1), key(2), 100, 0, 100, 1);
    assert_eq!(p.check_veto_period_ended(99), Ok(()));
    assert_eq!(
        p.check_veto_period_ended(100),
        Err(ResolverError::SlashProposalVetoPeriodEnded)
    );
    assert_eq!(
        p.check_veto_period_not_ended(99),
        Err(ResolverError::SlashProposalVetoPeriodNotEnded)
    );
    assert_eq!(p.check_veto_period_not_ended(100), Ok(()));
    assert_eq!(p.check_completed(), Ok(()));
    assert_eq!(p.check_not_open(), Err(ResolverError::SlashProposalNotCompleted));
    assert_eq!(
        p.check_delete_deadline_ended(99),
        Err(ResolverError::SlashProposalDeleteDeadlineNotEnded)
    );
    assert_eq!(p.check_delete_deadline_ended(100), Ok(()));
    assert_eq!(p.check_deletable(100), Err(ResolverError::SlashProposalNotCompleted));

    p.set_completed(true);
    assert!(p.completed());
    assert_eq!(p.check_completed(), Err(ResolverError::SlashProposalCompleted));
    assert_eq!(p.check_not_open(), Ok(()));
    assert_eq!(p.check_deletable(100), Ok(()));
    assert_eq!(
        p.check_deletable(99),
        Err(ResolverError::SlashProposalDeleteDeadlineNotEnded)
    );
    assert_eq!(p.amount(), 100);
}

#[test]
fn veto_and_execution_of_the_record() {
    let open = SlashProposal::new(key(1), key(2), 100, 0, 100, 1);

    let mut p = open;
    assert_eq!(p.veto(100), Err(ResolverError::SlashProposalVetoPeriodEnded));
    assert_eq!(p, open);
    assert_eq!(p.veto(50), Ok(()));
    assert!(p.completed());
    assert_eq!(p.delete_deadline_slot(), 100);
    assert_eq!(p.veto(51), Err(ResolverError::SlashProposalCompleted));
    assert_eq!(p.veto(100), Err(ResolverError::SlashProposalCompleted));
    assert_eq!(p.execute(101, 10), Err(ResolverError::SlashProposalCompleted));
    assert_eq!(p.execute(99, 10), Err(ResolverError::SlashProposalCompleted));

    let mut p = open;
    assert_eq!(p.execute(99, 10), Err(ResolverError::SlashProposalVetoPeriodNotEnded));
    assert_eq!(p, open);
    assert_eq!(p.execute(100, u64::MAX), Err(ResolverError::ArithmeticOverflow));
    assert_eq!(p, open);
    assert_eq!(p.execute(100, 10), Ok(()));
    assert!(p.completed());
    assert_eq!(p.delete_deadline_slot(), 110);
    assert_eq!(p.veto_deadline_slot(), 100);
    assert_eq!(p.amount(), 100);
    assert_eq!(p.execute(100, 10), Err(ResolverError::SlashProposalCompleted));
    assert_eq!(p.execute(99, 10), Err(ResolverError::SlashProposalCompleted));
    assert_eq!(p.veto(99), Err(ResolverError::SlashProposalCompleted));
    assert_eq!(p.veto(100), Err(ResolverError::SlashProposalCompleted));
    assert_eq!(p.veto(101), Err(ResolverError::SlashProposalCompleted));
}

#[test]
fn a_new_ticket_names_no_resolver() {
    let mut t = NcnSlashProposalTicket::new(key(1), key(2), 9);
    assert_eq!(t.ncn, key(1));
    assert_eq!(t.slash_proposal, key(2));
    assert_eq!(t.resolver, Pubkey::default());
    assert_eq!(t.bump, 9);
    assert_eq!(t.check_resolver(&key(3)), Err(ResolverError::SlashProposalResolverInvalid));
    assert_eq!(t.check_resolver(&Pubkey::default()), Ok(()));
    t.set_resolver(key(3));
    assert_eq!(t.resolver, key(3));
    assert_eq!(t.check_resolver(&key(3)), Ok(()));
    assert_eq!(t.check_slash_proposal(&key(2)), Ok(()));
    assert_eq!(t.check_slash_proposal(&key(3)), Err(ResolverError::SlashProposalInvalid));
    assert_eq!((t.ncn, t.slash_proposal, t.bump), (key(1), key(2), 9));
}

#[test]
fn a_new_policy_counts_no_resolver() {
    let mut policy = NcnResolverProgramConfig::new(key(1), 100, 200, 3);
    assert_eq!(policy.resolver_admin, key(1));
    assert_eq!(policy.veto_duration(), 100);
    assert_eq!(policy.delete_slash_proposal_duration(), 200);
    assert_eq!(policy.resolver_count(), 0);
    assert_eq!(policy.slasher_count(), 0);
    assert_eq!(policy.bump, 3);
    assert_eq!(policy.increment_slasher_count(), Ok(()));
    assert_eq!(policy.slasher_count(), 1);
    assert_eq!(policy.resolver_count(), 0);
    assert_eq!(policy.increment_resolver_count(), Ok(()));
    assert_eq!(policy.increment_resolver_count(), Ok(()));
    assert_eq!(policy.resolver_count(), 2);
    assert_eq!(policy.check_resolver_admin(&key(1)), Ok(()));
    assert_eq!(policy.check_resolver_admin(&key(2)), Err(ProgramError::InvalidAccountData));

    policy.resolver_count = u64::MAX;
    assert_eq!(policy.increment_resolver_count(), Err(ResolverError::ArithmeticOverflow));
    assert_eq!(policy.resolver_count(), u64::MAX);
    policy.slasher_count = u64::MAX;
    assert_eq!(policy.increment_slasher_count(), Err(ResolverError::ArithmeticOverflow));
    assert_eq!(policy.slasher_count(), u64::MAX);
}

#[test]
fn resolver_and_slasher_know_their_admins() {
    let resolver = Resolver::new(key(1), key(2), 5, 6);
    assert_eq!((resolver.base, resolver.admin, resolver.index(), resolver.bump), (key(1), key(2), 5, 6));
    assert_eq!(resolver.check_admin(&key(2)), Ok(()));
    assert_eq!(resolver.check_admin(&key(1)), Err(ResolverError::ResolverAdminInvalid));

    let mut slasher = Slasher::new(key(1), key(2), 7, 8);
    assert_eq!((slasher.base, slasher.admin, slasher.index(), slasher.bump), (key(1), key(2), 7, 8));
    assert_eq!(slasher.delegate_admin, key(2));
    assert_eq!(slasher.check_admin(&key(2)), Ok(()));
    assert_eq!(slasher.check_admin(&key(3)), Err(ResolverError::SlasherAdminInvalid));
    assert_eq!(slasher.check_delegate_admin(&key(2)), Ok(()));
    assert_eq!(
        slasher.check_delegate_admin(&key(3)),
        Err(ResolverError::SlasherDelegateAdminInvalid)
    );
    assert_eq!(
        slasher.signing_seeds(),
        vec![b"slasher".to_vec(), key(1).to_vec(), vec![8u8]]
    );
    slasher.update_secondary_admin(&key(9), &key(4));
    assert_eq!(slasher.delegate_admin, key(2));
    slasher.update_secondary_admin(&key(2), &key(4));
    assert_eq!(slasher.delegate_admin, key(4));
    assert_eq!(slasher.admin, key(2));
}

#[test]
fn the_configuration_and_its_epochs() {
    let mut config = Config::new(key(1), key(2), key(3), 4);
    assert_eq!(config.admin, key(1));
    assert_eq!(config.jito_restaking_program, key(2));
    assert_eq!(config.jito_vault_program, key(3));
    assert_eq!(config.bump, 4);
    assert_eq!(config.epoch_length(), 432_000);
    assert_eq!(DEFAULT_SLOTS_PER_EPOCH, solana_program::clock::DEFAULT_SLOTS_PER_EPOCH);
    assert_eq!(config.get_epoch(0), Ok(0));
    assert_eq!(config.get_epoch(431_999), Ok(0));
    assert_eq!(config.get_epoch(432_000), Ok(1));
    assert_eq!(config.get_epoch(u64::MAX), Ok(u64::MAX / 432_000));
    config.epoch_length = 0;
    assert_eq!(config.get_epoch(5), Err(ResolverError::DivisionByZero));
}

fn info(key: Pubkey, owner: Pubkey, data: AccountData) -> AccountInfo {
    AccountInfo { key, owner, is_signer: false, is_writable: false, data }
}

#[test]
fn loading_a_record_checks_owner_data_flags_and_address() {
    let program_id = key(9);
    let ncn = info(key(1), key(1), AccountData::Other);
    let (address, bump, _) =
        NcnResolverProgramConfig::find_program_address(&program_id, &ncn.key).unwrap();
    let policy = NcnResolverProgramConfig::new(key(2), 1, 2, bump);
    let good = info(address, program_id, AccountData::NcnResolverProgramConfig(policy));

    assert_eq!(NcnResolverProgramConfig::load(&program_id, &good, &ncn, false), Ok(()));
    assert_eq!(
        NcnResolverProgramConfig::load(&program_id, &good, &ncn, true),
        Err(ProgramError::InvalidAccountData)
    );
    let mut writable = good;
    writable.is_writable = true;
    assert_eq!(NcnResolverProgramConfig::load(&program_id, &writable, &ncn, true), Ok(()));

    let mut foreign = good;
    foreign.owner = key(8);
    assert_eq!(
        NcnResolverProgramConfig::load(&program_id, &foreign, &ncn, false),
        Err(ProgramError::InvalidAccountOwner)
    );
    let mut empty = good;
    empty.data = AccountData::Empty;
    assert_eq!(
        NcnResolverProgramConfig::load(&program_id, &empty, &ncn, false),
        Err(ProgramError::InvalidAccountData)
    );
    let mut wrong_kind = good;
    wrong_kind.data = AccountData::Resolver(Resolver::new(key(1), key(1), 0, 0));
    assert_eq!(
        NcnResolverProgramConfig::load(&program_id, &wrong_kind, &ncn, false),
        Err(ProgramError::InvalidAccountData)
    );
    let mut elsewhere = good;
    elsewhere.key = key(7);
    assert_eq!(
        NcnResolverProgramConfig::load(&program_id, &elsewhere, &ncn, false),
        Err(ProgramError::InvalidAccountData)
    );
    let other_ncn = info(key(3), key(3), AccountData::Other);
    assert_eq!(
        NcnResolverProgramConfig::load(&program_id, &good, &other_ncn, false),
        Err(ProgramError::InvalidAccountData)
    );
}

#[test]
fn loading_the_other_records() {
    let program_id = key(9);
    let ncn = info(key(1), key(1), AccountData::Other);
    let operator = info(key(2), key(2), AccountData::Other);

    let (address, bump, _) = Config::find_program_address(&program_id).unwrap();
    let config = info(
        address,
        program_id,
        AccountData::Config(Config::new(key(1), key(2), key(3), bump)),
    );
    assert_eq!(Config::load(&program_id, &config, false), Ok(()));
    assert_eq!(Config::load(&key(8), &config, false), Err(ProgramError::InvalidAccountOwner));

    let (address, bump, _) = Resolver::find_program_address(&program_id, &key(4)).unwrap();
    let resolver =
        info(address, program_id, AccountData::Resolver(Resolver::new(key(4), key(5), 0, bump)));
    assert_eq!(Resolver::load(&program_id, &resolver, false), Ok(()));
    let mut other_base = resolver;
    other_base.data = AccountData::Resolver(Resolver::new(key(6), key(5), 0, bump));
    assert_eq!(
        Resolver::load(&program_id, &other_base, false),
        Err(ProgramError::InvalidAccountData)
    );
    let mut not_a_resolver = resolver;
    not_a_resolver.data = AccountData::Other;
    assert_eq!(
        Resolver::load(&program_id, &not_a_resolver, false),
        Err(ProgramError::InvalidAccountData)
    );

    let (address, bump, _) = Slasher::find_program_address(&program_id, &key(4)).unwrap();
    let slasher =
        info(address, program_id, AccountData::Slasher(Slasher::new(key(4), key(5), 0, bump)));
    assert_eq!(Slasher::load(&program_id, &slasher, false), Ok(()));
    assert_eq!(Slasher::load(&program_id, &resolver, false), Err(ProgramError::InvalidAccountData));
    assert_eq!(Resolver::load(&program_id, &slasher, false), Err(ProgramError::InvalidAccountData));

    let (address, bump, _) =
        SlashProposal::find_program_address(&program_id, &ncn.key, &operator.key, &slasher.key)
            .unwrap();
    let proposal = info(
        address,
        program_id,
        AccountData::SlashProposal(SlashProposal::new(operator.key, slasher.key, 1, 2, 3, bump)),
    );
    assert_eq!(SlashProposal::load(&program_id, &proposal, &ncn, &operator, &slasher, false), Ok(()));
    assert_eq!(
        SlashProposal::load(&program_id, &proposal, &operator, &ncn, &slasher, false),
        Err(ProgramError::InvalidAccountData)
    );

    let (address, bump, _) =
        NcnSlashProposalTicket::find_program_address(&program_id, &ncn.key, &proposal.key).unwrap();
    let ticket = info(
        address,
        program_id,
        AccountData::NcnSlashProposalTicket(NcnSlashProposalTicket::new(
            ncn.key,
            proposal.key,
            bump,
        )),
    );
    assert_eq!(NcnSlashProposalTicket::load(&program_id, &ticket, &ncn, &proposal, false), Ok(()));
    assert_eq!(
        NcnSlashProposalTicket::load(&program_id, &ticket, &ncn, &slasher, false),
        Err(ProgramError::InvalidAccountData)
    );
}

#[test]
fn signers_system_accounts_and_the_system_program() {
    let mut a = info(key(1), Pubkey::default(), AccountData::Empty);
    assert_eq!(load_signer(&a, false), Err(ProgramError::MissingRequiredSignature));
    a.is_signer = true;
    assert_eq!(load_signer(&a, false), Ok(()));
    assert_eq!(load_signer(&a, true), Err(ProgramError::InvalidAccountData));
    a.is_writable = true;
    assert_eq!(load_signer(&a, true), Ok(()));

    assert_eq!(load_system_account(&a, true), Ok(()));
    a.is_writable = false;
    assert_eq!(load_system_account(&a, false), Ok(()));
    assert_eq!(load_system_account(&a, true), Err(ProgramError::InvalidAccountData));
    a.data = AccountData::Other;
    assert_eq!(load_system_account(&a, false), Err(ProgramError::AccountAlreadyInitialized));
    a.owner = key(2);
    assert_eq!(load_system_account(&a, false), Err(ProgramError::InvalidAccountOwner));
    assert!(!a.data_is_empty());

    assert_eq!(load_system_program(&a), Err(ProgramError::IncorrectProgramId));
    a.key = Pubkey::default();
    assert_eq!(load_system_program(&a), Ok(()));
}
