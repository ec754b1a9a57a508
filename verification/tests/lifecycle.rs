use ncn_resolver::account_info::{AccountData, AccountInfo};
use ncn_resolver::config::Config;
use ncn_resolver::delete_slash_proposal::{process_delete_slash_proposal, Deletion};
use ncn_resolver::error::{ProgramError, ResolverError};
use ncn_resolver::execute_slash::{process_execute_slash, ExecuteSlashChecks};
use ncn_resolver::ncn_resolver_program_config::NcnResolverProgramConfig;
use ncn_resolver::ncn_slash_proposal_ticket::NcnSlashProposalTicket;
use ncn_resolver::propose_slash::process_propose_slash;
use ncn_resolver::pubkey::Pubkey;
use ncn_resolver::resolver::Resolver;
use ncn_resolver::set_resolver::process_set_resolver;
use ncn_resolver::slash_proposal::SlashProposal;
use ncn_resolver::slasher::Slasher;
use ncn_resolver::veto_slash::process_veto_slash;

const VETO_DURATION: u64 = 100;
const DELETE_SLASH_PROPOSAL_DURATION: u64 = 100;

fn key(n: u8) -> Pubkey {
    let mut bytes = [0u8; 32];
    bytes[0] = n;
    bytes[31] = 0xA5;
    Pubkey::new_from_array(bytes)
}

fn custom(e: ResolverError) -> ProgramError {
    ProgramError::Custom(e.code())
}

fn account(key: Pubkey, owner: Pubkey, data: AccountData) -> AccountInfo {
    AccountInfo { key, owner, is_signer: false, is_writable: true, data }
}

fn signer(key: Pubkey) -> AccountInfo {
    AccountInfo {
        key,
        owner: Pubkey::default(),
        is_signer: true,
        is_writable: true,
        data: AccountData::Empty,
    }
}

fn other(key: Pubkey) -> AccountInfo {
    account(key, key, AccountData::Other)
}

fn ok_checks() -> ExecuteSlashChecks {
    ExecuteSlashChecks { registry: Ok(()), linkage: Ok(()), token_program: Ok(()) }
}

/// The accounts of one NCN with one operator, one slasher and one resolver.
struct World {
    program_id: Pubkey,
    config: AccountInfo,
    policy: AccountInfo,
    ncn: AccountInfo,
    operator: AccountInfo,
    slasher: AccountInfo,
    slasher_admin: AccountInfo,
    resolver: AccountInfo,
    resolver_admin: AccountInfo,
    ncn_admin: AccountInfo,
    slash_proposal: AccountInfo,
    ticket: AccountInfo,
    system_program: AccountInfo,
    payer: AccountInfo,
}

impl World {
    fn new() -> World {
        let program_id = key(1);
        let ncn = other(key(2));
        let operator = other(key(3));
        let slasher_admin = signer(key(4));
        let resolver_admin = signer(key(5));
        let ncn_admin = signer(key(6));
        let payer = signer(key(7));

        let (config_key, config_bump, _) = Config::find_program_address(&program_id).unwrap();
        let config = account(
            config_key,
            program_id,
            AccountData::Config(Config::new(key(8), key(9), key(10), config_bump)),
        );

        let (policy_key, policy_bump, _) =
            NcnResolverProgramConfig::find_program_address(&program_id, &ncn.key).unwrap();
        let policy = account(
            policy_key,
            program_id,
            AccountData::NcnResolverProgramConfig(NcnResolverProgramConfig::new(
                ncn_admin.key,
                VETO_DURATION,
                DELETE_SLASH_PROPOSAL_DURATION,
                policy_bump,
            )),
        );

        let slasher_base = key(11);
        let (slasher_key, slasher_bump, _) =
            Slasher::find_program_address(&program_id, &slasher_base).unwrap();
        let slasher = account(
            slasher_key,
            program_id,
            AccountData::Slasher(Slasher::new(slasher_base, slasher_admin.key, 0, slasher_bump)),
        );

        let resolver_base = key(12);
        let (resolver_key, resolver_bump, _) =
            Resolver::find_program_address(&program_id, &resolver_base).unwrap();
        let resolver = account(
            resolver_key,
            program_id,
            AccountData::Resolver(Resolver::new(
                resolver_base,
                resolver_admin.key,
                0,
                resolver_bump,
            )),
        );

        let (proposal_key, _, _) = SlashProposal::find_program_address(
            &program_id,
            &ncn.key,
            &operator.key,
            &slasher.key,
        )
        .unwrap();
        let slash_proposal = account(proposal_key, Pubkey::default(), AccountData::Empty);
        let (ticket_key, _, _) =
            NcnSlashProposalTicket::find_program_address(&program_id, &ncn.key, &proposal_key)
                .unwrap();
        let ticket = account(ticket_key, Pubkey::default(), AccountData::Empty);

        World {
            program_id,
            config,
            policy,
            ncn,
            operator,
            slasher,
            slasher_admin,
            resolver,
            resolver_admin,
            ncn_admin,
            slash_proposal,
            ticket,
            system_program: other(Pubkey::default()),
            payer,
        }
    }

    fn propose_accounts(&self) -> Vec<AccountInfo> {
        vec![
            self.config,
            self.policy,
            self.ncn,
            self.operator,
            self.slasher,
            self.slash_proposal,
            self.ticket,
            self.slasher_admin,
            self.system_program,
        ]
    }

    /// Proposes, and writes what the proposal returned to the two accounts.
    fn propose(&mut self, amount: u64, slot: u64) -> Result<(), ProgramError> {
        let proposed =
            process_propose_slash(&self.program_id, &self.propose_accounts(), amount, Ok(()), slot)?;
        self.slash_proposal.owner = self.program_id;
        self.slash_proposal.data = AccountData::SlashProposal(proposed.slash_proposal);
        self.ticket.owner = self.program_id;
        self.ticket.data = AccountData::NcnSlashProposalTicket(proposed.ncn_slash_proposal_ticket);
        Ok(())
    }

    fn set_resolver_accounts(&self, admin: AccountInfo, new_resolver: Pubkey) -> Vec<AccountInfo> {
        vec![
            self.config,
            self.policy,
            self.ncn,
            self.operator,
            self.slasher,
            self.slash_proposal,
            self.ticket,
            admin,
            other(new_resolver),
        ]
    }

    fn set_resolver(&mut self, new_resolver: Pubkey) -> Result<(), ProgramError> {
        let ticket = process_set_resolver(
            &self.program_id,
            &self.set_resolver_accounts(self.ncn_admin, new_resolver),
            Ok(()),
        )?;
        self.ticket.data = AccountData::NcnSlashProposalTicket(ticket);
        Ok(())
    }

    fn veto_accounts(&self) -> Vec<AccountInfo> {
        vec![
            self.config,
            self.ncn,
            self.operator,
            self.slasher,
            self.resolver,
            self.slash_proposal,
            self.ticket,
            self.resolver_admin,
            self.system_program,
        ]
    }

    fn veto(&mut self, slot: u64) -> Result<(), ProgramError> {
        let proposal = process_veto_slash(&self.program_id, &self.veto_accounts(), Ok(()), slot)?;
        self.slash_proposal.data = AccountData::SlashProposal(proposal);
        Ok(())
    }

    fn execute_accounts(&self) -> Vec<AccountInfo> {
        let mut accounts = vec![
            self.config,
            self.policy,
            other(key(20)),
            self.ncn,
            self.operator,
            self.slasher,
            other(key(21)),
            self.slasher_admin,
        ];
        for n in 22..32 {
            accounts.push(other(key(n)));
        }
        accounts.push(self.resolver);
        accounts.push(self.slash_proposal);
        accounts.push(self.ticket);
        accounts.push(other(key(40)));
        accounts.push(other(key(10)));
        accounts
    }

    /// Executes against a vault with the given balance, which refuses if
    /// `vault_fails`; writes the proposal only if the vault slashed.
    fn execute(&mut self, slot: u64, vault: &mut u64, vault_fails: bool) -> Result<(), ProgramError> {
        let order =
            process_execute_slash(&self.program_id, &self.execute_accounts(), ok_checks(), slot)?;
        let answer = if vault_fails || order.amount > *vault {
            Err(ProgramError::InsufficientFunds)
        } else {
            *vault -= order.amount;
            Ok(())
        };
        let proposal = order.settle(answer)?;
        self.slash_proposal.data = AccountData::SlashProposal(proposal);
        Ok(())
    }

    fn delete_accounts(&self) -> Vec<AccountInfo> {
        vec![
            self.config,
            self.ncn,
            self.operator,
            self.slasher,
            self.slash_proposal,
            self.ticket,
            self.payer,
            self.system_program,
        ]
    }

    fn delete(&mut self, slot: u64) -> Result<Deletion, ProgramError> {
        let deletion =
            process_delete_slash_proposal(&self.program_id, &self.delete_accounts(), Ok(()), slot)?;
        self.slash_proposal.owner = Pubkey::default();
        self.slash_proposal.data = AccountData::Empty;
        self.ticket.owner = Pubkey::default();
        self.ticket.data = AccountData::Empty;
        Ok(deletion)
    }

    fn proposal(&self) -> SlashProposal {
        match self.slash_proposal.data {
            AccountData::SlashProposal(p) => p,
            _ => panic!("no slash proposal"),
        }
    }

    fn ticket(&self) -> NcnSlashProposalTicket {
        match self.ticket.data {
            AccountData::NcnSlashProposalTicket(t) => t,
            _ => panic!("no ticket"),
        }
    }
}

#[test]
fn test_propose_slash_ok() {
    let mut world = World::new();
    world.propose(100, 0).unwrap();

    let slash_proposal = world.proposal();
    assert_eq!(slash_proposal.operator, world.operator.key);
    assert_eq!(slash_proposal.slasher, world.slasher.key);
    assert_eq!(slash_proposal.amount(), 100);
    assert!(!slash_proposal.completed());
    assert_eq!(slash_proposal.capture_slot, 0);
    assert_eq!(slash_proposal.veto_deadline_slot(), 100);
    assert_eq!(slash_proposal.delete_deadline_slot(), 100);

    let ticket = world.ticket();
    assert_eq!(ticket.ncn, world.ncn.key);
    assert_eq!(ticket.slash_proposal, world.slash_proposal.key);
    assert_eq!(ticket.resolver, Pubkey::default());
}

#[test]
fn propose_returns_the_signing_seeds_of_both_accounts() {
    let world = World::new();
    let proposed =
        process_propose_slash(&world.program_id, &world.propose_accounts(), 7, Ok(()), 5).unwrap();
    assert_eq!(
        proposed.slash_proposal_seeds,
        vec![
            b"slash_proposal".to_vec(),
            world.ncn.key.to_vec(),
            world.operator.key.to_vec(),
            world.slasher.key.to_vec(),
            vec![proposed.slash_proposal.bump],
        ]
    );
    assert_eq!(
        proposed.ncn_slash_proposal_ticket_seeds,
        vec![
            b"ncn_slash_proposal_ticket".to_vec(),
            world.ncn.key.to_vec(),
            world.slash_proposal.key.to_vec(),
            vec![proposed.ncn_slash_proposal_ticket.bump],
        ]
    );
    assert_eq!(proposed.slash_proposal.veto_deadline_slot, 105);
}

#[test]
fn propose_accepts_an_amount_of_zero() {
    let mut world = World::new();
    world.propose(0, 3).unwrap();
    assert_eq!(world.proposal().amount(), 0);
}

#[test]
fn propose_twice_is_refused() {
    let mut world = World::new();
    world.propose(100, 0).unwrap();
    assert_eq!(world.propose(100, 1), Err(ProgramError::InvalidAccountOwner));

    // an account that holds data, though the system program owns it
    world.slash_proposal.owner = Pubkey::default();
    assert_eq!(world.propose(100, 1), Err(ProgramError::AccountAlreadyInitialized));
}

#[test]
fn propose_needs_the_admin_of_the_slasher() {
    let mut world = World::new();
    world.slasher_admin = signer(key(99));
    assert_eq!(world.propose(100, 0), Err(custom(ResolverError::SlasherAdminInvalid)));

    let mut world = World::new();
    world.slasher_admin.is_signer = false;
    assert_eq!(world.propose(100, 0), Err(ProgramError::MissingRequiredSignature));
}

#[test]
fn propose_refuses_a_deadline_that_overflows() {
    let mut world = World::new();
    assert_eq!(
        world.propose(100, u64::MAX - 99),
        Err(custom(ResolverError::ArithmeticOverflow))
    );
    world.propose(100, u64::MAX - 100).unwrap();
    assert_eq!(world.proposal().veto_deadline_slot(), u64::MAX);
}

#[test]
fn propose_refuses_accounts_at_other_addresses() {
    let mut world = World::new();
    world.slash_proposal.key = key(50);
    assert_eq!(world.propose(100, 0), Err(ProgramError::InvalidAccountData));

    let mut world = World::new();
    world.ticket.key = key(51);
    assert_eq!(world.propose(100, 0), Err(ProgramError::InvalidAccountData));
}

#[test]
fn propose_hands_on_what_the_registry_said() {
    let world = World::new();
    let res = process_propose_slash(
        &world.program_id,
        &world.propose_accounts(),
        100,
        Err(ProgramError::UninitializedAccount),
        0,
    );
    assert_eq!(res.err(), Some(ProgramError::UninitializedAccount));
}

#[test]
fn every_operation_counts_its_accounts() {
    let world = World::new();
    let mut accounts = world.propose_accounts();
    accounts.pop();
    assert_eq!(
        process_propose_slash(&world.program_id, &accounts, 1, Ok(()), 0).err(),
        Some(ProgramError::NotEnoughAccountKeys)
    );
    assert_eq!(
        process_veto_slash(&world.program_id, &accounts, Ok(()), 0),
        Err(ProgramError::NotEnoughAccountKeys)
    );
    assert_eq!(
        process_set_resolver(&world.program_id, &accounts, Ok(())),
        Err(ProgramError::NotEnoughAccountKeys)
    );
    assert_eq!(
        process_execute_slash(&world.program_id, &accounts, ok_checks(), 0).err(),
        Some(ProgramError::NotEnoughAccountKeys)
    );
    assert_eq!(
        process_delete_slash_proposal(&world.program_id, &accounts[..7], Ok(()), 0),
        Err(ProgramError::NotEnoughAccountKeys)
    );
}

#[test]
fn test_set_resolver_ok() {
    let mut world = World::new();
    world.propose(100, 0).unwrap();
    assert_eq!(world.ticket().resolver, Pubkey::default());

    let new_resolver = key(60);
    world.set_resolver(new_resolver).unwrap();
    assert_eq!(world.ticket().resolver, new_resolver);
}

#[test]
fn set_resolver_changes_the_resolver_of_the_ticket_only() {
    let mut world = World::new();
    world.propose(100, 0).unwrap();
    let proposal_before = world.proposal();
    let ticket_before = world.ticket();

    world.set_resolver(world.resolver.key).unwrap();

    let ticket = world.ticket();
    assert_eq!(ticket.resolver, world.resolver.key);
    assert_eq!(ticket.ncn, ticket_before.ncn);
    assert_eq!(ticket.slash_proposal, ticket_before.slash_proposal);
    assert_eq!(ticket.bump, ticket_before.bump);

    let proposal = world.proposal();
    assert_eq!(proposal, proposal_before);
    assert_eq!(proposal.amount(), 100);
    assert_eq!(proposal.capture_slot, 0);
    assert_eq!(proposal.veto_deadline_slot(), 100);
    assert_eq!(proposal.delete_deadline_slot(), 100);
    assert!(!proposal.completed());
}

#[test]
fn set_resolver_needs_the_one_whom_the_policy_names() {
    let mut world = World::new();
    world.propose(100, 0).unwrap();
    let res = process_set_resolver(
        &world.program_id,
        &world.set_resolver_accounts(world.slasher_admin, key(60)),
        Ok(()),
    );
    assert_eq!(res, Err(ProgramError::InvalidAccountData));

    let mut unsigned = world.ncn_admin;
    unsigned.is_signer = false;
    let res = process_set_resolver(
        &world.program_id,
        &world.set_resolver_accounts(unsigned, key(60)),
        Ok(()),
    );
    assert_eq!(res, Err(ProgramError::MissingRequiredSignature));
}

#[test]
fn set_resolver_works_on_a_completed_proposal() {
    let mut world = World::new();
    world.propose(100, 0).unwrap();
    world.set_resolver(world.resolver.key).unwrap();
    world.veto(10).unwrap();
    world.set_resolver(key(61)).unwrap();
    assert_eq!(world.ticket().resolver, key(61));
    assert!(world.proposal().completed());
}

#[test]
fn test_veto_slash_ok() {
    let mut world = World::new();
    world.propose(100, 0).unwrap();
    world.set_resolver(world.resolver.key).unwrap();

    let slash_proposal = world.proposal();
    assert_eq!(slash_proposal.operator, world.operator.key);
    assert_eq!(slash_proposal.slasher, world.slasher.key);
    assert_eq!(slash_proposal.amount(), 100);
    assert!(!slash_proposal.completed());

    world.veto(1).unwrap();

    let slash_proposal = world.proposal();
    assert_eq!(slash_proposal.operator, world.operator.key);
    assert_eq!(slash_proposal.slasher, world.slasher.key);
    assert_eq!(slash_proposal.amount(), 100);
    assert!(slash_proposal.completed());
}

#[test]
fn veto_then_nothing_else() {
    let mut world = World::new();
    let mut vault = 10_000u64;
    world.propose(100, 0).unwrap();
    assert_eq!(world.proposal().veto_deadline_slot(), 100);
    world.set_resolver(world.resolver.key).unwrap();

    world.veto(50).unwrap();
    assert!(world.proposal().completed());

    assert_eq!(world.veto(51), Err(custom(ResolverError::SlashProposalCompleted)));
    assert_eq!(world.veto(101), Err(custom(ResolverError::SlashProposalCompleted)));
    assert_eq!(
        world.execute(101, &mut vault, false),
        Err(custom(ResolverError::SlashProposalCompleted))
    );
    assert_eq!(
        world.execute(60, &mut vault, false),
        Err(custom(ResolverError::SlashProposalCompleted))
    );
    assert_eq!(vault, 10_000);
    assert_eq!(world.proposal().delete_deadline_slot(), 100);
}

#[test]
fn veto_window_closes_at_the_deadline() {
    for (slot, expected) in [
        (0u64, Ok(())),
        (99, Ok(())),
        (100, Err(custom(ResolverError::SlashProposalVetoPeriodEnded))),
        (101, Err(custom(ResolverError::SlashProposalVetoPeriodEnded))),
        (u64::MAX, Err(custom(ResolverError::SlashProposalVetoPeriodEnded))),
    ] {
        let mut world = World::new();
        world.propose(100, 0).unwrap();
        world.set_resolver(world.resolver.key).unwrap();
        assert_eq!(world.veto(slot), expected, "slot {}", slot);
        assert_eq!(world.proposal().completed(), expected.is_ok());
    }
}

#[test]
fn veto_needs_the_admin_of_the_assigned_resolver() {
    let mut world = World::new();
    world.propose(100, 0).unwrap();

    // no resolver assigned yet
    assert_eq!(world.veto(1), Err(custom(ResolverError::SlashProposalResolverInvalid)));

    world.set_resolver(world.resolver.key).unwrap();
    let admin = world.resolver_admin;
    world.resolver_admin = signer(key(98));
    assert_eq!(world.veto(1), Err(custom(ResolverError::ResolverAdminInvalid)));

    world.resolver_admin = admin;
    world.resolver_admin.is_signer = false;
    assert_eq!(world.veto(1), Err(ProgramError::MissingRequiredSignature));
    assert!(!world.proposal().completed());
}

#[test]
fn veto_refuses_a_ticket_of_another_proposal() {
    let mut world = World::new();
    world.propose(100, 0).unwrap();
    world.set_resolver(world.resolver.key).unwrap();
    let mut ticket = world.ticket();
    ticket.slash_proposal = key(70);
    world.ticket.data = AccountData::NcnSlashProposalTicket(ticket);
    assert_eq!(world.veto(1), Err(custom(ResolverError::SlashProposalInvalid)));
}

#[test]
fn veto_refuses_accounts_of_other_programs_and_kinds() {
    let mut world = World::new();
    world.propose(100, 0).unwrap();
    world.set_resolver(world.resolver.key).unwrap();

    let mut strange = World::new();
    strange.propose(100, 0).unwrap();
    strange.slash_proposal.owner = key(77);
    assert_eq!(strange.veto(1), Err(ProgramError::InvalidAccountOwner));

    let saved = world.slash_proposal;
    world.slash_proposal.data = world.ticket.data;
    assert_eq!(world.veto(1), Err(ProgramError::InvalidAccountData));
    world.slash_proposal = saved;

    world.system_program.key = key(78);
    assert_eq!(world.veto(1), Err(ProgramError::IncorrectProgramId));
}

#[test]
fn test_execute_slash_ok() {
    let mut world = World::new();
    let mut vault = 10_000u64;
    world.propose(100, 0).unwrap();

    world.execute(101, &mut vault, false).unwrap();

    let slash_proposal = world.proposal();
    assert_eq!(slash_proposal.operator, world.operator.key);
    assert_eq!(slash_proposal.slasher, world.slasher.key);
    assert_eq!(slash_proposal.amount(), 100);
    assert!(slash_proposal.completed());
}

#[test]
fn execute_waits_for_the_veto_deadline() {
    let mut world = World::new();
    let mut vault = 10_000u64;
    world.propose(100, 0).unwrap();

    assert_eq!(
        world.execute(50, &mut vault, false),
        Err(custom(ResolverError::SlashProposalVetoPeriodNotEnded))
    );
    assert_eq!(
        world.execute(99, &mut vault, false),
        Err(custom(ResolverError::SlashProposalVetoPeriodNotEnded))
    );
    assert!(!world.proposal().completed());
    assert_eq!(vault, 10_000);

    world.execute(101, &mut vault, false).unwrap();
    let proposal = world.proposal();
    assert!(proposal.completed());
    assert_eq!(vault, 9_900);
    assert_eq!(proposal.delete_deadline_slot(), 200);
    assert_eq!(proposal.veto_deadline_slot(), 100);
    assert_eq!(proposal.amount(), 100);

    assert_eq!(
        world.execute(102, &mut vault, false),
        Err(custom(ResolverError::SlashProposalCompleted))
    );
    assert_eq!(vault, 9_900);
}

#[test]
fn execute_at_the_deadline_itself() {
    let mut world = World::new();
    let mut vault = 500u64;
    world.propose(100, 0).unwrap();
    world.execute(100, &mut vault, false).unwrap();
    assert_eq!(vault, 400);
}

#[test]
fn execute_orders_the_slash_in_the_name_of_the_slasher() {
    let mut world = World::new();
    world.propose(100, 0).unwrap();
    let slot = 3 * 432_000 + 17;
    let order =
        process_execute_slash(&world.program_id, &world.execute_accounts(), ok_checks(), slot)
            .unwrap();
    let slasher = match world.slasher.data {
        AccountData::Slasher(s) => s,
        _ => unreachable!(),
    };
    assert_eq!(order.amount, 100);
    assert_eq!(order.epoch, 3);
    assert_eq!(order.vault_program, key(10));
    assert_eq!(
        order.signing_seeds,
        vec![b"slasher".to_vec(), slasher.base.to_vec(), vec![slasher.bump]]
    );
    assert!(order.staged.completed());
    // nothing was written yet
    assert!(!world.proposal().completed());
}

#[test]
fn execute_that_the_vault_refuses_changes_nothing() {
    let mut world = World::new();
    let mut vault = 10_000u64;
    world.propose(100, 0).unwrap();
    let before = world.proposal();

    assert_eq!(world.execute(101, &mut vault, true), Err(ProgramError::InsufficientFunds));
    assert_eq!(world.proposal(), before);
    assert!(!world.proposal().completed());
    assert_eq!(world.proposal().delete_deadline_slot(), 100);
    assert_eq!(vault, 10_000);

    // and can be tried again
    world.execute(102, &mut vault, false).unwrap();
    assert!(world.proposal().completed());
    assert_eq!(vault, 9_900);
}

#[test]
fn executed_proposal_cannot_be_vetoed() {
    let mut world = World::new();
    let mut vault = 10_000u64;
    world.propose(100, 0).unwrap();
    world.set_resolver(world.resolver.key).unwrap();
    world.execute(100, &mut vault, false).unwrap();

    assert_eq!(world.veto(101), Err(custom(ResolverError::SlashProposalCompleted)));
    assert_eq!(world.veto(100), Err(custom(ResolverError::SlashProposalCompleted)));
    assert_eq!(world.veto(99), Err(custom(ResolverError::SlashProposalCompleted)));
}

#[test]
fn execute_needs_the_admin_of_the_slasher() {
    let mut world = World::new();
    let mut vault = 10_000u64;
    world.propose(100, 0).unwrap();
    let admin = world.slasher_admin;

    world.slasher_admin = signer(key(97));
    assert_eq!(
        world.execute(101, &mut vault, false),
        Err(custom(ResolverError::SlasherAdminInvalid))
    );
    world.slasher_admin = admin;
    world.slasher_admin.is_signer = false;
    assert_eq!(world.execute(101, &mut vault, false), Err(ProgramError::MissingRequiredSignature));
    assert_eq!(vault, 10_000);
}

#[test]
fn execute_checks_everything_before_it_stages() {
    let mut world = World::new();
    world.propose(100, 0).unwrap();
    let accounts = world.execute_accounts();

    for position in 0..3 {
        let mut checks = ok_checks();
        let failure = ProgramError::Custom(7_000 + position);
        match position {
            0 => checks.registry = Err(failure.clone()),
            1 => checks.linkage = Err(failure.clone()),
            _ => checks.token_program = Err(failure.clone()),
        }
        let res = process_execute_slash(&world.program_id, &accounts, checks, 101);
        assert_eq!(res.err(), Some(failure));
    }

    // the registry is heard before the tickets, the tickets before the token program
    let checks = ExecuteSlashChecks {
        registry: Err(ProgramError::InvalidAccountOwner),
        linkage: Err(ProgramError::InvalidAccountData),
        token_program: Err(ProgramError::IncorrectProgramId),
    };
    let res = process_execute_slash(&world.program_id, &accounts, checks, 101);
    assert_eq!(res.err(), Some(ProgramError::InvalidAccountOwner));
}

#[test]
fn execute_refuses_an_epoch_length_of_zero() {
    let mut world = World::new();
    world.propose(100, 0).unwrap();
    let mut config = match world.config.data {
        AccountData::Config(c) => c,
        _ => unreachable!(),
    };
    config.epoch_length = 0;
    world.config.data = AccountData::Config(config);
    let mut vault = 1_000u64;
    assert_eq!(
        world.execute(101, &mut vault, false),
        Err(custom(ResolverError::DivisionByZero))
    );
}

#[test]
fn execute_refuses_a_delete_deadline_that_overflows() {
    let mut world = World::new();
    world.propose(100, u64::MAX - 100).unwrap();
    let mut vault = 1_000u64;
    assert_eq!(
        world.execute(u64::MAX, &mut vault, false),
        Err(custom(ResolverError::ArithmeticOverflow))
    );
    assert!(!world.proposal().completed());
    assert_eq!(vault, 1_000);
}

#[test]
fn test_delete_slash_proposal_ok() {
    let mut world = World::new();
    world.propose(100, 0).unwrap();
    world.set_resolver(world.resolver.key).unwrap();
    world.veto(1).unwrap();

    let deletion = world.delete(101).unwrap();
    assert_eq!(deletion.slash_proposal, world.slash_proposal.key);
    assert_eq!(deletion.ncn_slash_proposal_ticket, world.ticket.key);
    assert_eq!(deletion.destination, world.payer.key);

    assert_eq!(world.slash_proposal.data, AccountData::Empty);
    assert_eq!(world.ticket.data, AccountData::Empty);
    // once deleted, neither account holds the record any more
    assert_eq!(world.veto(102), Err(ProgramError::InvalidAccountOwner));
}

#[test]
fn delete_waits_for_the_delete_deadline() {
    // vetoed: deletable from the veto deadline on
    let mut world = World::new();
    world.propose(100, 0).unwrap();
    world.set_resolver(world.resolver.key).unwrap();
    world.veto(50).unwrap();
    assert_eq!(
        world.delete(99),
        Err(custom(ResolverError::SlashProposalDeleteDeadlineNotEnded))
    );
    assert!(world.delete(100).is_ok());

    // executed: deletable only after the grace period
    let mut world = World::new();
    let mut vault = 1_000u64;
    world.propose(100, 0).unwrap();
    world.execute(101, &mut vault, false).unwrap();
    assert_eq!(
        world.delete(199),
        Err(custom(ResolverError::SlashProposalDeleteDeadlineNotEnded))
    );
    assert!(world.delete(200).is_ok());
}

#[test]
fn delete_refuses_an_open_proposal() {
    let mut world = World::new();
    world.propose(100, 0).unwrap();
    assert_eq!(
        world.delete(50),
        Err(custom(ResolverError::SlashProposalDeleteDeadlineNotEnded))
    );
    assert_eq!(world.delete(100), Err(custom(ResolverError::SlashProposalNotCompleted)));
    assert_eq!(world.delete(5_000), Err(custom(ResolverError::SlashProposalNotCompleted)));
    assert!(matches!(world.slash_proposal.data, AccountData::SlashProposal(_)));
}

#[test]
fn delete_is_open_to_any_payer() {
    let mut world = World::new();
    world.propose(100, 0).unwrap();
    world.set_resolver(world.resolver.key).unwrap();
    world.veto(1).unwrap();
    world.payer = signer(key(123));
    assert_eq!(world.delete(100).unwrap().destination, key(123));

    let mut world = World::new();
    world.propose(100, 0).unwrap();
    world.set_resolver(world.resolver.key).unwrap();
    world.veto(1).unwrap();
    world.payer.is_signer = false;
    assert_eq!(world.delete(100), Err(ProgramError::MissingRequiredSignature));
}

#[test]
fn a_deleted_proposal_can_be_proposed_again() {
    let mut world = World::new();
    world.propose(100, 0).unwrap();
    world.set_resolver(world.resolver.key).unwrap();
    world.veto(1).unwrap();
    world.delete(100).unwrap();
    world.propose(250, 300).unwrap();
    let proposal = world.proposal();
    assert_eq!(proposal.amount(), 250);
    assert_eq!(proposal.capture_slot, 300);
    assert_eq!(proposal.veto_deadline_slot(), 400);
    assert!(!proposal.completed());
}
