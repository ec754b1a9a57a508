use ncn_resolver::error::{lift, ProgramError, ResolverError};
use ncn_resolver::instruction::{ResolverInstruction, SlasherAdminRole};
use ncn_resolver::pubkey::Pubkey;
use ncn_resolver::sdk;
use ncn_resolver::sdk::AccountMeta;

const ALL: [ResolverError; 14] = [
    ResolverError::ResolverAdminInvalid,
    ResolverError::SlashProposalVetoPeriodEnded,
    ResolverError::SlashProposalCompleted,
    ResolverError::SlashProposalVetoPeriodNotEnded,
    ResolverError::SlashProposalInvalid,
    ResolverError::SlashProposalResolverInvalid,
    ResolverError::SlashProposalDeleteDeadlineNotEnded,
    ResolverError::SlashProposalNotCompleted,
    ResolverError::SlasherAdminInvalid,
    ResolverError::SlasherDelegateAdminInvalid,
    ResolverError::NcnAdminInvalid,
    ResolverError::ArithmeticOverflow,
    ResolverError::ArithmeticUnderflow,
    ResolverError::DivisionByZero,
];

fn key(n: u8) -> Pubkey {
    Pubkey::new_from_array([n; 32])
}

#[test]
fn every_failure_has_its_number() {
    assert_eq!(ResolverError::ResolverAdminInvalid.code(), 0);
    assert_eq!(ResolverError::SlashProposalVetoPeriodEnded.code(), 1);
    assert_eq!(ResolverError::SlashProposalCompleted.code(), 2);
    assert_eq!(ResolverError::SlashProposalVetoPeriodNotEnded.code(), 3);
    assert_eq!(ResolverError::SlashProposalInvalid.code(), 4);
    assert_eq!(ResolverError::SlashProposalResolverInvalid.code(), 5);
    assert_eq!(ResolverError::SlashProposalDeleteDeadlineNotEnded.code(), 6);
    assert_eq!(ResolverError::SlashProposalNotCompleted.code(), 7);
    assert_eq!(ResolverError::SlasherAdminInvalid.code(), 8);
    assert_eq!(ResolverError::SlasherDelegateAdminInvalid.code(), 9);
    assert_eq!(ResolverError::NcnAdminInvalid.code(), 10);
    assert_eq!(ResolverError::ArithmeticOverflow.code(), 3000);
    assert_eq!(ResolverError::ArithmeticUnderflow.code(), 3001);
    assert_eq!(ResolverError::DivisionByZero.code(), 3002);
}

#[test]
fn numbers_and_failures_correspond() {
    for (i, a) in ALL.iter().enumerate() {
        assert_eq!(ResolverError::from_code(a.code()), Some(*a));
        for (j, b) in ALL.iter().enumerate() {
            assert_eq!(a.code() == b.code(), i == j);
        }
    }
    assert_eq!(ResolverError::from_code(11), None);
    assert_eq!(ResolverError::from_code(2999), None);
    assert_eq!(ResolverError::from_code(3003), None);
    assert_eq!(ResolverError::from_code(u32::MAX), None);
}

#[test]
fn failures_as_the_host_sees_them() {
    assert_eq!(
        ProgramError::from(ResolverError::SlashProposalCompleted),
        ProgramError::Custom(2)
    );
    assert_eq!(ProgramError::from(ResolverError::ArithmeticOverflow), ProgramError::Custom(3000));
    assert_eq!(u64::from(ResolverError::DivisionByZero), 3002);
    assert_eq!(u64::from(ResolverError::ResolverAdminInvalid), 0);
    for e in ALL {
        assert_eq!(ProgramError::from(e), ProgramError::Custom(e.code()));
        assert_eq!(u64::from(e), e.code() as u64);
    }
    assert_eq!(lift(Ok::<u8, ResolverError>(5)), Ok(5));
    assert_eq!(
        lift(Err::<u8, ResolverError>(ResolverError::SlasherAdminInvalid)),
        Err(ProgramError::Custom(8))
    );
    assert_eq!(ResolverError::type_of(), "resolver");
}

#[test]
fn failures_in_words() {
    assert_eq!(ResolverError::ResolverAdminInvalid.message(), "ResolverAdminInvalid");
    assert_eq!(
        ResolverError::SlashProposalVetoPeriodEnded.message(),
        "SlashProposalVetoPeriodEnded"
    );
    assert_eq!(ResolverError::SlashProposalCompleted.message(), "SlashProposalCompleted");
    assert_eq!(ResolverError::ArithmeticOverflow.message(), "ArithmeticOverflow");
    assert_eq!(ResolverError::ArithmeticUnderflow.message(), "ArithmeticUnderflow");
    assert_eq!(ResolverError::DivisionByZero.message(), "DivisionByZero");
    for e in ALL {
        assert_eq!(e.message(), format!("{:?}", e));
    }
}

fn all_instructions() -> Vec<(ResolverInstruction, Vec<u8>)> {
    let mut long = vec![1u8];
    long.extend_from_slice(&0x0102030405060708u64.to_le_bytes());
    long.extend_from_slice(&u64::MAX.to_le_bytes());
    vec![
        (ResolverInstruction::InitializeConfig, vec![0]),
        (
            ResolverInstruction::InitializeNcnResolverProgramConfig {
                veto_duration: 0x0102030405060708,
                delete_slash_proposal_duration: u64::MAX,
            },
            long,
        ),
        (ResolverInstruction::InitializeSlasher, vec![2]),
        (ResolverInstruction::InitializeResolver, vec![3]),
        (ResolverInstruction::ProposeSlash { slash_amount: 100 }, vec![4, 100, 0, 0, 0, 0, 0, 0, 0]),
        (ResolverInstruction::SetResolver, vec![5]),
        (ResolverInstruction::VetoSlash, vec![6]),
        (ResolverInstruction::ExecuteSlash, vec![7]),
        (ResolverInstruction::SlasherDelegateTokenAccount, vec![8]),
        (ResolverInstruction::SlasherSetAdmin, vec![9]),
        (
            ResolverInstruction::SlasherSetSecondaryAdmin(SlasherAdminRole::DelegateAdmin),
            vec![10, 0],
        ),
        (ResolverInstruction::DeleteSlashProposal, vec![11]),
    ]
}

#[test]
fn instructions_are_written_as_tag_and_arguments() {
    for (instruction, bytes) in all_instructions() {
        assert_eq!(instruction.try_to_vec(), bytes);
    }
    assert_eq!(
        ResolverInstruction::InitializeNcnResolverProgramConfig {
            veto_duration: 100,
            delete_slash_proposal_duration: 258,
        }
        .try_to_vec(),
        vec![1, 100, 0, 0, 0, 0, 0, 0, 0, 2, 1, 0, 0, 0, 0, 0, 0]
    );
}

#[test]
fn instructions_are_read_as_they_were_written() {
    for (instruction, bytes) in all_instructions() {
        assert_eq!(ResolverInstruction::try_from_slice(&bytes), Ok(instruction));
        assert_eq!(ResolverInstruction::try_from_slice(&instruction.try_to_vec()), Ok(instruction));
    }
}

#[test]
fn bytes_that_are_no_instruction_are_refused() {
    let bad = Err(ProgramError::InvalidInstructionData);
    assert_eq!(ResolverInstruction::try_from_slice(&[]), bad);
    assert_eq!(ResolverInstruction::try_from_slice(&[12]), bad);
    assert_eq!(ResolverInstruction::try_from_slice(&[255]), bad);
    assert_eq!(ResolverInstruction::try_from_slice(&[0, 0]), bad);
    assert_eq!(ResolverInstruction::try_from_slice(&[6, 1]), bad);
    assert_eq!(ResolverInstruction::try_from_slice(&[4]), bad);
    assert_eq!(ResolverInstruction::try_from_slice(&[4, 1, 2, 3, 4, 5, 6, 7]), bad);
    assert_eq!(ResolverInstruction::try_from_slice(&[4, 1, 2, 3, 4, 5, 6, 7, 8, 9]), bad);
    assert_eq!(ResolverInstruction::try_from_slice(&[1, 0, 0, 0, 0, 0, 0, 0, 0]), bad);
    assert_eq!(ResolverInstruction::try_from_slice(&[1; 18]), bad);
    assert_eq!(ResolverInstruction::try_from_slice(&[10]), bad);
    assert_eq!(ResolverInstruction::try_from_slice(&[10, 1]), bad);
    assert_eq!(ResolverInstruction::try_from_slice(&[10, 0, 0]), bad);
}

fn w(k: Pubkey, s: bool) -> AccountMeta {
    AccountMeta { pubkey: k, is_signer: s, is_writable: true }
}

fn r(k: Pubkey, s: bool) -> AccountMeta {
    AccountMeta { pubkey: k, is_signer: s, is_writable: false }
}

#[test]
fn account_metas() {
    assert_eq!(AccountMeta::new(key(1), true), w(key(1), true));
    assert_eq!(AccountMeta::new(key(1), false), w(key(1), false));
    assert_eq!(AccountMeta::new_readonly(key(2), true), r(key(2), true));
    assert_eq!(AccountMeta::new_readonly(key(2), false), r(key(2), false));
}

#[test]
fn the_instructions_of_the_initializers() {
    let system = Pubkey::default();
    let ix = sdk::initialize_config(&key(1), &key(2), &key(3), &key(4), &key(5));
    assert_eq!(ix.program_id, key(1));
    assert_eq!(
        ix.accounts,
        vec![w(key(2), false), w(key(3), true), r(key(4), false), r(key(5), false), r(system, false)]
    );
    assert_eq!(ix.data, vec![0]);

    let ix =
        sdk::initialize_ncn_resolver_program_config(&key(1), &key(2), &key(3), &key(4), &key(5), 100, 200);
    assert_eq!(
        ix.accounts,
        vec![r(key(2), false), r(key(3), false), w(key(4), false), w(key(5), true), r(system, false)]
    );
    assert_eq!(ix.data, vec![1, 100, 0, 0, 0, 0, 0, 0, 0, 200, 0, 0, 0, 0, 0, 0, 0]);

    let ix = sdk::initialize_resolver(&key(1), &key(2), &key(3), &key(4), &key(5), &key(6), &key(7));
    assert_eq!(
        ix.accounts,
        vec![
            r(key(2), false),
            w(key(3), false),
            r(key(4), false),
            w(key(5), false),
            w(key(6), true),
            w(key(7), true),
            r(system, false),
        ]
    );
    assert_eq!(ix.data, vec![3]);

    let ix = sdk::initialize_slasher(&key(1), &key(2), &key(3), &key(4), &key(5), &key(6), &key(7));
    assert_eq!(
        ix.accounts,
        vec![
            r(key(2), false),
            w(key(3), false),
            r(key(4), false),
            w(key(5), false),
            w(key(6), true),
            w(key(7), true),
            r(system, false),
        ]
    );
    assert_eq!(ix.data, vec![2]);
}

#[test]
fn the_instructions_of_the_lifecycle() {
    let system = Pubkey::default();
    let ix = sdk::propose_slash(
        &key(1), &key(2), &key(3), &key(4), &key(5), &key(6), &key(7), &key(8), &key(9), 100,
    );
    assert_eq!(ix.program_id, key(1));
    assert_eq!(
        ix.accounts,
        vec![
            r(key(2), false),
            r(key(3), false),
            r(key(4), false),
            r(key(5), false),
            r(key(6), false),
            w(key(7), false),
            w(key(8), false),
            w(key(9), true),
            r(system, false),
        ]
    );
    assert_eq!(ix.data, vec![4, 100, 0, 0, 0, 0, 0, 0, 0]);

    let ix = sdk::set_resolver(
        &key(1), &key(2), &key(3), &key(4), &key(5), &key(6), &key(7), &key(8), &key(9), &key(10),
    );
    assert_eq!(
        ix.accounts,
        vec![
            r(key(2), false),
            r(key(3), false),
            r(key(4), false),
            r(key(5), false),
            r(key(6), false),
            r(key(7), false),
            w(key(8), false),
            w(key(9), true),
            r(key(10), false),
        ]
    );
    assert_eq!(ix.data, vec![5]);

    let ix = sdk::veto_slash(
        &key(1), &key(2), &key(3), &key(4), &key(5), &key(6), &key(7), &key(8), &key(9),
    );
    assert_eq!(
        ix.accounts,
        vec![
            r(key(2), false),
            r(key(3), false),
            r(key(4), false),
            r(key(5), false),
            r(key(6), false),
            w(key(7), false),
            w(key(8), false),
            w(key(9), true),
            r(system, false),
        ]
    );
    assert_eq!(ix.data, vec![6]);

    let ix = sdk::delete_slash_proposal(
        &key(1), &key(2), &key(3), &key(4), &key(5), &key(6), &key(7), &key(8),
    );
    assert_eq!(
        ix.accounts,
        vec![
            r(key(2), false),
            r(key(3), false),
            r(key(4), false),
            r(key(5), false),
            w(key(6), false),
            w(key(7), false),
            w(key(8), true),
            r(system, false),
        ]
    );
    assert_eq!(ix.data, vec![11]);
}

#[test]
fn the_instruction_of_an_execution() {
    let keys: Vec<Pubkey> = (1..=24).map(key).collect();
    let ix = sdk::execute_slash(
        &keys[0], &keys[1], &keys[2], &keys[3], &keys[4], &keys[5], &keys[6], &keys[7], &keys[8],
        &keys[9], &keys[10], &keys[11], &keys[12], &keys[13], &keys[14], &keys[15], &keys[16],
        &keys[17], &keys[18], &keys[19], &keys[20], &keys[21], &keys[22], &keys[23],
    );
    assert_eq!(ix.program_id, keys[0]);
    assert_eq!(ix.data, vec![7]);
    assert_eq!(ix.accounts.len(), 23);
    let writable = [6usize, 7, 12, 15, 16, 17, 19, 20];
    for (i, meta) in ix.accounts.iter().enumerate() {
        assert_eq!(meta.pubkey, keys[i + 1]);
        assert_eq!(meta.is_signer, i == 7, "account {}", i);
        assert_eq!(meta.is_writable, writable.contains(&i), "account {}", i);
    }
}

#[test]
fn the_instructions_of_the_slasher() {
    let ix = sdk::slasher_delegate_token_account(
        &key(1), &key(2), &key(3), &key(4), &key(5), &key(6), &key(7),
    );
    assert_eq!(
        ix.accounts,
        vec![
            r(key(2), false),
            r(key(3), true),
            w(key(4), false),
            w(key(5), false),
            r(key(6), false),
            r(key(7), false),
        ]
    );
    assert_eq!(ix.data, vec![8]);

    let ix = sdk::slasher_set_admin(&key(1), &key(2), &key(3), &key(4));
    assert_eq!(ix.accounts, vec![w(key(2), false), r(key(3), true), r(key(4), true)]);
    assert_eq!(ix.data, vec![9]);

    let ix = sdk::slasher_set_secondary_admin(
        &key(1),
        &key(2),
        &key(3),
        &key(4),
        SlasherAdminRole::DelegateAdmin,
    );
    assert_eq!(ix.accounts, vec![w(key(2), false), r(key(3), true), r(key(4), false)]);
    assert_eq!(ix.data, vec![10, 0]);
}

#[test]
fn numbers_travel_as_borsh_writes_them() {
    for value in [0u64, 1, 100, 258, 0x0102030405060708, u64::MAX] {
        let written = ResolverInstruction::ProposeSlash { slash_amount: value }.try_to_vec();
        let expected = borsh::BorshSerialize::try_to_vec(&value).unwrap();
        assert_eq!(written[1..], expected[..]);
    }
    // a variant travels as its place in the list, which is what borsh writes for a `u8`
    assert_eq!(
        ResolverInstruction::DeleteSlashProposal.try_to_vec(),
        borsh::BorshSerialize::try_to_vec(&11u8).unwrap()
    );
}
