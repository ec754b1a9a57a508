//! The instructions of the program, and how they travel: one byte that
//! tells the instruction, then its arguments, each 64-bit number as eight
//! bytes, lowest first.

use vstd::prelude::*;
use vstd::bytes::{
    lemma_auto_spec_u64_to_from_le_bytes,
    spec_u64_from_le_bytes,
    spec_u64_to_le_bytes,
    u64_from_le_bytes,
    u64_to_le_bytes,
};
use vstd::slice::slice_subrange;
use crate::error::ProgramError;

verus! {

/// A role of a slasher, besides that of its admin.
#[derive(Clone, Copy, Debug, PartialEq, Eq, Structural)]
pub enum SlasherAdminRole {
    /// Who may delegate the tokens that the slasher holds.
    DelegateAdmin,
}

/// An instruction of the program.
#[derive(Clone, Copy, Debug, PartialEq, Eq, Structural)]
pub enum ResolverInstruction {
    /// Creates the configuration of the program.
    InitializeConfig,
    /// Creates the policy of an NCN.
    InitializeNcnResolverProgramConfig { veto_duration: u64, delete_slash_proposal_duration: u64 },
    /// Registers a slasher.
    InitializeSlasher,
    /// Registers a resolver.
    InitializeResolver,
    /// Opens a slash proposal.
    ProposeSlash { slash_amount: u64 },
    /// Assigns a resolver to a slash proposal.
    SetResolver,
    /// Vetoes a slash proposal.
    VetoSlash,
    /// Executes a slash proposal.
    ExecuteSlash,
    /// Delegates a token account of a slasher.
    SlasherDelegateTokenAccount,
    /// Hands a slasher over to a new admin.
    SlasherSetAdmin,
    /// Hands out a role of a slasher.
    SlasherSetSecondaryAdmin(SlasherAdminRole),
    /// Deletes a completed slash proposal.
    DeleteSlashProposal,
}

impl SlasherAdminRole {
    /// The byte that tells the role.
    pub open spec fn tag(self) -> u8 {
        match self {
            SlasherAdminRole::DelegateAdmin => 0,
        }
    }
}

impl ResolverInstruction {
    /// The byte that tells the instruction: its place in the list, from
    /// zero.
    pub open spec fn tag(self) -> u8 {
        match self {
            ResolverInstruction::InitializeConfig => 0,
            ResolverInstruction::InitializeNcnResolverProgramConfig { .. } => 1,
            ResolverInstruction::InitializeSlasher => 2,
            ResolverInstruction::InitializeResolver => 3,
            ResolverInstruction::ProposeSlash { .. } => 4,
            ResolverInstruction::SetResolver => 5,
            ResolverInstruction::VetoSlash => 6,
            ResolverInstruction::ExecuteSlash => 7,
            ResolverInstruction::SlasherDelegateTokenAccount => 8,
            ResolverInstruction::SlasherSetAdmin => 9,
            ResolverInstruction::SlasherSetSecondaryAdmin(_) => 10,
            ResolverInstruction::DeleteSlashProposal => 11,
        }
    }

    /// The bytes of the arguments of the instruction.
    pub open spec fn arguments(self) -> Seq<u8> {
        match self {
            ResolverInstruction::InitializeNcnResolverProgramConfig {
                veto_duration,
                delete_slash_proposal_duration,
            } => spec_u64_to_le_bytes(veto_duration) + spec_u64_to_le_bytes(
                delete_slash_proposal_duration,
            ),
            ResolverInstruction::ProposeSlash { slash_amount } => spec_u64_to_le_bytes(
                slash_amount,
            ),
            ResolverInstruction::SlasherSetSecondaryAdmin(role) => seq![role.tag()],
            _ => Seq::empty(),
        }
    }

    /// The bytes of the instruction.
    pub open spec fn encoding(self) -> Seq<u8> {
        seq![self.tag()] + self.arguments()
    }

    /// Writes the instruction as bytes.
    pub fn try_to_vec(&self) -> (data: Vec<u8>)
        ensures
            data@ == self.encoding(),
    {
        let mut data: Vec<u8> = Vec::new();
        match self {
            ResolverInstruction::InitializeConfig => {
                data.push(0);
            },
            ResolverInstruction::InitializeNcnResolverProgramConfig {
                veto_duration,
                delete_slash_proposal_duration,
            } => {
                data.push(1);
                let mut first = u64_to_le_bytes(*veto_duration);
                let mut second = u64_to_le_bytes(*delete_slash_proposal_duration);
                data.append(&mut first);
                data.append(&mut second);
            },
            ResolverInstruction::InitializeSlasher => {
                data.push(2);
            },
            ResolverInstruction::InitializeResolver => {
                data.push(3);
            },
            ResolverInstruction::ProposeSlash { slash_amount } => {
                data.push(4);
                let mut amount = u64_to_le_bytes(*slash_amount);
                data.append(&mut amount);
            },
            ResolverInstruction::SetResolver => {
                data.push(5);
            },
            ResolverInstruction::VetoSlash => {
                data.push(6);
            },
            ResolverInstruction::ExecuteSlash => {
                data.push(7);
            },
            ResolverInstruction::SlasherDelegateTokenAccount => {
                data.push(8);
            },
            ResolverInstruction::SlasherSetAdmin => {
                data.push(9);
            },
            ResolverInstruction::SlasherSetSecondaryAdmin(role) => {
                data.push(10);
                match role {
                    SlasherAdminRole::DelegateAdmin => {
                        data.push(0);
                    },
                }
            },
            ResolverInstruction::DeleteSlashProposal => {
                data.push(11);
            },
        }
        assert(data@ =~= self.encoding());
        data
    }

    /// Reads an instruction from bytes. It takes the bytes of exactly one
    /// instruction, and nothing else: bytes that are left over are refused
    /// like bytes that are missing.
    pub fn try_from_slice(data: &[u8]) -> (res: Result<ResolverInstruction, ProgramError>)
        ensures
            res matches Ok(instruction) ==> data@ == instruction.encoding(),
            res is Err ==> res == Err::<ResolverInstruction, _>(
                ProgramError::InvalidInstructionData,
            ) && forall|instruction: ResolverInstruction| data@ != instruction.encoding(),
    {
        proof {
            lemma_auto_spec_u64_to_from_le_bytes();
            assert forall|instruction: ResolverInstruction|
                (#[trigger] instruction.encoding()).len() >= 1 && instruction.encoding()[0]
                    == instruction.tag() && instruction.encoding().len() == 1
                    + instruction.arguments().len() by {}
        }
        if data.len() == 0 {
            return Err(ProgramError::InvalidInstructionData);
        }
        let tag = data[0];
        let rest: usize = data.len() - 1;
        if tag == 1 {
            if rest != 16 {
                return Err(ProgramError::InvalidInstructionData);
            }
            let veto_duration = u64_from_le_bytes(slice_subrange(data, 1, 9));
            let delete_slash_proposal_duration = u64_from_le_bytes(slice_subrange(data, 9, 17));
            let instruction = ResolverInstruction::InitializeNcnResolverProgramConfig {
                veto_duration,
                delete_slash_proposal_duration,
            };
            assert(data@ =~= instruction.encoding());
            return Ok(instruction);
        }
        if tag == 4 {
            if rest != 8 {
                return Err(ProgramError::InvalidInstructionData);
            }
            let slash_amount = u64_from_le_bytes(slice_subrange(data, 1, 9));
            let instruction = ResolverInstruction::ProposeSlash { slash_amount };
            assert(data@ =~= instruction.encoding());
            return Ok(instruction);
        }
        if tag == 10 {
            if rest != 1 || data[1] != 0 {
                return Err(ProgramError::InvalidInstructionData);
            }
            let instruction = ResolverInstruction::SlasherSetSecondaryAdmin(
                SlasherAdminRole::DelegateAdmin,
            );
            assert(data@ =~= instruction.encoding());
            return Ok(instruction);
        }
        if rest != 0 {
            return Err(ProgramError::InvalidInstructionData);
        }
        let instruction = match tag {
            0 => ResolverInstruction::InitializeConfig,
            2 => ResolverInstruction::InitializeSlasher,
            3 => ResolverInstruction::InitializeResolver,
            5 => ResolverInstruction::SetResolver,
            6 => ResolverInstruction::VetoSlash,
            7 => ResolverInstruction::ExecuteSlash,
            8 => ResolverInstruction::SlasherDelegateTokenAccount,
            9 => ResolverInstruction::SlasherSetAdmin,
            11 => ResolverInstruction::DeleteSlashProposal,
            _ => {
                return Err(ProgramError::InvalidInstructionData);
            },
        };
        assert(data@ =~= instruction.encoding());
        Ok(instruction)
    }

    /// No two instructions travel as the same bytes: what was written is
    /// what is read.
    pub proof fn lemma_encoding_injective(a: ResolverInstruction, b: ResolverInstruction)
        ensures
            a.encoding() == b.encoding() <==> a == b,
    {
        lemma_auto_spec_u64_to_from_le_bytes();
        if a.encoding() == b.encoding() {
            assert(a.encoding()[0] == b.encoding()[0]);
            assert(a.tag() == b.tag());
            assert(a.arguments() =~= a.encoding().subrange(1, a.encoding().len() as int));
            assert(b.arguments() =~= b.encoding().subrange(1, b.encoding().len() as int));
            match (a, b) {
                (
                    ResolverInstruction::InitializeNcnResolverProgramConfig {
                        veto_duration: v1,
                        delete_slash_proposal_duration: d1,
                    },
                    ResolverInstruction::InitializeNcnResolverProgramConfig {
                        veto_duration: v2,
                        delete_slash_proposal_duration: d2,
                    },
                ) => {
                    assert(spec_u64_to_le_bytes(v1) =~= a.arguments().subrange(0, 8));
                    assert(spec_u64_to_le_bytes(v2) =~= b.arguments().subrange(0, 8));
                    assert(spec_u64_to_le_bytes(d1) =~= a.arguments().subrange(8, 16));
                    assert(spec_u64_to_le_bytes(d2) =~= b.arguments().subrange(8, 16));
                    assert(spec_u64_from_le_bytes(spec_u64_to_le_bytes(v1)) == v1);
                    assert(spec_u64_from_le_bytes(spec_u64_to_le_bytes(v2)) == v2);
                    assert(spec_u64_from_le_bytes(spec_u64_to_le_bytes(d1)) == d1);
                    assert(spec_u64_from_le_bytes(spec_u64_to_le_bytes(d2)) == d2);
                },
                (
                    ResolverInstruction::ProposeSlash { slash_amount: x },
                    ResolverInstruction::ProposeSlash { slash_amount: y },
                ) => {
                    assert(spec_u64_from_le_bytes(spec_u64_to_le_bytes(x)) == x);
                    assert(spec_u64_from_le_bytes(spec_u64_to_le_bytes(y)) == y);
                },
                _ => {},
            }
        }
    }
}

} // verus!
