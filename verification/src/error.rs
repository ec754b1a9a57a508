//! The failures of the resolver, and the failures of the host that its
//! operations report.

use vstd::prelude::*;
use vstd::std_specs::convert::FromSpecImpl;

verus! {

/// Why the resolver refused an operation.
#[derive(Clone, Copy, Debug, PartialEq, Eq, Structural)]
pub enum ResolverError {
    /// The signer is not the admin of the resolver.
    ResolverAdminInvalid,
    /// A veto came at or after the veto deadline.
    SlashProposalVetoPeriodEnded,
    /// The slash proposal was vetoed or executed already.
    SlashProposalCompleted,
    /// An execution came before the veto deadline.
    SlashProposalVetoPeriodNotEnded,
    /// The ticket belongs to another slash proposal.
    SlashProposalInvalid,
    /// The ticket names another resolver.
    SlashProposalResolverInvalid,
    /// A deletion came before the delete deadline.
    SlashProposalDeleteDeadlineNotEnded,
    /// A deletion came for a slash proposal that is still open.
    SlashProposalNotCompleted,
    /// The signer is not the admin of the slasher.
    SlasherAdminInvalid,
    /// The signer is not the delegate admin of the slasher.
    SlasherDelegateAdminInvalid,
    /// The signer is not the admin of the NCN.
    NcnAdminInvalid,
    /// A sum of slots does not fit in 64 bits.
    ArithmeticOverflow,
    /// A difference of slots is negative.
    ArithmeticUnderflow,
    /// The epoch length is zero.
    DivisionByZero,
}

/// A failure as the host knows it. The variants are those of the host's
/// own error type, one for one, so that what a collaborator reported can
/// be handed through unchanged.
#[derive(Clone, Debug, PartialEq, Eq)]
pub enum ProgramError {
    Custom(u32),
    InvalidArgument,
    InvalidInstructionData,
    InvalidAccountData,
    AccountDataTooSmall,
    InsufficientFunds,
    IncorrectProgramId,
    MissingRequiredSignature,
    AccountAlreadyInitialized,
    UninitializedAccount,
    NotEnoughAccountKeys,
    AccountBorrowFailed,
    MaxSeedLengthExceeded,
    InvalidSeeds,
    BorshIoError(String),
    AccountNotRentExempt,
    UnsupportedSysvar,
    IllegalOwner,
    MaxAccountsDataAllocationsExceeded,
    InvalidRealloc,
    MaxInstructionTraceLengthExceeded,
    BuiltinProgramsMustConsumeComputeUnits,
    InvalidAccountOwner,
    ArithmeticOverflow,
    Immutable,
    IncorrectAuthority,
}

impl ResolverError {
    /// The number under which the host reports this failure. The three
    /// arithmetic failures start at 3000; the others count up from zero.
    pub open spec fn code_spec(self) -> u32 {
        match self {
            ResolverError::ResolverAdminInvalid => 0,
            ResolverError::SlashProposalVetoPeriodEnded => 1,
            ResolverError::SlashProposalCompleted => 2,
            ResolverError::SlashProposalVetoPeriodNotEnded => 3,
            ResolverError::SlashProposalInvalid => 4,
            ResolverError::SlashProposalResolverInvalid => 5,
            ResolverError::SlashProposalDeleteDeadlineNotEnded => 6,
            ResolverError::SlashProposalNotCompleted => 7,
            ResolverError::SlasherAdminInvalid => 8,
            ResolverError::SlasherDelegateAdminInvalid => 9,
            ResolverError::NcnAdminInvalid => 10,
            ResolverError::ArithmeticOverflow => 3000,
            ResolverError::ArithmeticUnderflow => 3001,
            ResolverError::DivisionByZero => 3002,
        }
    }

    /// The number under which the host reports this failure.
    #[verifier::when_used_as_spec(code_spec)]
    pub fn code(self) -> (code: u32)
        ensures
            code == self.code_spec(),
    {
        match self {
            ResolverError::ResolverAdminInvalid => 0,
            ResolverError::SlashProposalVetoPeriodEnded => 1,
            ResolverError::SlashProposalCompleted => 2,
            ResolverError::SlashProposalVetoPeriodNotEnded => 3,
            ResolverError::SlashProposalInvalid => 4,
            ResolverError::SlashProposalResolverInvalid => 5,
            ResolverError::SlashProposalDeleteDeadlineNotEnded => 6,
            ResolverError::SlashProposalNotCompleted => 7,
            ResolverError::SlasherAdminInvalid => 8,
            ResolverError::SlasherDelegateAdminInvalid => 9,
            ResolverError::NcnAdminInvalid => 10,
            ResolverError::ArithmeticOverflow => 3000,
            ResolverError::ArithmeticUnderflow => 3001,
            ResolverError::DivisionByZero => 3002,
        }
    }

    /// The failure that is reported under the given number, if there is one.
    pub fn from_code(code: u32) -> (found: Option<ResolverError>)
        ensures
            found matches Some(e) ==> e.code() == code,
            found is None ==> forall|e: ResolverError| e.code() != code,
    {
        match code {
            0 => Some(ResolverError::ResolverAdminInvalid),
            1 => Some(ResolverError::SlashProposalVetoPeriodEnded),
            2 => Some(ResolverError::SlashProposalCompleted),
            3 => Some(ResolverError::SlashProposalVetoPeriodNotEnded),
            4 => Some(ResolverError::SlashProposalInvalid),
            5 => Some(ResolverError::SlashProposalResolverInvalid),
            6 => Some(ResolverError::SlashProposalDeleteDeadlineNotEnded),
            7 => Some(ResolverError::SlashProposalNotCompleted),
            8 => Some(ResolverError::SlasherAdminInvalid),
            9 => Some(ResolverError::SlasherDelegateAdminInvalid),
            10 => Some(ResolverError::NcnAdminInvalid),
            3000 => Some(ResolverError::ArithmeticOverflow),
            3001 => Some(ResolverError::ArithmeticUnderflow),
            3002 => Some(ResolverError::DivisionByZero),
            _ => None,
        }
    }

    /// No two failures share a number.
    pub proof fn lemma_code_injective(a: ResolverError, b: ResolverError)
        ensures
            a.code() == b.code() <==> a == b,
    {
    }

    /// The name of this family of failures.
    pub fn type_of() -> (name: &'static str)
        ensures
            name@ == "resolver"@,
    {
        "resolver"
    }

    /// The failure in words.
    pub fn message(&self) -> (text: &'static str)
        ensures
            text@ == self.message_spec(),
    {
        match self {
            ResolverError::ResolverAdminInvalid => "ResolverAdminInvalid",
            ResolverError::SlashProposalVetoPeriodEnded => "SlashProposalVetoPeriodEnded",
            ResolverError::SlashProposalCompleted => "SlashProposalCompleted",
            ResolverError::SlashProposalVetoPeriodNotEnded => "SlashProposalVetoPeriodNotEnded",
            ResolverError::SlashProposalInvalid => "SlashProposalInvalid",
            ResolverError::SlashProposalResolverInvalid => "SlashProposalResolverInvalid",
            ResolverError::SlashProposalDeleteDeadlineNotEnded => "SlashProposalDeleteDeadlineNotEnded",
            ResolverError::SlashProposalNotCompleted => "SlashProposalNotCompleted",
            ResolverError::SlasherAdminInvalid => "SlasherAdminInvalid",
            ResolverError::SlasherDelegateAdminInvalid => "SlasherDelegateAdminInvalid",
            ResolverError::NcnAdminInvalid => "NcnAdminInvalid",
            ResolverError::ArithmeticOverflow => "ArithmeticOverflow",
            ResolverError::ArithmeticUnderflow => "ArithmeticUnderflow",
            ResolverError::DivisionByZero => "DivisionByZero",
        }
    }

    /// The failure in words: the name of the variant.
    pub open spec fn message_spec(&self) -> Seq<char> {
        match self {
            ResolverError::ResolverAdminInvalid => "ResolverAdminInvalid"@,
            ResolverError::SlashProposalVetoPeriodEnded => "SlashProposalVetoPeriodEnded"@,
            ResolverError::SlashProposalCompleted => "SlashProposalCompleted"@,
            ResolverError::SlashProposalVetoPeriodNotEnded => "SlashProposalVetoPeriodNotEnded"@,
            ResolverError::SlashProposalInvalid => "SlashProposalInvalid"@,
            ResolverError::SlashProposalResolverInvalid => "SlashProposalResolverInvalid"@,
            ResolverError::SlashProposalDeleteDeadlineNotEnded => "SlashProposalDeleteDeadlineNotEnded"@,
            ResolverError::SlashProposalNotCompleted => "SlashProposalNotCompleted"@,
            ResolverError::SlasherAdminInvalid => "SlasherAdminInvalid"@,
            ResolverError::SlasherDelegateAdminInvalid => "SlasherDelegateAdminInvalid"@,
            ResolverError::NcnAdminInvalid => "NcnAdminInvalid"@,
            ResolverError::ArithmeticOverflow => "ArithmeticOverflow"@,
            ResolverError::ArithmeticUnderflow => "ArithmeticUnderflow"@,
            ResolverError::DivisionByZero => "DivisionByZero"@,
        }
    }
}

impl From<ResolverError> for ProgramError {
    fn from(e: ResolverError) -> (err: ProgramError) {
        ProgramError::Custom(e.code())
    }
}

impl FromSpecImpl<ResolverError> for ProgramError {
    open spec fn obeys_from_spec() -> bool {
        true
    }

    /// The host sees a failure of the resolver as a custom error that
    /// carries its number.
    open spec fn from_spec(e: ResolverError) -> ProgramError {
        ProgramError::Custom(e.code())
    }
}

impl From<ResolverError> for u64 {
    fn from(e: ResolverError) -> (code: u64) {
        e.code() as u64
    }
}

impl FromSpecImpl<ResolverError> for u64 {
    open spec fn obeys_from_spec() -> bool {
        true
    }

    open spec fn from_spec(e: ResolverError) -> u64 {
        e.code() as u64
    }
}

/// The host's view of a failure of the resolver.
pub open spec fn custom(e: ResolverError) -> ProgramError {
    ProgramError::Custom(e.code())
}


/// The failure of a result, if it is one.
pub open spec fn failure<T, E>(res: Result<T, E>) -> Option<E> {
    match res {
        Ok(_) => None,
        Err(e) => Some(e),
    }
}

/// A check and what follows it: the failure of the check, or else what
/// follows.
pub open spec fn guard<T>(check: Option<ProgramError>, rest: Result<T, ProgramError>) -> Result<
    T,
    ProgramError,
> {
    match check {
        Some(e) => Err(e),
        None => rest,
    }
}

/// What the host sees of a failure of the resolver, if it is one.
pub open spec fn lifted_failure(check: Option<ResolverError>) -> Option<ProgramError> {
    match check {
        Some(e) => Some(custom(e)),
        None => None,
    }
}

/// What the host sees of a result of the resolver.
pub open spec fn lifted<T>(res: Result<T, ResolverError>) -> Result<T, ProgramError> {
    match res {
        Ok(value) => Ok(value),
        Err(e) => Err(custom(e)),
    }
}

/// Hands a result of the resolver to the host.
pub fn lift<T>(res: Result<T, ResolverError>) -> (out: Result<T, ProgramError>)
    ensures
        out == lifted(res),
        failure(out) == lifted_failure(failure(res)),
{
    match res {
        Ok(value) => Ok(value),
        Err(e) => Err(ProgramError::Custom(e.code())),
    }
}

} // verus!
