//! Host-side pipeline: dispatch of decoded instructions, validation of the
//! account-capability contract, and construction of the native-transfer
//! sub-invocation.
//!
//! The host runtime calls [`process_instruction`] once per invocation with
//! the live account views and the raw instruction bytes. On success it
//! receives the single sub-invocation to perform through its native
//! value-transfer capability; on failure the invocation aborts with no
//! partial effects. The host, not this crate, performs the value movement
//! and guarantees atomic commit or rollback.

use crate::codec::{spec_decode, spec_encode, DecodeError, ProgramInstruction, TransferInstruction};
use crate::codec::{decode, lemma_encode_decode_round_trip};
use crate::ident::{system_authority, system_authority_id, Identity};
use vstd::prelude::*;

verus! {

/// Live, host-owned view of an account for the duration of one invocation.
/// This crate only reads the identity and the flags; the data buffer is
/// owned and mutated by the host alone.
#[derive(Clone, Debug)]
pub struct AccountView {
    pub identity: Identity,
    pub is_signer: bool,
    pub is_writable: bool,
    pub is_executable: bool,
    pub data: Vec<u8>,
}

/// Why the presented account list failed the capability contract of the
/// `Transfer` variant.
#[derive(Clone, Copy, Debug, PartialEq, Eq, Structural)]
pub enum ValidationError {
    /// Fewer than the three required accounts were presented.
    NotEnoughAccounts,
    /// The payer view (index 0) is not writable.
    PayerNotWritable,
    /// The payer view (index 0) did not sign.
    PayerNotSigner,
    /// The recipient view (index 1) is not writable.
    RecipientNotWritable,
    /// The third view's identity is not the well-known native-transfer
    /// authority.
    AuthorityMismatch,
    /// The third view is not executable.
    AuthorityNotExecutable,
}

/// Why an invocation aborted before any sub-invocation was issued.
#[derive(Clone, Copy, Debug, PartialEq, Eq, Structural)]
pub enum ProgramError {
    /// The instruction bytes were malformed.
    Decode(DecodeError),
    /// The account list failed the capability contract.
    Validation(ValidationError),
}

/// The sub-invocation handed to the host's native value-transfer capability:
/// move `amount` units from `payer` to `recipient` under `authority`.
#[derive(Clone, Copy, Debug)]
pub struct TransferInvocation {
    pub payer: Identity,
    pub recipient: Identity,
    pub authority: Identity,
    pub amount: u64,
}

impl PartialEq for TransferInvocation {
    fn eq(&self, other: &TransferInvocation) -> (r: bool) {
        self.payer == other.payer && self.recipient == other.recipient && self.authority
            == other.authority && self.amount == other.amount
    }
}

impl vstd::std_specs::cmp::PartialEqSpecImpl for TransferInvocation {
    open spec fn obeys_eq_spec() -> bool {
        true
    }

    open spec fn eq_spec(&self, other: &TransferInvocation) -> bool {
        &&& self.payer@ == other.payer@
        &&& self.recipient@ == other.recipient@
        &&& self.authority@ == other.authority@
        &&& self.amount == other.amount
    }
}

/// The fixed role contract of the `Transfer` variant over the first three
/// presented account views, by position: the payer signs and is writable,
/// the recipient is writable, and the third account is the executable
/// well-known native-transfer authority.
pub open spec fn transfer_accounts_ok(accounts: Seq<AccountView>) -> bool {
    &&& accounts.len() >= 3
    &&& accounts[0].is_writable
    &&& accounts[0].is_signer
    &&& accounts[1].is_writable
    &&& accounts[2].identity@ == system_authority_id()
    &&& accounts[2].is_executable
}

/// The first capability check that fails, in validation order, or `Ok` when
/// the whole contract holds.
pub open spec fn spec_validate_transfer(accounts: Seq<AccountView>) -> Result<
    (),
    ValidationError,
> {
    if accounts.len() < 3 {
        Err(ValidationError::NotEnoughAccounts)
    } else if !accounts[0].is_writable {
        Err(ValidationError::PayerNotWritable)
    } else if !accounts[0].is_signer {
        Err(ValidationError::PayerNotSigner)
    } else if !accounts[1].is_writable {
        Err(ValidationError::RecipientNotWritable)
    } else if accounts[2].identity@ != system_authority_id() {
        Err(ValidationError::AuthorityMismatch)
    } else if !accounts[2].is_executable {
        Err(ValidationError::AuthorityNotExecutable)
    } else {
        Ok(())
    }
}

/// The sub-invocation that validated accounts and a decoded amount give.
pub open spec fn spec_transfer_invocation(accounts: Seq<AccountView>, amount: u64)
    -> TransferInvocation {
    TransferInvocation {
        payer: accounts[0].identity,
        recipient: accounts[1].identity,
        authority: accounts[2].identity,
        amount,
    }
}

/// What executing a decoded `Transfer` against an account list yields.
pub open spec fn spec_exec_transfer(accounts: Seq<AccountView>, amount: u64) -> Result<
    TransferInvocation,
    ValidationError,
> {
    match spec_validate_transfer(accounts) {
        Ok(u) => Ok(spec_transfer_invocation(accounts, amount)),
        Err(e) => Err(e),
    }
}

/// What one whole invocation yields: the sub-invocation to perform, or the
/// error that aborts it.
pub open spec fn spec_process(accounts: Seq<AccountView>, instruction_data: Seq<u8>) -> Result<
    TransferInvocation,
    ProgramError,
> {
    match spec_decode(instruction_data) {
        Err(e) => Err(ProgramError::Decode(e)),
        Ok(ProgramInstruction::Transfer(t)) => match spec_exec_transfer(accounts, t.amount) {
            Ok(inv) => Ok(inv),
            Err(e) => Err(ProgramError::Validation(e)),
        },
    }
}

/// Checks the capability contract of the `Transfer` variant against the
/// presented account views, reporting the first check that fails.
pub fn validate_transfer_accounts(accounts: &Vec<AccountView>) -> (r: Result<(), ValidationError>)
    ensures
        r == spec_validate_transfer(accounts@),
        r is Ok <==> transfer_accounts_ok(accounts@),
{
    if accounts.len() < 3 {
        Err(ValidationError::NotEnoughAccounts)
    } else if !accounts[0].is_writable {
        Err(ValidationError::PayerNotWritable)
    } else if !accounts[0].is_signer {
        Err(ValidationError::PayerNotSigner)
    } else if !accounts[1].is_writable {
        Err(ValidationError::RecipientNotWritable)
    } else {
        let authority = system_authority();
        if !(accounts[2].identity == authority) {
            Err(ValidationError::AuthorityMismatch)
        } else if !accounts[2].is_executable {
            Err(ValidationError::AuthorityNotExecutable)
        } else {
            Ok(())
        }
    }
}

impl TransferInstruction {
    /// Transfer executor entry: validates the account contract and, only
    /// when every check passes, constructs the sub-invocation for the
    /// host's native value-transfer capability from the first three views
    /// and this instruction's amount.
    pub fn exec(&self, program_id: &Identity, accounts: &Vec<AccountView>) -> (r: Result<
        TransferInvocation,
        ValidationError,
    >)
        ensures
            r == spec_exec_transfer(accounts@, self.amount),
            r is Ok <==> transfer_accounts_ok(accounts@),
    {
        match validate_transfer_accounts(accounts) {
            Err(e) => Err(e),
            Ok(()) => Ok(
                TransferInvocation {
                    payer: accounts[0].identity,
                    recipient: accounts[1].identity,
                    authority: accounts[2].identity,
                    amount: self.amount,
                },
            ),
        }
    }
}

/// Host-side entry point for one invocation: decodes the instruction bytes,
/// dispatches on the decoded variant (a closed set), validates the account
/// contract, and returns the single sub-invocation to perform. Any failure
/// aborts the invocation with no partial effects.
pub fn process_instruction(
    program_id: &Identity,
    accounts: &Vec<AccountView>,
    instruction_data: &Vec<u8>,
) -> (r: Result<TransferInvocation, ProgramError>)
    ensures
        r == spec_process(accounts@, instruction_data@),
        r is Ok <==> spec_decode(instruction_data@) is Ok && transfer_accounts_ok(accounts@),
{
    match decode(instruction_data) {
        Err(e) => Err(ProgramError::Decode(e)),
        Ok(ProgramInstruction::Transfer(t)) => match t.exec(program_id, accounts) {
            Ok(inv) => Ok(inv),
            Err(e) => Err(ProgramError::Validation(e)),
        },
    }
}

/// Law: a freshly encoded transfer, presented together with account views
/// that satisfy the fixed role contract, is accepted end to end and yields
/// exactly the one sub-invocation that moves its amount from the payer view
/// to the recipient view under the authority view.
pub proof fn lemma_encoded_transfer_processes(accounts: Seq<AccountView>, amount: u64)
    requires
        transfer_accounts_ok(accounts),
    ensures
        spec_process(
            accounts,
            spec_encode(ProgramInstruction::Transfer(TransferInstruction { amount })),
        ) == Ok::<TransferInvocation, ProgramError>(spec_transfer_invocation(accounts, amount)),
{
    lemma_encode_decode_round_trip(ProgramInstruction::Transfer(TransferInstruction { amount }));
}

/// Law: validation rejects when the payer view did not sign, regardless of
/// every other account's state.
pub proof fn lemma_rejects_unsigned_payer(accounts: Seq<AccountView>)
    requires
        !accounts[0].is_signer,
    ensures
        spec_validate_transfer(accounts) is Err,
{
}

/// Law: validation rejects when the recipient view is not writable,
/// regardless of every other account's state.
pub proof fn lemma_rejects_readonly_recipient(accounts: Seq<AccountView>)
    requires
        !accounts[1].is_writable,
    ensures
        spec_validate_transfer(accounts) is Err,
{
}

/// Law: validation rejects when the third view's identity is not the
/// well-known native-transfer authority, even if that view is executable.
pub proof fn lemma_rejects_wrong_authority(accounts: Seq<AccountView>)
    requires
        accounts[2].identity@ != system_authority_id(),
    ensures
        spec_validate_transfer(accounts) is Err,
{
}

} // verus!
