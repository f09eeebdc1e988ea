//! Client-side instruction encoder: builds a wire-ready instruction (tag +
//! body + ordered account-reference list with capability flags) from logical
//! transfer parameters.

use crate::codec::{encode, spec_encode, ProgramInstruction, TransferInstruction};
use crate::ident::{system_authority, system_authority_id, Identity};
use vstd::prelude::*;

verus! {

/// Caller-declared reference to an account: its identity and the capability
/// flags requested for it. Metadata only, not live account state.
#[derive(Clone, Copy, Debug)]
pub struct AccountReference {
    pub identity: Identity,
    pub is_signer: bool,
    pub is_writable: bool,
}

impl PartialEq for AccountReference {
    fn eq(&self, other: &AccountReference) -> (r: bool) {
        self.identity == other.identity && self.is_signer == other.is_signer && self.is_writable
            == other.is_writable
    }
}

impl vstd::std_specs::cmp::PartialEqSpecImpl for AccountReference {
    open spec fn obeys_eq_spec() -> bool {
        true
    }

    open spec fn eq_spec(&self, other: &AccountReference) -> bool {
        &&& self.identity@ == other.identity@
        &&& self.is_signer == other.is_signer
        &&& self.is_writable == other.is_writable
    }
}

/// A wire-ready instruction: the target program's identity, the ordered
/// account references it will be executed against, and the encoded body.
#[derive(Clone, Debug)]
pub struct Instruction {
    pub program_identity: Identity,
    pub accounts: Vec<AccountReference>,
    pub data: Vec<u8>,
}

impl TransferInstruction {
    /// Builds the wire instruction for a transfer of `amount` from `payer`
    /// to `recipient`, addressed to the program `program_id`. The body is
    /// the encoded `Transfer` variant and the account list follows the
    /// fixed role contract exactly: payer at index 0 (signer, writable),
    /// recipient at index 1 (writable only), and the well-known
    /// native-transfer authority at index 2 (neither). Pure construction;
    /// it cannot fail.
    pub fn build_instruction(
        program_id: &Identity,
        payer: &Identity,
        recipient: &Identity,
        amount: u64,
    ) -> (r: Instruction)
        ensures
            r.program_identity@ == program_id@,
            r.data@ == spec_encode(ProgramInstruction::Transfer(TransferInstruction { amount })),
            r.accounts@.len() == 3,
            r.accounts@[0].identity@ == payer@,
            r.accounts@[0].is_signer,
            r.accounts@[0].is_writable,
            r.accounts@[1].identity@ == recipient@,
            !r.accounts@[1].is_signer,
            r.accounts@[1].is_writable,
            r.accounts@[2].identity@ == system_authority_id(),
            !r.accounts@[2].is_signer,
            !r.accounts@[2].is_writable,
    {
        let instr = ProgramInstruction::Transfer(TransferInstruction { amount });
        let data = encode(&instr);
        let mut accounts: Vec<AccountReference> = Vec::new();
        accounts.push(
            AccountReference { identity: *payer, is_signer: true, is_writable: true },
        );
        accounts.push(
            AccountReference { identity: *recipient, is_signer: false, is_writable: true },
        );
        accounts.push(
            AccountReference { identity: system_authority(), is_signer: false, is_writable: false },
        );
        Instruction { program_identity: *program_id, accounts, data }
    }
}

} // verus!
