use transfer_core::accounts::{
    process_instruction, AccountView, ProgramError, TransferInvocation, ValidationError,
};
use transfer_core::codec::{decode, ProgramInstruction, TransferInstruction};
use transfer_core::ident::{system_authority, Identity};
use transfer_core::instruction::AccountReference;

#[test]
fn encode_dispatch_validate_execute() {
    let program_id = Identity::new([7u8; 32]);
    let payer = Identity::new([1u8; 32]);
    let recipient = Identity::new([2u8; 32]);
    let authority = system_authority();

    let instr = TransferInstruction::build_instruction(&program_id, &payer, &recipient, 2_000_000);

    assert_eq!(instr.program_identity, program_id);
    assert_eq!(
        decode(&instr.data),
        Ok(ProgramInstruction::Transfer(TransferInstruction { amount: 2_000_000 }))
    );
    let expected_refs = [
        AccountReference { identity: payer, is_signer: true, is_writable: true },
        AccountReference { identity: recipient, is_signer: false, is_writable: true },
        AccountReference { identity: authority, is_signer: false, is_writable: false },
    ];
    assert_eq!(instr.accounts.len(), 3);
    for (built, expected) in instr.accounts.iter().zip(expected_refs.iter()) {
        assert_eq!(built, expected);
    }

    // The host now presents matching live views back to the dispatcher.
    let views = vec![
        AccountView {
            identity: payer,
            is_signer: true,
            is_writable: true,
            is_executable: false,
            data: vec![],
        },
        AccountView {
            identity: recipient,
            is_signer: false,
            is_writable: true,
            is_executable: false,
            data: vec![],
        },
        AccountView {
            identity: authority,
            is_signer: false,
            is_writable: false,
            is_executable: true,
            data: vec![],
        },
    ];

    let result = process_instruction(&program_id, &views, &instr.data);
    assert_eq!(
        result,
        Ok(TransferInvocation { payer, recipient, authority, amount: 2_000_000 })
    );
}

#[test]
fn tampered_instruction_aborts_before_execution() {
    let program_id = Identity::new([7u8; 32]);
    let payer = Identity::new([1u8; 32]);
    let recipient = Identity::new([2u8; 32]);

    let instr = TransferInstruction::build_instruction(&program_id, &payer, &recipient, 9);
    let mut data = instr.data.clone();
    data.truncate(4);

    let views = vec![
        AccountView {
            identity: payer,
            is_signer: true,
            is_writable: true,
            is_executable: false,
            data: vec![],
        },
        AccountView {
            identity: recipient,
            is_signer: false,
            is_writable: true,
            is_executable: false,
            data: vec![],
        },
        AccountView {
            identity: system_authority(),
            is_signer: false,
            is_writable: false,
            is_executable: true,
            data: vec![],
        },
    ];

    let result = process_instruction(&program_id, &views, &data);
    assert!(matches!(result, Err(ProgramError::Decode(_))));
}

#[test]
fn unsigned_payer_aborts_dispatch() {
    let program_id = Identity::new([7u8; 32]);
    let payer = Identity::new([1u8; 32]);
    let recipient = Identity::new([2u8; 32]);

    let instr = TransferInstruction::build_instruction(&program_id, &payer, &recipient, 9);
    let views = vec![
        AccountView {
            identity: payer,
            is_signer: false,
            is_writable: true,
            is_executable: false,
            data: vec![],
        },
        AccountView {
            identity: recipient,
            is_signer: false,
            is_writable: true,
            is_executable: false,
            data: vec![],
        },
        AccountView {
            identity: system_authority(),
            is_signer: false,
            is_writable: false,
            is_executable: true,
            data: vec![],
        },
    ];

    let result = process_instruction(&program_id, &views, &instr.data);
    assert_eq!(
        result,
        Err(ProgramError::Validation(ValidationError::PayerNotSigner))
    );
}

#[test]
fn zero_amount_transfer_is_forwarded() {
    // No lower bound is enforced here; the host's balance rules apply.
    let program_id = Identity::new([7u8; 32]);
    let payer = Identity::new([1u8; 32]);
    let recipient = Identity::new([2u8; 32]);
    let authority = system_authority();

    let instr = TransferInstruction::build_instruction(&program_id, &payer, &recipient, 0);
    let views = vec![
        AccountView {
            identity: payer,
            is_signer: true,
            is_writable: true,
            is_executable: false,
            data: vec![],
        },
        AccountView {
            identity: recipient,
            is_signer: false,
            is_writable: true,
            is_executable: false,
            data: vec![],
        },
        AccountView {
            identity: authority,
            is_signer: false,
            is_writable: false,
            is_executable: true,
            data: vec![],
        },
    ];
    let result = process_instruction(&program_id, &views, &instr.data);
    assert_eq!(result, Ok(TransferInvocation { payer, recipient, authority, amount: 0 }));
}

#[test]
fn authority_identity_matches_host_runtime() {
    // The well-known native-transfer authority this crate validates against
    // is the host runtime's own system program identity.
    let ours = system_authority();
    assert_eq!(ours.bytes, solana_program::system_program::ID.to_bytes());
    assert_eq!(ours.bytes, [0u8; 32]);
}
