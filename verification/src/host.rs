//! Requests to the host's system program.

use vstd::prelude::*;

use anchor_lang::prelude::Pubkey;

use crate::identity::Identity;

verus! {

/// An account named in an instruction, with what the instruction may do to it.
#[derive(Clone, Copy, Debug, PartialEq, Eq)]
pub struct AccountRole {
    pub account: Identity,
    /// Whether the account must have signed the transaction.
    pub signer: bool,
    /// Whether the instruction may change the account.
    pub writable: bool,
}

/// An instruction for a program of the host, as plain values.
#[derive(Clone, Debug)]
pub struct HostInstruction {
    /// The program that carries the instruction out.
    pub program: Identity,
    /// The accounts that it works on, in the program's order.
    pub accounts: Vec<AccountRole>,
    /// The instruction as the program reads it.
    pub data: Vec<u8>,
}

/// The bytes that ask the system program to move `lamports`: the number of
/// the transfer instruction on four bytes, then the amount on eight, both with
/// the lowest byte first.
pub open spec fn transfer_payload(lamports: u64) -> Seq<u8> {
    seq![2u8, 0u8, 0u8, 0u8] + vstd::bytes::spec_u64_to_le_bytes(lamports)
}

/// Whether `instruction` asks the system program to move `lamports` from
/// `from`, who signs, to `to`.
pub open spec fn is_system_transfer(
    instruction: HostInstruction,
    from: Identity,
    to: Identity,
    lamports: u64,
) -> bool {
    &&& instruction.program.bytes@ == Seq::new(32, |i: int| 0u8)
    &&& instruction.accounts@ == seq![
        AccountRole { account: from, signer: true, writable: true },
        AccountRole { account: to, signer: false, writable: true },
    ]
    &&& instruction.data@ == transfer_payload(lamports)
}

/// Calls `solana_system_interface::instruction::transfer` and hands back its
/// instruction field by field. Trusted: the instruction is addressed to the
/// system program, whose identity is thirty-two zero bytes; it names the
/// source as a writable signer and then the destination as writable; and its
/// data is the fixed-width little-endian encoding of the transfer variant,
/// which is the third of the system program's instructions, with the amount.
#[verifier::external_body]
pub(crate) fn system_transfer(from: &Identity, to: &Identity, lamports: u64) -> (r: HostInstruction)
    ensures
        is_system_transfer(r, *from, *to, lamports),
{
    let source = Pubkey::new_from_array(from.bytes);
    let destination = Pubkey::new_from_array(to.bytes);
    let built = solana_system_interface::instruction::transfer(&source, &destination, lamports);
    let mut accounts: Vec<AccountRole> = Vec::new();
    for meta in built.accounts.iter() {
        let account = Identity { bytes: meta.pubkey.to_bytes() };
        accounts.push(AccountRole { account, signer: meta.is_signer, writable: meta.is_writable });
    }
    HostInstruction { program: Identity { bytes: built.program_id.to_bytes() }, accounts, data: built.data }
}

} // verus!
