//! Calls into the network's client crates. Verus reads the contracts in this
//! file and not the bodies: each one is a claim about the crate it calls.

use vstd::prelude::*;
use vstd::bytes::{spec_u32_to_le_bytes, spec_u64_to_le_bytes};
use vstd::utf8::{encode_utf8, is_ascii_chars};
use solana_sdk::compute_budget::ComputeBudgetInstruction;
use solana_sdk::pubkey::Pubkey;
use solana_sdk::signature::Keypair;
use solana_sdk::signer::Signer;
use crate::address::{
    Address, ASSOCIATED_TOKEN_PROGRAM_BYTES, COMPUTE_BUDGET_PROGRAM_BYTES, RENT_SYSVAR_BYTES,
    SYSTEM_PROGRAM_BYTES, TOKEN_PROGRAM_BYTES,
};
use crate::instruction::{readonly, writable, AccountMeta, AccountMetaView, Instruction};

verus! {

/// Longest seed, in bytes, from which an address can be derived.
pub const MAX_SEED_LEN: usize = 32;

/// The 21 bytes that mark an owner under which no seeded address may be made.
pub const DERIVED_ADDRESS_MARKER: [u8; 21] = [
    80, 114, 111, 103, 114, 97, 109, 68, 101, 114, 105, 118, 101, 100, 65, 100,
    100, 114, 101, 115, 115,
];

/// Whether a 32-byte owner address ends in [`DERIVED_ADDRESS_MARKER`].
pub open spec fn ends_in_marker(owner: Seq<u8>) -> bool {
    owner.subrange(11, 32) == DERIVED_ADDRESS_MARKER@
}

/// Whether an address can be derived from a seed under an owner: the seed
/// takes at most [`MAX_SEED_LEN`] bytes and the owner does not end in the marker.
pub open spec fn can_derive(seed: Seq<char>, owner: Seq<u8>) -> bool {
    encode_utf8(seed).len() <= MAX_SEED_LEN && !ends_in_marker(owner)
}

/// The address that `Pubkey::create_with_seed` derives from a base address, a
/// seed and an owner program, where it derives one.
pub uninterp spec fn seeded_address(base: Seq<u8>, seed: Seq<char>, owner: Seq<u8>) -> Seq<u8>;

/// The address that `Pubkey::try_find_program_address` finds for three
/// 32-byte seeds under a program, or `None` where it finds none.
pub uninterp spec fn program_address(
    first: Seq<u8>,
    second: Seq<u8>,
    third: Seq<u8>,
    program: Seq<u8>,
) -> Option<Seq<u8>>;

/// The data of the instruction that `system_instruction::create_account_with_seed`
/// builds: the serialised request, which holds all five values.
pub uninterp spec fn create_account_with_seed_data(
    base: Seq<u8>,
    seed: Seq<char>,
    lamports: u64,
    space: u64,
    owner: Seq<u8>,
) -> Seq<u8>;

/// `ComputeBudgetInstruction::set_compute_unit_price`: an instruction for the
/// compute-budget program, with no accounts, whose data is the tag 3 and the
/// price in little-endian bytes.
#[verifier::external_body]
pub(crate) fn set_compute_unit_price(price: u64) -> (ix: Instruction)
    ensures
        ix@.program_id == COMPUTE_BUDGET_PROGRAM_BYTES@,
        ix@.accounts == Seq::<AccountMetaView>::empty(),
        ix@.data == seq![3u8] + spec_u64_to_le_bytes(price),
{
    let ix = ComputeBudgetInstruction::set_compute_unit_price(price);
    Instruction {
        program_id: Address { bytes: ix.program_id.to_bytes() },
        accounts: ix.accounts.iter().map(|meta| AccountMeta {
            pubkey: Address { bytes: meta.pubkey.to_bytes() },
            is_signer: meta.is_signer,
            is_writable: meta.is_writable,
        }).collect(),
        data: ix.data,
    }
}

/// `ComputeBudgetInstruction::set_compute_unit_limit`: an instruction for the
/// compute-budget program, with no accounts, whose data is the tag 2 and the
/// limit in little-endian bytes.
#[verifier::external_body]
pub(crate) fn set_compute_unit_limit(units: u32) -> (ix: Instruction)
    ensures
        ix@.program_id == COMPUTE_BUDGET_PROGRAM_BYTES@,
        ix@.accounts == Seq::<AccountMetaView>::empty(),
        ix@.data == seq![2u8] + spec_u32_to_le_bytes(units),
{
    let ix = ComputeBudgetInstruction::set_compute_unit_limit(units);
    Instruction {
        program_id: Address { bytes: ix.program_id.to_bytes() },
        accounts: ix.accounts.iter().map(|meta| AccountMeta {
            pubkey: Address { bytes: meta.pubkey.to_bytes() },
            is_signer: meta.is_signer,
            is_writable: meta.is_writable,
        }).collect(),
        data: ix.data,
    }
}

/// `Pubkey::create_with_seed`: fails where the seed is longer than 32 bytes
/// or the owner ends in the marker of derived addresses, and otherwise gives
/// the address derived from the three values.
#[verifier::external_body]
pub(crate) fn create_with_seed(base: &Address, seed: &str, owner: &Address) -> (derived: Option<
    Address,
>)
    ensures
        match derived {
            Some(a) => can_derive(seed@, owner@) && a@ == seeded_address(base@, seed@, owner@),
            None => !can_derive(seed@, owner@),
        },
{
    let base = Pubkey::new_from_array(base.bytes);
    let owner = Pubkey::new_from_array(owner.bytes);
    match Pubkey::create_with_seed(&base, seed, &owner) {
        Ok(key) => Some(Address { bytes: key.to_bytes() }),
        Err(_) => None,
    }
}

/// `Pubkey::try_find_program_address` on three 32-byte seeds: the address it
/// finds under the program, or `None` where it finds none.
#[verifier::external_body]
pub(crate) fn find_program_address(
    first: &Address,
    second: &Address,
    third: &Address,
    program: &Address,
) -> (address: Option<Address>)
    ensures
        match address {
            Some(a) => program_address(first@, second@, third@, program@) == Some(a@),
            None => program_address(first@, second@, third@, program@) is None,
        },
{
    let seeds: [&[u8]; 3] = [&first.bytes, &second.bytes, &third.bytes];
    let program = Pubkey::new_from_array(program.bytes);
    match Pubkey::try_find_program_address(&seeds, &program) {
        Some((key, _)) => Some(Address { bytes: key.to_bytes() }),
        None => None,
    }
}

/// `Keypair::new`, then the text of its public key: between 32 and 44
/// characters of the base-58 alphabet, whatever key was drawn.
#[verifier::external_body]
pub(crate) fn fresh_key_text() -> (text: String)
    ensures
        32 <= text@.len() <= 44,
        is_ascii_chars(text@),
{
    Keypair::new().pubkey().to_string()
}

/// `system_instruction::create_account_with_seed`: an instruction for the
/// system program over the funding account (signer, writable), the new
/// account (writable) and the base (signer, read-only), in that order.
#[verifier::external_body]
pub(crate) fn create_account_with_seed(
    from: &Address,
    to: &Address,
    base: &Address,
    seed: &str,
    lamports: u64,
    space: u64,
    owner: &Address,
) -> (ix: Instruction)
    ensures
        ix@.program_id == SYSTEM_PROGRAM_BYTES@,
        ix@.accounts == seq![writable(from@, true), writable(to@, false), readonly(base@, true)],
        ix@.data == create_account_with_seed_data(base@, seed@, lamports, space, owner@),
{
    let (from, to) = (Pubkey::new_from_array(from.bytes), Pubkey::new_from_array(to.bytes));
    let (base, owner) = (Pubkey::new_from_array(base.bytes), Pubkey::new_from_array(owner.bytes));
    let ix = solana_sdk::system_instruction::create_account_with_seed(
        &from, &to, &base, seed, lamports, space, &owner,
    );
    Instruction {
        program_id: Address { bytes: ix.program_id.to_bytes() },
        accounts: ix.accounts.iter().map(|meta| AccountMeta {
            pubkey: Address { bytes: meta.pubkey.to_bytes() },
            is_signer: meta.is_signer,
            is_writable: meta.is_writable,
        }).collect(),
        data: ix.data,
    }
}

/// `spl_token::instruction::initialize_account` for the token program
/// itself, which cannot fail: an instruction over the account (writable), the
/// mint, the owner and the rent sysvar (read-only), none a signer, with the
/// one data byte 1.
#[verifier::external_body]
pub(crate) fn initialize_account(account: &Address, mint: &Address, owner: &Address) -> (ix:
    Instruction)
    ensures
        ix@.program_id == TOKEN_PROGRAM_BYTES@,
        ix@.accounts == seq![
            writable(account@, false),
            readonly(mint@, false),
            readonly(owner@, false),
            readonly(RENT_SYSVAR_BYTES@, false),
        ],
        ix@.data == seq![1u8],
{
    let account = Pubkey::new_from_array(account.bytes);
    let mint = Pubkey::new_from_array(mint.bytes);
    let owner = Pubkey::new_from_array(owner.bytes);
    let token = spl_token::id();
    let ix = spl_token::instruction::initialize_account(&token, &account, &mint, &owner).unwrap();
    Instruction {
        program_id: Address { bytes: ix.program_id.to_bytes() },
        accounts: ix.accounts.iter().map(|meta| AccountMeta {
            pubkey: Address { bytes: meta.pubkey.to_bytes() },
            is_signer: meta.is_signer,
            is_writable: meta.is_writable,
        }).collect(),
        data: ix.data,
    }
}

/// `spl_token::instruction::close_account` for the token program itself and
/// no further signers, which cannot fail: an instruction over the account and
/// the destination (writable) and the owner (signer, read-only), with the one
/// data byte 9.
#[verifier::external_body]
pub(crate) fn close_account(account: &Address, destination: &Address, owner: &Address) -> (ix:
    Instruction)
    ensures
        ix@.program_id == TOKEN_PROGRAM_BYTES@,
        ix@.accounts == seq![
            writable(account@, false),
            writable(destination@, false),
            readonly(owner@, true),
        ],
        ix@.data == seq![9u8],
{
    let account = Pubkey::new_from_array(account.bytes);
    let to = Pubkey::new_from_array(destination.bytes);
    let owner = Pubkey::new_from_array(owner.bytes);
    let token = spl_token::id();
    let ix = spl_token::instruction::close_account(&token, &account, &to, &owner, &[]).unwrap();
    Instruction {
        program_id: Address { bytes: ix.program_id.to_bytes() },
        accounts: ix.accounts.iter().map(|meta| AccountMeta {
            pubkey: Address { bytes: meta.pubkey.to_bytes() },
            is_signer: meta.is_signer,
            is_writable: meta.is_writable,
        }).collect(),
        data: ix.data,
    }
}

/// `create_associated_token_account_idempotent` of the associated-token
/// crate, for the token program. It panics where no associated address can
/// be found, so that case is left out. The instruction names the funding
/// account (signer, writable), the associated account (writable), and then
/// the wallet, the mint, the system program and the token program
/// (read-only); its data is the one byte 1.
#[verifier::external_body]
pub(crate) fn create_associated_token_account_idempotent(
    funding: &Address,
    wallet: &Address,
    mint: &Address,
) -> (ix: Instruction)
    requires
        program_address(
            wallet@,
            TOKEN_PROGRAM_BYTES@,
            mint@,
            ASSOCIATED_TOKEN_PROGRAM_BYTES@,
        ) is Some,
    ensures
        ix@.program_id == ASSOCIATED_TOKEN_PROGRAM_BYTES@,
        ix@.accounts == seq![
            writable(funding@, true),
            writable(
                program_address(
                    wallet@,
                    TOKEN_PROGRAM_BYTES@,
                    mint@,
                    ASSOCIATED_TOKEN_PROGRAM_BYTES@,
                )->0,
                false,
            ),
            readonly(wallet@, false),
            readonly(mint@, false),
            readonly(SYSTEM_PROGRAM_BYTES@, false),
            readonly(TOKEN_PROGRAM_BYTES@, false),
        ],
        ix@.data == seq![1u8],
{
    let funding = Pubkey::new_from_array(funding.bytes);
    let wallet = Pubkey::new_from_array(wallet.bytes);
    let mint = Pubkey::new_from_array(mint.bytes);
    let ix = spl_associated_token_account::instruction::create_associated_token_account_idempotent(
        &funding, &wallet, &mint, &spl_token::id(),
    );
    Instruction {
        program_id: Address { bytes: ix.program_id.to_bytes() },
        accounts: ix.accounts.iter().map(|meta| AccountMeta {
            pubkey: Address { bytes: meta.pubkey.to_bytes() },
            is_signer: meta.is_signer,
            is_writable: meta.is_writable,
        }).collect(),
        data: ix.data,
    }
}

} // verus!
