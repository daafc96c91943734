//! Token accounts for the two sides of a trade: where each side is held, and
//! the instructions that bring the account into being before the swap and
//! dispose of it afterwards.

use vstd::prelude::*;
use vstd::string::*;
use vstd::utf8::{encode_utf8, is_ascii_chars, is_ascii_chars_encode_utf8};
use crate::address::{
    token_program, Address, ASSOCIATED_TOKEN_PROGRAM_BYTES, NATIVE_MINT_BYTES, RENT_SYSVAR_BYTES,
    SYSTEM_PROGRAM_BYTES, TOKEN_PROGRAM_BYTES,
};
use crate::instruction::{
    lemma_views_add, lemma_views_push, readonly, views, writable, Instruction, InstructionView,
};
use crate::sdk::{
    create_account_with_seed_data, ends_in_marker, program_address, seeded_address,
    DERIVED_ADDRESS_MARKER, MAX_SEED_LEN,
};

verus! {

/// Size in bytes of a token account.
pub const TOKEN_ACCOUNT_LEN: u64 = 165;

/// Number of characters in the seed of a wrapped native account.
pub const SEED_LEN: usize = 32;

/// The instructions that a token account needs around the swap instruction:
/// those that run before it and those that run after it, each in the order
/// in which they run.
#[derive(Debug, PartialEq, Eq)]
pub struct Swap {
    pub pre_swap_instructions: Vec<Instruction>,
    pub post_swap_instructions: Vec<Instruction>,
}

/// What the network reported about the account that is to hold one side of
/// the trade.
#[derive(Clone, Copy, Debug, PartialEq, Eq)]
pub struct AccountLookup {
    /// The least balance that exempts a token account from rent, or `None`
    /// where the lookup failed.
    pub rent_exempt_minimum: Option<u64>,
    /// Whether an account exists at the address derived for this side.
    pub exists: bool,
}

/// Why no token account could be prepared.
#[derive(Clone, Copy, Debug, PartialEq, Eq, Structural)]
pub enum AccountPreparationError {
    /// The rent-exempt minimum balance could not be looked up.
    RentLookupFailed,
    /// The rent-exempt minimum and the trade amount together exceed 64 bits.
    BalanceOverflow,
    /// The seed is longer than an address can be derived from.
    InvalidSeed,
    /// An account already exists at the address derived from the seed.
    SeedCollision,
    /// No associated address can be derived for this owner and mint.
    NoAssociatedAddress,
}

/// An account for one side of the trade, with the instructions it needs.
#[verifier::ext_equal]
pub struct PreparedAccount {
    pub address: Seq<u8>,
    pub pre_swap: Seq<InstructionView>,
    pub post_swap: Seq<InstructionView>,
}

/// The instruction that creates an account at a seeded address.
pub open spec fn create_account_with_seed_view(
    from: Seq<u8>,
    to: Seq<u8>,
    base: Seq<u8>,
    seed: Seq<char>,
    lamports: u64,
    space: u64,
    owner: Seq<u8>,
) -> InstructionView {
    InstructionView {
        program_id: SYSTEM_PROGRAM_BYTES@,
        accounts: seq![writable(from, true), writable(to, false), readonly(base, true)],
        data: create_account_with_seed_data(base, seed, lamports, space, owner),
    }
}

/// The instruction that makes an account a token account of a mint.
pub open spec fn initialize_account_view(
    account: Seq<u8>,
    mint: Seq<u8>,
    owner: Seq<u8>,
) -> InstructionView {
    InstructionView {
        program_id: TOKEN_PROGRAM_BYTES@,
        accounts: seq![
            writable(account, false),
            readonly(mint, false),
            readonly(owner, false),
            readonly(RENT_SYSVAR_BYTES@, false),
        ],
        data: seq![1u8],
    }
}

/// The instruction that closes a token account and pays its balance out.
pub open spec fn close_account_view(
    account: Seq<u8>,
    destination: Seq<u8>,
    owner: Seq<u8>,
) -> InstructionView {
    InstructionView {
        program_id: TOKEN_PROGRAM_BYTES@,
        accounts: seq![
            writable(account, false),
            writable(destination, false),
            readonly(owner, true),
        ],
        data: seq![9u8],
    }
}

/// The associated token address of a wallet and a mint, where there is one.
pub open spec fn associated_address(wallet: Seq<u8>, mint: Seq<u8>) -> Option<Seq<u8>> {
    program_address(wallet, TOKEN_PROGRAM_BYTES@, mint, ASSOCIATED_TOKEN_PROGRAM_BYTES@)
}

/// The instruction that creates the associated token account of a wallet and
/// a mint unless it exists.
pub open spec fn create_if_absent_view(
    funding: Seq<u8>,
    wallet: Seq<u8>,
    mint: Seq<u8>,
) -> InstructionView {
    InstructionView {
        program_id: ASSOCIATED_TOKEN_PROGRAM_BYTES@,
        accounts: seq![
            writable(funding, true),
            writable(associated_address(wallet, mint)->0, false),
            readonly(wallet, false),
            readonly(mint, false),
            readonly(SYSTEM_PROGRAM_BYTES@, false),
            readonly(TOKEN_PROGRAM_BYTES@, false),
        ],
        data: seq![1u8],
    }
}

/// The pair of instructions that creates a token account at a seeded address
/// and initialises it.
pub open spec fn create_init_views(
    token: Seq<u8>,
    seed: Seq<char>,
    mint: Seq<u8>,
    owner: Seq<u8>,
    funding: Seq<u8>,
    lamports: u64,
) -> Seq<InstructionView> {
    seq![
        create_account_with_seed_view(
            funding,
            token,
            owner,
            seed,
            lamports,
            TOKEN_ACCOUNT_LEN,
            TOKEN_PROGRAM_BYTES@,
        ),
        initialize_account_view(token, mint, owner),
    ]
}

/// The account for the native currency: a fresh account at the address
/// seeded under the owner, created with the rent-exempt minimum and the
/// trade amount, initialised for the native mint, and closed after the swap.
pub open spec fn native_account(
    lookup: AccountLookup,
    seed: Seq<char>,
    mint: Seq<u8>,
    amount: u64,
    owner: Seq<u8>,
    funding: Seq<u8>,
) -> Result<PreparedAccount, AccountPreparationError> {
    let token = seeded_address(owner, seed, TOKEN_PROGRAM_BYTES@);
    match lookup.rent_exempt_minimum {
        None => Err(AccountPreparationError::RentLookupFailed),
        Some(rent) => if rent + amount > u64::MAX {
            Err(AccountPreparationError::BalanceOverflow)
        } else if encode_utf8(seed).len() > MAX_SEED_LEN {
            Err(AccountPreparationError::InvalidSeed)
        } else if lookup.exists {
            Err(AccountPreparationError::SeedCollision)
        } else {
            Ok(
                PreparedAccount {
                    address: token,
                    pre_swap: create_init_views(
                        token,
                        seed,
                        mint,
                        owner,
                        funding,
                        (rent + amount) as u64,
                    ),
                    post_swap: seq![close_account_view(token, owner, owner)],
                },
            )
        },
    }
}

/// The account for a standard token: the owner's associated account of the
/// mint, created before the swap unless it exists, and kept afterwards.
pub open spec fn standard_account(
    lookup: AccountLookup,
    mint: Seq<u8>,
    owner: Seq<u8>,
    funding: Seq<u8>,
) -> Result<PreparedAccount, AccountPreparationError> {
    match associated_address(owner, mint) {
        None => Err(AccountPreparationError::NoAssociatedAddress),
        Some(address) => Ok(
            PreparedAccount {
                address,
                pre_swap: if lookup.exists {
                    Seq::empty()
                } else {
                    seq![create_if_absent_view(funding, owner, mint)]
                },
                post_swap: Seq::empty(),
            },
        ),
    }
}

/// The account that holds one side of the trade, by the policy for its mint.
pub open spec fn prepared_account(
    lookup: AccountLookup,
    seed: Seq<char>,
    mint: Seq<u8>,
    amount: u64,
    owner: Seq<u8>,
    funding: Seq<u8>,
) -> Result<PreparedAccount, AccountPreparationError> {
    if mint == NATIVE_MINT_BYTES@ {
        native_account(lookup, seed, mint, amount, owner, funding)
    } else {
        standard_account(lookup, mint, owner, funding)
    }
}

/// The address at which the account for a mint is prepared: seeded under the
/// owner for the native mint, the owner's associated address for any other.
pub open spec fn account_address(mint: Seq<u8>, owner: Seq<u8>, seed: Seq<char>) -> Result<
    Seq<u8>,
    AccountPreparationError,
> {
    if mint == NATIVE_MINT_BYTES@ {
        if encode_utf8(seed).len() > MAX_SEED_LEN {
            Err(AccountPreparationError::InvalidSeed)
        } else {
            Ok(seeded_address(owner, seed, TOKEN_PROGRAM_BYTES@))
        }
    } else {
        match associated_address(owner, mint) {
            None => Err(AccountPreparationError::NoAssociatedAddress),
            Some(address) => Ok(address),
        }
    }
}

impl Swap {
    /// A plan with no instructions yet.
    pub fn new() -> (swap: Swap)
        ensures
            swap.pre_swap_instructions@.len() == 0,
            swap.post_swap_instructions@.len() == 0,
    {
        Swap { pre_swap_instructions: Vec::new(), post_swap_instructions: Vec::new() }
    }

    /// The instructions that run before the swap.
    pub open spec fn pre_swap(&self) -> Seq<InstructionView> {
        views(self.pre_swap_instructions@)
    }

    /// The instructions that run after the swap.
    pub open spec fn post_swap(&self) -> Seq<InstructionView> {
        views(self.post_swap_instructions@)
    }
}

/// The token program's address does not end in the marker of derived
/// addresses, so addresses can be seeded under it.
pub proof fn lemma_token_program_can_own()
    ensures
        !ends_in_marker(TOKEN_PROGRAM_BYTES@),
{
    assert(TOKEN_PROGRAM_BYTES@.subrange(11, 32)[0] == 70u8);
    assert(DERIVED_ADDRESS_MARKER@[0] == 80u8);
}

/// Derives the address of the token account seeded by `seed` under `from`.
pub fn generate_pub_key(from: &Address, seed: &str) -> (token: Address)
    requires
        encode_utf8(seed@).len() <= MAX_SEED_LEN,
    ensures
        token@ == seeded_address(from@, seed@, TOKEN_PROGRAM_BYTES@),
{
    proof {
        lemma_token_program_can_own();
    }
    crate::sdk::create_with_seed(from, seed, &token_program()).unwrap()
}

/// A fresh seed for a wrapped native account: the first 32 characters of
/// the text of a newly drawn key.
pub fn new_account_seed() -> (seed: String)
    ensures
        seed@.len() == SEED_LEN,
        is_ascii_chars(seed@),
        encode_utf8(seed@).len() == SEED_LEN,
{
    let text = crate::sdk::fresh_key_text();
    let head = text.as_str().substring_ascii(0, SEED_LEN);
    proof {
        is_ascii_chars_encode_utf8(head@);
    }
    head.to_owned()
}

/// The owner's associated token address for a mint, where there is one.
pub fn associated_token_address(owner: &Address, mint: &Address) -> (address: Option<Address>)
    ensures
        match address {
            Some(a) => associated_address(owner@, mint@) == Some(a@),
            None => associated_address(owner@, mint@) is None,
        },
{
    let token = token_program();
    let program = Address { bytes: ASSOCIATED_TOKEN_PROGRAM_BYTES };
    crate::sdk::find_program_address(owner, &token, mint, &program)
}

/// The address at which the account for `mint` is to be prepared, so that it
/// can be looked up before it is prepared.
pub fn token_account_address(mint: &Address, owner: &Address, seed: &str) -> (address: Result<
    Address,
    AccountPreparationError,
>)
    ensures
        match address {
            Ok(a) => account_address(mint@, owner@, seed@) == Ok::<
                Seq<u8>,
                AccountPreparationError,
            >(a@),
            Err(e) => account_address(mint@, owner@, seed@) == Err::<
                Seq<u8>,
                AccountPreparationError,
            >(e),
        },
{
    if mint.is_native_mint() {
        if seed.as_bytes().len() > MAX_SEED_LEN {
            Err(AccountPreparationError::InvalidSeed)
        } else {
            Ok(generate_pub_key(owner, seed))
        }
    } else {
        match associated_token_address(owner, mint) {
            None => Err(AccountPreparationError::NoAssociatedAddress),
            Some(address) => Ok(address),
        }
    }
}

/// The two instructions that create the token account `token`, seeded by
/// `seed` under `owner` and funded with `lamports` by `funding`, and
/// initialise it for `mint`.
pub fn create_init_token(
    token: &Address,
    seed: &str,
    mint: &Address,
    owner: &Address,
    funding: &Address,
    lamports: u64,
) -> (instructions: Vec<Instruction>)
    ensures
        views(instructions@) == create_init_views(
            token@,
            seed@,
            mint@,
            owner@,
            funding@,
            lamports,
        ),
{
    let program = token_program();
    let create = crate::sdk::create_account_with_seed(
        funding,
        token,
        owner,
        seed,
        lamports,
        TOKEN_ACCOUNT_LEN,
        &program,
    );
    let initialize = crate::sdk::initialize_account(token, mint, owner);
    proof {
        assert(create@ =~= create_account_with_seed_view(
            funding@,
            token@,
            owner@,
            seed@,
            lamports,
            TOKEN_ACCOUNT_LEN,
            TOKEN_PROGRAM_BYTES@,
        ));
        assert(initialize@ =~= initialize_account_view(token@, mint@, owner@));
    }
    let mut instructions: Vec<Instruction> = Vec::new();
    instructions.push(create);
    instructions.push(initialize);
    proof {
        assert(views(instructions@) =~= create_init_views(
            token@,
            seed@,
            mint@,
            owner@,
            funding@,
            lamports,
        ));
    }
    instructions
}

/// Prepares the account that holds one side of the trade and adds the
/// instructions it needs to the plan. For the native mint that is a fresh
/// account seeded by `seed`, wrapped before the swap and closed after it; for
/// any other mint it is the owner's associated account, created before the
/// swap unless `lookup` found it.
pub fn handle_token_account(
    swap: &mut Swap,
    lookup: &AccountLookup,
    seed: &str,
    mint: &Address,
    amount: u64,
    owner: &Address,
    funding: &Address,
) -> (account: Result<Address, AccountPreparationError>)
    ensures
        match account {
            Ok(address) => {
                &&& prepared_account(*lookup, seed@, mint@, amount, owner@, funding@) matches Ok(
                    prepared,
                )
                &&& address@ == prepared.address
                &&& final(swap).pre_swap() == old(swap).pre_swap() + prepared.pre_swap
                &&& final(swap).post_swap() == old(swap).post_swap() + prepared.post_swap
            },
            Err(e) => {
                &&& prepared_account(*lookup, seed@, mint@, amount, owner@, funding@) == Err::<
                    PreparedAccount,
                    AccountPreparationError,
                >(e)
                &&& *final(swap) == *old(swap)
            },
        },
{
    if mint.is_native_mint() {
        let rent = match lookup.rent_exempt_minimum {
            None => {
                return Err(AccountPreparationError::RentLookupFailed);
            },
            Some(rent) => rent,
        };
        let lamports = match rent.checked_add(amount) {
            None => {
                return Err(AccountPreparationError::BalanceOverflow);
            },
            Some(lamports) => lamports,
        };
        if seed.as_bytes().len() > MAX_SEED_LEN {
            return Err(AccountPreparationError::InvalidSeed);
        }
        if lookup.exists {
            return Err(AccountPreparationError::SeedCollision);
        }
        let token = generate_pub_key(owner, seed);
        let mut init_ixs = create_init_token(&token, seed, mint, owner, funding, lamports);
        let close = crate::sdk::close_account(&token, owner, owner);
        proof {
            assert(close@ =~= close_account_view(token@, owner@, owner@));
            lemma_views_add(swap.pre_swap_instructions@, init_ixs@);
            lemma_views_push(swap.post_swap_instructions@, close);
        }
        swap.pre_swap_instructions.append(&mut init_ixs);
        swap.post_swap_instructions.push(close);
        proof {
            assert(swap.post_swap() =~= old(swap).post_swap() + seq![close@]);
        }
        Ok(token)
    } else {
        let token = match associated_token_address(owner, mint) {
            None => {
                return Err(AccountPreparationError::NoAssociatedAddress);
            },
            Some(token) => token,
        };
        if !lookup.exists {
            let create = crate::sdk::create_associated_token_account_idempotent(
                funding,
                owner,
                mint,
            );
            proof {
                assert(create@ =~= create_if_absent_view(funding@, owner@, mint@));
                lemma_views_push(swap.pre_swap_instructions@, create);
            }
            swap.pre_swap_instructions.push(create);
            proof {
                assert(swap.pre_swap() =~= old(swap).pre_swap() + seq![create@]);
            }
        }
        proof {
            assert(swap.pre_swap() =~= old(swap).pre_swap() + standard_account(
                *lookup,
                mint@,
                owner@,
                funding@,
            )->Ok_0.pre_swap);
            assert(swap.post_swap() =~= old(swap).post_swap() + Seq::<InstructionView>::empty());
        }
        Ok(token)
    }
}

/// An account is prepared at the address under which it was looked up.
pub proof fn lemma_prepared_at_account_address(
    lookup: AccountLookup,
    seed: Seq<char>,
    mint: Seq<u8>,
    amount: u64,
    owner: Seq<u8>,
    funding: Seq<u8>,
)
    requires
        prepared_account(lookup, seed, mint, amount, owner, funding) is Ok,
    ensures
        account_address(mint, owner, seed) == Ok::<Seq<u8>, AccountPreparationError>(
            prepared_account(lookup, seed, mint, amount, owner, funding)->Ok_0.address,
        ),
{
}

/// Whether the account exists once the pre-swap instructions of its
/// preparation have run: it was there before, or they create it.
pub open spec fn exists_after(lookup: AccountLookup, prepared: PreparedAccount) -> bool {
    lookup.exists || prepared.pre_swap.len() > 0
}

/// Whether an instruction closes the token account `account`.
pub open spec fn closes(instruction: InstructionView, account: Seq<u8>) -> bool {
    &&& instruction.program_id == TOKEN_PROGRAM_BYTES@
    &&& instruction.data == seq![9u8]
    &&& instruction.accounts.len() == 3
    &&& instruction.accounts[0].pubkey == account
}

/// Whether an instruction creates the account `account` through the system
/// program.
pub open spec fn creates(instruction: InstructionView, account: Seq<u8>) -> bool {
    &&& instruction.program_id == SYSTEM_PROGRAM_BYTES@
    &&& instruction.accounts.len() == 3
    &&& instruction.accounts[1].pubkey == account
}

/// What holds of every prepared account: it exists by the time the swap
/// runs, and whatever runs after the swap closes this account and no other,
/// and only where it was created before the swap.
pub open spec fn self_contained(lookup: AccountLookup, prepared: PreparedAccount) -> bool {
    &&& exists_after(lookup, prepared)
    &&& forall|i: int|
        0 <= i < prepared.post_swap.len() ==> {
            &&& closes(#[trigger] prepared.post_swap[i], prepared.address)
            &&& prepared.pre_swap.len() > 0
            &&& creates(prepared.pre_swap[0], prepared.address)
        }
}

/// Every prepared account is self-contained: the instructions before the
/// swap establish it, and those after the swap dispose only of what the ones
/// before it made.
pub proof fn lemma_prepared_account_self_contained(
    lookup: AccountLookup,
    seed: Seq<char>,
    mint: Seq<u8>,
    amount: u64,
    owner: Seq<u8>,
    funding: Seq<u8>,
)
    requires
        prepared_account(lookup, seed, mint, amount, owner, funding) is Ok,
    ensures
        self_contained(
            lookup,
            prepared_account(lookup, seed, mint, amount, owner, funding)->Ok_0,
        ),
{
}

/// Preparing the account of a standard token a second time, once the
/// instructions of the first preparation have run, gives the same address and
/// no instruction at all.
pub proof fn lemma_standard_account_idempotent(
    lookup: AccountLookup,
    seed: Seq<char>,
    mint: Seq<u8>,
    amount: u64,
    owner: Seq<u8>,
    funding: Seq<u8>,
)
    requires
        mint != NATIVE_MINT_BYTES@,
        prepared_account(lookup, seed, mint, amount, owner, funding) is Ok,
    ensures
        ({
            let first = prepared_account(lookup, seed, mint, amount, owner, funding)->Ok_0;
            let found = AccountLookup {
                rent_exempt_minimum: lookup.rent_exempt_minimum,
                exists: exists_after(lookup, first),
            };
            &&& prepared_account(found, seed, mint, amount, owner, funding) matches Ok(again)
            &&& again.address == first.address
            &&& again.pre_swap == Seq::<InstructionView>::empty()
            &&& again.post_swap == Seq::<InstructionView>::empty()
        }),
{
}

/// The account for the native currency always comes with one pair of
/// instructions before the swap, which create and initialise it, and one
/// instruction after the swap, which closes it in favour of the owner.
pub proof fn lemma_native_account_wraps_and_unwraps(
    lookup: AccountLookup,
    seed: Seq<char>,
    amount: u64,
    owner: Seq<u8>,
    funding: Seq<u8>,
)
    requires
        prepared_account(lookup, seed, NATIVE_MINT_BYTES@, amount, owner, funding) is Ok,
    ensures
        ({
            let native = prepared_account(
                lookup,
                seed,
                NATIVE_MINT_BYTES@,
                amount,
                owner,
                funding,
            )->Ok_0;
            let rent = lookup.rent_exempt_minimum->0;
            &&& native.address == seeded_address(owner, seed, TOKEN_PROGRAM_BYTES@)
            &&& native.pre_swap.len() == 2
            &&& native.pre_swap[0] == create_account_with_seed_view(
                funding,
                native.address,
                owner,
                seed,
                (rent + amount) as u64,
                TOKEN_ACCOUNT_LEN,
                TOKEN_PROGRAM_BYTES@,
            )
            &&& native.pre_swap[1] == initialize_account_view(
                native.address,
                NATIVE_MINT_BYTES@,
                owner,
            )
            &&& native.post_swap.len() == 1
            &&& native.post_swap[0] == close_account_view(native.address, owner, owner)
        }),
{
}

} // verus!
