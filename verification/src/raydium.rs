//! The swap from start to finish, as a sequence of decisions. Whoever drives
//! it performs each action on the network or at the terminal and reports
//! what came of it; [`Raydium::swap`] decides what follows.

use vstd::prelude::*;
use vstd::utf8::is_ascii_chars;
pub use crate::accounts::{create_init_token, generate_pub_key};
pub use crate::assemble::make_compute_budget_ixs;
pub use crate::accounts::{handle_token_account, Swap};
use crate::accounts::{
    account_address, new_account_seed, prepared_account, token_account_address, AccountLookup,
    AccountPreparationError, SEED_LEN,
};
use crate::address::{Address, NATIVE_MINT_BYTES};
use crate::assemble::{
    assemble, assembled, compute_budget_views, COMPUTE_UNIT_LIMIT, COMPUTE_UNIT_PRICE,
};
use crate::instruction::{views, Instruction, InstructionView};
use crate::quote::{quote_threshold, quoted_threshold, PoolKeys, QuoteError, VaultAmounts};

verus! {

/// Swaps through a pool of the automated market maker.
#[derive(Debug, PartialEq, Eq)]
pub struct Raydium {}

/// What is to be traded, for whom, and under which bound.
#[derive(Clone, Copy, Debug, PartialEq, Eq)]
pub struct SwapOrder {
    pub amm_program: Address,
    pub amm_pool_id: Address,
    pub input_token_mint: Address,
    pub output_token_mint: Address,
    pub slippage_bps: u64,
    pub amount_specified: u64,
    pub swap_base_in: bool,
    /// The trader: owner and payer of the token accounts, and the signer.
    pub wallet: Address,
    /// Whether the trader has agreed already, so that nothing is asked.
    pub confirmed: bool,
}

/// Why the pool could not be traded against at all.
#[derive(Clone, Copy, Debug, PartialEq, Eq, Structural)]
pub enum ResolutionError {
    PoolNotFound,
    MarketNotFound,
    /// No swap instruction could be built from the pool's and market's keys.
    SwapInstructionUnavailable,
}

/// What a read-only run of the transaction showed.
#[derive(Debug, PartialEq, Eq)]
pub struct SimulationTrace {
    pub logs: Vec<String>,
    pub units_consumed: Option<u64>,
    /// The index of the instruction that failed, where the network gave it.
    pub failed_instruction: Option<u8>,
}

/// The record of a rejected transaction: what the network said, and what a
/// read-only run of the same transaction showed.
#[derive(Debug, PartialEq, Eq)]
pub struct Diagnostic {
    pub rejection: String,
    pub trace: SimulationTrace,
}

/// Why a swap failed.
#[derive(Debug, PartialEq, Eq)]
pub enum SwapError {
    Resolution(ResolutionError),
    Quote(QuoteError),
    AccountPreparation(AccountPreparationError),
    /// The network rejected the signed transaction.
    Submission(Diagnostic),
    /// Something was reported that had not been asked for.
    UnexpectedEvent,
}

/// How a swap ended.
#[derive(Debug, PartialEq, Eq)]
pub enum SwapOutcome {
    Submitted { signature: String },
    /// The trader declined; nothing was signed or sent.
    Cancelled,
    Failed(SwapError),
}

/// How far a swap has come, with what later steps need of earlier ones.
#[derive(Debug, PartialEq, Eq)]
pub enum SwapStage {
    Idle,
    ResolvingPool,
    ResolvingMarket { keys: PoolKeys },
    SamplingVaults { keys: PoolKeys },
    LookingUpAccounts { threshold: u64, source_seed: String, destination_seed: String },
    BuildingSwap { source: Swap, destination: Swap },
    Confirming { instructions: Vec<Instruction> },
    Submitting,
    Diagnosing { rejection: String },
    Done,
}

/// What came of the action that was asked for last.
#[derive(Debug, PartialEq, Eq)]
pub enum SwapEvent {
    Started,
    PoolResolved(Option<PoolKeys>),
    MarketResolved(bool),
    VaultsSampled(Option<VaultAmounts>),
    AccountsLookedUp {
        rent_exempt_minimum: Option<u64>,
        source_exists: bool,
        destination_exists: bool,
    },
    SwapInstructionBuilt(Option<Instruction>),
    Confirmed(bool),
    /// The transaction's identifier, or the network's rejection.
    Submitted(Result<String, String>),
    Simulated(SimulationTrace),
}

/// What is to be done next.
#[derive(Debug, PartialEq, Eq)]
pub enum SwapAction {
    ResolvePool { amm_program: Address, amm_pool_id: Address },
    ResolveMarket { market_program: Address, market: Address },
    /// Sample the reserves and the fee rate by a read-only run as the trader.
    SampleVaults { simulate_as: Address },
    /// Find out whether accounts exist at the two addresses and, where
    /// `rent_needed`, the rent-exempt minimum balance of a token account.
    LookUpAccounts { source: Address, destination: Address, rent_needed: bool },
    BuildSwapInstruction {
        source: Address,
        destination: Address,
        amount: u64,
        other_amount_threshold: u64,
        swap_base_in: bool,
    },
    /// Ask the trader whether to go ahead.
    Confirm,
    /// Sign the instructions over a fresh anchor and send the transaction.
    Submit { instructions: Vec<Instruction> },
    /// Run the signed transaction read-only and report what it shows.
    Simulate,
    Finish(SwapOutcome),
}

/// The end of a swap that failed.
pub open spec fn ends_in(error: SwapError, next: SwapStage, action: SwapAction) -> bool {
    next == SwapStage::Done && action == SwapAction::Finish(SwapOutcome::Failed(error))
}

/// The first step: the pool is to be resolved.
pub open spec fn started(order: SwapOrder, next: SwapStage, action: SwapAction) -> bool {
    &&& next == SwapStage::ResolvingPool
    &&& action == SwapAction::ResolvePool {
        amm_program: order.amm_program,
        amm_pool_id: order.amm_pool_id,
    }
}

/// After the pool: its market is to be resolved, or the swap ends.
pub open spec fn pool_resolved(found: Option<PoolKeys>, next: SwapStage, action: SwapAction) -> bool {
    match found {
        None => ends_in(SwapError::Resolution(ResolutionError::PoolNotFound), next, action),
        Some(keys) => {
            &&& next == SwapStage::ResolvingMarket { keys }
            &&& action == SwapAction::ResolveMarket {
                market_program: keys.market_program,
                market: keys.market,
            }
        },
    }
}

/// After the market: the vaults are to be sampled, or the swap ends.
pub open spec fn market_resolved(
    order: SwapOrder,
    keys: PoolKeys,
    found: bool,
    next: SwapStage,
    action: SwapAction,
) -> bool {
    if found {
        &&& next == SwapStage::SamplingVaults { keys }
        &&& action == SwapAction::SampleVaults { simulate_as: order.wallet }
    } else {
        ends_in(SwapError::Resolution(ResolutionError::MarketNotFound), next, action)
    }
}

/// After the vaults: the quote. Without a threshold the swap ends before any
/// instruction is built; with one, the accounts of both sides are to be
/// looked up at the addresses where they will be prepared.
pub open spec fn vaults_sampled(
    order: SwapOrder,
    keys: PoolKeys,
    sampled: Option<VaultAmounts>,
    source_seed: Seq<char>,
    destination_seed: Seq<char>,
    next: SwapStage,
    action: SwapAction,
) -> bool {
    match sampled {
        None => ends_in(SwapError::Quote(QuoteError::ReservesUnavailable), next, action),
        Some(vaults) => match quoted_threshold(
            keys,
            vaults,
            order.input_token_mint@,
            order.output_token_mint@,
            order.amount_specified,
            order.swap_base_in,
            order.slippage_bps,
        ) {
            Err(e) => ends_in(SwapError::Quote(e), next, action),
            Ok(threshold) => match account_address(
                order.input_token_mint@,
                order.wallet@,
                source_seed,
            ) {
                Err(e) => ends_in(SwapError::AccountPreparation(e), next, action),
                Ok(source_address) => match account_address(
                    order.output_token_mint@,
                    order.wallet@,
                    destination_seed,
                ) {
                    Err(e) => ends_in(SwapError::AccountPreparation(e), next, action),
                    Ok(destination_address) => {
                        &&& next matches SwapStage::LookingUpAccounts {
                            threshold: kept,
                            source_seed: first,
                            destination_seed: second,
                        }
                        &&& kept == threshold
                        &&& first@ == source_seed
                        &&& second@ == destination_seed
                        &&& action matches SwapAction::LookUpAccounts {
                            source,
                            destination,
                            rent_needed,
                        }
                        &&& source@ == source_address
                        &&& destination@ == destination_address
                        &&& rent_needed == (order.input_token_mint@ == NATIVE_MINT_BYTES@
                            || order.output_token_mint@ == NATIVE_MINT_BYTES@)
                    },
                },
            },
        },
    }
}

/// After the lookups: the accounts of both sides are prepared, and the swap
/// instruction is to be built over them; or the swap ends.
pub open spec fn accounts_looked_up(
    order: SwapOrder,
    threshold: u64,
    source_seed: Seq<char>,
    destination_seed: Seq<char>,
    rent_exempt_minimum: Option<u64>,
    source_exists: bool,
    destination_exists: bool,
    next: SwapStage,
    action: SwapAction,
) -> bool {
    match prepared_account(
        AccountLookup { rent_exempt_minimum, exists: source_exists },
        source_seed,
        order.input_token_mint@,
        order.amount_specified,
        order.wallet@,
        order.wallet@,
    ) {
        Err(e) => ends_in(SwapError::AccountPreparation(e), next, action),
        Ok(from) => match prepared_account(
            AccountLookup { rent_exempt_minimum, exists: destination_exists },
            destination_seed,
            order.output_token_mint@,
            0,
            order.wallet@,
            order.wallet@,
        ) {
            Err(e) => ends_in(SwapError::AccountPreparation(e), next, action),
            Ok(to) => {
                &&& next matches SwapStage::BuildingSwap { source: first, destination: second }
                &&& first.pre_swap() == from.pre_swap
                &&& first.post_swap() == from.post_swap
                &&& second.pre_swap() == to.pre_swap
                &&& second.post_swap() == to.post_swap
                &&& action matches SwapAction::BuildSwapInstruction {
                    source,
                    destination,
                    amount,
                    other_amount_threshold,
                    swap_base_in,
                }
                &&& source@ == from.address
                &&& destination@ == to.address
                &&& amount == order.amount_specified
                &&& other_amount_threshold == threshold
                &&& swap_base_in == order.swap_base_in
            },
        },
    }
}

/// The instruction list of the swap, assembled around the swap instruction.
pub open spec fn swap_instructions(
    source: Swap,
    destination: Swap,
    swap_instruction: Instruction,
) -> Seq<InstructionView> {
    assembled(
        compute_budget_views(COMPUTE_UNIT_PRICE, COMPUTE_UNIT_LIMIT),
        source.pre_swap(),
        destination.pre_swap(),
        swap_instruction@,
        source.post_swap(),
        destination.post_swap(),
    )
}

/// After the swap instruction: the list is assembled and sent, if the trader
/// has agreed already, or held until the trader has answered.
pub open spec fn swap_instruction_built(
    order: SwapOrder,
    source: Swap,
    destination: Swap,
    built: Option<Instruction>,
    next: SwapStage,
    action: SwapAction,
) -> bool {
    match built {
        None => ends_in(
            SwapError::Resolution(ResolutionError::SwapInstructionUnavailable),
            next,
            action,
        ),
        Some(swap_instruction) => if order.confirmed {
            &&& next == SwapStage::Submitting
            &&& action matches SwapAction::Submit { instructions }
            &&& views(instructions@) == swap_instructions(source, destination, swap_instruction)
        } else {
            &&& next matches SwapStage::Confirming { instructions }
            &&& views(instructions@) == swap_instructions(source, destination, swap_instruction)
            &&& action == SwapAction::Confirm
        },
    }
}

/// After the trader's answer: the held list is sent, or the swap is off.
pub open spec fn answered(
    instructions: Vec<Instruction>,
    agreed: bool,
    next: SwapStage,
    action: SwapAction,
) -> bool {
    if agreed {
        next == SwapStage::Submitting && action == SwapAction::Submit { instructions }
    } else {
        next == SwapStage::Done && action == SwapAction::Finish(SwapOutcome::Cancelled)
    }
}

/// After the submission: the swap is done, or the rejected transaction is to
/// be run read-only for a diagnosis.
pub open spec fn submitted(
    result: Result<String, String>,
    next: SwapStage,
    action: SwapAction,
) -> bool {
    match result {
        Ok(signature) => {
            &&& next == SwapStage::Done
            &&& action == SwapAction::Finish(SwapOutcome::Submitted { signature })
        },
        Err(rejection) => {
            &&& next == SwapStage::Diagnosing { rejection }
            &&& action == SwapAction::Simulate
        },
    }
}

/// After the read-only run: the swap has failed, and the failure carries the
/// rejection and the trace.
pub open spec fn simulated(
    rejection: String,
    trace: SimulationTrace,
    next: SwapStage,
    action: SwapAction,
) -> bool {
    ends_in(SwapError::Submission(Diagnostic { rejection, trace }), next, action)
}

/// One step of the swap, for the seeds that the accounts of a native mint
/// are made with.
pub open spec fn swap_step(
    order: SwapOrder,
    stage: SwapStage,
    event: SwapEvent,
    source_seed: Seq<char>,
    destination_seed: Seq<char>,
    next: SwapStage,
    action: SwapAction,
) -> bool {
    match (stage, event) {
        (SwapStage::Idle, SwapEvent::Started) => started(order, next, action),
        (SwapStage::ResolvingPool, SwapEvent::PoolResolved(found)) => pool_resolved(
            found,
            next,
            action,
        ),
        (SwapStage::ResolvingMarket { keys }, SwapEvent::MarketResolved(found)) => market_resolved(
            order,
            keys,
            found,
            next,
            action,
        ),
        (SwapStage::SamplingVaults { keys }, SwapEvent::VaultsSampled(sampled)) => vaults_sampled(
            order,
            keys,
            sampled,
            source_seed,
            destination_seed,
            next,
            action,
        ),
        (
            SwapStage::LookingUpAccounts { threshold, source_seed: first, destination_seed: second },
            SwapEvent::AccountsLookedUp { rent_exempt_minimum, source_exists, destination_exists },
        ) => accounts_looked_up(
            order,
            threshold,
            first@,
            second@,
            rent_exempt_minimum,
            source_exists,
            destination_exists,
            next,
            action,
        ),
        (
            SwapStage::BuildingSwap { source, destination },
            SwapEvent::SwapInstructionBuilt(built),
        ) => swap_instruction_built(order, source, destination, built, next, action),
        (SwapStage::Confirming { instructions }, SwapEvent::Confirmed(agreed)) => answered(
            instructions,
            agreed,
            next,
            action,
        ),
        (SwapStage::Submitting, SwapEvent::Submitted(result)) => submitted(result, next, action),
        (SwapStage::Diagnosing { rejection }, SwapEvent::Simulated(trace)) => simulated(
            rejection,
            trace,
            next,
            action,
        ),
        _ => ends_in(SwapError::UnexpectedEvent, next, action),
    }
}

/// The end of a swap that failed.
fn fail(error: SwapError) -> (step: (SwapStage, SwapAction))
    ensures
        ends_in(error, step.0, step.1),
{
    (SwapStage::Done, SwapAction::Finish(SwapOutcome::Failed(error)))
}

/// The step after the vaults were sampled, for given seeds.
pub fn on_vaults_sampled(
    order: &SwapOrder,
    keys: &PoolKeys,
    sampled: Option<VaultAmounts>,
    source_seed: String,
    destination_seed: String,
) -> (step: (SwapStage, SwapAction))
    ensures
        vaults_sampled(*order, *keys, sampled, source_seed@, destination_seed@, step.0, step.1),
{
    let vaults = match sampled {
        None => {
            return fail(SwapError::Quote(QuoteError::ReservesUnavailable));
        },
        Some(vaults) => vaults,
    };
    let threshold = match quote_threshold(
        keys,
        &vaults,
        &order.input_token_mint,
        &order.output_token_mint,
        order.amount_specified,
        order.swap_base_in,
        order.slippage_bps,
    ) {
        Err(e) => {
            return fail(SwapError::Quote(e));
        },
        Ok(threshold) => threshold,
    };
    let source = match token_account_address(
        &order.input_token_mint,
        &order.wallet,
        source_seed.as_str(),
    ) {
        Err(e) => {
            return fail(SwapError::AccountPreparation(e));
        },
        Ok(source) => source,
    };
    let destination = match token_account_address(
        &order.output_token_mint,
        &order.wallet,
        destination_seed.as_str(),
    ) {
        Err(e) => {
            return fail(SwapError::AccountPreparation(e));
        },
        Ok(destination) => destination,
    };
    let rent_needed = order.input_token_mint.is_native_mint()
        || order.output_token_mint.is_native_mint();
    (
        SwapStage::LookingUpAccounts { threshold, source_seed, destination_seed },
        SwapAction::LookUpAccounts { source, destination, rent_needed },
    )
}

/// The step after the accounts were looked up.
pub fn on_accounts_looked_up(
    order: &SwapOrder,
    threshold: u64,
    source_seed: &str,
    destination_seed: &str,
    rent_exempt_minimum: Option<u64>,
    source_exists: bool,
    destination_exists: bool,
) -> (step: (SwapStage, SwapAction))
    ensures
        accounts_looked_up(
            *order,
            threshold,
            source_seed@,
            destination_seed@,
            rent_exempt_minimum,
            source_exists,
            destination_exists,
            step.0,
            step.1,
        ),
{
    let mut source_plan = Swap::new();
    let mut destination_plan = Swap::new();
    let source = match handle_token_account(
        &mut source_plan,
        &AccountLookup { rent_exempt_minimum, exists: source_exists },
        source_seed,
        &order.input_token_mint,
        order.amount_specified,
        &order.wallet,
        &order.wallet,
    ) {
        Err(e) => {
            return fail(SwapError::AccountPreparation(e));
        },
        Ok(source) => source,
    };
    let destination = match handle_token_account(
        &mut destination_plan,
        &AccountLookup { rent_exempt_minimum, exists: destination_exists },
        destination_seed,
        &order.output_token_mint,
        0,
        &order.wallet,
        &order.wallet,
    ) {
        Err(e) => {
            return fail(SwapError::AccountPreparation(e));
        },
        Ok(destination) => destination,
    };
    (
        SwapStage::BuildingSwap { source: source_plan, destination: destination_plan },
        SwapAction::BuildSwapInstruction {
            source,
            destination,
            amount: order.amount_specified,
            other_amount_threshold: threshold,
            swap_base_in: order.swap_base_in,
        },
    )
}

/// The step after the swap instruction was built.
pub fn on_swap_instruction_built(
    order: &SwapOrder,
    source: Swap,
    destination: Swap,
    built: Option<Instruction>,
) -> (step: (SwapStage, SwapAction))
    ensures
        swap_instruction_built(*order, source, destination, built, step.0, step.1),
{
    let swap_instruction = match built {
        None => {
            return fail(SwapError::Resolution(ResolutionError::SwapInstructionUnavailable));
        },
        Some(swap_instruction) => swap_instruction,
    };
    let instructions = assemble(
        COMPUTE_UNIT_PRICE,
        COMPUTE_UNIT_LIMIT,
        source,
        destination,
        swap_instruction,
    );
    if order.confirmed {
        (SwapStage::Submitting, SwapAction::Submit { instructions })
    } else {
        (SwapStage::Confirming { instructions }, SwapAction::Confirm)
    }
}

impl Raydium {
    /// A swapper. It holds nothing: all that a swap needs travels with its
    /// order and its stage.
    pub fn new() -> (raydium: Self) {
        Self {  }
    }

    /// Takes the swap one step further: from the stage it is at and what
    /// came of the last action, to the next stage and the next action. A swap
    /// starts at [`SwapStage::Idle`] with [`SwapEvent::Started`] and is over
    /// with [`SwapAction::Finish`]. The seeds for accounts of the native mint
    /// are drawn afresh when the vaults have been sampled: 32 characters each,
    /// whatever they are.
    pub fn swap(&self, order: &SwapOrder, stage: SwapStage, event: SwapEvent) -> (step: (
        SwapStage,
        SwapAction,
    ))
        ensures
            exists|source_seed: Seq<char>, destination_seed: Seq<char>|
                {
                    &&& source_seed.len() == SEED_LEN
                    &&& destination_seed.len() == SEED_LEN
                    &&& is_ascii_chars(source_seed)
                    &&& is_ascii_chars(destination_seed)
                    &&& #[trigger] swap_step(
                        *order,
                        stage,
                        event,
                        source_seed,
                        destination_seed,
                        step.0,
                        step.1,
                    )
                },
    {
        let ghost mut seeds = (
            Seq::new(SEED_LEN as nat, |i: int| '1'),
            Seq::new(SEED_LEN as nat, |i: int| '1'),
        );
        let step = match (stage, event) {
            (SwapStage::Idle, SwapEvent::Started) => (
                SwapStage::ResolvingPool,
                SwapAction::ResolvePool {
                    amm_program: order.amm_program,
                    amm_pool_id: order.amm_pool_id,
                },
            ),
            (SwapStage::ResolvingPool, SwapEvent::PoolResolved(found)) => match found {
                None => fail(SwapError::Resolution(ResolutionError::PoolNotFound)),
                Some(keys) => (
                    SwapStage::ResolvingMarket { keys },
                    SwapAction::ResolveMarket {
                        market_program: keys.market_program,
                        market: keys.market,
                    },
                ),
            },
            (SwapStage::ResolvingMarket { keys }, SwapEvent::MarketResolved(found)) => if found {
                (
                    SwapStage::SamplingVaults { keys },
                    SwapAction::SampleVaults { simulate_as: order.wallet },
                )
            } else {
                fail(SwapError::Resolution(ResolutionError::MarketNotFound))
            },
            (SwapStage::SamplingVaults { keys }, SwapEvent::VaultsSampled(sampled)) => {
                let source_seed = new_account_seed();
                let destination_seed = new_account_seed();
                proof {
                    seeds = (source_seed@, destination_seed@);
                }
                on_vaults_sampled(order, &keys, sampled, source_seed, destination_seed)
            },
            (
                SwapStage::LookingUpAccounts { threshold, source_seed: first, destination_seed: second },
                SwapEvent::AccountsLookedUp {
                    rent_exempt_minimum,
                    source_exists,
                    destination_exists,
                },
            ) => on_accounts_looked_up(
                order,
                threshold,
                first.as_str(),
                second.as_str(),
                rent_exempt_minimum,
                source_exists,
                destination_exists,
            ),
            (
                SwapStage::BuildingSwap { source, destination },
                SwapEvent::SwapInstructionBuilt(built),
            ) => on_swap_instruction_built(order, source, destination, built),
            (SwapStage::Confirming { instructions }, SwapEvent::Confirmed(agreed)) => if agreed {
                (SwapStage::Submitting, SwapAction::Submit { instructions })
            } else {
                (SwapStage::Done, SwapAction::Finish(SwapOutcome::Cancelled))
            },
            (SwapStage::Submitting, SwapEvent::Submitted(result)) => match result {
                Ok(signature) => (
                    SwapStage::Done,
                    SwapAction::Finish(SwapOutcome::Submitted { signature }),
                ),
                Err(rejection) => (SwapStage::Diagnosing { rejection }, SwapAction::Simulate),
            },
            (SwapStage::Diagnosing { rejection }, SwapEvent::Simulated(trace)) => fail(
                SwapError::Submission(Diagnostic { rejection, trace }),
            ),
            _ => fail(SwapError::UnexpectedEvent),
        };
        proof {
            assert(swap_step(*order, stage, event, seeds.0, seeds.1, step.0, step.1));
        }
        step
    }
}

/// Nothing is sent without the trader's agreement: a step asks for the
/// submission only where the trader agreed beforehand and the swap
/// instruction has just been built, or where the trader has just said yes.
pub proof fn lemma_submission_needs_agreement(
    order: SwapOrder,
    stage: SwapStage,
    event: SwapEvent,
    source_seed: Seq<char>,
    destination_seed: Seq<char>,
    next: SwapStage,
    action: SwapAction,
)
    requires
        swap_step(order, stage, event, source_seed, destination_seed, next, action),
        action is Submit,
    ensures
        (stage is BuildingSwap && order.confirmed) || (stage is Confirming && event
            == SwapEvent::Confirmed(true)),
        next == SwapStage::Submitting,
{
}

/// A quote that fails ends the swap at once: the step after the sampling
/// finishes with the quote's error, and asks for nothing to be built.
pub proof fn lemma_failed_quote_ends_the_swap(
    order: SwapOrder,
    keys: PoolKeys,
    vaults: VaultAmounts,
    source_seed: Seq<char>,
    destination_seed: Seq<char>,
    next: SwapStage,
    action: SwapAction,
)
    requires
        swap_step(
            order,
            SwapStage::SamplingVaults { keys },
            SwapEvent::VaultsSampled(Some(vaults)),
            source_seed,
            destination_seed,
            next,
            action,
        ),
        quoted_threshold(
            keys,
            vaults,
            order.input_token_mint@,
            order.output_token_mint@,
            order.amount_specified,
            order.swap_base_in,
            order.slippage_bps,
        ) is Err,
    ensures
        next == SwapStage::Done,
        action == SwapAction::Finish(
            SwapOutcome::Failed(
                SwapError::Quote(
                    quoted_threshold(
                        keys,
                        vaults,
                        order.input_token_mint@,
                        order.output_token_mint@,
                        order.amount_specified,
                        order.swap_base_in,
                        order.slippage_bps,
                    )->Err_0,
                ),
            ),
        ),
{
}

/// A rejected transaction never counts as done: from the rejection on, the
/// swap can only end in a failure that carries the rejection.
pub proof fn lemma_rejection_ends_in_failure(
    order: SwapOrder,
    rejection: String,
    trace: SimulationTrace,
    source_seed: Seq<char>,
    destination_seed: Seq<char>,
    diagnosing: SwapStage,
    asked: SwapAction,
    next: SwapStage,
    action: SwapAction,
)
    requires
        swap_step(
            order,
            SwapStage::Submitting,
            SwapEvent::Submitted(Err(rejection)),
            source_seed,
            destination_seed,
            diagnosing,
            asked,
        ),
        swap_step(
            order,
            diagnosing,
            SwapEvent::Simulated(trace),
            source_seed,
            destination_seed,
            next,
            action,
        ),
    ensures
        asked == SwapAction::Simulate,
        next == SwapStage::Done,
        action == SwapAction::Finish(
            SwapOutcome::Failed(SwapError::Submission(Diagnostic { rejection, trace })),
        ),
{
}

} // verus!
