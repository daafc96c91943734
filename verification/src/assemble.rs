//! Assembly of the instruction list of one atomic transaction: the two
//! compute-budget instructions, what runs before the swap, the swap itself,
//! and what runs after it, in that order.

use vstd::prelude::*;
use vstd::bytes::{spec_u32_to_le_bytes, spec_u64_to_le_bytes};
use crate::accounts::Swap;
use crate::address::COMPUTE_BUDGET_PROGRAM_BYTES;
use crate::instruction::{
    lemma_views_add, lemma_views_push, views, Instruction, InstructionView,
};

verus! {

/// The priority fee that a swap pays, in micro-lamports per compute unit.
pub const COMPUTE_UNIT_PRICE: u64 = 25000;

/// The most compute units that a swap may use.
pub const COMPUTE_UNIT_LIMIT: u32 = 600000;

/// The instruction that sets the price of a compute unit.
pub open spec fn unit_price_view(price: u64) -> InstructionView {
    InstructionView {
        program_id: COMPUTE_BUDGET_PROGRAM_BYTES@,
        accounts: Seq::empty(),
        data: seq![3u8] + spec_u64_to_le_bytes(price),
    }
}

/// The instruction that sets the ceiling on compute units.
pub open spec fn unit_limit_view(units: u32) -> InstructionView {
    InstructionView {
        program_id: COMPUTE_BUDGET_PROGRAM_BYTES@,
        accounts: Seq::empty(),
        data: seq![2u8] + spec_u32_to_le_bytes(units),
    }
}

/// The pair of compute-budget instructions: the price, then the limit.
pub open spec fn compute_budget_views(price: u64, units: u32) -> Seq<InstructionView> {
    seq![unit_price_view(price), unit_limit_view(units)]
}

/// The instruction list of a swap, slot by slot: the compute budget, what
/// prepares the source account, what prepares the destination account, the
/// swap, what disposes of the source account, and what disposes of the
/// destination account.
pub open spec fn assembled(
    compute_budget: Seq<InstructionView>,
    pre_source: Seq<InstructionView>,
    pre_destination: Seq<InstructionView>,
    swap: InstructionView,
    post_source: Seq<InstructionView>,
    post_destination: Seq<InstructionView>,
) -> Seq<InstructionView> {
    compute_budget + pre_source + pre_destination + seq![swap] + post_source + post_destination
}

/// The two compute-budget instructions: one that sets the price of a compute
/// unit, and one that sets the ceiling on the units used.
pub fn make_compute_budget_ixs(price: u64, units: u32) -> (instructions: Vec<Instruction>)
    ensures
        views(instructions@) == compute_budget_views(price, units),
{
    let set_price = crate::sdk::set_compute_unit_price(price);
    let set_limit = crate::sdk::set_compute_unit_limit(units);
    proof {
        assert(set_price@ =~= unit_price_view(price));
        assert(set_limit@ =~= unit_limit_view(units));
    }
    let mut instructions: Vec<Instruction> = Vec::new();
    instructions.push(set_price);
    instructions.push(set_limit);
    proof {
        assert(views(instructions@) =~= compute_budget_views(price, units));
    }
    instructions
}

/// Puts the instruction list of the transaction together: the compute
/// budget, the instructions that run before the swap for the source account
/// and then for the destination account, the swap instruction, and the
/// instructions that run after it, again source first.
pub fn assemble(
    price: u64,
    units: u32,
    source: Swap,
    destination: Swap,
    swap_instruction: Instruction,
) -> (instructions: Vec<Instruction>)
    ensures
        views(instructions@) == assembled(
            compute_budget_views(price, units),
            source.pre_swap(),
            destination.pre_swap(),
            swap_instruction@,
            source.post_swap(),
            destination.post_swap(),
        ),
{
    let mut instructions = make_compute_budget_ixs(price, units);
    let mut pre_source = source.pre_swap_instructions;
    let mut post_source = source.post_swap_instructions;
    let mut pre_destination = destination.pre_swap_instructions;
    let mut post_destination = destination.post_swap_instructions;
    let ghost budget = instructions@;
    let ghost before = budget + pre_source@ + pre_destination@;
    proof {
        lemma_views_add(budget, pre_source@);
        lemma_views_add(budget + pre_source@, pre_destination@);
        lemma_views_push(before, swap_instruction);
        lemma_views_add(before.push(swap_instruction), post_source@);
        lemma_views_add(before.push(swap_instruction) + post_source@, post_destination@);
    }
    instructions.append(&mut pre_source);
    instructions.append(&mut pre_destination);
    instructions.push(swap_instruction);
    instructions.append(&mut post_source);
    instructions.append(&mut post_destination);
    proof {
        assert(instructions@ =~= before.push(swap_instruction) + source.post_swap_instructions@
            + destination.post_swap_instructions@);
        assert(views(instructions@) =~= assembled(
            compute_budget_views(price, units),
            source.pre_swap(),
            destination.pre_swap(),
            swap_instruction@,
            source.post_swap(),
            destination.post_swap(),
        ));
    }
    instructions
}

/// In an assembled list every slot keeps its place and every instruction its
/// place within the slot: the compute budget comes first, then the pre-swap
/// instructions of the source and of the destination, then the swap, then the
/// post-swap instructions of the source and of the destination, and nothing
/// else.
pub proof fn lemma_assembly_keeps_order(
    compute_budget: Seq<InstructionView>,
    pre_source: Seq<InstructionView>,
    pre_destination: Seq<InstructionView>,
    swap: InstructionView,
    post_source: Seq<InstructionView>,
    post_destination: Seq<InstructionView>,
)
    ensures
        ({
            let list = assembled(
                compute_budget,
                pre_source,
                pre_destination,
                swap,
                post_source,
                post_destination,
            );
            let at_pre_source = compute_budget.len() as int;
            let at_pre_destination = at_pre_source + pre_source.len();
            let at_swap = at_pre_destination + pre_destination.len();
            let at_post_source = at_swap + 1;
            let at_post_destination = at_post_source + post_source.len();
            &&& list.len() == at_post_destination + post_destination.len()
            &&& forall|i: int| 0 <= i < compute_budget.len() ==> list[i] == compute_budget[i]
            &&& forall|i: int|
                0 <= i < pre_source.len() ==> list[at_pre_source + i] == pre_source[i]
            &&& forall|i: int|
                0 <= i < pre_destination.len() ==> list[at_pre_destination + i]
                    == pre_destination[i]
            &&& list[at_swap] == swap
            &&& forall|i: int|
                0 <= i < post_source.len() ==> list[at_post_source + i] == post_source[i]
            &&& forall|i: int|
                0 <= i < post_destination.len() ==> list[at_post_destination + i]
                    == post_destination[i]
        }),
{
}

/// The first two instructions of a transaction assembled for a swap are
/// the compute-budget pair.
pub proof fn lemma_compute_budget_first(
    price: u64,
    units: u32,
    pre_source: Seq<InstructionView>,
    pre_destination: Seq<InstructionView>,
    swap: InstructionView,
    post_source: Seq<InstructionView>,
    post_destination: Seq<InstructionView>,
)
    ensures
        ({
            let list = assembled(
                compute_budget_views(price, units),
                pre_source,
                pre_destination,
                swap,
                post_source,
                post_destination,
            );
            &&& list[0] == unit_price_view(price)
            &&& list[1] == unit_limit_view(units)
            &&& list[0].program_id == COMPUTE_BUDGET_PROGRAM_BYTES@
            &&& list[1].program_id == COMPUTE_BUDGET_PROGRAM_BYTES@
        }),
{
    lemma_assembly_keeps_order(
        compute_budget_views(price, units),
        pre_source,
        pre_destination,
        swap,
        post_source,
        post_destination,
    );
}

} // verus!
