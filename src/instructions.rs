//! Assembling the instructions of a swap, as the aggregator hands them out,
//! into the order in which a transaction carries them.
use vstd::prelude::*;

verus! {

/// The instructions that make up one swap.
pub struct SwapInstructions<T> {
    /// Sets up the token ledger, where the swap needs one.
    pub token_ledger_instruction: Option<T>,
    pub compute_budget_instructions: Vec<T>,
    pub setup_instructions: Vec<T>,
    pub swap_instruction: T,
    /// Closes what setup opened; never sent.
    pub cleanup_instruction: Option<T>,
    pub other_instructions: Vec<T>,
}

/// The item an option holds, as a sequence of at most one item.
pub open spec fn option_seq<T>(o: Option<T>) -> Seq<T> {
    match o {
        Some(x) => seq![x],
        None => Seq::empty(),
    }
}

/// The order of a swap's instructions in its transaction: ledger, compute
/// budget, setup, the swap itself, then the others; cleanup is left out.
pub open spec fn instruction_order<T>(b: SwapInstructions<T>) -> Seq<T> {
    option_seq(b.token_ledger_instruction) + b.compute_budget_instructions@
        + b.setup_instructions@ + seq![b.swap_instruction] + b.other_instructions@
}

/// Cleanup never reaches the transaction: the order is the same whatever
/// cleanup instruction the bundle holds.
pub proof fn lemma_cleanup_left_out<T>(b: SwapInstructions<T>, cleanup: Option<T>)
    ensures
        instruction_order(b) == instruction_order(
            SwapInstructions { cleanup_instruction: cleanup, ..b },
        ),
{
}

impl<T> SwapInstructions<T> {
    /// The instructions in the order of [`instruction_order`].
    pub fn into_instructions(self) -> (r: Vec<T>)
        ensures
            r@ == instruction_order(self),
    {
        let SwapInstructions {
            token_ledger_instruction,
            mut compute_budget_instructions,
            mut setup_instructions,
            swap_instruction,
            cleanup_instruction,
            mut other_instructions,
        } = self;
        let mut r: Vec<T> = Vec::new();
        match token_ledger_instruction {
            Some(i) => r.push(i),
            None => {},
        }
        r.append(&mut compute_budget_instructions);
        r.append(&mut setup_instructions);
        r.push(swap_instruction);
        r.append(&mut other_instructions);
        proof {
            assert(r@ =~= instruction_order(self));
        }
        r
    }
}

} // verus!
