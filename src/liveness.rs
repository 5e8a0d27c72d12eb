use vstd::prelude::*;

use crate::operand_set::OperandSet;
use crate::x86::{
    argument_operands, argument_regs, caller_saved_operands, caller_saved_regs, Instr,
    OperandModel,
};

verus! {

/// The locations live just before instruction `i` of `block`, when nothing is
/// live after the block's last instruction.
pub open spec fn live_before(block: Seq<Instr>, i: int) -> Set<OperandModel>
    decreases block.len() - i,
{
    if i < 0 || i >= block.len() {
        Set::empty()
    } else {
        block[i].use_set().union(live_before(block, i + 1).difference(block[i].def_set()))
    }
}

/// The locations live just after instruction `i` of `block`.
pub open spec fn live_after(block: Seq<Instr>, i: int) -> Set<OperandModel> {
    live_before(block, i + 1)
}

/// Every call in the block passes no more arguments than there are argument
/// registers.
pub open spec fn block_well_formed(block: Seq<Instr>) -> bool {
    forall|i: int| 0 <= i < block.len() ==> #[trigger] block[i].well_formed()
}

/// The liveness facts of one instruction.
pub struct Liveness {
    pub instr: Instr,
    pub before: OperandSet,
    pub after: OperandSet,
}

impl Liveness {
    /// This record holds the facts of instruction `i` of `block`.
    pub open spec fn describes(&self, block: Seq<Instr>, i: int) -> bool {
        &&& self.instr == block[i]
        &&& self.before@ == live_before(block, i)
        &&& self.after@ == live_after(block, i)
    }
}

/// `records` holds, in order, the facts of each instruction of `block`.
pub open spec fn analysis_of(records: Seq<Liveness>, block: Seq<Instr>) -> bool {
    &&& records.len() == block.len()
    &&& forall|i: int| 0 <= i < block.len() ==> #[trigger] records[i].describes(block, i)
}

/// A straight-line sequence of instructions.
pub struct Block(pub Vec<Instr>);

impl Block {
    /// Whether every call of the block passes no more arguments than there
    /// are argument registers, as `liveness` requires.
    pub fn is_well_formed(&self) -> (r: bool)
        ensures
            r == block_well_formed(self.0@),
    {
        let mut i: usize = 0;
        while i < self.0.len()
            invariant
                i <= self.0@.len(),
                forall|j: int| 0 <= j < i ==> #[trigger] self.0@[j].well_formed(),
            decreases self.0.len() - i,
        {
            if !self.0[i].is_well_formed() {
                return false;
            }
            i += 1;
        }
        true
    }

    /// The live-before and live-after sets of every instruction, in program
    /// order, computed in one backward pass.
    pub fn liveness(&self) -> (r: Vec<Liveness>)
        requires
            block_well_formed(self.0@),
        ensures
            r@.len() == self.0@.len(),
            analysis_of(r@, self.0@),
    {
        let n = self.0.len();
        let mut after = OperandSet::new();
        let mut reversed: Vec<Liveness> = Vec::new();
        let mut k: usize = n;
        while k > 0
            invariant
                k <= n,
                n == self.0@.len(),
                block_well_formed(self.0@),
                after@ == live_before(self.0@, k as int),
                reversed@.len() == n - k,
                forall|j: int|
                    0 <= j < reversed@.len() ==> #[trigger] reversed@[j].describes(
                        self.0@,
                        n - 1 - j,
                    ),
            decreases k,
        {
            k -= 1;
            let instr = &self.0[k];
            assert(instr.well_formed());
            let before = instr.uses().union(&after.difference(&instr.defs()));
            reversed.push(Liveness { instr: instr.clone(), before: before.clone(), after });
            after = before;
        }
        let mut records: Vec<Liveness> = Vec::new();
        while reversed.len() > 0
            invariant
                n == self.0@.len(),
                reversed@.len() + records@.len() == n,
                forall|j: int|
                    0 <= j < reversed@.len() ==> #[trigger] reversed@[j].describes(
                        self.0@,
                        n - 1 - j,
                    ),
                forall|j: int| 0 <= j < records@.len() ==> #[trigger] records@[j].describes(self.0@, j),
            decreases reversed.len(),
        {
            let ghost last = reversed@.len() - 1;
            assert(reversed@[last].describes(self.0@, n - 1 - last));
            let record = reversed.pop().unwrap();
            records.push(record);
        }
        records
    }
}

/// Two analyses of the same block agree record by record: same instruction,
/// same live-before set, same live-after set.
pub proof fn lemma_analysis_deterministic(block: Seq<Instr>, r1: Seq<Liveness>, r2: Seq<Liveness>)
    requires
        analysis_of(r1, block),
        analysis_of(r2, block),
    ensures
        r1.len() == r2.len(),
        forall|i: int|
            0 <= i < r1.len() ==> {
                &&& #[trigger] r1[i].instr == r2[i].instr
                &&& r1[i].before@ == r2[i].before@
                &&& r1[i].after@ == r2[i].after@
            },
{
    assert forall|i: int| 0 <= i < r1.len() implies {
        &&& #[trigger] r1[i].instr == r2[i].instr
        &&& r1[i].before@ == r2[i].before@
        &&& r1[i].after@ == r2[i].after@
    } by {
        assert(r1[i].describes(block, i));
        assert(r2[i].describes(block, i));
    }
}

/// Nothing is live after the last instruction of a block.
pub proof fn lemma_last_after_empty(block: Seq<Instr>, records: Seq<Liveness>)
    requires
        analysis_of(records, block),
        block.len() > 0,
    ensures
        records.last().after@ == Set::<OperandModel>::empty(),
{
    assert(records[block.len() - 1].describes(block, block.len() - 1));
}

/// Each record's live-before set is exactly the instruction's uses together
/// with whatever is live after it and not defined by it.
pub proof fn lemma_use_def_conservation(block: Seq<Instr>, records: Seq<Liveness>)
    requires
        analysis_of(records, block),
    ensures
        forall|i: int|
            0 <= i < records.len() ==> {
                &&& records[i].instr.use_set().subset_of(#[trigger] records[i].before@)
                &&& records[i].after@.difference(records[i].instr.def_set()).subset_of(
                    records[i].before@,
                )
                &&& records[i].before@ == records[i].instr.use_set().union(
                    records[i].after@.difference(records[i].instr.def_set()),
                )
            },
{
    assert forall|i: int| 0 <= i < records.len() implies {
        &&& records[i].instr.use_set().subset_of(#[trigger] records[i].before@)
        &&& records[i].after@.difference(records[i].instr.def_set()).subset_of(
            records[i].before@,
        )
        &&& records[i].before@ == records[i].instr.use_set().union(
            records[i].after@.difference(records[i].instr.def_set()),
        )
    } by {
        assert(records[i].describes(block, i));
    }
}

/// Uses and defs never hold an immediate.
pub proof fn lemma_use_def_locations(instr: Instr)
    ensures
        forall|m: OperandModel| #[trigger] instr.use_set().contains(m) ==> m.is_location(),
        forall|m: OperandModel| #[trigger] instr.def_set().contains(m) ==> m.is_location(),
{
}

/// Every set `live_before` gives holds storage locations only.
pub proof fn lemma_live_before_locations(block: Seq<Instr>, i: int)
    ensures
        forall|m: OperandModel| #[trigger] live_before(block, i).contains(m) ==> m.is_location(),
    decreases block.len() - i,
{
    if 0 <= i < block.len() {
        lemma_live_before_locations(block, i + 1);
        lemma_use_def_locations(block[i]);
        assert forall|m: OperandModel| #[trigger] live_before(block, i).contains(m) implies m.is_location() by {
            if !block[i].use_set().contains(m) {
                assert(live_before(block, i + 1).contains(m));
            }
        }
    }
}

/// No immediate is ever live, before or after any instruction.
pub proof fn lemma_no_live_immediates(block: Seq<Instr>, records: Seq<Liveness>)
    requires
        analysis_of(records, block),
    ensures
        forall|i: int, m: OperandModel|
            0 <= i < records.len() && #[trigger] records[i].before@.contains(m) ==> !(m is Imm),
        forall|i: int, m: OperandModel|
            0 <= i < records.len() && #[trigger] records[i].after@.contains(m) ==> !(m is Imm),
{
    assert forall|i: int, m: OperandModel|
        0 <= i < records.len() && #[trigger] records[i].before@.contains(m) implies !(
        m is Imm) by {
        assert(records[i].describes(block, i));
        lemma_live_before_locations(block, i);
    }
    assert forall|i: int, m: OperandModel|
        0 <= i < records.len() && #[trigger] records[i].after@.contains(m) implies !(
        m is Imm) by {
        assert(records[i].describes(block, i));
        lemma_live_before_locations(block, i + 1);
    }
}

/// A call with `n` register arguments has the first `n` argument registers
/// live before it, defines every caller-saved register, and has no
/// caller-saved register live before it unless it passes an argument there.
pub proof fn lemma_call_liveness(block: Seq<Instr>, records: Seq<Liveness>, i: int)
    requires
        analysis_of(records, block),
        0 <= i < block.len(),
        block[i] is CallQ,
        block[i].well_formed(),
    ensures
        forall|k: int|
            0 <= k < (block[i]->CallQ_1).0 ==> records[i].before@.contains(
                OperandModel::Reg(#[trigger] argument_regs()[k]),
            ),
        forall|k: int|
            0 <= k < caller_saved_regs().len() ==> block[i].def_set().contains(
                OperandModel::Reg(#[trigger] caller_saved_regs()[k]),
            ),
        forall|k: int|
            0 <= k < caller_saved_regs().len() && !argument_operands(
                (block[i]->CallQ_1).0 as int,
            ).contains(OperandModel::Reg(#[trigger] caller_saved_regs()[k]))
                ==> !records[i].before@.contains(OperandModel::Reg(caller_saved_regs()[k])),
{
    assert(records[i].describes(block, i));
    let n = (block[i]->CallQ_1).0 as int;
    assert forall|k: int| 0 <= k < n implies records[i].before@.contains(
        OperandModel::Reg(#[trigger] argument_regs()[k]),
    ) by {
        assert(argument_operands(n).contains(OperandModel::Reg(argument_regs()[k])));
    }
    assert forall|k: int| 0 <= k < caller_saved_regs().len() implies block[i].def_set().contains(
        OperandModel::Reg(#[trigger] caller_saved_regs()[k]),
    ) by {
        assert(caller_saved_operands().contains(OperandModel::Reg(caller_saved_regs()[k])));
    }
}

} // verus!
