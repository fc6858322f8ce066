//! Control-flow reconstruction: basic blocks and function grouping.
//!
//! Boundary discovery seeds the block starts, block construction cuts the
//! instruction list into blocks, and function grouping collects, in reverse
//! postorder, the blocks that each call target reaches without crossing
//! into another call target.

use crate::disasm::{Instruction, Opcode};
use crate::error::CompileError;
use crate::ordered::{
    ascending, lists, map_contains, map_get, map_insert, set_contains, set_insert, sorted_keys,
    sorted_members,
};
use crate::text::{hex_name, hex_text};
use std::collections::{BTreeMap, BTreeSet};
use vstd::prelude::*;

verus! {

broadcast use vstd::std_specs::btree::group_btree_axioms;

/// A basic block: a contiguous run of instructions of which only the last
/// may be a terminator.
#[derive(Debug, Clone)]
pub struct BasicBlock {
    /// Address of the first instruction.
    pub start_addr: u64,
    /// Address one past the last instruction.
    pub end_addr: u64,
    /// Instructions, in address order.
    pub instructions: Vec<Instruction>,
    /// Addresses that control may reach next (0, 1 or 2 of them).
    pub successors: Vec<u64>,
    /// Is this block a function entry?
    pub is_function_entry: bool,
}

/// A function: the blocks reachable from an entry without crossing into
/// another call target.
#[derive(Debug, Clone)]
pub struct Function {
    /// Entry address.
    pub entry: u64,
    /// Generated name.
    pub name: String,
    /// Start addresses of the blocks of the function.
    pub blocks: Vec<u64>,
}

/// The control-flow graph of a program.
#[derive(Debug)]
pub struct ControlFlowGraph {
    /// Basic blocks by start address.
    pub blocks: BTreeMap<u64, BasicBlock>,
    /// Functions.
    pub functions: Vec<Function>,
    /// Root entry address.
    pub entry: u64,
}

/// The mathematical value of a [`BasicBlock`].
pub struct Block {
    pub start_addr: u64,
    pub end_addr: u64,
    pub instructions: Seq<Instruction>,
    pub successors: Seq<u64>,
    pub is_function_entry: bool,
}

impl View for BasicBlock {
    type V = Block;

    open spec fn view(&self) -> Block {
        Block {
            start_addr: self.start_addr,
            end_addr: self.end_addr,
            instructions: self.instructions@,
            successors: self.successors@,
            is_function_entry: self.is_function_entry,
        }
    }
}

/// The mathematical value of a [`Function`].
pub struct Group {
    pub entry: u64,
    pub name: Seq<char>,
    pub blocks: Seq<u64>,
}

impl View for Function {
    type V = Group;

    open spec fn view(&self) -> Group {
        Group { entry: self.entry, name: self.name@, blocks: self.blocks@ }
    }
}

/// The blocks of a map by their values.
pub open spec fn block_views(blocks: Map<u64, BasicBlock>) -> Map<u64, Block> {
    blocks.map_values(|b: BasicBlock| b@)
}

/// The functions of a list by their values.
pub open spec fn group_views(functions: Seq<Function>) -> Seq<Group> {
    functions.map_values(|f: Function| f@)
}

impl Block {
    /// (a) The block is not empty, starts at its first instruction, ends
    /// behind its last, and each instruction starts where the one before
    /// ends. (b) No instruction but the last is a terminator.
    pub open spec fn well_formed(self) -> bool {
        &&& self.instructions.len() > 0
        &&& self.start_addr == self.instructions[0].addr
        &&& self.end_addr == self.instructions.last().next_pc()
        &&& forall|i: int|
            0 < i < self.instructions.len() ==> (#[trigger] self.instructions[i]).addr
                == self.instructions[i - 1].next_pc()
        &&& forall|i: int|
            0 <= i < self.instructions.len() - 1 ==> !(
            #[trigger] self.instructions[i]).opcode.terminates()
    }
}

impl BasicBlock {
    /// Does the block end in a return: an indirect jump through x1 that
    /// links nothing?
    pub open spec fn ends_in_return(self) -> bool {
        self.instructions@.len() > 0 && {
            let term = self.instructions@.last();
            (term.opcode == Opcode::JALR || term.opcode == Opcode::C_JR) && term.rs1.unwrap_or(0)
                == 1 && term.rd.unwrap_or(0) == 0
        }
    }

    /// The last instruction, which is the terminator if the block has one.
    pub fn terminator(&self) -> (r: Option<&Instruction>)
        ensures
            self.instructions@.len() == 0 ==> r is None,
            self.instructions@.len() > 0 ==> r == Some(&self.instructions@.last()),
    {
        let n = self.instructions.len();
        if n == 0 {
            None
        } else {
            Some(&self.instructions[n - 1])
        }
    }

    /// Is this a return block?
    pub fn is_return(&self) -> (r: bool)
        ensures
            r == self.ends_in_return(),
    {
        match self.terminator() {
            Some(term) => {
                if term.opcode == Opcode::JALR || term.opcode == Opcode::C_JR {
                    let rs1: u8 = match term.rs1 {
                        Some(x) => x,
                        None => 0,
                    };
                    let rd: u8 = match term.rd {
                        Some(x) => x,
                        None => 0,
                    };
                    rs1 == 1 && rd == 0
                } else {
                    false
                }
            },
            None => false,
        }
    }
}

// ---------------------------------------------------------------------------
// Successors
// ---------------------------------------------------------------------------

/// Does the instruction write a link register other than x0?
pub open spec fn links(inst: Instruction) -> bool {
    inst.rd is Some && inst.rd->Some_0 != 0
}

/// Is the opcode a direct jump, whose target is `pc + imm`?
pub open spec fn direct_jump(op: Opcode) -> bool {
    op == Opcode::JAL || op == Opcode::C_JAL || op == Opcode::C_J
}

/// The addresses that control may reach after `inst`:
/// target and fall-through for a conditional branch and for a direct call,
/// the target for a direct jump, the fall-through for an indirect call, none
/// for another indirect jump, and the fall-through for everything else.
pub open spec fn successors_of(inst: Instruction) -> Seq<u64> {
    let op = inst.opcode;
    if op.branches() {
        seq![inst.target_pc(), inst.next_pc()]
    } else if op == Opcode::JAL || op == Opcode::C_JAL {
        if links(inst) {
            seq![inst.target_pc(), inst.next_pc()]
        } else {
            seq![inst.target_pc()]
        }
    } else if op == Opcode::C_J {
        seq![inst.target_pc()]
    } else if op == Opcode::JALR || op == Opcode::C_JR || op == Opcode::C_JALR {
        if links(inst) {
            seq![inst.next_pc()]
        } else {
            Seq::<u64>::empty()
        }
    } else {
        seq![inst.next_pc()]
    }
}

fn target_or_self(inst: &Instruction) -> (a: u64)
    ensures
        a == inst.target_pc(),
{
    match inst.target_addr() {
        Some(a) => a,
        None => {
            assert(inst.target_pc() == inst.addr);
            inst.addr
        },
    }
}

fn has_link(inst: &Instruction) -> (r: bool)
    ensures
        r == links(*inst),
{
    match inst.rd {
        Some(rd) => rd != 0,
        None => false,
    }
}

/// Computes the successor addresses of an instruction.
pub fn compute_successors(inst: &Instruction) -> (successors: Vec<u64>)
    ensures
        successors@ == successors_of(*inst),
{
    let mut successors: Vec<u64> = Vec::new();
    let next_addr = inst.next_addr();
    let target = target_or_self(inst);
    match inst.opcode {
        Opcode::BEQ
        | Opcode::BNE
        | Opcode::BLT
        | Opcode::BGE
        | Opcode::BLTU
        | Opcode::BGEU
        | Opcode::C_BEQZ
        | Opcode::C_BNEZ => {
            successors.push(target);
            successors.push(next_addr);
        },
        Opcode::JAL | Opcode::C_JAL => {
            successors.push(target);
            if has_link(inst) {
                successors.push(next_addr);
            }
        },
        Opcode::C_J => {
            successors.push(target);
        },
        Opcode::JALR | Opcode::C_JR | Opcode::C_JALR => {
            if has_link(inst) {
                successors.push(next_addr);
            }
        },
        _ => {
            successors.push(next_addr);
        },
    }
    assert(successors@ =~= successors_of(*inst));
    successors
}

/// The successors of a conditional branch are exactly its target `pc + imm`
/// and its fall-through `pc + len`.
pub proof fn lemma_branch_successors(inst: Instruction)
    requires
        inst.opcode.branches(),
    ensures
        successors_of(inst) == seq![inst.target_pc(), inst.next_pc()],
        successors_of(inst).to_set() == set![inst.target_pc(), inst.next_pc()],
{
    let s = successors_of(inst);
    assert(s[0] == inst.target_pc());
    assert(s[1] == inst.next_pc());
    assert(s.to_set() =~= set![inst.target_pc(), inst.next_pc()]);
}

// ---------------------------------------------------------------------------
// Phase 1: boundary discovery
// ---------------------------------------------------------------------------

/// The block starts that one instruction marks: the address behind it if it
/// is a terminator, and its target if it is a branch or a direct jump.
pub open spec fn marks(inst: Instruction) -> Set<u64> {
    (if inst.opcode.terminates() {
        set![inst.next_pc()]
    } else {
        Set::<u64>::empty()
    }).union(
        if inst.opcode.branches() || direct_jump(inst.opcode) {
            set![inst.target_pc()]
        } else {
            Set::<u64>::empty()
        },
    )
}

/// What all instructions mark.
pub open spec fn all_marks(insts: Seq<Instruction>) -> Set<u64>
    decreases insts.len(),
{
    if insts.len() == 0 {
        Set::<u64>::empty()
    } else {
        all_marks(insts.drop_last()).union(marks(insts.last()))
    }
}

/// The seeds of the block starts: the entry, the address of the first
/// instruction, and what the instructions mark. A target outside the decoded
/// range stays in the set.
pub open spec fn boundary_set(insts: Seq<Instruction>, entry: u64) -> Set<u64> {
    let seeds = if insts.len() > 0 {
        set![entry, insts[0].addr]
    } else {
        set![entry]
    };
    seeds.union(all_marks(insts))
}

/// Finds the addresses that start new basic blocks.
pub fn find_block_boundaries(instructions: &[Instruction], entry: u64) -> (boundaries: BTreeSet<u64>)
    ensures
        boundaries@ == boundary_set(instructions@, entry),
{
    let mut boundaries: BTreeSet<u64> = BTreeSet::new();
    set_insert(&mut boundaries, entry);
    if instructions.len() > 0 {
        set_insert(&mut boundaries, instructions[0].addr);
    }
    let ghost seeds = boundaries@;
    let ghost insts = instructions@;
    proof {
        assert(seeds =~= (if insts.len() > 0 {
            set![entry, insts[0].addr]
        } else {
            set![entry]
        }));
        assert(seeds.union(all_marks(insts.take(0))) =~= seeds);
    }
    let mut i: usize = 0;
    while i < instructions.len()
        invariant
            i <= instructions.len(),
            insts == instructions@,
            boundaries@ == seeds.union(all_marks(insts.take(i as int))),
        decreases instructions.len() - i,
    {
        let inst = &instructions[i];
        let ghost before = boundaries@;
        proof {
            assert(insts.take(i + 1).drop_last() =~= insts.take(i as int));
            assert(insts.take(i + 1).last() == insts[i as int]);
        }
        if inst.opcode.is_terminator() {
            set_insert(&mut boundaries, inst.next_addr());
        }
        if inst.opcode.is_branch() || inst.opcode == Opcode::JAL || inst.opcode == Opcode::C_JAL
            || inst.opcode == Opcode::C_J {
            set_insert(&mut boundaries, target_or_self(inst));
        }
        proof {
            assert(boundaries@ =~= before.union(marks(*inst)));
            assert(before.union(marks(*inst)) =~= seeds.union(all_marks(insts.take(i + 1))));
        }
        i += 1;
    }
    proof {
        assert(insts.take(i as int) =~= insts);
    }
    boundaries
}


// ---------------------------------------------------------------------------
// Phase 2: block construction
// ---------------------------------------------------------------------------

/// The successors that an instruction gives its block: its own if it is a
/// terminator, none yet otherwise.
pub open spec fn ending(inst: Instruction) -> Seq<u64> {
    if inst.opcode.terminates() {
        successors_of(inst)
    } else {
        Seq::<u64>::empty()
    }
}

/// The block that `inst` opens.
pub open spec fn fresh(inst: Instruction) -> Block {
    Block {
        start_addr: inst.addr,
        end_addr: inst.next_pc(),
        instructions: seq![inst],
        successors: ending(inst),
        is_function_entry: false,
    }
}

/// The block `cur` with `inst` at its end.
pub open spec fn extended(cur: Block, inst: Instruction) -> Block {
    Block {
        start_addr: cur.start_addr,
        end_addr: inst.next_pc(),
        instructions: cur.instructions.push(inst),
        successors: ending(inst),
        is_function_entry: cur.is_function_entry,
    }
}

/// Does `inst`, which follows `prev` in the list, open a new block? It does
/// at a recorded boundary, behind a terminator, and where it does not start
/// at the end of `prev`.
pub open spec fn opens(prev: Instruction, bounds: Set<u64>, inst: Instruction) -> bool {
    bounds.contains(inst.addr) || prev.opcode.terminates() || inst.addr != prev.next_pc()
}

/// The instruction list cut into blocks, in list order.
pub open spec fn runs(insts: Seq<Instruction>, bounds: Set<u64>) -> Seq<Block>
    decreases insts.len(),
{
    if insts.len() == 0 {
        Seq::<Block>::empty()
    } else if insts.len() == 1 {
        seq![fresh(insts[0])]
    } else {
        let before = runs(insts.drop_last(), bounds);
        if opens(insts[insts.len() - 2], bounds, insts.last()) {
            before.push(fresh(insts.last()))
        } else {
            before.drop_last().push(extended(before.last(), insts.last()))
        }
    }
}

/// The start addresses of a list of blocks.
pub open spec fn starts(blocks: Seq<Block>) -> Set<u64>
    decreases blocks.len(),
{
    if blocks.len() == 0 {
        Set::<u64>::empty()
    } else {
        starts(blocks.drop_last()).insert(blocks.last().start_addr)
    }
}

/// A block that ends without a terminator falls through to the block that
/// starts at its end, if there is one.
pub open spec fn linked_up(block: Block, known: Set<u64>) -> Block {
    if block.successors.len() == 0 && block.instructions.len() > 0
        && !block.instructions.last().opcode.terminates() && known.contains(block.end_addr) {
        Block {
            start_addr: block.start_addr,
            end_addr: block.end_addr,
            instructions: block.instructions,
            successors: seq![block.end_addr],
            is_function_entry: block.is_function_entry,
        }
    } else {
        block
    }
}

/// The blocks by start address; of two blocks with one start address the
/// later one in the list stays.
pub open spec fn keyed(blocks: Seq<Block>, known: Set<u64>) -> Map<u64, Block>
    decreases blocks.len(),
{
    if blocks.len() == 0 {
        Map::<u64, Block>::empty()
    } else {
        keyed(blocks.drop_last(), known).insert(
            blocks.last().start_addr,
            linked_up(blocks.last(), known),
        )
    }
}

/// The block map of an instruction list.
pub open spec fn block_map(insts: Seq<Instruction>, bounds: Set<u64>) -> Map<u64, Block> {
    keyed(runs(insts, bounds), starts(runs(insts, bounds)))
}

/// What holds of every block that `runs` makes.
pub open spec fn sound(block: Block) -> bool {
    &&& block.well_formed()
    &&& block.successors == ending(block.instructions.last())
    &&& !block.is_function_entry
}

proof fn lemma_runs(insts: Seq<Instruction>, bounds: Set<u64>)
    ensures
        insts.len() > 0 ==> runs(insts, bounds).len() > 0 && runs(
            insts,
            bounds,
        ).last().instructions.last() == insts.last(),
        insts.len() == 0 ==> runs(insts, bounds).len() == 0,
        forall|k: int| 0 <= k < runs(insts, bounds).len() ==> sound(#[trigger] runs(insts, bounds)[k]),
    decreases insts.len(),
{
    if insts.len() > 1 {
        let before = runs(insts.drop_last(), bounds);
        lemma_runs(insts.drop_last(), bounds);
        let inst = insts.last();
        let prev = insts[insts.len() - 2];
        assert(insts.drop_last().last() == prev);
        let after = runs(insts, bounds);
        if opens(prev, bounds, inst) {
            assert forall|k: int| 0 <= k < after.len() implies sound(#[trigger] after[k]) by {
                if k < before.len() {
                    assert(after[k] == before[k]);
                }
            }
        } else {
            let cur = before.last();
            let ext = extended(cur, inst);
            assert(ext.instructions.last() == inst);
            assert(ext.instructions[0] == cur.instructions[0]);
            assert forall|i: int| 0 < i < ext.instructions.len() implies (
            #[trigger] ext.instructions[i]).addr == ext.instructions[i - 1].next_pc() by {
                if i < cur.instructions.len() {
                    assert(ext.instructions[i] == cur.instructions[i]);
                    assert(ext.instructions[i - 1] == cur.instructions[i - 1]);
                } else {
                    assert(ext.instructions[i - 1] == cur.instructions.last());
                }
            }
            assert forall|i: int| 0 <= i < ext.instructions.len() - 1 implies !(
            #[trigger] ext.instructions[i]).opcode.terminates() by {
                if i < cur.instructions.len() - 1 {
                    assert(ext.instructions[i] == cur.instructions[i]);
                } else {
                    assert(ext.instructions[i] == cur.instructions.last());
                }
            }
            assert forall|k: int| 0 <= k < after.len() implies sound(#[trigger] after[k]) by {
                if k < after.len() - 1 {
                    assert(after[k] == before[k]);
                }
            }
        }
    }
}

proof fn lemma_starts_same(a: Seq<Block>, b: Seq<Block>)
    requires
        a.len() == b.len(),
        forall|k: int| 0 <= k < a.len() ==> (#[trigger] a[k]).start_addr == b[k].start_addr,
    ensures
        starts(a) == starts(b),
    decreases a.len(),
{
    if a.len() > 0 {
        assert forall|k: int| 0 <= k < a.drop_last().len() implies (
        #[trigger] a.drop_last()[k]).start_addr == b.drop_last()[k].start_addr by {
            assert(a.drop_last()[k] == a[k]);
            assert(b.drop_last()[k] == b[k]);
        }
        lemma_starts_same(a.drop_last(), b.drop_last());
    }
}

proof fn lemma_starts_step(insts: Seq<Instruction>, bounds: Set<u64>)
    requires
        insts.len() > 0,
    ensures
        starts(runs(insts, bounds)) == (if insts.len() == 1 || opens(
            insts[insts.len() - 2],
            bounds,
            insts.last(),
        ) {
            starts(runs(insts.drop_last(), bounds)).insert(insts.last().addr)
        } else {
            starts(runs(insts.drop_last(), bounds))
        }),
{
    let before = runs(insts.drop_last(), bounds);
    let after = runs(insts, bounds);
    lemma_runs(insts.drop_last(), bounds);
    if insts.len() == 1 {
        assert(after.drop_last() =~= before);
    } else if opens(insts[insts.len() - 2], bounds, insts.last()) {
        assert(after.drop_last() =~= before);
    } else {
        assert forall|k: int| 0 <= k < after.len() implies (#[trigger] after[k]).start_addr
            == before[k].start_addr by {}
        lemma_starts_same(after, before);
    }
}

fn opens_block(prev: &Instruction, boundaries: &BTreeSet<u64>, inst: &Instruction) -> (r: bool)
    ensures
        r == opens(*prev, boundaries@, *inst),
{
    set_contains(boundaries, inst.addr) || prev.opcode.is_terminator() || inst.addr
        != prev.next_addr()
}

fn block_starts(instructions: &[Instruction], boundaries: &BTreeSet<u64>) -> (known: BTreeSet<u64>)
    ensures
        known@ == starts(runs(instructions@, boundaries@)),
{
    let mut known: BTreeSet<u64> = BTreeSet::new();
    let ghost insts = instructions@;
    let ghost bounds = boundaries@;
    let mut i: usize = 0;
    proof {
        assert(starts(runs(insts.take(0), bounds)) =~= Set::<u64>::empty());
    }
    while i < instructions.len()
        invariant
            i <= instructions.len(),
            insts == instructions@,
            bounds == boundaries@,
            known@ == starts(runs(insts.take(i as int), bounds)),
        decreases instructions.len() - i,
    {
        proof {
            let upto = insts.take(i + 1);
            assert(upto.drop_last() =~= insts.take(i as int));
            assert(upto.last() == insts[i as int]);
            if i > 0 {
                assert(upto[upto.len() - 2] == insts[i - 1]);
            }
            lemma_starts_step(upto, bounds);
        }
        if i == 0 || opens_block(&instructions[i - 1], boundaries, &instructions[i]) {
            set_insert(&mut known, instructions[i].addr);
        }
        i += 1;
    }
    proof {
        assert(insts.take(i as int) =~= insts);
    }
    known
}

fn ending_of(inst: &Instruction) -> (successors: Vec<u64>)
    ensures
        successors@ == ending(*inst),
{
    if inst.opcode.is_terminator() {
        compute_successors(inst)
    } else {
        Vec::new()
    }
}

fn finish(block: BasicBlock, known: &BTreeSet<u64>) -> (done: BasicBlock)
    ensures
        done@ == linked_up(block@, known@),
{
    let mut block = block;
    let n = block.instructions.len();
    if block.successors.len() == 0 && n > 0 && !block.instructions[n - 1].opcode.is_terminator()
        && set_contains(known, block.end_addr) {
        block.successors.push(block.end_addr);
        assert(block.successors@ =~= seq![block.end_addr]);
    }
    block
}

proof fn lemma_views_insert(blocks: Map<u64, BasicBlock>, key: u64, block: BasicBlock)
    ensures
        block_views(blocks.insert(key, block)) == block_views(blocks).insert(key, block@),
{
    assert(block_views(blocks.insert(key, block)) =~= block_views(blocks).insert(key, block@));
}

/// Cuts the instruction list into basic blocks and keys them by start
/// address.
pub fn create_blocks(instructions: &[Instruction], boundaries: &BTreeSet<u64>) -> (blocks: BTreeMap<
    u64,
    BasicBlock,
>)
    ensures
        block_views(blocks@) == block_map(instructions@, boundaries@),
{
    let known = block_starts(instructions, boundaries);
    let mut blocks: BTreeMap<u64, BasicBlock> = BTreeMap::new();
    let ghost insts = instructions@;
    let ghost bounds = boundaries@;
    if instructions.len() == 0 {
        proof {
            assert(block_views(blocks@) =~= block_map(insts, bounds));
        }
        return blocks;
    }
    let first = &instructions[0];
    let mut first_run: Vec<Instruction> = Vec::new();
    first_run.push(*first);
    let mut current = BasicBlock {
        start_addr: first.addr,
        end_addr: first.next_addr(),
        instructions: first_run,
        successors: ending_of(first),
        is_function_entry: false,
    };
    proof {
        assert(insts.take(1) =~= seq![insts[0]]);
        assert(current.instructions@ =~= seq![insts[0]]);
        assert(runs(insts.take(1), bounds).drop_last() =~= Seq::<Block>::empty());
        assert(block_views(blocks@) =~= Map::<u64, Block>::empty());
    }
    let mut i: usize = 1;
    while i < instructions.len()
        invariant
            1 <= i <= instructions.len(),
            insts == instructions@,
            bounds == boundaries@,
            known@ == starts(runs(insts, bounds)),
            runs(insts.take(i as int), bounds).len() > 0,
            current@ == runs(insts.take(i as int), bounds).last(),
            block_views(blocks@) == keyed(runs(insts.take(i as int), bounds).drop_last(), known@),
        decreases instructions.len() - i,
    {
        let inst = &instructions[i];
        let ghost before = runs(insts.take(i as int), bounds);
        proof {
            let upto = insts.take(i + 1);
            assert(upto.drop_last() =~= insts.take(i as int));
            assert(upto.last() == insts[i as int]);
            assert(upto[upto.len() - 2] == insts[i - 1]);
        }
        if opens_block(&instructions[i - 1], boundaries, inst) {
            let closed = finish(current, &known);
            proof {
                lemma_views_insert(blocks@, closed.start_addr, closed);
                assert(before.push(fresh(*inst)).drop_last() =~= before);
            }
            map_insert(&mut blocks, closed.start_addr, closed);
            let mut run: Vec<Instruction> = Vec::new();
            run.push(*inst);
            current =
            BasicBlock {
                start_addr: inst.addr,
                end_addr: inst.next_addr(),
                instructions: run,
                successors: ending_of(inst),
                is_function_entry: false,
            };
            proof {
                assert(current.instructions@ =~= seq![*inst]);
            }
        } else {
            current.instructions.push(*inst);
            current.end_addr = inst.next_addr();
            current.successors = ending_of(inst);
            proof {
                assert(before.drop_last().push(extended(before.last(), *inst)).drop_last()
                    =~= before.drop_last());
            }
        }
        i += 1;
    }
    proof {
        assert(insts.take(i as int) =~= insts);
    }
    let closed = finish(current, &known);
    proof {
        lemma_views_insert(blocks@, closed.start_addr, closed);
    }
    map_insert(&mut blocks, closed.start_addr, closed);
    blocks
}

/// Every block of a block map is stored under its start address, is
/// contiguous, and holds no terminator but at its end.
pub proof fn lemma_blocks_closed(insts: Seq<Instruction>, bounds: Set<u64>, addr: u64)
    requires
        block_map(insts, bounds).contains_key(addr),
    ensures
        block_map(insts, bounds)[addr].start_addr == addr,
        block_map(insts, bounds)[addr].well_formed(),
        forall|i: int|
            0 <= i < block_map(insts, bounds)[addr].instructions.len() - 1 ==> !(
            #[trigger] block_map(insts, bounds)[addr].instructions[i]).opcode.terminates(),
{
    lemma_runs(insts, bounds);
    lemma_keyed(runs(insts, bounds), starts(runs(insts, bounds)), addr);
}

/// A block that ends in a conditional branch has exactly the successors
/// `pc + imm` and `pc + len` of the branch.
pub proof fn lemma_branch_block(insts: Seq<Instruction>, bounds: Set<u64>, addr: u64)
    requires
        block_map(insts, bounds).contains_key(addr),
        block_map(insts, bounds)[addr].instructions.last().opcode.branches(),
    ensures
        ({
            let block = block_map(insts, bounds)[addr];
            let branch = block.instructions.last();
            &&& block.successors == seq![branch.target_pc(), branch.next_pc()]
            &&& block.successors.to_set() == set![branch.target_pc(), branch.next_pc()]
        }),
{
    lemma_runs(insts, bounds);
    lemma_keyed(runs(insts, bounds), starts(runs(insts, bounds)), addr);
    lemma_branch_successors(block_map(insts, bounds)[addr].instructions.last());
}

proof fn lemma_keyed(blocks: Seq<Block>, known: Set<u64>, addr: u64)
    requires
        keyed(blocks, known).contains_key(addr),
    ensures
        exists|k: int|
            0 <= k < blocks.len() && (#[trigger] blocks[k]).start_addr == addr && keyed(
                blocks,
                known,
            )[addr] == linked_up(blocks[k], known),
    decreases blocks.len(),
{
    if blocks.len() > 0 {
        if blocks.last().start_addr == addr {
            assert(blocks[blocks.len() - 1].start_addr == addr);
        } else {
            lemma_keyed(blocks.drop_last(), known, addr);
            let k = choose|k: int|
                0 <= k < blocks.drop_last().len() && (#[trigger] blocks.drop_last()[k]).start_addr
                    == addr && keyed(blocks.drop_last(), known)[addr] == linked_up(
                    blocks.drop_last()[k],
                    known,
                );
            assert(blocks[k] == blocks.drop_last()[k]);
        }
    }
}


// ---------------------------------------------------------------------------
// Phase 3: function grouping
// ---------------------------------------------------------------------------

/// Is the instruction a direct call or jump that seeds a function: JAL or
/// C.JAL?
pub open spec fn seeds_function(inst: Instruction) -> bool {
    inst.opcode == Opcode::JAL || inst.opcode == Opcode::C_JAL
}

/// The call targets: the entry and the target of every JAL and C.JAL of
/// every block.
pub open spec fn call_targets(blocks: Map<u64, Block>, entry: u64) -> Set<u64> {
    Set::new(
        |a: u64|
            a == entry || exists|addr: u64, i: int|
                blocks.contains_key(addr) && 0 <= i < blocks[addr].instructions.len()
                    && seeds_function(#[trigger] blocks[addr].instructions[i])
                    && blocks[addr].instructions[i].target_pc() == a,
    )
}

/// May the walk from `entry` go on to `succ`? It may not cross into another
/// call target.
pub open spec fn follows(targets: Set<u64>, entry: u64, succ: u64) -> bool {
    !targets.contains(succ) || succ == entry
}

/// What is left to do for a frame of the walk: its successors that are not
/// looked at yet, and its own completion.
pub open spec fn frame_left(blocks: Map<u64, Block>, frame: (u64, nat)) -> nat {
    if blocks.contains_key(frame.0) && frame.1 <= blocks[frame.0].successors.len() {
        (blocks[frame.0].successors.len() - frame.1 + 1) as nat
    } else {
        1
    }
}

/// What is left to do for all frames of a stack.
pub open spec fn work_left(blocks: Map<u64, Block>, stack: Seq<(u64, nat)>) -> nat
    decreases stack.len(),
{
    if stack.len() == 0 {
        0
    } else {
        work_left(blocks, stack.drop_last()) + frame_left(blocks, stack.last())
    }
}

/// The blocks that a depth-first walk completes, in the order in which it
/// completes them. A frame of `stack` holds a block under visit and the
/// number of its successors looked at so far, the innermost frame last;
/// `visited` holds the blocks entered so far, and `post` the blocks
/// completed so far. The walk enters a successor if it may follow it, if
/// it has not entered it before, and if it is the start of a block.
pub open spec fn walk(
    blocks: Map<u64, Block>,
    targets: Set<u64>,
    entry: u64,
    stack: Seq<(u64, nat)>,
    visited: Set<u64>,
    post: Seq<u64>,
) -> Seq<u64>
    decreases blocks.dom().difference(visited).len(), work_left(blocks, stack),
    when blocks.dom().finite()
    via walk_decreases
{
    if stack.len() == 0 {
        post
    } else {
        let addr = stack.last().0;
        let next = stack.last().1;
        if blocks.contains_key(addr) && next < blocks[addr].successors.len() {
            let succ = blocks[addr].successors[next as int];
            let advanced = stack.drop_last().push((addr, next + 1));
            if follows(targets, entry, succ) && !visited.contains(succ) && blocks.contains_key(
                succ,
            ) {
                walk(blocks, targets, entry, advanced.push((succ, 0)), visited.insert(succ), post)
            } else {
                walk(blocks, targets, entry, advanced, visited, post)
            }
        } else {
            walk(blocks, targets, entry, stack.drop_last(), visited, post.push(addr))
        }
    }
}

proof fn lemma_visit(domain: Set<u64>, visited: Set<u64>, addr: u64)
    requires
        domain.finite(),
        !visited.contains(addr),
    ensures
        domain.difference(visited).finite(),
        domain.contains(addr) ==> domain.difference(visited.insert(addr)).len()
            < domain.difference(visited).len(),
        !domain.contains(addr) ==> domain.difference(visited.insert(addr)) == domain.difference(
            visited,
        ),
{
    let left = domain.difference(visited);
    vstd::set::axiom_set_difference_finite(domain, visited);
    assert(domain.difference(visited.insert(addr)) =~= left.remove(addr));
    vstd::set::axiom_set_remove_len(left, addr);
    if !domain.contains(addr) {
        assert(left.remove(addr) =~= left);
    }
}

proof fn lemma_work_push(blocks: Map<u64, Block>, stack: Seq<(u64, nat)>, frame: (u64, nat))
    ensures
        work_left(blocks, stack.push(frame)) == work_left(blocks, stack) + frame_left(blocks, frame),
{
    assert(stack.push(frame).drop_last() =~= stack);
}

proof fn lemma_walk_step(blocks: Map<u64, Block>, stack: Seq<(u64, nat)>)
    requires
        stack.len() > 0,
    ensures
        work_left(blocks, stack.drop_last()) < work_left(blocks, stack),
        blocks.contains_key(stack.last().0) && stack.last().1 < blocks[stack.last().0].successors.len()
            ==> work_left(blocks, stack.drop_last().push((stack.last().0, stack.last().1 + 1)))
            < work_left(blocks, stack),
{
    lemma_work_push(blocks, stack.drop_last(), (stack.last().0, stack.last().1 + 1));
}

#[via_fn]
proof fn walk_decreases(
    blocks: Map<u64, Block>,
    targets: Set<u64>,
    entry: u64,
    stack: Seq<(u64, nat)>,
    visited: Set<u64>,
    post: Seq<u64>,
) {
    if stack.len() > 0 {
        lemma_walk_step(blocks, stack);
        let addr = stack.last().0;
        let next = stack.last().1;
        if blocks.contains_key(addr) && next < blocks[addr].successors.len() {
            let succ = blocks[addr].successors[next as int];
            if !visited.contains(succ) {
                lemma_visit(blocks.dom(), visited, succ);
            }
        }
    }
}

/// The blocks of the function that starts at `entry`, in reverse postorder
/// of the depth-first walk from the entry: a block comes before every block
/// that the walk entered from it.
pub open spec fn reach(blocks: Map<u64, Block>, targets: Set<u64>, entry: u64) -> Seq<u64> {
    walk(blocks, targets, entry, seq![(entry, 0nat)], set![entry], Seq::<u64>::empty()).reverse()
}

/// The name of the function that starts at `entry`.
pub open spec fn function_name(entry: u64) -> Seq<char> {
    "func_"@ + hex_text(entry as nat)
}

/// The function that starts at `entry`.
pub open spec fn group_at(blocks: Map<u64, Block>, targets: Set<u64>, entry: u64) -> Group {
    Group { entry, name: function_name(entry), blocks: reach(blocks, targets, entry) }
}

/// One function for each of the given call targets that is the start of a
/// block, in order.
pub open spec fn groups(blocks: Map<u64, Block>, targets: Set<u64>, order: Seq<u64>) -> Seq<Group>
    decreases order.len(),
{
    if order.len() == 0 {
        Seq::<Group>::empty()
    } else if blocks.contains_key(order.last()) {
        groups(blocks, targets, order.drop_last()).push(group_at(blocks, targets, order.last()))
    } else {
        groups(blocks, targets, order.drop_last())
    }
}

/// The functions of a block map: one for each call target that is the
/// start of a block, in increasing order of entry address.
pub open spec fn functions_of_blocks(blocks: Map<u64, Block>, entry: u64) -> Seq<Group> {
    groups(blocks, call_targets(blocks, entry), ascending(call_targets(blocks, entry)))
}

/// The call targets that the blocks at the first `n` addresses of `order`
/// add to the entry.
pub open spec fn targets_upto(blocks: Map<u64, Block>, entry: u64, order: Seq<u64>, n: int, m: int) -> Set<
    u64,
> {
    Set::new(
        |a: u64|
            a == entry || exists|k: int, i: int|
                0 <= k <= n && k < order.len() && 0 <= i < blocks[order[k]].instructions.len() && (k
                    < n || i < m) && seeds_function(#[trigger] blocks[order[k]].instructions[i])
                    && blocks[order[k]].instructions[i].target_pc() == a,
    )
}

fn collect_call_targets(blocks: &BTreeMap<u64, BasicBlock>, entry: u64) -> (targets: BTreeSet<u64>)
    ensures
        targets@ == call_targets(block_views(blocks@), entry),
{
    let mut targets: BTreeSet<u64> = BTreeSet::new();
    set_insert(&mut targets, entry);
    let order = sorted_keys(blocks);
    let ghost views = block_views(blocks@);
    let mut k: usize = 0;
    proof {
        assert(targets@ =~= targets_upto(views, entry, order@, 0, 0));
    }
    while k < order.len()
        invariant
            k <= order.len(),
            views == block_views(blocks@),
            lists(order@, blocks@.dom()),
            targets@ == targets_upto(views, entry, order@, k as int, 0),
        decreases order.len() - k,
    {
        let addr = order[k];
        proof {
            assert(order@.to_set().contains(order@[k as int]));
        }
        match map_get(blocks, addr) {
            Some(block) => {
                assert(block@ == views[addr]);
                let mut i: usize = 0;
                while i < block.instructions.len()
                    invariant
                        i <= block.instructions.len(),
                        k < order.len(),
                        addr == order@[k as int],
                        block@ == views[addr],
                        targets@ == targets_upto(views, entry, order@, k as int, i as int),
                    decreases block.instructions.len() - i,
                {
                    let inst = &block.instructions[i];
                    let ghost before = targets@;
                    if inst.opcode == Opcode::JAL || inst.opcode == Opcode::C_JAL {
                        set_insert(&mut targets, target_or_self(inst));
                    }
                    proof {
                        let want = targets_upto(views, entry, order@, k as int, i + 1);
                        assert forall|a: u64| targets@.contains(a) <==> want.contains(a) by {
                            if before.contains(a) && a != entry {
                                let (k0, i0) = choose|k0: int, i0: int|
                                    0 <= k0 <= k && k0 < order@.len() && 0 <= i0
                                        < views[order@[k0]].instructions.len() && (k0 < k || i0 < i)
                                        && seeds_function(
                                        #[trigger] views[order@[k0]].instructions[i0],
                                    ) && views[order@[k0]].instructions[i0].target_pc() == a;
                                assert(seeds_function(views[order@[k0]].instructions[i0]));
                            }
                            if seeds_function(*inst) && a == inst.target_pc() {
                                assert(seeds_function(views[order@[k as int]].instructions[i as int]));
                            }
                            if want.contains(a) && a != entry {
                                let (k0, i0) = choose|k0: int, i0: int|
                                    0 <= k0 <= k && k0 < order@.len() && 0 <= i0
                                        < views[order@[k0]].instructions.len() && (k0 < k || i0 < i
                                        + 1) && seeds_function(
                                        #[trigger] views[order@[k0]].instructions[i0],
                                    ) && views[order@[k0]].instructions[i0].target_pc() == a;
                                if k0 < k || i0 < i {
                                    assert(seeds_function(views[order@[k0]].instructions[i0]));
                                    assert(before.contains(a));
                                }
                            }
                        }
                        assert(targets@ =~= want);
                    }
                    i += 1;
                }
                proof {
                    let have = targets_upto(
                        views,
                        entry,
                        order@,
                        k as int,
                        block.instructions.len() as int,
                    );
                    let want = targets_upto(views, entry, order@, k + 1, 0);
                    assert forall|a: u64| have.contains(a) <==> want.contains(a) by {
                        if have.contains(a) && a != entry {
                            let (k0, i0) = choose|k0: int, i0: int|
                                0 <= k0 <= k && k0 < order@.len() && 0 <= i0
                                    < views[order@[k0]].instructions.len() && (k0 < k || i0
                                    < block.instructions.len()) && seeds_function(
                                    #[trigger] views[order@[k0]].instructions[i0],
                                ) && views[order@[k0]].instructions[i0].target_pc() == a;
                            assert(seeds_function(views[order@[k0]].instructions[i0]));
                        }
                        if want.contains(a) && a != entry {
                            let (k0, i0) = choose|k0: int, i0: int|
                                0 <= k0 <= k + 1 && k0 < order@.len() && 0 <= i0
                                    < views[order@[k0]].instructions.len() && (k0 < k + 1 || i0 < 0)
                                    && seeds_function(
                                    #[trigger] views[order@[k0]].instructions[i0],
                                ) && views[order@[k0]].instructions[i0].target_pc() == a;
                            assert(seeds_function(views[order@[k0]].instructions[i0]));
                        }
                    }
                    assert(have =~= want);
                }
            },
            None => {
                proof {
                    assert(false);
                }
            },
        }
        k += 1;
    }
    proof {
        let have = targets_upto(views, entry, order@, order@.len() as int, 0);
        let want = call_targets(views, entry);
        assert forall|a: u64| have.contains(a) <==> want.contains(a) by {
            if have.contains(a) && a != entry {
                let (k0, i0) = choose|k0: int, i0: int|
                    0 <= k0 <= order@.len() && k0 < order@.len() && 0 <= i0
                        < views[order@[k0]].instructions.len() && (k0 < order@.len() || i0 < 0)
                        && seeds_function(#[trigger] views[order@[k0]].instructions[i0])
                        && views[order@[k0]].instructions[i0].target_pc() == a;
                assert(order@.to_set().contains(order@[k0]));
                assert(views.contains_key(order@[k0]));
                assert(seeds_function(views[order@[k0]].instructions[i0]));
            }
            if want.contains(a) && a != entry {
                let (addr, i0) = choose|addr: u64, i0: int|
                    views.contains_key(addr) && 0 <= i0 < views[addr].instructions.len()
                        && seeds_function(#[trigger] views[addr].instructions[i0])
                        && views[addr].instructions[i0].target_pc() == a;
                assert(order@.to_set().contains(addr));
                let k0 = choose|k0: int| 0 <= k0 < order@.len() && order@[k0] == addr;
                assert(seeds_function(views[order@[k0]].instructions[i0]));
            }
        }
        assert(have =~= want);
    }
    targets
}

/// The frames of a stack by their values.
pub open spec fn frames(stack: Seq<(u64, usize)>) -> Seq<(u64, nat)> {
    stack.map_values(|f: (u64, usize)| (f.0, f.1 as nat))
}

fn reversed(items: &Vec<u64>) -> (r: Vec<u64>)
    ensures
        r@ == items@.reverse(),
{
    let mut r: Vec<u64> = Vec::new();
    let n = items.len();
    let mut i: usize = 0;
    while i < n
        invariant
            i <= n,
            n == items@.len(),
            r@.len() == i,
            forall|k: int| 0 <= k < i ==> r@[k] == items@[n - 1 - k],
        decreases n - i,
    {
        r.push(items[n - 1 - i]);
        i += 1;
    }
    assert(r@ =~= items@.reverse());
    r
}

fn collect_reachable(blocks: &BTreeMap<u64, BasicBlock>, targets: &BTreeSet<u64>, entry: u64) -> (found:
    Vec<u64>)
    ensures
        found@ == reach(block_views(blocks@), targets@, entry),
{
    let ghost views = block_views(blocks@);
    let mut stack: Vec<(u64, usize)> = Vec::new();
    stack.push((entry, 0));
    let mut visited: BTreeSet<u64> = BTreeSet::new();
    set_insert(&mut visited, entry);
    let mut post: Vec<u64> = Vec::new();
    let ghost want = walk(
        views,
        targets@,
        entry,
        seq![(entry, 0nat)],
        set![entry],
        Seq::<u64>::empty(),
    );
    proof {
        assert(frames(stack@) =~= seq![(entry, 0nat)]);
        assert(visited@ =~= set![entry]);
        assert(views.dom() =~= blocks@.dom());
    }
    while stack.len() > 0
        invariant
            views == block_views(blocks@),
            views.dom().finite(),
            want == walk(views, targets@, entry, frames(stack@), visited@, post@),
        decreases views.dom().difference(visited@).len(), work_left(views, frames(stack@)),
    {
        let n = stack.len();
        let (addr, next) = stack[n - 1];
        let ghost old_frames = frames(stack@);
        let ghost seen = visited@;
        proof {
            assert(old_frames.last() == (addr, next as nat));
            lemma_walk_step(views, old_frames);
        }
        let mut entered: Option<u64> = None;
        let mut advance = false;
        match map_get(blocks, addr) {
            Some(block) => {
                assert(block@ == views[addr]);
                if next < block.successors.len() {
                    advance = true;
                    let succ = block.successors[next];
                    if (!set_contains(targets, succ) || succ == entry) && !set_contains(
                        &visited,
                        succ,
                    ) && map_contains(blocks, succ) {
                        entered = Some(succ);
                    }
                }
            },
            None => {},
        }
        stack.pop();
        proof {
            assert(frames(stack@) =~= old_frames.drop_last());
        }
        if advance {
            stack.push((addr, next + 1));
            proof {
                assert(frames(stack@) =~= old_frames.drop_last().push((addr, (next + 1) as nat)));
            }
            match entered {
                Some(succ) => {
                    proof {
                        lemma_visit(views.dom(), seen, succ);
                        assert(views.dom().contains(succ));
                    }
                    let ghost advanced = frames(stack@);
                    set_insert(&mut visited, succ);
                    stack.push((succ, 0));
                    proof {
                        assert(frames(stack@) =~= advanced.push((succ, 0nat)));
                    }
                },
                None => {},
            }
        } else {
            post.push(addr);
        }
    }
    reversed(&post)
}

proof fn lemma_group_views_push(functions: Seq<Function>, f: Function)
    ensures
        group_views(functions.push(f)) == group_views(functions).push(f@),
{
    assert(group_views(functions.push(f)) =~= group_views(functions).push(f@));
}

/// Groups the blocks into functions around the call targets.
pub fn identify_functions(blocks: &BTreeMap<u64, BasicBlock>, entry: u64) -> (functions: Vec<Function>)
    ensures
        group_views(functions@) == functions_of_blocks(block_views(blocks@), entry),
{
    let call_targets = collect_call_targets(blocks, entry);
    let order = sorted_members(&call_targets);
    let ghost views = block_views(blocks@);
    let mut functions: Vec<Function> = Vec::new();
    let mut k: usize = 0;
    proof {
        crate::ordered::lemma_ascending(order@, call_targets@);
        assert(group_views(functions@) =~= groups(views, call_targets@, order@.take(0)));
    }
    while k < order.len()
        invariant
            k <= order.len(),
            views == block_views(blocks@),
            group_views(functions@) == groups(views, call_targets@, order@.take(k as int)),
        decreases order.len() - k,
    {
        let entry_addr = order[k];
        proof {
            assert(order@.take(k + 1).drop_last() =~= order@.take(k as int));
            assert(order@.take(k + 1).last() == entry_addr);
            assert(views.dom() =~= blocks@.dom());
        }
        if map_contains(blocks, entry_addr) {
            let func_blocks = collect_reachable(blocks, &call_targets, entry_addr);
            let func = Function {
                entry: entry_addr,
                name: hex_name("func_", entry_addr),
                blocks: func_blocks,
            };
            proof {
                lemma_group_views_push(functions@, func);
            }
            functions.push(func);
        }
        k += 1;
    }
    proof {
        assert(order@.take(k as int) =~= order@);
    }
    functions
}

// ---------------------------------------------------------------------------
// The graph
// ---------------------------------------------------------------------------

/// Is `cfg` the control-flow graph of the instruction list with the given
/// entry?
pub open spec fn graph_of(cfg: ControlFlowGraph, insts: Seq<Instruction>, entry: u64) -> bool {
    &&& cfg.entry == entry
    &&& block_views(cfg.blocks@) == block_map(insts, boundary_set(insts, entry))
    &&& group_views(cfg.functions@) == functions_of_blocks(block_views(cfg.blocks@), entry)
}

/// Builds the control-flow graph of a list of decoded instructions. An
/// entry that is not the start of a block is no fault: no function is
/// grouped around it.
pub fn build(instructions: &[Instruction], entry: u64) -> (r: Result<ControlFlowGraph, CompileError>)
    ensures
        r is Ok,
        graph_of(r->Ok_0, instructions@, entry),
{
    let boundaries = find_block_boundaries(instructions, entry);
    let blocks = create_blocks(instructions, &boundaries);
    let functions = identify_functions(&blocks, entry);
    Ok(ControlFlowGraph { blocks, functions, entry })
}

} // verus!
