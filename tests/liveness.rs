use std::collections::HashSet;

use x86_liveness::liveness::{Block, Liveness};
use x86_liveness::operand_set::OperandSet;
use x86_liveness::x86::{Arity, Instr, InstrF, Label, Name, Operand, Register};

fn set_of(s: &OperandSet) -> HashSet<Operand> {
    s.to_vec().into_iter().collect()
}

fn var(s: &str) -> Operand {
    Operand::Var(Name(s.to_string()))
}

fn reg(r: Register) -> Operand {
    Operand::Reg(r)
}

fn call(arity: u8) -> Instr {
    InstrF::CallQ(Label("f".to_string()), Arity(arity))
}

fn worked_example() -> Block {
    Block(vec![
        InstrF::MovQ(32.into(), "x".into()),
        InstrF::MovQ(10.into(), "y".into()),
        InstrF::MovQ("x".into(), "z".into()),
        InstrF::AddQ("y".into(), "z".into()),
        InstrF::NegQ("z".into()),
    ])
}

fn pairs(analysis: &[Liveness]) -> Vec<(HashSet<Operand>, HashSet<Operand>)> {
    analysis.iter().map(|l| (set_of(&l.before), set_of(&l.after))).collect()
}

#[test]
fn test_liveness() {
    let block = Block(vec![
        InstrF::MovQ(32.into(), "x".into()),
        InstrF::MovQ(10.into(), "y".into()),
        InstrF::MovQ("x".into(), "z".into()),
        InstrF::AddQ("y".into(), "z".into()),
        InstrF::NegQ("z".into()),
    ]);

    let analysis = block.liveness();

    let live = analysis.get(0).unwrap();
    assert_eq!(live.instr, *block.0.get(0).unwrap());
    assert_eq!(set_of(&live.before), HashSet::default());
    assert_eq!(set_of(&live.after), HashSet::from(["x".into()]));

    let live = analysis.get(1).unwrap();
    assert_eq!(live.instr, *block.0.get(1).unwrap());
    assert_eq!(set_of(&live.before), HashSet::from(["x".into()]));
    assert_eq!(set_of(&live.after), HashSet::from(["x".into(), "y".into()]));

    let live = analysis.get(2).unwrap();
    assert_eq!(live.instr, *block.0.get(2).unwrap());
    assert_eq!(set_of(&live.before), HashSet::from(["x".into(), "y".into()]));
    assert_eq!(set_of(&live.after), HashSet::from(["y".into(), "z".into()]));

    let live = analysis.get(3).unwrap();
    assert_eq!(live.instr, *block.0.get(3).unwrap());
    assert_eq!(set_of(&live.before), HashSet::from(["y".into(), "z".into()]));
    assert_eq!(set_of(&live.after), HashSet::from(["z".into()]));

    let live = analysis.get(4).unwrap();
    assert_eq!(live.instr, *block.0.get(4).unwrap());
    assert_eq!(set_of(&live.before), HashSet::from(["z".into()]));
    assert_eq!(set_of(&live.after), HashSet::default());
}

#[test]
fn empty_block_has_no_records() {
    assert!(Block(vec![]).liveness().is_empty());
}

#[test]
fn single_instruction_block() {
    let block = Block(vec![InstrF::AddQ(var("a"), var("b"))]);
    let analysis = block.liveness();
    assert_eq!(analysis.len(), 1);
    assert_eq!(set_of(&analysis[0].after), HashSet::new());
    assert_eq!(set_of(&analysis[0].before), HashSet::from([var("a"), var("b")]));
}

#[test]
fn analysis_is_deterministic() {
    let block = worked_example();
    assert_eq!(pairs(&block.liveness()), pairs(&block.liveness()));
}

#[test]
fn records_follow_program_order() {
    let block = worked_example();
    let analysis = block.liveness();
    assert_eq!(analysis.len(), block.0.len());
    for (record, instr) in analysis.iter().zip(block.0.iter()) {
        assert_eq!(record.instr, *instr);
    }
}

#[test]
fn last_record_has_nothing_live_after() {
    let block = Block(vec![
        InstrF::MovQ(var("a"), var("b")),
        InstrF::AddQ(var("b"), var("c")),
        InstrF::SubQ(var("c"), var("a")),
    ]);
    let analysis = block.liveness();
    assert!(analysis.last().unwrap().after.is_empty());
    assert_eq!(set_of(&analysis[0].before), HashSet::from([var("a"), var("c")]));
}

#[test]
fn live_before_is_uses_and_surviving_after() {
    let block = worked_example();
    for record in block.liveness() {
        let uses = set_of(&record.instr.uses());
        let defs = set_of(&record.instr.defs());
        let after = set_of(&record.after);
        let expected: HashSet<Operand> = uses.union(&after.difference(&defs).cloned().collect()).cloned().collect();
        assert_eq!(set_of(&record.before), expected);
    }
}

#[test]
fn immediates_are_never_live() {
    let block = Block(vec![
        InstrF::AddQ(Operand::Imm(1), Operand::Imm(2)),
        InstrF::MovQ(Operand::Imm(3), var("a")),
        InstrF::SubQ(Operand::Imm(4), var("a")),
        InstrF::NegQ(Operand::Imm(5)),
    ]);
    for record in block.liveness() {
        for o in set_of(&record.before).into_iter().chain(set_of(&record.after)) {
            assert!(!matches!(o, Operand::Imm(_)));
        }
    }
    assert!(InstrF::AddQ(Operand::Imm(1), Operand::Imm(2)).uses().is_empty());
    assert!(InstrF::NegQ(Operand::Imm(5)).defs().is_empty());
}

#[test]
fn call_reads_arguments_and_kills_caller_saved() {
    let block = Block(vec![call(2), InstrF::MovQ(reg(Register::RAX), var("r"))]);
    let analysis = block.liveness();
    assert_eq!(set_of(&analysis[0].before), HashSet::from([reg(Register::RDI), reg(Register::RSI)]));
    assert_eq!(set_of(&analysis[0].after), HashSet::from([reg(Register::RAX)]));
    let defs = set_of(&call(2).defs());
    let caller_saved: HashSet<Operand> = Register::caller_saved().into_iter().map(Operand::Reg).collect();
    assert_eq!(defs, caller_saved);
    assert_eq!(defs.len(), 9);
}

#[test]
fn call_keeps_callee_saved_live_across() {
    let block = Block(vec![
        InstrF::MovQ(var("a"), reg(Register::RBX)),
        call(0),
        InstrF::AddQ(reg(Register::RBX), var("b")),
    ]);
    let analysis = block.liveness();
    assert_eq!(set_of(&analysis[1].before), HashSet::from([reg(Register::RBX), var("b")]));
    assert_eq!(set_of(&analysis[0].before), HashSet::from([var("a"), var("b")]));
}

#[test]
fn call_arity_selects_argument_registers() {
    assert!(call(0).uses().is_empty());
    let all: HashSet<Operand> = Register::argument_passing().into_iter().map(Operand::Reg).collect();
    assert_eq!(set_of(&call(6).uses()), all);
    assert_eq!(all.len(), 6);
    assert_eq!(
        set_of(&call(3).uses()),
        HashSet::from([reg(Register::RDI), reg(Register::RSI), reg(Register::RDX)])
    );
}

#[test]
fn add_of_same_operand_collapses() {
    let i = InstrF::AddQ(var("x"), var("x"));
    assert_eq!(i.uses().to_vec().len(), 1);
    assert_eq!(set_of(&i.uses()), HashSet::from([var("x")]));
    assert_eq!(set_of(&i.defs()), HashSet::from([var("x")]));
    let analysis = Block(vec![i]).liveness();
    assert_eq!(set_of(&analysis[0].before), HashSet::from([var("x")]));
}

#[test]
fn move_writes_without_reading_destination() {
    let i = InstrF::MovQ(Operand::Mem(Register::RBP, -8), var("d"));
    assert_eq!(set_of(&i.uses()), HashSet::from([Operand::Mem(Register::RBP, -8)]));
    assert_eq!(set_of(&i.defs()), HashSet::from([var("d")]));
}

#[test]
fn neg_reads_and_writes() {
    let i = InstrF::NegQ(reg(Register::R12));
    assert_eq!(set_of(&i.uses()), HashSet::from([reg(Register::R12)]));
    assert_eq!(set_of(&i.defs()), HashSet::from([reg(Register::R12)]));
}

#[test]
fn stack_and_control_instructions_touch_nothing() {
    let instrs = vec![
        InstrF::PushQ(var("a")),
        InstrF::PopQ(var("a")),
        InstrF::Jmp(Label("l".to_string())),
        InstrF::Syscall,
        InstrF::RetQ,
    ];
    for i in instrs {
        assert!(i.uses().is_empty());
        assert!(i.defs().is_empty());
    }
}

#[test]
fn can_live_excludes_immediates() {
    assert!(reg(Register::RAX).can_live());
    assert!(Operand::Mem(Register::RSP, 16).can_live());
    assert!(var("v").can_live());
    assert!(!Operand::Imm(7).can_live());
}

#[test]
fn operands_compare_by_value() {
    assert_eq!(var("x"), Operand::from("x"));
    assert_ne!(var("x"), var("y"));
    assert_ne!(Operand::Mem(Register::RBP, 8), Operand::Mem(Register::RBP, 16));
    assert_ne!(reg(Register::RAX), Operand::Mem(Register::RAX, 0));
    assert_eq!(Operand::from(42i64), Operand::Imm(42));
}

#[test]
fn operand_set_operations() {
    let mut a = OperandSet::new();
    assert!(a.is_empty());
    a.insert(var("x"));
    a.insert(var("x"));
    a.insert(var("y"));
    assert_eq!(a.to_vec(), vec![var("x"), var("y")]);
    assert!(a.contains(&var("y")));
    assert!(!a.contains(&var("z")));
    let mut b = OperandSet::new();
    b.insert(var("y"));
    b.insert(var("z"));
    assert_eq!(set_of(&a.union(&b)), HashSet::from([var("x"), var("y"), var("z")]));
    assert_eq!(set_of(&a.difference(&b)), HashSet::from([var("x")]));
    assert_eq!(set_of(&a.clone()), set_of(&a));
}

#[test]
fn register_classes() {
    let caller: HashSet<Register> = Register::caller_saved().into_iter().collect();
    let callee: HashSet<Register> = Register::callee_saved().into_iter().collect();
    assert_eq!(caller.len() + callee.len(), 16);
    assert!(caller.is_disjoint(&callee));
    assert_eq!(
        Register::argument_passing(),
        vec![Register::RDI, Register::RSI, Register::RDX, Register::RCX, Register::R8, Register::R9]
    );
}

#[test]
fn arity_beyond_argument_registers_is_flagged() {
    assert!(call(6).is_well_formed());
    assert!(!call(7).is_well_formed());
    assert!(InstrF::NegQ(var("a")).is_well_formed());
    assert!(worked_example().is_well_formed());
    assert!(!Block(vec![InstrF::RetQ, call(9)]).is_well_formed());
    assert!(Block(vec![]).is_well_formed());
}
