use vstd::prelude::*;

use crate::operand_set::OperandSet;

verus! {

/// A symbolic (not yet allocated) variable.
#[derive(Debug, Eq, Hash)]
pub struct Name(pub String);

impl View for Name {
    type V = Seq<char>;

    open spec fn view(&self) -> Seq<char> {
        self.0@
    }
}

impl Clone for Name {
    fn clone(&self) -> (r: Self)
        ensures
            r == *self,
    {
        Name(self.0.clone())
    }
}

impl PartialEq for Name {
    fn eq(&self, other: &Name) -> (r: bool) {
        self.0 == other.0
    }
}

impl vstd::std_specs::cmp::PartialEqSpecImpl for Name {
    open spec fn obeys_eq_spec() -> bool {
        true
    }

    open spec fn eq_spec(&self, other: &Name) -> bool {
        self@ == other@
    }
}

/// A branch or call target.
#[derive(Debug, PartialEq, Eq)]
pub struct Label(pub String);

impl Clone for Label {
    fn clone(&self) -> (r: Self)
        ensures
            r == *self,
    {
        Label(self.0.clone())
    }
}

/// The number of arguments a call passes in registers.
#[derive(Debug, Clone, Copy, PartialEq, Eq)]
pub struct Arity(pub u8);

/// The sixteen general-purpose registers.
#[derive(Debug, Clone, Copy, PartialEq, Eq, Structural, Hash)]
pub enum Register {
    RSP,
    RBP,
    RAX,
    RBX,
    RCX,
    RDX,
    RSI,
    RDI,
    R8,
    R9,
    R10,
    R11,
    R12,
    R13,
    R14,
    R15,
}

/// Registers whose value a call may destroy.
pub open spec fn caller_saved_regs() -> Seq<Register> {
    seq![
        Register::RAX,
        Register::RCX,
        Register::RDX,
        Register::RSI,
        Register::RDI,
        Register::R8,
        Register::R9,
        Register::R10,
        Register::R11,
    ]
}

/// Registers that a call preserves.
pub open spec fn callee_saved_regs() -> Seq<Register> {
    seq![
        Register::RSP,
        Register::RBP,
        Register::RBX,
        Register::R12,
        Register::R13,
        Register::R14,
        Register::R15,
    ]
}

/// Registers that carry the first integer arguments of a call, in order.
pub open spec fn argument_regs() -> Seq<Register> {
    seq![Register::RDI, Register::RSI, Register::RDX, Register::RCX, Register::R8, Register::R9]
}

/// How many arguments a call can pass in registers.
pub const MAX_REGISTER_ARGS: u8 = 6;

impl Register {
    /// The caller-saved registers.
    pub fn caller_saved() -> (r: Vec<Register>)
        ensures
            r@ == caller_saved_regs(),
    {
        let r = vec![
            Register::RAX,
            Register::RCX,
            Register::RDX,
            Register::RSI,
            Register::RDI,
            Register::R8,
            Register::R9,
            Register::R10,
            Register::R11,
        ];
        assert(r@ =~= caller_saved_regs());
        r
    }

    /// The callee-saved registers.
    pub fn callee_saved() -> (r: Vec<Register>)
        ensures
            r@ == callee_saved_regs(),
    {
        let r = vec![
            Register::RSP,
            Register::RBP,
            Register::RBX,
            Register::R12,
            Register::R13,
            Register::R14,
            Register::R15,
        ];
        assert(r@ =~= callee_saved_regs());
        r
    }

    /// The argument-passing registers, in calling-convention order.
    pub fn argument_passing() -> (r: Vec<Register>)
        ensures
            r@ == argument_regs(),
    {
        let r = vec![
            Register::RDI,
            Register::RSI,
            Register::RDX,
            Register::RCX,
            Register::R8,
            Register::R9,
        ];
        assert(r@ =~= argument_regs());
        r
    }
}

/// An operand as a mathematical value: a variable is its sequence of characters.
pub enum OperandModel {
    Reg(Register),
    Mem(Register, i64),
    Var(Seq<char>),
    Imm(i64),
}

impl OperandModel {
    /// Whether the operand names a storage location (every kind but an immediate).
    pub open spec fn is_location(self) -> bool {
        !(self is Imm)
    }
}

/// A register, a memory location (base register plus byte offset), a
/// symbolic variable or an immediate constant.
#[derive(Debug, Eq, Hash)]
pub enum Operand {
    Reg(Register),
    Mem(Register, i64),
    Var(Name),
    Imm(i64),
}

impl View for Operand {
    type V = OperandModel;

    open spec fn view(&self) -> OperandModel {
        match self {
            Operand::Reg(r) => OperandModel::Reg(*r),
            Operand::Mem(r, off) => OperandModel::Mem(*r, *off),
            Operand::Var(n) => OperandModel::Var(n@),
            Operand::Imm(v) => OperandModel::Imm(*v),
        }
    }
}

impl Clone for Operand {
    fn clone(&self) -> (r: Self)
        ensures
            r == *self,
    {
        match self {
            Operand::Reg(r) => Operand::Reg(*r),
            Operand::Mem(r, off) => Operand::Mem(*r, *off),
            Operand::Var(n) => Operand::Var(n.clone()),
            Operand::Imm(v) => Operand::Imm(*v),
        }
    }
}

impl PartialEq for Operand {
    fn eq(&self, other: &Operand) -> (r: bool) {
        match self {
            Operand::Reg(a) => match other {
                Operand::Reg(b) => *a == *b,
                _ => false,
            },
            Operand::Mem(a, x) => match other {
                Operand::Mem(b, y) => *a == *b && *x == *y,
                _ => false,
            },
            Operand::Var(a) => match other {
                Operand::Var(b) => *a == *b,
                _ => false,
            },
            Operand::Imm(x) => match other {
                Operand::Imm(y) => *x == *y,
                _ => false,
            },
        }
    }
}

impl vstd::std_specs::cmp::PartialEqSpecImpl for Operand {
    open spec fn obeys_eq_spec() -> bool {
        true
    }

    open spec fn eq_spec(&self, other: &Operand) -> bool {
        self@ == other@
    }
}

impl From<i64> for Operand {
    fn from(value: i64) -> (r: Operand) {
        Operand::Imm(value)
    }
}

impl vstd::std_specs::convert::FromSpecImpl<i64> for Operand {
    open spec fn obeys_from_spec() -> bool {
        true
    }

    open spec fn from_spec(value: i64) -> Operand {
        Operand::Imm(value)
    }
}

/// A string literal names a variable.
impl From<&str> for Operand {
    fn from(value: &str) -> (r: Operand)
        ensures
            r matches Operand::Var(n) && n@ == value@,
    {
        Operand::Var(Name(value.to_owned()))
    }
}

impl vstd::std_specs::convert::FromSpecImpl<&str> for Operand {
    // Contracts speak of a `String` through its characters, so the result is
    // described by the `ensures` of `from` instead.
    open spec fn obeys_from_spec() -> bool {
        false
    }

    open spec fn from_spec(value: &str) -> Operand {
        Operand::Var(Name(arbitrary()))
    }
}

impl Operand {
    /// Whether the operand can hold a live value: registers, memory and
    /// variables can, immediates cannot.
    pub fn can_live(&self) -> (r: bool)
        ensures
            r == self@.is_location(),
            r == !(self is Imm),
    {
        match self {
            Operand::Reg(_) | Operand::Mem(_, _) | Operand::Var(_) => true,
            Operand::Imm(_) => false,
        }
    }
}

/// An instruction over operands of type `A`.
#[derive(Debug, PartialEq, Eq)]
pub enum InstrF<A> {
    AddQ(A, A),
    SubQ(A, A),
    NegQ(A),
    MovQ(A, A),
    PushQ(A),
    PopQ(A),
    CallQ(Label, Arity),
    Jmp(Label),
    Syscall,
    RetQ,
}

/// An instruction whose operands may still be symbolic variables.
pub type Instr = InstrF<Operand>;

impl Clone for InstrF<Operand> {
    fn clone(&self) -> (r: Self)
        ensures
            r == *self,
    {
        match self {
            InstrF::AddQ(a, b) => InstrF::AddQ(a.clone(), b.clone()),
            InstrF::SubQ(a, b) => InstrF::SubQ(a.clone(), b.clone()),
            InstrF::NegQ(a) => InstrF::NegQ(a.clone()),
            InstrF::MovQ(a, b) => InstrF::MovQ(a.clone(), b.clone()),
            InstrF::PushQ(a) => InstrF::PushQ(a.clone()),
            InstrF::PopQ(a) => InstrF::PopQ(a.clone()),
            InstrF::CallQ(l, n) => InstrF::CallQ(l.clone(), *n),
            InstrF::Jmp(l) => InstrF::Jmp(l.clone()),
            InstrF::Syscall => InstrF::Syscall,
            InstrF::RetQ => InstrF::RetQ,
        }
    }
}

/// `{o@}` when `o` can hold a live value, else the empty set.
pub open spec fn location_set(o: Operand) -> Set<OperandModel> {
    if o@.is_location() {
        set![o@]
    } else {
        Set::empty()
    }
}

/// The first `n` argument registers, as operands.
pub open spec fn argument_operands(n: int) -> Set<OperandModel> {
    Set::new(
        |m: OperandModel|
            exists|k: int| 0 <= k < n && k < argument_regs().len() && m == OperandModel::Reg(argument_regs()[k]),
    )
}

/// Every caller-saved register, as an operand.
pub open spec fn caller_saved_operands() -> Set<OperandModel> {
    Set::new(
        |m: OperandModel|
            exists|k: int| 0 <= k < caller_saved_regs().len() && m == OperandModel::Reg(caller_saved_regs()[k]),
    )
}

impl InstrF<Operand> {
    /// A call passes no more arguments than there are argument registers.
    pub open spec fn well_formed(&self) -> bool {
        match self {
            InstrF::CallQ(_, arity) => arity.0 <= MAX_REGISTER_ARGS,
            _ => true,
        }
    }

    /// The locations the instruction reads.
    pub open spec fn use_set(&self) -> Set<OperandModel> {
        match self {
            InstrF::AddQ(src, dst) => location_set(*src).union(location_set(*dst)),
            InstrF::SubQ(src, dst) => location_set(*src).union(location_set(*dst)),
            InstrF::NegQ(dst) => location_set(*dst),
            InstrF::MovQ(src, _) => location_set(*src),
            InstrF::CallQ(_, arity) => argument_operands(arity.0 as int),
            _ => Set::empty(),
        }
    }

    /// The locations the instruction overwrites.
    pub open spec fn def_set(&self) -> Set<OperandModel> {
        match self {
            InstrF::AddQ(_, dst) => location_set(*dst),
            InstrF::SubQ(_, dst) => location_set(*dst),
            InstrF::NegQ(dst) => location_set(*dst),
            InstrF::MovQ(_, dst) => location_set(*dst),
            InstrF::CallQ(_, _) => caller_saved_operands(),
            _ => Set::empty(),
        }
    }

    /// Whether a call passes no more arguments than there are argument
    /// registers; every other instruction passes.
    pub fn is_well_formed(&self) -> (r: bool)
        ensures
            r == self.well_formed(),
    {
        match self {
            InstrF::CallQ(_, arity) => arity.0 <= MAX_REGISTER_ARGS,
            _ => true,
        }
    }

    /// The operands this instruction reads.
    pub fn uses(&self) -> (r: OperandSet)
        requires
            self.well_formed(),
        ensures
            r@ == self.use_set(),
    {
        let mut set = OperandSet::new();
        match self {
            InstrF::AddQ(src, dst) | InstrF::SubQ(src, dst) => {
                if src.can_live() {
                    set.insert(src.clone());
                }
                if dst.can_live() {
                    set.insert(dst.clone());
                }
                assert(set@ =~= self.use_set());
            },
            InstrF::NegQ(dst) => {
                if dst.can_live() {
                    set.insert(dst.clone());
                }
                assert(set@ =~= self.use_set());
            },
            InstrF::MovQ(src, _) => {
                if src.can_live() {
                    set.insert(src.clone());
                }
                assert(set@ =~= self.use_set());
            },
            InstrF::CallQ(_, arity) => {
                let regs = Register::argument_passing();
                let n = arity.0 as usize;
                let mut k: usize = 0;
                while k < n
                    invariant
                        k <= n,
                        n == arity.0,
                        n <= regs@.len(),
                        regs@ == argument_regs(),
                        set@ == argument_operands(k as int),
                    decreases n - k,
                {
                    set.insert(Operand::Reg(regs[k]));
                    k += 1;
                    assert(set@ =~= argument_operands(k as int));
                }
            },
            _ => {
                assert(set@ =~= self.use_set());
            },
        }
        set
    }

    /// The operands this instruction overwrites.
    pub fn defs(&self) -> (r: OperandSet)
        ensures
            r@ == self.def_set(),
    {
        let mut set = OperandSet::new();
        match self {
            InstrF::AddQ(_, dst) | InstrF::SubQ(_, dst) | InstrF::NegQ(dst) | InstrF::MovQ(_, dst) => {
                if dst.can_live() {
                    set.insert(dst.clone());
                }
                assert(set@ =~= self.def_set());
            },
            InstrF::CallQ(_, _) => {
                let regs = Register::caller_saved();
                let mut k: usize = 0;
                while k < regs.len()
                    invariant
                        k <= regs@.len(),
                        regs@ == caller_saved_regs(),
                        set@ == Set::new(
                            |m: OperandModel|
                                exists|j: int| 0 <= j < k && m == OperandModel::Reg(caller_saved_regs()[j]),
                        ),
                    decreases regs.len() - k,
                {
                    set.insert(Operand::Reg(regs[k]));
                    k += 1;
                    assert(set@ =~= Set::new(
                        |m: OperandModel|
                            exists|j: int| 0 <= j < k && m == OperandModel::Reg(caller_saved_regs()[j]),
                    ));
                }
                assert(set@ =~= self.def_set());
            },
            _ => {
                assert(set@ =~= self.def_set());
            },
        }
        set
    }
}

} // verus!
