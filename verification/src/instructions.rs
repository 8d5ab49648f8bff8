//! The instruction catalog: what each opcode means, how long its encoding
//! is, what it costs, and what it does to the processor and the memory.
use vstd::prelude::*;
use crate::alu::Shift;
use crate::cpu::{CPU, State};
use crate::instructions::decode::{spec_decode, spec_decode_prefixed};
use crate::reg::{Pair, Reg16, Reg8};

pub mod cb;
pub mod control;
pub mod decode;
pub mod jump;
pub mod load;
pub mod logic;
pub mod names;
pub mod rotate;

verus! {

/// A byte that an instruction reads or writes: a register, or the byte of
/// memory that `HL` points to.
#[derive(Debug, Clone, Copy, PartialEq, Eq, Structural)]
pub enum Place {
    Reg(Reg8),
    HLMem,
}

/// The byte of memory that a load or a store of `A` goes to.
#[derive(Debug, Clone, Copy, PartialEq, Eq, Structural)]
pub enum Indirect {
    /// The address in `BC`.
    BC,
    /// The address in `DE`.
    DE,
    /// The address in `HL`; `HL` is then increased by one.
    HLInc,
    /// The address in `HL`; `HL` is then decreased by one.
    HLDec,
    /// The address that follows the opcode as a word.
    Abs,
    /// `0xFF00` plus `C`.
    HighC,
    /// `0xFF00` plus the byte that follows the opcode.
    HighImm,
}

/// The condition of a conditional jump, call or return.
#[derive(Debug, Clone, Copy, PartialEq, Eq, Structural)]
pub enum Condition {
    NZ,
    Z,
    NC,
    C,
}

/// An operation of the arithmetic unit on `A` and one more byte.
#[derive(Debug, Clone, Copy, PartialEq, Eq, Structural)]
pub enum AluOp {
    Add,
    Adc,
    Sub,
    Sbc,
    And,
    Xor,
    Or,
    Cp,
}

/// The groups in which the catalog of unprefixed instructions is kept.
#[derive(Debug, Clone, Copy, PartialEq, Eq, Structural)]
pub enum Family {
    Load,
    Logic,
    Rotate,
    Control,
    Jump,
    /// The instructions that follow the prefix byte `0xCB`.
    Prefixed,
}

/// What an instruction does.
#[derive(Debug, Clone, Copy, PartialEq, Eq, Structural)]
pub enum Operation {
    Nop,
    Halt,
    Stop,
    Di,
    Ei,
    Scf,
    Ccf,
    /// `LD dst, src`.
    Ld(Place, Place),
    /// `LD dst, d8`.
    LdImm(Place),
    /// `LD A, (..)`.
    LoadA(Indirect),
    /// `LD (..), A`.
    StoreA(Indirect),
    /// `LD rr, d16`.
    LdWordImm(Reg16),
    /// `LD SP, HL`.
    LdSpHl,
    /// `LD HL, SP+s8`.
    LdHlSpOffset,
    /// `LD (a16), SP`.
    StoreSp,
    Push(Pair),
    Pop(Pair),
    /// An arithmetic operation on `A` and a register or `(HL)`.
    Alu(AluOp, Place),
    /// An arithmetic operation on `A` and the byte that follows the opcode.
    AluImm(AluOp),
    Inc(Place),
    Dec(Place),
    IncWord(Reg16),
    DecWord(Reg16),
    /// `ADD HL, rr`.
    AddHl(Reg16),
    /// `ADD SP, s8`.
    AddSp,
    Daa,
    Cpl,
    /// `RLCA`, `RRCA`, `RLA`, `RRA`: a rotation of `A` that clears `Z`.
    RotateA(Shift),
    /// A rotation or shift of a register or `(HL)`.
    Shift(Shift, Place),
    /// `BIT n, place`.
    TestBit(u8, Place),
    /// `RES n, place`.
    ResetBit(u8, Place),
    /// `SET n, place`.
    SetBit(u8, Place),
    Jp,
    JpIf(Condition),
    JpHl,
    Jr,
    JrIf(Condition),
    Call,
    CallIf(Condition),
    Ret,
    RetIf(Condition),
    Reti,
    /// `RST n`: a call to `n * 8`, for `n` below 8.
    Rst(u8),
}

impl Operation {
    /// Whether the operation is a jump, call or return that depends on a
    /// condition.
    pub open spec fn spec_is_conditional(self) -> bool {
        match self {
            Operation::JpIf(_) | Operation::JrIf(_) | Operation::CallIf(_) | Operation::RetIf(
                _,
            ) => true,
            _ => false,
        }
    }

    #[verifier::when_used_as_spec(spec_is_conditional)]
    pub fn is_conditional(self) -> (conditional: bool)
        ensures
            conditional == self.spec_is_conditional(),
    {
        match self {
            Operation::JpIf(_) | Operation::JrIf(_) | Operation::CallIf(_) | Operation::RetIf(
                _,
            ) => true,
            _ => false,
        }
    }

    /// The group of the catalog that holds the operation.
    pub open spec fn family(self) -> Family {
        match self {
            Operation::Nop | Operation::Halt | Operation::Stop | Operation::Di | Operation::Ei
            | Operation::Scf | Operation::Ccf => Family::Control,
            Operation::Ld(_, _) | Operation::LdImm(_) | Operation::LoadA(_) | Operation::StoreA(_)
            | Operation::LdWordImm(_) | Operation::LdSpHl | Operation::LdHlSpOffset
            | Operation::StoreSp | Operation::Push(_) | Operation::Pop(_) => Family::Load,
            Operation::Alu(_, _) | Operation::AluImm(_) | Operation::Inc(_) | Operation::Dec(_)
            | Operation::IncWord(_) | Operation::DecWord(_) | Operation::AddHl(_)
            | Operation::AddSp | Operation::Daa | Operation::Cpl => Family::Logic,
            Operation::RotateA(_) => Family::Rotate,
            Operation::Shift(_, _) | Operation::TestBit(_, _) | Operation::ResetBit(_, _)
            | Operation::SetBit(_, _) => Family::Prefixed,
            Operation::Jp | Operation::JpIf(_) | Operation::JpHl | Operation::Jr | Operation::JrIf(
                _,
            ) | Operation::Call | Operation::CallIf(_) | Operation::Ret | Operation::RetIf(_)
            | Operation::Reti | Operation::Rst(_) => Family::Jump,
        }
    }

    /// The number of bytes of the encoded instruction: the opcode, the prefix
    /// byte where there is one, and the operand bytes.
    pub open spec fn length(self) -> u16 {
        match self {
            Operation::LdImm(_) | Operation::AluImm(_) | Operation::Jr | Operation::JrIf(_)
            | Operation::AddSp | Operation::LdHlSpOffset | Operation::Stop => 2,
            Operation::LoadA(i) | Operation::StoreA(i) => match i {
                Indirect::Abs => 3,
                Indirect::HighImm => 2,
                _ => 1,
            },
            Operation::LdWordImm(_) | Operation::StoreSp | Operation::Jp | Operation::JpIf(_)
            | Operation::Call | Operation::CallIf(_) => 3,
            Operation::Shift(_, _) | Operation::TestBit(_, _) | Operation::ResetBit(_, _)
            | Operation::SetBit(_, _) => 2,
            _ => 1,
        }
    }

    /// The cost in machine cycles; for a conditional jump, call or return the
    /// cost when it is taken.
    pub open spec fn cycles(self) -> u16 {
        match self {
            Operation::Ld(dst, src) => if dst == Place::HLMem || src == Place::HLMem {
                2
            } else {
                1
            },
            Operation::LdImm(dst) => if dst == Place::HLMem {
                3
            } else {
                2
            },
            Operation::LoadA(i) | Operation::StoreA(i) => match i {
                Indirect::Abs => 4,
                Indirect::HighImm => 3,
                _ => 2,
            },
            Operation::LdWordImm(_) => 3,
            Operation::LdSpHl => 2,
            Operation::LdHlSpOffset => 3,
            Operation::StoreSp => 5,
            Operation::Push(_) => 4,
            Operation::Pop(_) => 3,
            Operation::Alu(_, src) => if src == Place::HLMem {
                2
            } else {
                1
            },
            Operation::AluImm(_) => 2,
            Operation::Inc(p) | Operation::Dec(p) => if p == Place::HLMem {
                3
            } else {
                1
            },
            Operation::IncWord(_) | Operation::DecWord(_) | Operation::AddHl(_) => 2,
            Operation::AddSp => 4,
            Operation::Shift(_, p) | Operation::ResetBit(_, p) | Operation::SetBit(_, p) => if p
                == Place::HLMem {
                4
            } else {
                2
            },
            Operation::TestBit(_, p) => if p == Place::HLMem {
                3
            } else {
                2
            },
            Operation::Jp | Operation::JpIf(_) => 4,
            Operation::JpHl => 1,
            Operation::Jr | Operation::JrIf(_) => 3,
            Operation::Call | Operation::CallIf(_) => 6,
            Operation::Ret | Operation::Reti | Operation::Rst(_) => 4,
            Operation::RetIf(_) => 5,
            _ => 1,
        }
    }

    /// The cost in machine cycles of a conditional jump, call or return that
    /// is not taken; for every other operation its one cost.
    pub open spec fn cycles_untaken(self) -> u16 {
        match self {
            Operation::JpIf(_) => 3,
            Operation::JrIf(_) => 2,
            Operation::CallIf(_) => 3,
            Operation::RetIf(_) => 2,
            _ => self.cycles(),
        }
    }

    /// The bit numbers and restart numbers that the operation holds are
    /// below 8.
    pub open spec fn valid(self) -> bool {
        match self {
            Operation::TestBit(n, _) | Operation::ResetBit(n, _) | Operation::SetBit(n, _)
            | Operation::Rst(n) => n < 8,
            _ => true,
        }
    }

    /// A conditional jump, call or return that is not taken costs less than
    /// one that is taken.
    pub proof fn lemma_untaken_costs_less(self)
        requires
            self.spec_is_conditional(),
        ensures
            self.cycles_untaken() < self.cycles(),
    {
    }

    /// An encoded instruction has one, two or three bytes.
    pub proof fn lemma_length(self)
        ensures
            1 <= self.length() <= 3,
    {
    }
}

/// One entry of the catalog.
#[derive(Debug, Clone, Copy)]
pub struct Instruction {
    /// The name under which traces and tests find the instruction.
    pub mnemonic: &'static str,
    /// The opcode; for a prefixed instruction the byte after `0xCB`.
    pub opcode: u32,
    /// The cost in machine cycles; for a conditional jump, call or return
    /// the cost when it is taken.
    pub cycles: u16,
    /// The cost of a conditional jump, call or return that is not taken; for
    /// every other instruction the same as `cycles`.
    pub cycles_untaken: u16,
    /// The length of the encoded instruction in bytes.
    pub length: u16,
    /// What the instruction does.
    pub handler: Operation,
}

impl Instruction {
    /// The entry agrees with the encoding of the instruction set: its opcode
    /// names its operation, and its length and its costs are those of the
    /// operation.
    pub open spec fn wf(&self) -> bool {
        &&& self.opcode <= 0xFF
        &&& if self.handler.family() == Family::Prefixed {
            spec_decode_prefixed(self.opcode as u8) == self.handler
        } else {
            spec_decode(self.opcode as u8) == Some(self.handler)
        }
        &&& self.length == self.handler.length()
        &&& self.cycles == self.handler.cycles()
        &&& self.cycles_untaken == self.handler.cycles_untaken()
    }

    /// The entry carries the mnemonic that the catalog has for its opcode.
    pub open spec fn spec_named(&self) -> bool {
        self.mnemonic@ == (if self.handler.family() == Family::Prefixed {
            names::spec_mnemonic_prefixed(self.opcode as u8)
        } else {
            names::spec_mnemonic(self.opcode as u8)
        })
    }

    /// The bit numbers and restart numbers of a well-formed entry are below 8.
    pub proof fn lemma_valid(&self)
        requires
            self.wf(),
        ensures
            self.handler.valid(),
    {
    }

    /// Executes the instruction on the processor and its memory, and says
    /// whether it transferred control. An instruction that does not leaves
    /// `PC` at its own first byte.
    pub fn run(&self, cpu: &mut CPU) -> (taken: bool)
        requires
            old(cpu).wf(),
            self.handler.valid(),
        ensures
            final(cpu).wf(),
            final(cpu)@ == spec_run(self.handler, old(cpu)@),
            taken == jump::spec_taken(self.handler, old(cpu)@),
    {
        let op = self.handler;
        match op {
            Operation::Nop | Operation::Halt | Operation::Stop | Operation::Di | Operation::Ei
            | Operation::Scf | Operation::Ccf => {
                control::run(op, cpu);
                false
            },
            Operation::Ld(_, _) | Operation::LdImm(_) | Operation::LoadA(_) | Operation::StoreA(_)
            | Operation::LdWordImm(_) | Operation::LdSpHl | Operation::LdHlSpOffset
            | Operation::StoreSp | Operation::Push(_) | Operation::Pop(_) => {
                load::run(op, cpu);
                false
            },
            Operation::Alu(_, _) | Operation::AluImm(_) | Operation::Inc(_) | Operation::Dec(_)
            | Operation::IncWord(_) | Operation::DecWord(_) | Operation::AddHl(_)
            | Operation::AddSp | Operation::Daa | Operation::Cpl => {
                logic::run(op, cpu);
                false
            },
            Operation::RotateA(_) => {
                rotate::run(op, cpu);
                false
            },
            Operation::Shift(_, _) | Operation::TestBit(_, _) | Operation::ResetBit(_, _)
            | Operation::SetBit(_, _) => {
                cb::run(op, cpu);
                false
            },
            Operation::Jp | Operation::JpIf(_) | Operation::JpHl | Operation::Jr | Operation::JrIf(
                _,
            ) | Operation::Call | Operation::CallIf(_) | Operation::Ret | Operation::RetIf(_)
            | Operation::Reti | Operation::Rst(_) => jump::run(op, cpu),
        }
    }
}

/// The state after an operation is executed.
pub open spec fn spec_run(op: Operation, s: State) -> State {
    match op.family() {
        Family::Load => load::spec_run(op, s),
        Family::Logic => logic::spec_run(op, s),
        Family::Rotate => rotate::spec_run(op, s),
        Family::Control => control::spec_run(op, s),
        Family::Jump => jump::spec_run(op, s),
        Family::Prefixed => cb::spec_run(op, s),
    }
}

/// An entry of the catalog made of its parts.
pub fn entry(
    mnemonic: &'static str,
    opcode: u32,
    cycles: u16,
    cycles_untaken: u16,
    length: u16,
    handler: Operation,
) -> (e: Instruction)
    ensures
        e.mnemonic == mnemonic,
        e.opcode == opcode,
        e.cycles == cycles,
        e.cycles_untaken == cycles_untaken,
        e.length == length,
        e.handler == handler,
{
    Instruction { mnemonic, opcode, cycles, cycles_untaken, length, handler }
}

/// Whether `opcode` names an instruction of `family`: every byte names a
/// prefixed instruction, and an unprefixed opcode belongs to the family of
/// the operation that it names.
pub open spec fn spec_in_family(family: Family, opcode: u8) -> bool {
    if family == Family::Prefixed {
        true
    } else {
        match spec_decode(opcode) {
            Some(op) => op.family() == family,
            None => false,
        }
    }
}

/// What a look-up of `opcode` in the table of `family` gives: the
/// well-formed entry with that opcode where the opcode names an instruction
/// of the family, else nothing.
pub open spec fn spec_lookup(family: Family, opcode: u8, found: Option<Instruction>) -> bool {
    match found {
        Some(e) => {
            &&& spec_in_family(family, opcode)
            &&& e.wf()
            &&& e.spec_named()
            &&& e.opcode == opcode
            &&& e.handler.family() == family
        },
        None => !spec_in_family(family, opcode),
    }
}

/// Whether the table holds an entry with the opcode.
pub open spec fn spec_has(table: Seq<Instruction>, opcode: u8) -> bool {
    exists|k: int| 0 <= k < table.len() && (#[trigger] table[k]).opcode == opcode
}

/// The table holds exactly the instructions of `family`, each once and well
/// formed, in the order of their opcodes.
pub open spec fn spec_family_table(table: Seq<Instruction>, family: Family) -> bool {
    &&& forall|k: int|
        0 <= k < table.len() ==> (#[trigger] table[k]).wf() && table[k].spec_named()
            && table[k].handler.family() == family
    &&& forall|i: int, j: int|
        0 <= i < j < table.len() ==> (#[trigger] table[i]).opcode < (#[trigger] table[j]).opcode
    &&& forall|opcode: u8| spec_in_family(family, opcode) ==> #[trigger] spec_has(table, opcode)
}

/// The entry for `opcode` in the table of `family`.
pub fn lookup(family: Family, opcode: u8) -> (found: Option<Instruction>)
    ensures
        spec_lookup(family, opcode, found),
{
    match family {
        Family::Load => load::lookup(opcode),
        Family::Logic => logic::lookup(opcode),
        Family::Rotate => rotate::lookup(opcode),
        Family::Control => control::lookup(opcode),
        Family::Jump => jump::lookup(opcode),
        Family::Prefixed => cb::lookup(opcode),
    }
}

/// The table of `family`: the entries for the opcodes from `0x00` to `0xFF`
/// that name an instruction of the family.
pub fn collect(family: Family) -> (table: Vec<Instruction>)
    ensures
        spec_family_table(table@, family),
{
    let mut table: Vec<Instruction> = Vec::new();
    let mut next: u16 = 0;
    while next < 256
        invariant
            next <= 256,
            forall|k: int|
                0 <= k < table@.len() ==> (#[trigger] table@[k]).wf() && table@[k].spec_named()
                    && table@[k].handler.family() == family && table@[k].opcode < next,
            forall|i: int, j: int|
                0 <= i < j < table@.len() ==> (#[trigger] table@[i]).opcode < (
                #[trigger] table@[j]).opcode,
            forall|opcode: u8|
                opcode < next && spec_in_family(family, opcode) ==> #[trigger] spec_has(
                    table@,
                    opcode,
                ),
        decreases 256 - next,
    {
        let opcode = next as u8;
        let ghost before = table@;
        match lookup(family, opcode) {
            Some(e) => {
                table.push(e);
                proof {
                    assert(table@[before.len() as int].opcode == opcode);
                    assert forall|o: u8|
                        o <= opcode && spec_in_family(family, o) implies #[trigger] spec_has(
                        table@,
                        o,
                    ) by {
                        if o < opcode {
                            assert(spec_has(before, o));
                            let k = choose|k: int|
                                0 <= k < before.len() && (#[trigger] before[k]).opcode == o;
                            assert(table@[k].opcode == o);
                        }
                    }
                }
            },
            None => {},
        }
        next += 1;
    }
    table
}

/// The table holds exactly the instructions of the families in `families`,
/// each once and well formed.
pub open spec fn spec_covers(table: Seq<Instruction>, families: Set<Family>) -> bool {
    &&& forall|k: int|
        0 <= k < table.len() ==> (#[trigger] table[k]).wf() && table[k].spec_named()
            && families.contains(table[k].handler.family())
    &&& forall|i: int, j: int|
        0 <= i < j < table.len() ==> (#[trigger] table[i]).opcode != (#[trigger] table[j]).opcode
    &&& forall|family: Family, opcode: u8|
        families.contains(family) && #[trigger] spec_in_family(family, opcode) ==> spec_has(
            table,
            opcode,
        )
}

/// The table of one family covers that family.
pub proof fn lemma_family_covers(table: Seq<Instruction>, family: Family)
    requires
        spec_family_table(table, family),
    ensures
        spec_covers(table, set![family]),
{
}

/// Two tables that cover different families of unprefixed instructions
/// cover, one after the other, the families of both.
pub proof fn lemma_join_covers(
    a: Seq<Instruction>,
    fa: Set<Family>,
    b: Seq<Instruction>,
    fb: Set<Family>,
)
    requires
        spec_covers(a, fa),
        spec_covers(b, fb),
        fa.disjoint(fb),
        !fa.contains(Family::Prefixed),
        !fb.contains(Family::Prefixed),
    ensures
        spec_covers(a + b, fa.union(fb)),
{
    let joined = a + b;
    assert forall|i: int, j: int| 0 <= i < j < joined.len() implies (#[trigger] joined[i]).opcode
        != (#[trigger] joined[j]).opcode by {
        if i < a.len() && j >= a.len() {
            let x = a[i];
            let y = b[j - a.len()];
            assert(joined[i] == x && joined[j] == y);
            assert(x.wf() && y.wf());
            assert(fa.contains(x.handler.family()) && fb.contains(y.handler.family()));
        } else if i < a.len() {
            assert(joined[i] == a[i] && joined[j] == a[j]);
        } else {
            assert(joined[i] == b[i - a.len()] && joined[j] == b[j - a.len()]);
        }
    }
    assert forall|family: Family, opcode: u8|
        fa.union(fb).contains(family) && #[trigger] spec_in_family(
            family,
            opcode,
        ) implies spec_has(joined, opcode) by {
        if fa.contains(family) {
            assert(spec_has(a, opcode));
            let k = choose|k: int| 0 <= k < a.len() && (#[trigger] a[k]).opcode == opcode;
            assert(joined[k].opcode == opcode);
        } else {
            assert(spec_has(b, opcode));
            let k = choose|k: int| 0 <= k < b.len() && (#[trigger] b[k]).opcode == opcode;
            assert(joined[a.len() + k].opcode == opcode);
        }
    }
    assert forall|k: int| 0 <= k < joined.len() implies (#[trigger] joined[k]).wf()
        && joined[k].spec_named() && fa.union(fb).contains(joined[k].handler.family()) by {
        if k < a.len() {
            assert(joined[k] == a[k]);
        } else {
            assert(joined[k] == b[k - a.len()]);
        }
    }
}

/// The place of a family in the catalog of the unprefixed instructions.
pub open spec fn spec_rank(family: Family) -> int {
    match family {
        Family::Load => 0,
        Family::Logic => 1,
        Family::Rotate => 2,
        Family::Control => 3,
        Family::Jump => 4,
        Family::Prefixed => 5,
    }
}

/// The entries stand family by family, loads first, then arithmetic,
/// rotations, control and jumps, and within a family in the order of their
/// opcodes.
pub open spec fn spec_ordered(table: Seq<Instruction>) -> bool {
    forall|i: int, j: int|
        0 <= i < j < table.len() ==> {
            let first = (#[trigger] table[i]).handler.family();
            let second = (#[trigger] table[j]).handler.family();
            spec_rank(first) < spec_rank(second) || (first == second && table[i].opcode
                < table[j].opcode)
        }
}

/// An ordered table of families before `family`, followed by the table of
/// `family`, is ordered.
pub proof fn lemma_join_ordered(a: Seq<Instruction>, b: Seq<Instruction>, family: Family)
    requires
        spec_ordered(a),
        forall|k: int| 0 <= k < a.len() ==> spec_rank((#[trigger] a[k]).handler.family()) < spec_rank(family),
        spec_family_table(b, family),
    ensures
        spec_ordered(a + b),
        forall|k: int|
            0 <= k < (a + b).len() ==> spec_rank((#[trigger] (a + b)[k]).handler.family())
                <= spec_rank(family),
{
    let joined = a + b;
    assert forall|i: int, j: int| 0 <= i < j < joined.len() implies {
        let first = (#[trigger] joined[i]).handler.family();
        let second = (#[trigger] joined[j]).handler.family();
        spec_rank(first) < spec_rank(second) || (first == second && joined[i].opcode
            < joined[j].opcode)
    } by {
        if j < a.len() {
            assert(joined[i] == a[i] && joined[j] == a[j]);
        } else if i < a.len() {
            assert(joined[i] == a[i] && joined[j] == b[j - a.len()]);
        } else {
            assert(joined[i] == b[i - a.len()] && joined[j] == b[j - a.len()]);
        }
    }
    assert forall|k: int| 0 <= k < joined.len() implies spec_rank(
        (#[trigger] joined[k]).handler.family(),
    ) <= spec_rank(family) by {
        if k < a.len() {
            assert(joined[k] == a[k]);
        } else {
            assert(joined[k] == b[k - a.len()]);
        }
    }
}

/// The table is the catalog of the unprefixed instructions: every entry is
/// well formed, no opcode occurs twice, and every opcode that names an
/// operation has its entry.
pub open spec fn spec_base_table(table: Seq<Instruction>) -> bool {
    &&& forall|k: int|
        0 <= k < table.len() ==> (#[trigger] table[k]).wf() && table[k].handler.family()
            != Family::Prefixed
    &&& forall|i: int, j: int|
        0 <= i < j < table.len() ==> (#[trigger] table[i]).opcode != (#[trigger] table[j]).opcode
    &&& forall|opcode: u8| spec_decode(opcode).is_some() ==> #[trigger] spec_has(table, opcode)
}

/// The catalog of the unprefixed instructions: loads, arithmetic, rotations,
/// control, jumps, in this order.
pub fn get() -> (table: Vec<Instruction>)
    ensures
        spec_base_table(table@),
        spec_ordered(table@),
        forall|k: int| 0 <= k < table@.len() ==> (#[trigger] table@[k]).spec_named(),
{
    let mut table = load::get();
    let ghost mut families = set![Family::Load];
    proof {
        lemma_family_covers(table@, Family::Load);
    }
    let mut part = logic::get();
    proof {
        lemma_family_covers(part@, Family::Logic);
        lemma_join_covers(table@, families, part@, set![Family::Logic]);
        lemma_join_ordered(table@, part@, Family::Logic);
        families = families.union(set![Family::Logic]);
    }
    table.append(&mut part);
    let mut part = rotate::get();
    proof {
        lemma_family_covers(part@, Family::Rotate);
        lemma_join_covers(table@, families, part@, set![Family::Rotate]);
        lemma_join_ordered(table@, part@, Family::Rotate);
        families = families.union(set![Family::Rotate]);
    }
    table.append(&mut part);
    let mut part = control::get();
    proof {
        lemma_family_covers(part@, Family::Control);
        lemma_join_covers(table@, families, part@, set![Family::Control]);
        lemma_join_ordered(table@, part@, Family::Control);
        families = families.union(set![Family::Control]);
    }
    table.append(&mut part);
    let mut part = jump::get();
    proof {
        lemma_family_covers(part@, Family::Jump);
        lemma_join_covers(table@, families, part@, set![Family::Jump]);
        lemma_join_ordered(table@, part@, Family::Jump);
        families = families.union(set![Family::Jump]);
    }
    table.append(&mut part);
    proof {
        assert forall|opcode: u8| spec_decode(opcode).is_some() implies #[trigger] spec_has(
            table@,
            opcode,
        ) by {
            let family = spec_decode(opcode).unwrap().family();
            assert(spec_in_family(family, opcode));
            assert(families.contains(family));
        }
    }
    table
}

/// The entry of the unprefixed catalog for `opcode`, if the opcode names an
/// operation.
pub fn decode(opcode: u8) -> (found: Option<Instruction>)
    ensures
        match found {
            Some(e) => e.wf() && e.spec_named() && e.opcode == opcode && spec_decode(opcode)
                == Some(e.handler),
            None => spec_decode(opcode).is_none(),
        },
{
    let found = load::lookup(opcode);
    if found.is_some() {
        return found;
    }
    let found = logic::lookup(opcode);
    if found.is_some() {
        return found;
    }
    let found = rotate::lookup(opcode);
    if found.is_some() {
        return found;
    }
    let found = control::lookup(opcode);
    if found.is_some() {
        return found;
    }
    jump::lookup(opcode)
}

/// The entry of the prefixed catalog for the byte after `0xCB`.
pub fn decode_prefixed(opcode: u8) -> (e: Instruction)
    ensures
        e.wf(),
        e.spec_named(),
        e.opcode == opcode,
        e.handler == spec_decode_prefixed(opcode),
{
    cb::lookup(opcode).unwrap()
}

/// Whether no opcode occurs twice in the table.
pub open spec fn spec_unique(table: Seq<Instruction>) -> bool {
    forall|i: int, j: int|
        0 <= i < j < table.len() ==> (#[trigger] table[i]).opcode != (#[trigger] table[j]).opcode
}

/// Checks that no opcode occurs twice in a table of instructions.
pub fn dbg_check_instructions(table: &[Instruction]) -> (result: Result<(), &'static str>)
    ensures
        result.is_ok() == spec_unique(table@),
        result.is_err() ==> result.unwrap_err()@ == "Instruction already exists!"@,
{
    let mut j: usize = 0;
    while j < table.len()
        invariant
            j <= table@.len(),
            forall|a: int, b: int|
                0 <= a < b < j ==> (#[trigger] table@[a]).opcode != (#[trigger] table@[b]).opcode,
        decreases table@.len() - j,
    {
        let mut i: usize = 0;
        while i < j
            invariant
                i <= j < table@.len(),
                forall|a: int| 0 <= a < i ==> (#[trigger] table@[a]).opcode != table@[j as int].opcode,
            decreases j - i,
        {
            if table[i].opcode == table[j].opcode {
                return Err("Instruction already exists!");
            }
            i += 1;
        }
        j += 1;
    }
    Ok(())
}

/// In a catalog, of the unprefixed or of the prefixed instructions, every
/// entry has a length of one, two or three bytes, no opcode occurs twice, and
/// a conditional jump, call or return costs less when it is not taken.
pub proof fn lemma_catalog(table: Seq<Instruction>)
    requires
        spec_base_table(table) || spec_family_table(table, Family::Prefixed),
    ensures
        forall|k: int| 0 <= k < table.len() ==> 1 <= (#[trigger] table[k]).length <= 3,
        forall|i: int, j: int|
            0 <= i < table.len() && 0 <= j < table.len() && i != j ==> (#[trigger] table[i]).opcode
                != (#[trigger] table[j]).opcode,
        forall|k: int|
            0 <= k < table.len() && (#[trigger] table[k]).handler.spec_is_conditional()
                ==> table[k].cycles_untaken < table[k].cycles,
{
    assert forall|k: int| 0 <= k < table.len() implies 1 <= (#[trigger] table[k]).length <= 3
        && (table[k].handler.spec_is_conditional() ==> table[k].cycles_untaken
        < table[k].cycles) by {
        assert(table[k].wf());
        table[k].handler.lemma_length();
        if table[k].handler.spec_is_conditional() {
            table[k].handler.lemma_untaken_costs_less();
        }
    }
    assert forall|i: int, j: int|
        0 <= i < table.len() && 0 <= j < table.len() && i != j implies (#[trigger] table[i]).opcode
        != (#[trigger] table[j]).opcode by {
        if i < j {
            assert(table[i].opcode != table[j].opcode);
        } else {
            assert(table[j].opcode != table[i].opcode);
        }
    }
}

/// Whether the operation writes the status bits.
pub open spec fn spec_writes_flags(op: Operation) -> bool {
    match op {
        Operation::Scf | Operation::Ccf | Operation::LdHlSpOffset | Operation::Pop(Pair::AF)
        | Operation::Alu(_, _) | Operation::AluImm(_) | Operation::Inc(_) | Operation::Dec(_)
        | Operation::AddHl(_) | Operation::AddSp | Operation::Daa | Operation::Cpl
        | Operation::RotateA(_) | Operation::Shift(_, _) | Operation::TestBit(_, _) => true,
        _ => false,
    }
}

/// After an operation that writes the status bits the low four bits of `F`
/// are zero, whatever they were before; after any other operation `F` is as
/// it was.
pub proof fn lemma_low_flag_bits(op: Operation, s: State)
    ensures
        spec_writes_flags(op) ==> spec_run(op, s).reg.f & 0x0F == 0,
        !spec_writes_flags(op) ==> spec_run(op, s).reg.f == s.reg.f,
{
    assert forall|flags: crate::reg::Flags| (#[trigger] flags.spec_byte()) & 0x0F == 0 by {
        flags.lemma_byte();
    }
    let low = crate::bitwise::spec_low(s.pop_word().0);
    assert((low & 0xF0) & 0x0F == 0) by (bit_vector);
}

} // verus!
