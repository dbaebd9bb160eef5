//! JVM instructions and the decoding of a method's byte code (JVMS 6.5).
use vstd::prelude::*;
use crate::class_reader::{ClassReader, read_as};
use crate::decode::{
    in_bounds, sp_u8, sp_i8, sp_u16, sp_i16, sp_i32, repeat, lemma_repeat_err, lemma_repeat_forward,
    lemma_repeat_len,
    decodes_as, views, Decoded, Decoder,
};
use crate::error::ParseError;

verus! {

/// One instruction of a method's byte code. Branch instructions hold the
/// index, in the decoded instruction list, of the instruction they jump to.
#[derive(Debug, Clone, Eq, PartialEq, Hash)]
pub enum Instruction {
    /// Load reference from array
    AaLoad,
    AaStore,
    /// Push null
    AConstNull,
    /// Load reference from local variable
    ALoad(u8),
    /// Load reference from local variable
    ALoad0,
    /// Load reference from local variable
    ALoad1,
    /// Load reference from local variable
    ALoad2,
    /// Load reference from local variable
    ALoad3,
    /// Create new array of reference
    ANewArray(u16),
    /// Return reference on top of stack.
    AReturn,
    /// Put array length on top of stack
    ArrayLength,
    /// Store reference into local variable
    AStore(u8),
    /// Store reference into local variable
    AStore0,
    /// Store reference into local variable
    AStore1,
    /// Store reference into local variable
    AStore2,
    /// Store reference into local variable
    AStore3,
    AThrow,
    BaLoad,
    BaStore,
    /// The immediate byte is sign-extended to an int value. That value is
    /// pushed onto the operand stack.
    BiPush(i8),
    /// Load char from array and put onto stack
    CaLoad,
    /// Store char into char array
    CaStore,
    /// Check whether object is of a given type
    Checkcast(u16),
    D2F,
    D2I,
    D2L,
    /// Add double
    DAdd,
    /// Load double from array
    DaLoad,
    DaStore,
    Dcmpg,
    Dcmpl,
    DConst0,
    DConst1,
    DDiv,
    /// Load double from local variable
    DLoad(u8),
    /// Load double from local variable 0
    DLoad0,
    /// Load double from local variable 1
    DLoad1,
    /// Load double from local variable 2
    DLoad2,
    /// Load double from local variable 3
    DLoad3,
    DMul,
    DNeg,
    DRem,
    /// Return double from current java method
    DReturn,
    /// Store double into local variable n and n + 1.
    DStore(u8),
    /// Store double into local variable 0 and 1.
    DStore0,
    /// Store double into local variable 1 and 2.
    DStore1,
    /// Store double into local variable 2 and 3.
    DStore2,
    /// Store double into local variable 3 and 4.
    DStore3,
    DSub,
    /// Duplicate the value at the top of the operand stack.
    Dup,
    DupX1,
    DupX2,
    Dup2,
    Dup2X1,
    Dup2X2,
    F2D,
    F2I,
    F2L,
    FAdd,
    FaLoad,
    FaStore,
    Fcmpg,
    Fcmpl,
    FConst0,
    FConst1,
    FConst2,
    FDiv,
    /// Loads float from local at provided index
    FLoad(u8),
    /// Loads float local at index 0
    FLoad0,
    /// Loads float local at index 1
    FLoad1,
    /// Loads float local at index 2
    FLoad2,
    /// Loads float local at index 3
    FLoad3,
    FMul,
    FNeg,
    FRem,
    /// Return float from current java method
    FReturn,
    FStore(u8),
    FStore0,
    FStore1,
    FStore2,
    FStore3,
    FSub,
    /// get field from obj and add to stack,
    /// where the operand is index of class in the constant pool.
    GetField(u16),
    /// get `static` field from class and add to stack,
    /// where the operand is index of class in the constant pool.
    GetStatic(usize),
    /// Branch to instruction at offset.
    GoTo(usize),
    GoToW(usize),
    /// Convert int to byte
    I2B,
    I2C,
    I2D,
    I2F,
    I2L,
    I2S,
    /// Add ints
    IAdd,
    IaLoad,
    IAnd,
    /// Store into int array.
    IaStore,
    /// Push int constant -1.
    IConstM1,
    /// Push int constant 0.
    IConst0,
    /// Push int constant 1.
    IConst1,
    /// Push int constant 2.
    IConst2,
    /// Push int constant 3.
    IConst3,
    /// Push int constant 4.
    IConst4,
    /// Push int constant 5.
    IConst5,
    /// Divide ints
    IDiv,
    IfAcmpeq(usize),
    IfAcmpne(usize),
    IfIcmpeq(usize),
    IfIcmpne(usize),
    IfIcmplt(usize),
    IfIcmpge(usize),
    IfIcmpgt(usize),
    IfIcmple(usize),
    /// Branch to offset if int on operand stack == 0
    Ifeq(usize),
    /// Branch to offset if int on operand stack != 0
    Ifne(usize),
    /// Branch to offset if int on operand stack < 0
    Iflt(usize),
    /// Branch to offset if int on operand stack >= 0
    Ifge(usize),
    /// Branch to offset if int on operand stack > 0
    Ifgt(usize),
    /// Branch to offset if int on operand stack <= 0
    Ifle(usize),
    /// Branch to offset if reference is not null.
    IfNonNull(usize),
    IfNull(usize),
    /// Increment local variable at first index by second argument
    Iinc(u8, i8),
    /// load local int variable at supplied index and push to operand stack.
    ILoad(u8),
    /// load local int variable at index 0 and push to operand stack.
    ILoad0,
    /// load local int variable at index 1 and push to operand stack.
    ILoad1,
    /// load local int variable at index 2 and push to operand stack.
    ILoad2,
    /// load local int variable at index 3 and push to operand stack.
    ILoad3,
    IMul,
    INeg,
    /// Determine a reference is of a given type.
    InstanceOf(u16),
    InvokeDynamic(u16, u8, u8), // last 2 bytes are always 0
    InvokeInterface(u16, u8, u8),
    /// Invoke instance method; direct invocation of instance initialization
    /// methods and methods of the current class and its supertypes
    InvokeSpecial(u16),
    /// Invoke a class (static) method.
    /// The provided u16 is an index to the run-time constant pool where the
    /// entry is a symbolic reference to a method or interface method.
    InvokeStatic(u16),
    /// Invoke instance method; dispatch based on class
    InvokeVirtual(usize),
    IOr,
    /// Pop two integers off the operand stack, calculate the
    /// remainder and push the result.
    IRem,
    /// Return integer at the top of the operand stack.
    IReturn,
    IShL,
    IShR,
    /// Store int into local variable
    IStore(u8),
    /// Store int into local variable 0.
    IStore0,
    /// Store int into local variable 1.
    IStore1,
    /// Store int into local variable 2.
    IStore2,
    /// Store int into local variable 3.
    IStore3,
    /// Subtract ints and store result
    ISub,
    /// Logical shift int right
    IuShR,
    IxOr,
    Jsr(i16),
    JsrW(i32),
    L2D,
    L2F,
    L2I,
    LAdd,
    LaLoad,
    LAnd,
    LaStore,
    Lcmp,
    LConst0,
    LConst1,
    /// Push item from run-time constant pool.
    Ldc(usize),
    /// Push item from run-time constant pool (wide index).
    LdcW(usize),
    /// Push long or double from run-time constant pool (wide index).
    Ldc2W(usize),
    LDiv,
    LLoad(u8),
    LLoad0,
    LLoad1,
    LLoad2,
    LLoad3,
    LMul,
    LNeg,
    LookUpSwitch {
        default_index: i32,
        jump_table: Vec<(i32, i32)>,
    },
    LOr,
    LRem,
    /// Return long from current java method.
    LReturn,
    LShL,
    LShR,
    LStore(u8),
    LStore0,
    LStore1,
    LStore2,
    LStore3,
    LSub,
    LuShR,
    LxOr,
    /// Enter monitor for object
    MonitorEnter,
    /// Exit monitor for object
    MonitorExit,
    MultiaNewArray(u16, u8),
    /// Create new obj class at provided constant pool index
    New(u16),
    /// Construct a new array for the provided type.
    NewArray(ArrayType),
    Nop,
    /// Pops one value from the operand stack. This instruction is never
    /// used if the value at the top of the stack is a Java long or double.
    Pop,
    /// Pops one or two values from the operand stack.
    Pop2,
    /// Set field in object
    PutField(u16),
    /// Assign value on top of operand stack to the
    /// class field found in the runtime constant pool
    /// at the given index.
    PutStatic(u16),
    Ret(u8),
    /// Used to return from a `void` method.
    Return,
    SaLoad,
    SaStore,
    /// Push short to operand stack.
    SiPush(i16),
    Swap,
    TableSwitch {
        default_index: i32,
        low: i32,
        high: i32,
        jump_offsets: Vec<i32>,
    },
    Wide(WideInstruction),
}

/// A `wide` instruction: a local variable instruction with a 16-bit index.
#[derive(Debug, Clone, Eq, PartialEq, Hash)]
pub enum WideInstruction {
    Iinc(u16, u16),
    ILoad(u16),
    FLoad(u16),
    ALoad(u16),
    LLoad(u16),
    DLoad(u16),
    IStore(u16),
    FStore(u16),
    AStore(u16),
    LStore(u16),
    DStore(u16),
    Ret(u16),
    Invalid,
}

/// The element type of a `newarray` instruction.
#[derive(Debug, Copy, Clone, Eq, PartialEq, Hash)]
pub enum ArrayType {
    Boolean,
    Char,
    Float,
    Double,
    Byte,
    Short,
    Int,
    Long,
    /// A placeholder that no decoded instruction holds.
    Dummy,
    /// An array of references; no `newarray` tag denotes it.
    Ref,
}

/// The layout of an instruction's operands in the byte code.
#[derive(Debug, Clone, Copy, PartialEq, Eq)]
pub enum Shape {
    NoOperand,
    U8,
    I8,
    U16,
    I16,
    I32,
    /// A signed 16-bit offset, relative to the opcode, of the branch target.
    Branch,
    /// A signed 32-bit offset, relative to the opcode, of the branch target.
    BranchWide,
    Iinc,
    U16U8U8,
    U16U8,
    NewArray,
    LookupSwitch,
    TableSwitch,
    Wide,
    Unknown,
}

/// Whether `op` is the opcode of a branch whose target is fixed after decoding.
pub open spec fn is_branch(op: u8) -> bool {
    (153 <= op && op <= 167) || op == 198 || op == 199 || op == 200
}

/// The `newarray` tag of an array type.
pub open spec fn array_type_code(t: ArrayType) -> int {
    match t {
        ArrayType::Boolean => 4,
        ArrayType::Char => 5,
        ArrayType::Float => 6,
        ArrayType::Double => 7,
        ArrayType::Byte => 8,
        ArrayType::Short => 9,
        ArrayType::Int => 10,
        ArrayType::Long => 11,
        ArrayType::Dummy => 0,
        ArrayType::Ref => 1,
    }
}

/// The opcode of the widened instruction followed by its operands.
pub open spec fn wide_operands(w: WideInstruction) -> Seq<int> {
    match w {
        WideInstruction::Iinc(a, b) => seq![132, a as int, b as int],
        WideInstruction::ILoad(a) => seq![21, a as int],
        WideInstruction::FLoad(a) => seq![23, a as int],
        WideInstruction::ALoad(a) => seq![25, a as int],
        WideInstruction::LLoad(a) => seq![22, a as int],
        WideInstruction::DLoad(a) => seq![24, a as int],
        WideInstruction::IStore(a) => seq![54, a as int],
        WideInstruction::FStore(a) => seq![56, a as int],
        WideInstruction::AStore(a) => seq![58, a as int],
        WideInstruction::LStore(a) => seq![55, a as int],
        WideInstruction::DStore(a) => seq![57, a as int],
        WideInstruction::Ret(a) => seq![169, a as int],
        WideInstruction::Invalid => seq![],
    }
}

/// The match/offset pairs of a `lookupswitch`, one after the other.
pub open spec fn pairs_flat(ps: Seq<(i32, i32)>) -> Seq<int> {
    Seq::new(2 * ps.len(), |i: int| if i % 2 == 0 { ps[i / 2].0 as int } else { ps[i / 2].1 as int })
}

/// A sequence of `i32`s as mathematical integers.
pub open spec fn ints(v: Seq<i32>) -> Seq<int> {
    v.map_values(|x: i32| x as int)
}

impl View for Instruction {
    type V = (u8, Seq<int>);

    open spec fn view(&self) -> (u8, Seq<int>) {
        (opcode_of(*self), operands_of(*self))
    }
}

impl View for WideInstruction {
    type V = Seq<int>;

    open spec fn view(&self) -> Seq<int> {
        wide_operands(*self)
    }
}

/// The opcode byte of an instruction.
pub open spec fn opcode_of(i: Instruction) -> u8 {
    match i {
        Instruction::AaLoad => 50u8,
        Instruction::AaStore => 83u8,
        Instruction::AConstNull => 1u8,
        Instruction::ALoad(..) => 25u8,
        Instruction::ALoad0 => 42u8,
        Instruction::ALoad1 => 43u8,
        Instruction::ALoad2 => 44u8,
        Instruction::ALoad3 => 45u8,
        Instruction::ANewArray(..) => 189u8,
        Instruction::AReturn => 176u8,
        Instruction::ArrayLength => 190u8,
        Instruction::AStore(..) => 58u8,
        Instruction::AStore0 => 75u8,
        Instruction::AStore1 => 76u8,
        Instruction::AStore2 => 77u8,
        Instruction::AStore3 => 78u8,
        Instruction::AThrow => 191u8,
        Instruction::BaLoad => 51u8,
        Instruction::BaStore => 84u8,
        Instruction::BiPush(..) => 16u8,
        Instruction::CaLoad => 52u8,
        Instruction::CaStore => 85u8,
        Instruction::Checkcast(..) => 192u8,
        Instruction::D2F => 144u8,
        Instruction::D2I => 142u8,
        Instruction::D2L => 143u8,
        Instruction::DAdd => 99u8,
        Instruction::DaLoad => 49u8,
        Instruction::DaStore => 82u8,
        Instruction::Dcmpg => 152u8,
        Instruction::Dcmpl => 151u8,
        Instruction::DConst0 => 14u8,
        Instruction::DConst1 => 15u8,
        Instruction::DDiv => 111u8,
        Instruction::DLoad(..) => 24u8,
        Instruction::DLoad0 => 38u8,
        Instruction::DLoad1 => 39u8,
        Instruction::DLoad2 => 40u8,
        Instruction::DLoad3 => 41u8,
        Instruction::DMul => 107u8,
        Instruction::DNeg => 119u8,
        Instruction::DRem => 115u8,
        Instruction::DReturn => 175u8,
        Instruction::DStore(..) => 57u8,
        Instruction::DStore0 => 71u8,
        Instruction::DStore1 => 72u8,
        Instruction::DStore2 => 73u8,
        Instruction::DStore3 => 74u8,
        Instruction::DSub => 103u8,
        Instruction::Dup => 89u8,
        Instruction::DupX1 => 90u8,
        Instruction::DupX2 => 91u8,
        Instruction::Dup2 => 92u8,
        Instruction::Dup2X1 => 93u8,
        Instruction::Dup2X2 => 94u8,
        Instruction::F2D => 141u8,
        Instruction::F2I => 139u8,
        Instruction::F2L => 140u8,
        Instruction::FAdd => 98u8,
        Instruction::FaLoad => 48u8,
        Instruction::FaStore => 81u8,
        Instruction::Fcmpg => 150u8,
        Instruction::Fcmpl => 149u8,
        Instruction::FConst0 => 11u8,
        Instruction::FConst1 => 12u8,
        Instruction::FConst2 => 13u8,
        Instruction::FDiv => 110u8,
        Instruction::FLoad(..) => 23u8,
        Instruction::FLoad0 => 34u8,
        Instruction::FLoad1 => 35u8,
        Instruction::FLoad2 => 36u8,
        Instruction::FLoad3 => 37u8,
        Instruction::FMul => 106u8,
        Instruction::FNeg => 118u8,
        Instruction::FRem => 114u8,
        Instruction::FReturn => 174u8,
        Instruction::FStore(..) => 56u8,
        Instruction::FStore0 => 67u8,
        Instruction::FStore1 => 68u8,
        Instruction::FStore2 => 69u8,
        Instruction::FStore3 => 70u8,
        Instruction::FSub => 102u8,
        Instruction::GetField(..) => 180u8,
        Instruction::GetStatic(..) => 178u8,
        Instruction::GoTo(..) => 167u8,
        Instruction::GoToW(..) => 200u8,
        Instruction::I2B => 145u8,
        Instruction::I2C => 146u8,
        Instruction::I2D => 135u8,
        Instruction::I2F => 134u8,
        Instruction::I2L => 133u8,
        Instruction::I2S => 147u8,
        Instruction::IAdd => 96u8,
        Instruction::IaLoad => 46u8,
        Instruction::IAnd => 126u8,
        Instruction::IaStore => 79u8,
        Instruction::IConstM1 => 2u8,
        Instruction::IConst0 => 3u8,
        Instruction::IConst1 => 4u8,
        Instruction::IConst2 => 5u8,
        Instruction::IConst3 => 6u8,
        Instruction::IConst4 => 7u8,
        Instruction::IConst5 => 8u8,
        Instruction::IDiv => 108u8,
        Instruction::IfAcmpeq(..) => 165u8,
        Instruction::IfAcmpne(..) => 166u8,
        Instruction::IfIcmpeq(..) => 159u8,
        Instruction::IfIcmpne(..) => 160u8,
        Instruction::IfIcmplt(..) => 161u8,
        Instruction::IfIcmpge(..) => 162u8,
        Instruction::IfIcmpgt(..) => 163u8,
        Instruction::IfIcmple(..) => 164u8,
        Instruction::Ifeq(..) => 153u8,
        Instruction::Ifne(..) => 154u8,
        Instruction::Iflt(..) => 155u8,
        Instruction::Ifge(..) => 156u8,
        Instruction::Ifgt(..) => 157u8,
        Instruction::Ifle(..) => 158u8,
        Instruction::IfNonNull(..) => 199u8,
        Instruction::IfNull(..) => 198u8,
        Instruction::Iinc(..) => 132u8,
        Instruction::ILoad(..) => 21u8,
        Instruction::ILoad0 => 26u8,
        Instruction::ILoad1 => 27u8,
        Instruction::ILoad2 => 28u8,
        Instruction::ILoad3 => 29u8,
        Instruction::IMul => 104u8,
        Instruction::INeg => 116u8,
        Instruction::InstanceOf(..) => 193u8,
        Instruction::InvokeDynamic(..) => 186u8,
        Instruction::InvokeInterface(..) => 185u8,
        Instruction::InvokeSpecial(..) => 183u8,
        Instruction::InvokeStatic(..) => 184u8,
        Instruction::InvokeVirtual(..) => 182u8,
        Instruction::IOr => 128u8,
        Instruction::IRem => 112u8,
        Instruction::IReturn => 172u8,
        Instruction::IShL => 120u8,
        Instruction::IShR => 122u8,
        Instruction::IStore(..) => 54u8,
        Instruction::IStore0 => 59u8,
        Instruction::IStore1 => 60u8,
        Instruction::IStore2 => 61u8,
        Instruction::IStore3 => 62u8,
        Instruction::ISub => 100u8,
        Instruction::IuShR => 124u8,
        Instruction::IxOr => 130u8,
        Instruction::Jsr(..) => 168u8,
        Instruction::JsrW(..) => 201u8,
        Instruction::L2D => 138u8,
        Instruction::L2F => 137u8,
        Instruction::L2I => 136u8,
        Instruction::LAdd => 97u8,
        Instruction::LaLoad => 47u8,
        Instruction::LAnd => 127u8,
        Instruction::LaStore => 80u8,
        Instruction::Lcmp => 148u8,
        Instruction::LConst0 => 9u8,
        Instruction::LConst1 => 10u8,
        Instruction::Ldc(..) => 18u8,
        Instruction::LdcW(..) => 19u8,
        Instruction::Ldc2W(..) => 20u8,
        Instruction::LDiv => 109u8,
        Instruction::LLoad(..) => 22u8,
        Instruction::LLoad0 => 30u8,
        Instruction::LLoad1 => 31u8,
        Instruction::LLoad2 => 32u8,
        Instruction::LLoad3 => 33u8,
        Instruction::LMul => 105u8,
        Instruction::LNeg => 117u8,
        Instruction::LookUpSwitch { .. } => 171u8,
        Instruction::LOr => 129u8,
        Instruction::LRem => 113u8,
        Instruction::LReturn => 173u8,
        Instruction::LShL => 121u8,
        Instruction::LShR => 123u8,
        Instruction::LStore(..) => 55u8,
        Instruction::LStore0 => 63u8,
        Instruction::LStore1 => 64u8,
        Instruction::LStore2 => 65u8,
        Instruction::LStore3 => 66u8,
        Instruction::LSub => 101u8,
        Instruction::LuShR => 125u8,
        Instruction::LxOr => 131u8,
        Instruction::MonitorEnter => 194u8,
        Instruction::MonitorExit => 195u8,
        Instruction::MultiaNewArray(..) => 197u8,
        Instruction::New(..) => 187u8,
        Instruction::NewArray(..) => 188u8,
        Instruction::Nop => 0u8,
        Instruction::Pop => 87u8,
        Instruction::Pop2 => 88u8,
        Instruction::PutField(..) => 181u8,
        Instruction::PutStatic(..) => 179u8,
        Instruction::Ret(..) => 169u8,
        Instruction::Return => 177u8,
        Instruction::SaLoad => 53u8,
        Instruction::SaStore => 86u8,
        Instruction::SiPush(..) => 17u8,
        Instruction::Swap => 95u8,
        Instruction::TableSwitch { .. } => 170u8,
        Instruction::Wide(..) => 196u8,
    }
}

/// The value of a byte as an integer.
pub open spec fn u8_int(x: u8) -> int {
    x as int
}

/// The value of a signed byte as an integer.
pub open spec fn i8_int(x: i8) -> int {
    x as int
}

/// The value of an unsigned short as an integer.
pub open spec fn u16_int(x: u16) -> int {
    x as int
}

/// The value of a short as an integer.
pub open spec fn i16_int(x: i16) -> int {
    x as int
}

/// The value of an int as an integer.
pub open spec fn i32_int(x: i32) -> int {
    x as int
}

/// The value of an index as an integer.
pub open spec fn usize_int(x: usize) -> int {
    x as int
}

/// The operands of an instruction, in the order the byte code gives them.
/// A branch holds the index of the instruction it jumps to.
pub open spec fn operands_of(i: Instruction) -> Seq<int> {
    match i {
        Instruction::AaLoad => seq![],
        Instruction::AaStore => seq![],
        Instruction::AConstNull => seq![],
        Instruction::ALoad(a) => seq![u8_int(a)],
        Instruction::ALoad0 => seq![],
        Instruction::ALoad1 => seq![],
        Instruction::ALoad2 => seq![],
        Instruction::ALoad3 => seq![],
        Instruction::ANewArray(a) => seq![u16_int(a)],
        Instruction::AReturn => seq![],
        Instruction::ArrayLength => seq![],
        Instruction::AStore(a) => seq![u8_int(a)],
        Instruction::AStore0 => seq![],
        Instruction::AStore1 => seq![],
        Instruction::AStore2 => seq![],
        Instruction::AStore3 => seq![],
        Instruction::AThrow => seq![],
        Instruction::BaLoad => seq![],
        Instruction::BaStore => seq![],
        Instruction::BiPush(a) => seq![i8_int(a)],
        Instruction::CaLoad => seq![],
        Instruction::CaStore => seq![],
        Instruction::Checkcast(a) => seq![u16_int(a)],
        Instruction::D2F => seq![],
        Instruction::D2I => seq![],
        Instruction::D2L => seq![],
        Instruction::DAdd => seq![],
        Instruction::DaLoad => seq![],
        Instruction::DaStore => seq![],
        Instruction::Dcmpg => seq![],
        Instruction::Dcmpl => seq![],
        Instruction::DConst0 => seq![],
        Instruction::DConst1 => seq![],
        Instruction::DDiv => seq![],
        Instruction::DLoad(a) => seq![u8_int(a)],
        Instruction::DLoad0 => seq![],
        Instruction::DLoad1 => seq![],
        Instruction::DLoad2 => seq![],
        Instruction::DLoad3 => seq![],
        Instruction::DMul => seq![],
        Instruction::DNeg => seq![],
        Instruction::DRem => seq![],
        Instruction::DReturn => seq![],
        Instruction::DStore(a) => seq![u8_int(a)],
        Instruction::DStore0 => seq![],
        Instruction::DStore1 => seq![],
        Instruction::DStore2 => seq![],
        Instruction::DStore3 => seq![],
        Instruction::DSub => seq![],
        Instruction::Dup => seq![],
        Instruction::DupX1 => seq![],
        Instruction::DupX2 => seq![],
        Instruction::Dup2 => seq![],
        Instruction::Dup2X1 => seq![],
        Instruction::Dup2X2 => seq![],
        Instruction::F2D => seq![],
        Instruction::F2I => seq![],
        Instruction::F2L => seq![],
        Instruction::FAdd => seq![],
        Instruction::FaLoad => seq![],
        Instruction::FaStore => seq![],
        Instruction::Fcmpg => seq![],
        Instruction::Fcmpl => seq![],
        Instruction::FConst0 => seq![],
        Instruction::FConst1 => seq![],
        Instruction::FConst2 => seq![],
        Instruction::FDiv => seq![],
        Instruction::FLoad(a) => seq![u8_int(a)],
        Instruction::FLoad0 => seq![],
        Instruction::FLoad1 => seq![],
        Instruction::FLoad2 => seq![],
        Instruction::FLoad3 => seq![],
        Instruction::FMul => seq![],
        Instruction::FNeg => seq![],
        Instruction::FRem => seq![],
        Instruction::FReturn => seq![],
        Instruction::FStore(a) => seq![u8_int(a)],
        Instruction::FStore0 => seq![],
        Instruction::FStore1 => seq![],
        Instruction::FStore2 => seq![],
        Instruction::FStore3 => seq![],
        Instruction::FSub => seq![],
        Instruction::GetField(a) => seq![u16_int(a)],
        Instruction::GetStatic(a) => seq![usize_int(a)],
        Instruction::GoTo(a) => seq![usize_int(a)],
        Instruction::GoToW(a) => seq![usize_int(a)],
        Instruction::I2B => seq![],
        Instruction::I2C => seq![],
        Instruction::I2D => seq![],
        Instruction::I2F => seq![],
        Instruction::I2L => seq![],
        Instruction::I2S => seq![],
        Instruction::IAdd => seq![],
        Instruction::IaLoad => seq![],
        Instruction::IAnd => seq![],
        Instruction::IaStore => seq![],
        Instruction::IConstM1 => seq![],
        Instruction::IConst0 => seq![],
        Instruction::IConst1 => seq![],
        Instruction::IConst2 => seq![],
        Instruction::IConst3 => seq![],
        Instruction::IConst4 => seq![],
        Instruction::IConst5 => seq![],
        Instruction::IDiv => seq![],
        Instruction::IfAcmpeq(a) => seq![usize_int(a)],
        Instruction::IfAcmpne(a) => seq![usize_int(a)],
        Instruction::IfIcmpeq(a) => seq![usize_int(a)],
        Instruction::IfIcmpne(a) => seq![usize_int(a)],
        Instruction::IfIcmplt(a) => seq![usize_int(a)],
        Instruction::IfIcmpge(a) => seq![usize_int(a)],
        Instruction::IfIcmpgt(a) => seq![usize_int(a)],
        Instruction::IfIcmple(a) => seq![usize_int(a)],
        Instruction::Ifeq(a) => seq![usize_int(a)],
        Instruction::Ifne(a) => seq![usize_int(a)],
        Instruction::Iflt(a) => seq![usize_int(a)],
        Instruction::Ifge(a) => seq![usize_int(a)],
        Instruction::Ifgt(a) => seq![usize_int(a)],
        Instruction::Ifle(a) => seq![usize_int(a)],
        Instruction::IfNonNull(a) => seq![usize_int(a)],
        Instruction::IfNull(a) => seq![usize_int(a)],
        Instruction::Iinc(a, b) => seq![u8_int(a), i8_int(b)],
        Instruction::ILoad(a) => seq![u8_int(a)],
        Instruction::ILoad0 => seq![],
        Instruction::ILoad1 => seq![],
        Instruction::ILoad2 => seq![],
        Instruction::ILoad3 => seq![],
        Instruction::IMul => seq![],
        Instruction::INeg => seq![],
        Instruction::InstanceOf(a) => seq![u16_int(a)],
        Instruction::InvokeDynamic(a, b, c) => seq![u16_int(a), u8_int(b), u8_int(c)],
        Instruction::InvokeInterface(a, b, c) => seq![u16_int(a), u8_int(b), u8_int(c)],
        Instruction::InvokeSpecial(a) => seq![u16_int(a)],
        Instruction::InvokeStatic(a) => seq![u16_int(a)],
        Instruction::InvokeVirtual(a) => seq![usize_int(a)],
        Instruction::IOr => seq![],
        Instruction::IRem => seq![],
        Instruction::IReturn => seq![],
        Instruction::IShL => seq![],
        Instruction::IShR => seq![],
        Instruction::IStore(a) => seq![u8_int(a)],
        Instruction::IStore0 => seq![],
        Instruction::IStore1 => seq![],
        Instruction::IStore2 => seq![],
        Instruction::IStore3 => seq![],
        Instruction::ISub => seq![],
        Instruction::IuShR => seq![],
        Instruction::IxOr => seq![],
        Instruction::Jsr(a) => seq![i16_int(a)],
        Instruction::JsrW(a) => seq![i32_int(a)],
        Instruction::L2D => seq![],
        Instruction::L2F => seq![],
        Instruction::L2I => seq![],
        Instruction::LAdd => seq![],
        Instruction::LaLoad => seq![],
        Instruction::LAnd => seq![],
        Instruction::LaStore => seq![],
        Instruction::Lcmp => seq![],
        Instruction::LConst0 => seq![],
        Instruction::LConst1 => seq![],
        Instruction::Ldc(a) => seq![usize_int(a)],
        Instruction::LdcW(a) => seq![usize_int(a)],
        Instruction::Ldc2W(a) => seq![usize_int(a)],
        Instruction::LDiv => seq![],
        Instruction::LLoad(a) => seq![u8_int(a)],
        Instruction::LLoad0 => seq![],
        Instruction::LLoad1 => seq![],
        Instruction::LLoad2 => seq![],
        Instruction::LLoad3 => seq![],
        Instruction::LMul => seq![],
        Instruction::LNeg => seq![],
        Instruction::LookUpSwitch { default_index, jump_table } => seq![i32_int(default_index)] + pairs_flat(jump_table@),
        Instruction::LOr => seq![],
        Instruction::LRem => seq![],
        Instruction::LReturn => seq![],
        Instruction::LShL => seq![],
        Instruction::LShR => seq![],
        Instruction::LStore(a) => seq![u8_int(a)],
        Instruction::LStore0 => seq![],
        Instruction::LStore1 => seq![],
        Instruction::LStore2 => seq![],
        Instruction::LStore3 => seq![],
        Instruction::LSub => seq![],
        Instruction::LuShR => seq![],
        Instruction::LxOr => seq![],
        Instruction::MonitorEnter => seq![],
        Instruction::MonitorExit => seq![],
        Instruction::MultiaNewArray(a, b) => seq![u16_int(a), u8_int(b)],
        Instruction::New(a) => seq![u16_int(a)],
        Instruction::NewArray(t) => seq![array_type_code(t)],
        Instruction::Nop => seq![],
        Instruction::Pop => seq![],
        Instruction::Pop2 => seq![],
        Instruction::PutField(a) => seq![u16_int(a)],
        Instruction::PutStatic(a) => seq![u16_int(a)],
        Instruction::Ret(a) => seq![u8_int(a)],
        Instruction::Return => seq![],
        Instruction::SaLoad => seq![],
        Instruction::SaStore => seq![],
        Instruction::SiPush(a) => seq![i16_int(a)],
        Instruction::Swap => seq![],
        Instruction::TableSwitch { default_index, low, high, jump_offsets } => seq![i32_int(default_index), i32_int(low), i32_int(high)] + ints(jump_offsets@),
        Instruction::Wide(x) => wide_operands(x),
    }
}

/// How the operands of the instruction with opcode `op` are laid out.
pub open spec fn op_shape(op: u8) -> Shape {
    if op == 21 || op == 22 || op == 23 || op == 24 || op == 25 || op == 54 || op == 55 || op == 56 || op == 57 || op == 58 || op == 169 || op == 18 {
        Shape::U8
    } else if op == 16 {
        Shape::I8
    } else if op == 19 || op == 20 || op == 178 || op == 179 || op == 180 || op == 181 || op == 182 || op == 183 || op == 184 || op == 187 || op == 189 || op == 192 || op == 193 {
        Shape::U16
    } else if op == 17 || op == 168 {
        Shape::I16
    } else if op == 201 {
        Shape::I32
    } else if op == 153 || op == 154 || op == 155 || op == 156 || op == 157 || op == 158 || op == 159 || op == 160 || op == 161 || op == 162 || op == 163 || op == 164 || op == 165 || op == 166 || op == 167 || op == 198 || op == 199 {
        Shape::Branch
    } else if op == 200 {
        Shape::BranchWide
    } else if op == 132 {
        Shape::Iinc
    } else if op == 185 || op == 186 {
        Shape::U16U8U8
    } else if op == 197 {
        Shape::U16U8
    } else if op == 188 {
        Shape::NewArray
    } else if op == 171 {
        Shape::LookupSwitch
    } else if op == 170 {
        Shape::TableSwitch
    } else if op == 196 {
        Shape::Wide
    } else if op <= 201 {
        Shape::NoOperand
    } else {
        Shape::Unknown
    }
}

/// How the operands of the instruction with opcode `op` are laid out.
pub fn shape_of(op: u8) -> (s: Shape)
    ensures
        s == op_shape(op),
{
    if op == 21 || op == 22 || op == 23 || op == 24 || op == 25 || op == 54 || op == 55 || op == 56 || op == 57 || op == 58 || op == 169 || op == 18 {
        Shape::U8
    } else if op == 16 {
        Shape::I8
    } else if op == 19 || op == 20 || op == 178 || op == 179 || op == 180 || op == 181 || op == 182 || op == 183 || op == 184 || op == 187 || op == 189 || op == 192 || op == 193 {
        Shape::U16
    } else if op == 17 || op == 168 {
        Shape::I16
    } else if op == 201 {
        Shape::I32
    } else if op == 153 || op == 154 || op == 155 || op == 156 || op == 157 || op == 158 || op == 159 || op == 160 || op == 161 || op == 162 || op == 163 || op == 164 || op == 165 || op == 166 || op == 167 || op == 198 || op == 199 {
        Shape::Branch
    } else if op == 200 {
        Shape::BranchWide
    } else if op == 132 {
        Shape::Iinc
    } else if op == 185 || op == 186 {
        Shape::U16U8U8
    } else if op == 197 {
        Shape::U16U8
    } else if op == 188 {
        Shape::NewArray
    } else if op == 171 {
        Shape::LookupSwitch
    } else if op == 170 {
        Shape::TableSwitch
    } else if op == 196 {
        Shape::Wide
    } else if op <= 201 {
        Shape::NoOperand
    } else {
        Shape::Unknown
    }
}

fn simple_instruction(op: u8) -> (i: Instruction)
    requires
        op_shape(op) == Shape::NoOperand,
    ensures
        opcode_of(i) == op,
        operands_of(i) == Seq::<int>::empty(),
{
    match op {
        0 => Instruction::Nop,
        1 => Instruction::AConstNull,
        2 => Instruction::IConstM1,
        3 => Instruction::IConst0,
        4 => Instruction::IConst1,
        5 => Instruction::IConst2,
        6 => Instruction::IConst3,
        7 => Instruction::IConst4,
        8 => Instruction::IConst5,
        9 => Instruction::LConst0,
        10 => Instruction::LConst1,
        11 => Instruction::FConst0,
        12 => Instruction::FConst1,
        13 => Instruction::FConst2,
        14 => Instruction::DConst0,
        15 => Instruction::DConst1,
        26 => Instruction::ILoad0,
        27 => Instruction::ILoad1,
        28 => Instruction::ILoad2,
        29 => Instruction::ILoad3,
        30 => Instruction::LLoad0,
        31 => Instruction::LLoad1,
        32 => Instruction::LLoad2,
        33 => Instruction::LLoad3,
        34 => Instruction::FLoad0,
        35 => Instruction::FLoad1,
        36 => Instruction::FLoad2,
        37 => Instruction::FLoad3,
        38 => Instruction::DLoad0,
        39 => Instruction::DLoad1,
        40 => Instruction::DLoad2,
        41 => Instruction::DLoad3,
        42 => Instruction::ALoad0,
        43 => Instruction::ALoad1,
        44 => Instruction::ALoad2,
        45 => Instruction::ALoad3,
        46 => Instruction::IaLoad,
        47 => Instruction::LaLoad,
        48 => Instruction::FaLoad,
        49 => Instruction::DaLoad,
        50 => Instruction::AaLoad,
        51 => Instruction::BaLoad,
        52 => Instruction::CaLoad,
        53 => Instruction::SaLoad,
        59 => Instruction::IStore0,
        60 => Instruction::IStore1,
        61 => Instruction::IStore2,
        62 => Instruction::IStore3,
        63 => Instruction::LStore0,
        64 => Instruction::LStore1,
        65 => Instruction::LStore2,
        66 => Instruction::LStore3,
        67 => Instruction::FStore0,
        68 => Instruction::FStore1,
        69 => Instruction::FStore2,
        70 => Instruction::FStore3,
        71 => Instruction::DStore0,
        72 => Instruction::DStore1,
        73 => Instruction::DStore2,
        74 => Instruction::DStore3,
        75 => Instruction::AStore0,
        76 => Instruction::AStore1,
        77 => Instruction::AStore2,
        78 => Instruction::AStore3,
        79 => Instruction::IaStore,
        80 => Instruction::LaStore,
        81 => Instruction::FaStore,
        82 => Instruction::DaStore,
        83 => Instruction::AaStore,
        84 => Instruction::BaStore,
        85 => Instruction::CaStore,
        86 => Instruction::SaStore,
        87 => Instruction::Pop,
        88 => Instruction::Pop2,
        89 => Instruction::Dup,
        90 => Instruction::DupX1,
        91 => Instruction::DupX2,
        92 => Instruction::Dup2,
        93 => Instruction::Dup2X1,
        94 => Instruction::Dup2X2,
        95 => Instruction::Swap,
        96 => Instruction::IAdd,
        97 => Instruction::LAdd,
        98 => Instruction::FAdd,
        99 => Instruction::DAdd,
        100 => Instruction::ISub,
        101 => Instruction::LSub,
        102 => Instruction::FSub,
        103 => Instruction::DSub,
        104 => Instruction::IMul,
        105 => Instruction::LMul,
        106 => Instruction::FMul,
        107 => Instruction::DMul,
        108 => Instruction::IDiv,
        109 => Instruction::LDiv,
        110 => Instruction::FDiv,
        111 => Instruction::DDiv,
        112 => Instruction::IRem,
        113 => Instruction::LRem,
        114 => Instruction::FRem,
        115 => Instruction::DRem,
        116 => Instruction::INeg,
        117 => Instruction::LNeg,
        118 => Instruction::FNeg,
        119 => Instruction::DNeg,
        120 => Instruction::IShL,
        121 => Instruction::LShL,
        122 => Instruction::IShR,
        123 => Instruction::LShR,
        124 => Instruction::IuShR,
        125 => Instruction::LuShR,
        126 => Instruction::IAnd,
        127 => Instruction::LAnd,
        128 => Instruction::IOr,
        129 => Instruction::LOr,
        130 => Instruction::IxOr,
        131 => Instruction::LxOr,
        133 => Instruction::I2L,
        134 => Instruction::I2F,
        135 => Instruction::I2D,
        136 => Instruction::L2I,
        137 => Instruction::L2F,
        138 => Instruction::L2D,
        139 => Instruction::F2I,
        140 => Instruction::F2L,
        141 => Instruction::F2D,
        142 => Instruction::D2I,
        143 => Instruction::D2L,
        144 => Instruction::D2F,
        145 => Instruction::I2B,
        146 => Instruction::I2C,
        147 => Instruction::I2S,
        148 => Instruction::Lcmp,
        149 => Instruction::Fcmpl,
        150 => Instruction::Fcmpg,
        151 => Instruction::Dcmpl,
        152 => Instruction::Dcmpg,
        172 => Instruction::IReturn,
        173 => Instruction::LReturn,
        174 => Instruction::FReturn,
        175 => Instruction::DReturn,
        176 => Instruction::AReturn,
        177 => Instruction::Return,
        190 => Instruction::ArrayLength,
        191 => Instruction::AThrow,
        194 => Instruction::MonitorEnter,
        195 => Instruction::MonitorExit,
        _ => {
            proof {
                assert(false);
            }
            Instruction::Nop
        },
    }
}

fn with_u8(op: u8, x: u8) -> (i: Instruction)
    requires
        op_shape(op) == Shape::U8,
    ensures
        opcode_of(i) == op,
        operands_of(i) == seq![x as int],
{
    match op {
        21 => Instruction::ILoad(x),
        22 => Instruction::LLoad(x),
        23 => Instruction::FLoad(x),
        24 => Instruction::DLoad(x),
        25 => Instruction::ALoad(x),
        54 => Instruction::IStore(x),
        55 => Instruction::LStore(x),
        56 => Instruction::FStore(x),
        57 => Instruction::DStore(x),
        58 => Instruction::AStore(x),
        169 => Instruction::Ret(x),
        18 => Instruction::Ldc(x as usize),
        _ => {
            proof {
                assert(false);
            }
            Instruction::Nop
        },
    }
}

fn with_i8(op: u8, x: i8) -> (i: Instruction)
    requires
        op_shape(op) == Shape::I8,
    ensures
        opcode_of(i) == op,
        operands_of(i) == seq![x as int],
{
    match op {
        16 => Instruction::BiPush(x),
        _ => {
            proof {
                assert(false);
            }
            Instruction::Nop
        },
    }
}

fn with_u16(op: u8, x: u16) -> (i: Instruction)
    requires
        op_shape(op) == Shape::U16,
    ensures
        opcode_of(i) == op,
        operands_of(i) == seq![x as int],
{
    match op {
        19 => Instruction::LdcW(x as usize),
        20 => Instruction::Ldc2W(x as usize),
        178 => Instruction::GetStatic(x as usize),
        179 => Instruction::PutStatic(x),
        180 => Instruction::GetField(x),
        181 => Instruction::PutField(x),
        182 => Instruction::InvokeVirtual(x as usize),
        183 => Instruction::InvokeSpecial(x),
        184 => Instruction::InvokeStatic(x),
        187 => Instruction::New(x),
        189 => Instruction::ANewArray(x),
        192 => Instruction::Checkcast(x),
        193 => Instruction::InstanceOf(x),
        _ => {
            proof {
                assert(false);
            }
            Instruction::Nop
        },
    }
}

fn with_i16(op: u8, x: i16) -> (i: Instruction)
    requires
        op_shape(op) == Shape::I16,
    ensures
        opcode_of(i) == op,
        operands_of(i) == seq![x as int],
{
    match op {
        17 => Instruction::SiPush(x),
        168 => Instruction::Jsr(x),
        _ => {
            proof {
                assert(false);
            }
            Instruction::Nop
        },
    }
}

fn branch_to(op: u8, target: usize) -> (i: Instruction)
    requires
        is_branch(op),
    ensures
        opcode_of(i) == op,
        operands_of(i) == seq![usize_int(target)],
{
    match op {
        153 => Instruction::Ifeq(target),
        154 => Instruction::Ifne(target),
        155 => Instruction::Iflt(target),
        156 => Instruction::Ifge(target),
        157 => Instruction::Ifgt(target),
        158 => Instruction::Ifle(target),
        159 => Instruction::IfIcmpeq(target),
        160 => Instruction::IfIcmpne(target),
        161 => Instruction::IfIcmplt(target),
        162 => Instruction::IfIcmpge(target),
        163 => Instruction::IfIcmpgt(target),
        164 => Instruction::IfIcmple(target),
        165 => Instruction::IfAcmpeq(target),
        166 => Instruction::IfAcmpne(target),
        167 => Instruction::GoTo(target),
        198 => Instruction::IfNull(target),
        199 => Instruction::IfNonNull(target),
        200 => Instruction::GoToW(target),
        _ => {
            proof {
                assert(false);
            }
            Instruction::Nop
        },
    }
}

fn with_u16_u8_u8(op: u8, a: u16, b: u8, c: u8) -> (i: Instruction)
    requires
        op_shape(op) == Shape::U16U8U8,
    ensures
        opcode_of(i) == op,
        operands_of(i) == seq![a as int, b as int, c as int],
{
    match op {
        185 => Instruction::InvokeInterface(a, b, c),
        186 => Instruction::InvokeDynamic(a, b, c),
        _ => {
            proof {
                assert(false);
            }
            Instruction::Nop
        },
    }
}

/// The branch instruction `i` with its target replaced by `t`.
pub open spec fn retarget(i: Instruction, t: usize) -> Instruction {
    match i {
        Instruction::Ifeq(_) => Instruction::Ifeq(t),
        Instruction::Ifne(_) => Instruction::Ifne(t),
        Instruction::Iflt(_) => Instruction::Iflt(t),
        Instruction::Ifge(_) => Instruction::Ifge(t),
        Instruction::Ifgt(_) => Instruction::Ifgt(t),
        Instruction::Ifle(_) => Instruction::Ifle(t),
        Instruction::IfIcmpeq(_) => Instruction::IfIcmpeq(t),
        Instruction::IfIcmpne(_) => Instruction::IfIcmpne(t),
        Instruction::IfIcmplt(_) => Instruction::IfIcmplt(t),
        Instruction::IfIcmpge(_) => Instruction::IfIcmpge(t),
        Instruction::IfIcmpgt(_) => Instruction::IfIcmpgt(t),
        Instruction::IfIcmple(_) => Instruction::IfIcmple(t),
        Instruction::IfAcmpeq(_) => Instruction::IfAcmpeq(t),
        Instruction::IfAcmpne(_) => Instruction::IfAcmpne(t),
        Instruction::GoTo(_) => Instruction::GoTo(t),
        Instruction::IfNull(_) => Instruction::IfNull(t),
        Instruction::IfNonNull(_) => Instruction::IfNonNull(t),
        Instruction::GoToW(_) => Instruction::GoToW(t),
        _ => i,
    }
}

/// The branch instruction `i` with its target replaced by `t`.
fn with_target(i: &Instruction, t: usize) -> (r: Instruction)
    requires
        is_branch(opcode_of(*i)),
    ensures
        r == retarget(*i, t),
{
    match i {
        Instruction::Ifeq(_) => Instruction::Ifeq(t),
        Instruction::Ifne(_) => Instruction::Ifne(t),
        Instruction::Iflt(_) => Instruction::Iflt(t),
        Instruction::Ifge(_) => Instruction::Ifge(t),
        Instruction::Ifgt(_) => Instruction::Ifgt(t),
        Instruction::Ifle(_) => Instruction::Ifle(t),
        Instruction::IfIcmpeq(_) => Instruction::IfIcmpeq(t),
        Instruction::IfIcmpne(_) => Instruction::IfIcmpne(t),
        Instruction::IfIcmplt(_) => Instruction::IfIcmplt(t),
        Instruction::IfIcmpge(_) => Instruction::IfIcmpge(t),
        Instruction::IfIcmpgt(_) => Instruction::IfIcmpgt(t),
        Instruction::IfIcmple(_) => Instruction::IfIcmple(t),
        Instruction::IfAcmpeq(_) => Instruction::IfAcmpeq(t),
        Instruction::IfAcmpne(_) => Instruction::IfAcmpne(t),
        Instruction::GoTo(_) => Instruction::GoTo(t),
        Instruction::IfNull(_) => Instruction::IfNull(t),
        Instruction::IfNonNull(_) => Instruction::IfNonNull(t),
        Instruction::GoToW(_) => Instruction::GoToW(t),
        _ => {
            proof {
                assert(false);
            }
            Instruction::Nop
        },
    }
}

/// The opcode of the instruction that [`Instruction::try_from`] gives for a
/// byte, if it gives one.
pub open spec fn try_from_opcode(v: u8) -> Option<u8> {
    if v > 201 {
        None
    } else {
        Some(v)
    }
}

/// The operands, all zero, of the instruction that [`Instruction::try_from`]
/// gives for opcode `op`.
pub open spec fn zero_operands(op: u8) -> Seq<int> {
    match op_shape(op) {
        Shape::NoOperand | Shape::Wide | Shape::Unknown => seq![],
        Shape::Iinc | Shape::U16U8 => seq![0, 0],
        Shape::U16U8U8 | Shape::TableSwitch => seq![0, 0, 0],
        _ => seq![0],
    }
}

/// Whether `op` is the opcode of an instruction that `wide` can modify.
pub open spec fn is_widenable(op: u8) -> bool {
    op == 132 || op == 21 || op == 23 || op == 25 || op == 22 || op == 24 || op == 54 || op
        == 56 || op == 58 || op == 55 || op == 57 || op == 169
}

/// Decodes the instruction that follows a `wide` opcode at `p`.
pub open spec fn sp_wide(s: Seq<u8>, p: int) -> Decoded<Seq<int>> {
    match sp_u8(s, p) {
        Err(e) => Err(e),
        Ok((b, q)) => if !is_widenable(b) {
            Err(ParseError::InvalidInstruction)
        } else {
            match sp_u16(s, q) {
                Err(e) => Err(e),
                Ok((a, r)) => if b == 132 {
                    match sp_u16(s, r) {
                        Ok((c, t)) => Ok((seq![132, a as int, c as int], t)),
                        Err(e) => Err(e),
                    }
                } else {
                    Ok((seq![b as int, a as int], r))
                },
            }
        },
    }
}

/// The number of padding bytes after a switch opcode when the next byte is at
/// position `q` of the code array.
pub open spec fn switch_padding(q: int) -> int {
    if q % 4 == 0 {
        0
    } else {
        4 - q % 4
    }
}

pub open spec fn pair_decoder() -> Decoder<(i32, i32)> {
    |s: Seq<u8>, p: int|
        match sp_i32(s, p) {
            Ok((a, q)) => match sp_i32(s, q) {
                Ok((b, r)) => Ok(((a, b), r)),
                Err(e) => Err(e),
            },
            Err(e) => Err(e),
        }
}

pub open spec fn i32_decoder() -> Decoder<i32> {
    |s: Seq<u8>, p: int| sp_i32(s, p)
}

/// Decodes the operands of a `lookupswitch` whose opcode ends at `q`.
pub open spec fn sp_lookupswitch(s: Seq<u8>, q: int) -> Decoded<Seq<int>> {
    let pad = switch_padding(q);
    if !in_bounds(s, q, pad) {
        Err(ParseError::UnexpectedEof)
    } else {
        match sp_i32(s, q + pad) {
            Err(e) => Err(e),
            Ok((d, r1)) => match sp_i32(s, r1) {
                Err(e) => Err(e),
                Ok((n, r2)) => if n < 0 {
                    Err(ParseError::InvalidSwitch)
                } else {
                    match repeat(pair_decoder(), s, r2, n as nat) {
                        Ok((ps, r3)) => Ok((seq![d as int] + pairs_flat(ps), r3)),
                        Err(e) => Err(e),
                    }
                },
            },
        }
    }
}

/// Decodes the operands of a `tableswitch` whose opcode ends at `q`.
pub open spec fn sp_tableswitch(s: Seq<u8>, q: int) -> Decoded<Seq<int>> {
    let pad = switch_padding(q);
    if !in_bounds(s, q, pad) {
        Err(ParseError::UnexpectedEof)
    } else {
        match sp_i32(s, q + pad) {
            Err(e) => Err(e),
            Ok((d, r1)) => match sp_i32(s, r1) {
                Err(e) => Err(e),
                Ok((low, r2)) => match sp_i32(s, r2) {
                    Err(e) => Err(e),
                    Ok((high, r3)) => if low > high || high - low + 1 > 0x7fff_ffff {
                        Err(ParseError::InvalidSwitch)
                    } else {
                        match repeat(i32_decoder(), s, r3, (high - low + 1) as nat) {
                            Ok((offs, r4)) => Ok(
                                (seq![d as int, low as int, high as int] + ints(offs), r4),
                            ),
                            Err(e) => Err(e),
                        }
                    },
                },
            },
        }
    }
}

/// The padding after a switch opcode is the `n`, from 0 to 3, that brings
/// the position `q` after the opcode to a multiple of 4.
proof fn lemma_padding_is_alignment(q: int, n: int)
    requires
        0 <= q,
        0 <= n < 4,
        (q + n) % 4 == 0,
    ensures
        switch_padding(q) == n,
{
    assert(switch_padding(q) == n) by (nonlinear_arith)
        requires
            0 <= q,
            0 <= n < 4,
            (q + n) % 4 == 0,
            switch_padding(q) == (if q % 4 == 0 {
                0
            } else {
                4 - q % 4
            }),
    ;
}

/// The operands of a `lookupswitch` start at the first multiple of 4 at or
/// after the position `q` that follows its opcode: if `n` (0 to 3) brings `q`
/// to a multiple of 4, then the default offset of a decoded `lookupswitch` is
/// the `i32` at `q + n`, its pair count the `i32` at `q + n + 4`, and it holds
/// two numbers per pair.
pub proof fn lemma_lookupswitch_alignment(s: Seq<u8>, q: int, n: int)
    requires
        0 <= q,
        0 <= n < 4,
        (q + n) % 4 == 0,
    ensures
        sp_lookupswitch(s, q) matches Ok((ops, _)) ==> ({
            &&& sp_i32(s, q + n) is Ok
            &&& sp_i32(s, q + n + 4) is Ok
            &&& ops[0] == sp_i32(s, q + n)->Ok_0.0 as int
            &&& ops.len() == 1 + 2 * (sp_i32(s, q + n + 4)->Ok_0.0 as int)
        }),
{
    lemma_padding_is_alignment(q, n);
    if let Ok((d, r1)) = sp_i32(s, q + n) {
        if let Ok((k, r2)) = sp_i32(s, r1) {
            if k >= 0 {
                lemma_repeat_len(pair_decoder(), s, r2, k as nat);
            }
        }
    }
}

/// The operands of a `tableswitch` start at the first multiple of 4 at or
/// after the position `q` that follows its opcode: if `n` (0 to 3) brings `q`
/// to a multiple of 4, then the default, low and high bounds of a decoded
/// `tableswitch` are the `i32`s at `q + n`, `q + n + 4` and `q + n + 8`, with
/// one offset for each value from low to high.
pub proof fn lemma_tableswitch_alignment(s: Seq<u8>, q: int, n: int)
    requires
        0 <= q,
        0 <= n < 4,
        (q + n) % 4 == 0,
    ensures
        sp_tableswitch(s, q) matches Ok((ops, _)) ==> ({
            let low = sp_i32(s, q + n + 4)->Ok_0.0 as int;
            let high = sp_i32(s, q + n + 8)->Ok_0.0 as int;
            &&& sp_i32(s, q + n) is Ok
            &&& sp_i32(s, q + n + 4) is Ok
            &&& sp_i32(s, q + n + 8) is Ok
            &&& ops[0] == sp_i32(s, q + n)->Ok_0.0 as int
            &&& ops[1] == low
            &&& ops[2] == high
            &&& ops.len() == 3 + (high - low + 1)
        }),
{
    lemma_padding_is_alignment(q, n);
    if let Ok((d, r1)) = sp_i32(s, q + n) {
        if let Ok((low, r2)) = sp_i32(s, r1) {
            if let Ok((high, r3)) = sp_i32(s, r2) {
                if low <= high {
                    lemma_repeat_len(i32_decoder(), s, r3, (high - low + 1) as nat);
                }
            }
        }
    }
}

/// Decodes the operands of an instruction with opcode `op` that starts at
/// position `p` of a code array and whose opcode ends at `q`. A branch's
/// operand is the position its offset leads to.
pub open spec fn sp_operands(s: Seq<u8>, p: int, op: u8, q: int) -> Decoded<Seq<int>> {
    match op_shape(op) {
        Shape::NoOperand => Ok((seq![], q)),
        Shape::U8 => match sp_u8(s, q) {
            Ok((x, r)) => Ok((seq![x as int], r)),
            Err(e) => Err(e),
        },
        Shape::I8 => match sp_i8(s, q) {
            Ok((x, r)) => Ok((seq![x as int], r)),
            Err(e) => Err(e),
        },
        Shape::U16 => match sp_u16(s, q) {
            Ok((x, r)) => Ok((seq![x as int], r)),
            Err(e) => Err(e),
        },
        Shape::I16 => match sp_i16(s, q) {
            Ok((x, r)) => Ok((seq![x as int], r)),
            Err(e) => Err(e),
        },
        Shape::I32 => match sp_i32(s, q) {
            Ok((x, r)) => Ok((seq![x as int], r)),
            Err(e) => Err(e),
        },
        Shape::Branch => match sp_i16(s, q) {
            Ok((off, r)) => Ok((seq![p + off as int], r)),
            Err(e) => Err(e),
        },
        Shape::BranchWide => match sp_i32(s, q) {
            Ok((off, r)) => Ok((seq![p + off as int], r)),
            Err(e) => Err(e),
        },
        Shape::Iinc => match sp_u8(s, q) {
            Ok((a, r)) => match sp_i8(s, r) {
                Ok((b, t)) => Ok((seq![a as int, b as int], t)),
                Err(e) => Err(e),
            },
            Err(e) => Err(e),
        },
        Shape::U16U8U8 => match sp_u16(s, q) {
            Ok((a, r)) => match sp_u8(s, r) {
                Ok((b, t)) => match sp_u8(s, t) {
                    Ok((c, u)) => Ok((seq![a as int, b as int, c as int], u)),
                    Err(e) => Err(e),
                },
                Err(e) => Err(e),
            },
            Err(e) => Err(e),
        },
        Shape::U16U8 => match sp_u16(s, q) {
            Ok((a, r)) => match sp_u8(s, r) {
                Ok((b, t)) => Ok((seq![a as int, b as int], t)),
                Err(e) => Err(e),
            },
            Err(e) => Err(e),
        },
        Shape::NewArray => match sp_u8(s, q) {
            Ok((x, r)) => if 4 <= x && x <= 11 {
                Ok((seq![x as int], r))
            } else {
                Err(ParseError::InvalidArrayType)
            },
            Err(e) => Err(e),
        },
        Shape::LookupSwitch => sp_lookupswitch(s, q),
        Shape::TableSwitch => sp_tableswitch(s, q),
        Shape::Wide => sp_wide(s, q),
        Shape::Unknown => Err(ParseError::InvalidInstruction),
    }
}

/// Decodes one instruction at position `p` of a code array: its opcode and
/// operands. A branch's operand is the position its offset leads to.
pub open spec fn sp_instr(s: Seq<u8>, p: int) -> Decoded<(u8, Seq<int>)> {
    match sp_u8(s, p) {
        Err(e) => Err(e),
        Ok((op, q)) => match sp_operands(s, p, op, q) {
            Ok((ops, r)) => Ok(((op, ops), r)),
            Err(e) => Err(e),
        },
    }
}

/// An instruction as it stands in the code array: its position, opcode and
/// operands (a branch's operand being the position it leads to).
pub type RawInstr = (int, u8, Seq<int>);

/// Decodes the instructions from position `p` to the end of the code array.
pub open spec fn sp_raw_code(s: Seq<u8>, p: int) -> Result<Seq<RawInstr>, ParseError>
    decreases s.len() - p,
{
    if p < 0 || p >= s.len() {
        Ok(seq![])
    } else {
        match sp_instr(s, p) {
            Ok(((op, ops), q)) => {
                proof {
                    lemma_instr_advances(s, p);
                }
                match sp_raw_code(s, q) {
                    Ok(rest) => Ok(seq![(p, op, ops)] + rest),
                    Err(e) => Err(e),
                }
            },
            Err(e) => Err(e),
        }
    }
}

/// Decoding an instruction moves past at least its opcode.
pub proof fn lemma_instr_advances(s: Seq<u8>, p: int)
    ensures
        sp_instr(s, p) is Ok ==> sp_instr(s, p)->Ok_0.1 > p,
{
    assert forall|q: int| (#[trigger] pair_decoder()(s, q)) is Ok implies pair_decoder()(s, q)->Ok_0.1
        >= q by {}
    assert forall|q: int| (#[trigger] i32_decoder()(s, q)) is Ok implies i32_decoder()(s, q)->Ok_0.1
        >= q by {}
    if let Ok((op, q)) = sp_u8(s, p) {
        let pad = switch_padding(q);
        if let Ok((d, r1)) = sp_i32(s, q + pad) {
            if let Ok((n, r2)) = sp_i32(s, r1) {
                if n >= 0 {
                    lemma_repeat_forward(pair_decoder(), s, r2, n as nat);
                }
                if let Ok((high, r3)) = sp_i32(s, r2) {
                    if n <= high {
                        lemma_repeat_forward(i32_decoder(), s, r3, (high - n + 1) as nat);
                    }
                }
            }
        }
    }
}

/// The index of the first instruction of `raw`, from index `k` on, that starts
/// at position `t`, or 0 when none does.
pub open spec fn index_at(raw: Seq<RawInstr>, t: int, k: int) -> int
    decreases raw.len() - k,
{
    if k < 0 || k >= raw.len() {
        0
    } else if raw[k].0 == t {
        k
    } else {
        index_at(raw, t, k + 1)
    }
}

/// The index found for a position is 0 or the index of an instruction from
/// `k` on.
proof fn lemma_index_at_bounds(raw: Seq<RawInstr>, t: int, k: int)
    requires
        0 <= k,
    ensures
        index_at(raw, t, k) == 0 || (k <= index_at(raw, t, k) < raw.len()),
    decreases raw.len() - k,
{
    if k < raw.len() && raw[k].0 != t {
        lemma_index_at_bounds(raw, t, k + 1);
    }
}

/// Every instruction takes at least one byte: decoding from position `p`
/// gives at most as many instructions as there are bytes from `p` on.
pub proof fn lemma_raw_code_len(s: Seq<u8>, p: int)
    requires
        0 <= p,
    ensures
        sp_raw_code(s, p) matches Ok(raw) ==> raw.len() <= if p < s.len() {
            s.len() - p
        } else {
            0
        },
    decreases s.len() - p,
{
    if p < s.len() {
        lemma_instr_advances(s, p);
        if let Ok(((op, ops), q)) = sp_instr(s, p) {
            lemma_raw_code_len(s, q);
        }
    }
}

/// A decoded code array has at most one instruction per byte, and the target
/// of each of its branches is the index of one of its instructions.
pub proof fn lemma_code_well_formed(s: Seq<u8>)
    ensures
        sp_code(s) matches Ok(l) ==> {
            &&& l.len() <= s.len()
            &&& forall|k: int|
                0 <= k < l.len() && is_branch(#[trigger] l[k].0) ==> 0 <= l[k].1[0] < l.len()
        },
{
    lemma_raw_code_len(s, 0);
    if let Ok(raw) = sp_raw_code(s, 0) {
        if targets_in_code(raw, s.len() as int) {
            let l = Seq::new(raw.len(), |k: int| fixed(raw, k));
            assert forall|k: int| 0 <= k < l.len() && is_branch(#[trigger] l[k].0) implies 0 <= l[k].1[0]
                < l.len() by {
                lemma_index_at_bounds(raw, raw[k].2[0], 0);
            }
        }
    }
}

/// Whether every branch of `raw` leads to a position inside a code array of
/// length `len`.
pub open spec fn targets_in_code(raw: Seq<RawInstr>, len: int) -> bool {
    forall|k: int| 0 <= k < raw.len() && is_branch(#[trigger] raw[k].1) ==> 0 <= raw[k].2[0] < len
}

/// The instruction `raw[k]` once its branch target, if it has one, is turned
/// into the index of the instruction at that position.
pub open spec fn fixed(raw: Seq<RawInstr>, k: int) -> (u8, Seq<int>) {
    if is_branch(raw[k].1) {
        (raw[k].1, seq![index_at(raw, raw[k].2[0], 0)])
    } else {
        (raw[k].1, raw[k].2)
    }
}

/// Decodes a whole code array into its instructions (opcode and operands),
/// with branch targets given as instruction indices. A branch whose target
/// lies outside the code array makes the whole array invalid.
pub open spec fn sp_code(s: Seq<u8>) -> Result<Seq<(u8, Seq<int>)>, ParseError> {
    match sp_raw_code(s, 0) {
        Err(e) => Err(e),
        Ok(raw) => if !targets_in_code(raw, s.len() as int) {
            Err(ParseError::InvalidJump)
        } else {
            Ok(Seq::new(raw.len(), |k: int| fixed(raw, k)))
        },
    }
}

impl ArrayType {
    /// The array type denoted by a `newarray` tag.
    pub fn try_from(value: u8) -> (r: Result<ArrayType, ParseError>)
        ensures
            4 <= value <= 11 ==> (r matches Ok(t) && array_type_code(t) == value),
            !(4 <= value <= 11) ==> r == Err::<ArrayType, ParseError>(ParseError::InvalidArrayType),
    {
        match value {
            4 => Ok(ArrayType::Boolean),
            5 => Ok(ArrayType::Char),
            6 => Ok(ArrayType::Float),
            7 => Ok(ArrayType::Double),
            8 => Ok(ArrayType::Byte),
            9 => Ok(ArrayType::Short),
            10 => Ok(ArrayType::Int),
            11 => Ok(ArrayType::Long),
            _ => Err(ParseError::InvalidArrayType),
        }
    }
}

impl WideInstruction {
    /// The `wide` form, with zero operands, of a local variable instruction.
    pub fn try_from(inst: Instruction) -> (r: Result<WideInstruction, ParseError>)
        ensures
            is_widenable(opcode_of(inst)) ==> (r matches Ok(w) && wide_operands(w) == (if opcode_of(
                inst,
            ) == 132 {
                seq![132, 0, 0]
            } else {
                seq![opcode_of(inst) as int, 0]
            })),
            !is_widenable(opcode_of(inst)) ==> r == Err::<WideInstruction, ParseError>(
                ParseError::InvalidInstruction,
            ),
    {
        match inst {
            Instruction::Iinc(_, _) => Ok(WideInstruction::Iinc(0, 0)),
            Instruction::ILoad(_) => Ok(WideInstruction::ILoad(0)),
            Instruction::FLoad(_) => Ok(WideInstruction::FLoad(0)),
            Instruction::ALoad(_) => Ok(WideInstruction::ALoad(0)),
            Instruction::LLoad(_) => Ok(WideInstruction::LLoad(0)),
            Instruction::DLoad(_) => Ok(WideInstruction::DLoad(0)),
            Instruction::IStore(_) => Ok(WideInstruction::IStore(0)),
            Instruction::FStore(_) => Ok(WideInstruction::FStore(0)),
            Instruction::AStore(_) => Ok(WideInstruction::AStore(0)),
            Instruction::LStore(_) => Ok(WideInstruction::LStore(0)),
            Instruction::DStore(_) => Ok(WideInstruction::DStore(0)),
            Instruction::Ret(_) => Ok(WideInstruction::Ret(0)),
            _ => Err(ParseError::InvalidInstruction),
        }
    }
}

impl Instruction {
    /// The instruction with opcode `value` and all operands zero.
    /// Opcodes above 201 are undefined and rejected.
    pub fn try_from(value: u8) -> (r: Result<Instruction, ParseError>)
        ensures
            match try_from_opcode(value) {
                Some(op) => r matches Ok(i) && opcode_of(i) == op && operands_of(i)
                    == zero_operands(op),
                None => r == Err::<Instruction, ParseError>(ParseError::InvalidInstruction),
            },
    {
        let op: u8 = value;
        match shape_of(op) {
            Shape::NoOperand => Ok(simple_instruction(op)),
            Shape::U8 => Ok(with_u8(op, 0)),
            Shape::I8 => Ok(with_i8(op, 0)),
            Shape::U16 => Ok(with_u16(op, 0)),
            Shape::I16 => Ok(with_i16(op, 0)),
            Shape::I32 => Ok(Instruction::JsrW(0)),
            Shape::Branch | Shape::BranchWide => Ok(branch_to(op, 0)),
            Shape::Iinc => Ok(Instruction::Iinc(0, 0)),
            Shape::U16U8U8 => Ok(with_u16_u8_u8(op, 0, 0, 0)),
            Shape::U16U8 => Ok(Instruction::MultiaNewArray(0, 0)),
            Shape::NewArray => Ok(Instruction::NewArray(ArrayType::Dummy)),
            Shape::LookupSwitch => Ok(Instruction::LookUpSwitch { default_index: 0, jump_table: Vec::new() }),
            Shape::TableSwitch => Ok(
                Instruction::TableSwitch { default_index: 0, low: 0, high: 0, jump_offsets: Vec::new() },
            ),
            Shape::Wide => Ok(Instruction::Wide(WideInstruction::Invalid)),
            Shape::Unknown => Err(ParseError::InvalidInstruction),
        }
    }
}

/// Reads the operands of a `lookupswitch` whose opcode the reader has just
/// passed.
fn read_lookupswitch(cursor: &mut ClassReader) -> (r: Result<Instruction, ParseError>)
    ensures
        final(cursor).bytes@ == old(cursor).bytes@,
        match sp_lookupswitch(old(cursor).bytes@, old(cursor).pos as int) {
            Ok((ops, q)) => r matches Ok(i) && opcode_of(i) == 171 && operands_of(i) == ops
                && final(cursor).pos == q,
            Err(e) => r == Err::<Instruction, ParseError>(e),
        },
{
    let ghost s = cursor.bytes@;
    let q = cursor.pos;
    let pad: usize = if q % 4 == 0 {
        0
    } else {
        4 - q % 4
    };
    match cursor.skip(pad) {
        Ok(()) => {},
        Err(e) => {
            return Err(e);
        },
    }
    let default_index = match cursor.read_i32() {
        Ok(d) => d,
        Err(e) => {
            return Err(e);
        },
    };
    let pair_len = match cursor.read_i32() {
        Ok(n) => n,
        Err(e) => {
            return Err(e);
        },
    };
    if pair_len < 0 {
        return Err(ParseError::InvalidSwitch);
    }
    let ghost r2 = cursor.pos as int;
    assert(sp_lookupswitch(s, q as int) == match repeat(pair_decoder(), s, r2, pair_len as nat) {
        Ok((ps, r3)) => Ok((seq![default_index as int] + pairs_flat(ps), r3)),
        Err(e) => Err(e),
    });
    let mut pairs: Vec<(i32, i32)> = Vec::new();
    let mut k: i32 = 0;
    while k < pair_len
        invariant
            cursor.bytes@ == s,
            s == old(cursor).bytes@,
            q == old(cursor).pos,
            sp_lookupswitch(s, q as int) == match repeat(pair_decoder(), s, r2, pair_len as nat) {
                Ok((ps, r3)) => Ok((seq![default_index as int] + pairs_flat(ps), r3)),
                Err(e) => Err(e),
            },
            0 <= k <= pair_len,
            repeat(pair_decoder(), s, r2, k as nat) == Ok::<(Seq<(i32, i32)>, int), ParseError>(
                (pairs@, cursor.pos as int),
            ),
        decreases pair_len - k,
    {
        let a = match cursor.read_i32() {
            Ok(a) => a,
            Err(e) => {
                proof {
                    assert(repeat(pair_decoder(), s, r2, (k + 1) as nat) == Err::<
                        (Seq<(i32, i32)>, int),
                        ParseError,
                    >(e));
                    lemma_repeat_err(pair_decoder(), s, r2, (k + 1) as nat, pair_len as nat);
                }
                return Err(e);
            },
        };
        let b = match cursor.read_i32() {
            Ok(b) => b,
            Err(e) => {
                proof {
                    assert(repeat(pair_decoder(), s, r2, (k + 1) as nat) == Err::<
                        (Seq<(i32, i32)>, int),
                        ParseError,
                    >(e));
                    lemma_repeat_err(pair_decoder(), s, r2, (k + 1) as nat, pair_len as nat);
                }
                return Err(e);
            },
        };
        pairs.push((a, b));
        k += 1;
    }
    Ok(Instruction::LookUpSwitch { default_index, jump_table: pairs })
}

/// Reads the operands of a `tableswitch` whose opcode the reader has just
/// passed.
fn read_tableswitch(cursor: &mut ClassReader) -> (r: Result<Instruction, ParseError>)
    ensures
        final(cursor).bytes@ == old(cursor).bytes@,
        match sp_tableswitch(old(cursor).bytes@, old(cursor).pos as int) {
            Ok((ops, q)) => r matches Ok(i) && opcode_of(i) == 170 && operands_of(i) == ops
                && final(cursor).pos == q,
            Err(e) => r == Err::<Instruction, ParseError>(e),
        },
{
    let ghost s = cursor.bytes@;
    let q = cursor.pos;
    let pad: usize = if q % 4 == 0 {
        0
    } else {
        4 - q % 4
    };
    match cursor.skip(pad) {
        Ok(()) => {},
        Err(e) => {
            return Err(e);
        },
    }
    let default_index = match cursor.read_i32() {
        Ok(d) => d,
        Err(e) => {
            return Err(e);
        },
    };
    let low = match cursor.read_i32() {
        Ok(x) => x,
        Err(e) => {
            return Err(e);
        },
    };
    let high = match cursor.read_i32() {
        Ok(x) => x,
        Err(e) => {
            return Err(e);
        },
    };
    if low > high {
        return Err(ParseError::InvalidSwitch);
    }
    let count: i64 = high as i64 - low as i64 + 1;
    if count > 0x7fff_ffff {
        return Err(ParseError::InvalidSwitch);
    }
    let ghost r3 = cursor.pos as int;
    assert(sp_tableswitch(s, q as int) == match repeat(i32_decoder(), s, r3, count as nat) {
        Ok((offs, r4)) => Ok((seq![default_index as int, low as int, high as int] + ints(offs), r4)),
        Err(e) => Err(e),
    });
    let mut jump_offsets: Vec<i32> = Vec::new();
    let mut k: i64 = 0;
    while k < count
        invariant
            cursor.bytes@ == s,
            s == old(cursor).bytes@,
            q == old(cursor).pos,
            sp_tableswitch(s, q as int) == match repeat(i32_decoder(), s, r3, count as nat) {
                Ok((offs, r4)) => Ok((seq![default_index as int, low as int, high as int] + ints(offs), r4)),
                Err(e) => Err(e),
            },
            0 <= k <= count,
            count == high - low + 1,
            repeat(i32_decoder(), s, r3, k as nat) == Ok::<(Seq<i32>, int), ParseError>(
                (jump_offsets@, cursor.pos as int),
            ),
        decreases count - k,
    {
        match cursor.read_i32() {
            Ok(x) => {
                jump_offsets.push(x);
            },
            Err(e) => {
                proof {
                    assert(repeat(i32_decoder(), s, r3, (k + 1) as nat) == Err::<
                        (Seq<i32>, int),
                        ParseError,
                    >(e));
                    lemma_repeat_err(i32_decoder(), s, r3, (k + 1) as nat, count as nat);
                }
                return Err(e);
            },
        }
        k += 1;
    }
    Ok(Instruction::TableSwitch { default_index, low, high, jump_offsets })
}

/// Reads the instruction that follows a `wide` opcode: the opcode it
/// modifies and its 16-bit operands.
fn parse_wide_opcode(cursor: &mut ClassReader) -> (r: Result<WideInstruction, ParseError>)
    ensures
        read_as(*old(cursor), *final(cursor), r, sp_wide(old(cursor).bytes@, old(cursor).pos as int)),
{
    let byte = match cursor.read_u8() {
        Ok(b) => b,
        Err(e) => {
            return Err(e);
        },
    };
    let inst = match Instruction::try_from(byte) {
        Ok(i) => i,
        Err(e) => {
            return Err(e);
        },
    };
    assert(is_widenable(byte) ==> opcode_of(inst) == byte);
    let opcode = match WideInstruction::try_from(inst) {
        Ok(w) => w,
        Err(e) => {
            return Err(e);
        },
    };
    assert(is_widenable(byte));
    assert(wide_operands(opcode).len() >= 2 && wide_operands(opcode)[0] == byte);
    let ghost s = cursor.bytes@;
    let ghost q = cursor.pos as int;
    assert(sp_wide(s, q - 1) == match sp_u16(s, q) {
        Err(e) => Err(e),
        Ok((a, r)) => if byte == 132 {
            match sp_u16(s, r) {
                Ok((c, t)) => Ok((seq![132, a as int, c as int], t)),
                Err(e) => Err(e),
            }
        } else {
            Ok((seq![byte as int, a as int], r))
        },
    });
    match opcode {
        WideInstruction::Iinc(_, _) => {
            let a = match cursor.read_u16() {
                Ok(a) => a,
                Err(e) => {
                    return Err(e);
                },
            };
            match cursor.read_u16() {
                Ok(b) => Ok(WideInstruction::Iinc(a, b)),
                Err(e) => Err(e),
            }
        },
        WideInstruction::ILoad(_) => match cursor.read_u16() {
            Ok(a) => Ok(WideInstruction::ILoad(a)),
            Err(e) => Err(e),
        },
        WideInstruction::FLoad(_) => match cursor.read_u16() {
            Ok(a) => Ok(WideInstruction::FLoad(a)),
            Err(e) => Err(e),
        },
        WideInstruction::ALoad(_) => match cursor.read_u16() {
            Ok(a) => Ok(WideInstruction::ALoad(a)),
            Err(e) => Err(e),
        },
        WideInstruction::LLoad(_) => match cursor.read_u16() {
            Ok(a) => Ok(WideInstruction::LLoad(a)),
            Err(e) => Err(e),
        },
        WideInstruction::DLoad(_) => match cursor.read_u16() {
            Ok(a) => Ok(WideInstruction::DLoad(a)),
            Err(e) => Err(e),
        },
        WideInstruction::IStore(_) => match cursor.read_u16() {
            Ok(a) => Ok(WideInstruction::IStore(a)),
            Err(e) => Err(e),
        },
        WideInstruction::FStore(_) => match cursor.read_u16() {
            Ok(a) => Ok(WideInstruction::FStore(a)),
            Err(e) => Err(e),
        },
        WideInstruction::AStore(_) => match cursor.read_u16() {
            Ok(a) => Ok(WideInstruction::AStore(a)),
            Err(e) => Err(e),
        },
        WideInstruction::LStore(_) => match cursor.read_u16() {
            Ok(a) => Ok(WideInstruction::LStore(a)),
            Err(e) => Err(e),
        },
        WideInstruction::DStore(_) => match cursor.read_u16() {
            Ok(a) => Ok(WideInstruction::DStore(a)),
            Err(e) => Err(e),
        },
        WideInstruction::Ret(_) => match cursor.read_u16() {
            Ok(a) => Ok(WideInstruction::Ret(a)),
            Err(e) => Err(e),
        },
        WideInstruction::Invalid => Err(ParseError::InvalidInstruction),
    }
}

/// A branch target position as the decoder keeps it: the position itself,
/// or `usize::MAX` for a position below 0 or beyond what `usize` holds, which
/// no code array reaches.
pub open spec fn pos_code(t: int) -> int {
    if 0 <= t < usize::MAX {
        t
    } else {
        usize::MAX as int
    }
}

/// The position `p + off`, as [`pos_code`] keeps it.
fn branch_target(p: usize, off: i64) -> (t: usize)
    requires
        -0x8000_0000 <= off < 0x8000_0000,
    ensures
        t as int == pos_code(p + off),
{
    if off >= 0 {
        let d: usize = off as usize;
        if d < usize::MAX - p {
            p + d
        } else {
            usize::MAX
        }
    } else {
        let d: usize = (-off) as usize;
        if d <= p {
            p - d
        } else {
            usize::MAX
        }
    }
}

/// Whether `r`, read by a reader that stopped at `end`, is an instruction with
/// opcode `op` and the operands `spec` gives: a branch comes with target 0,
/// beside the position its offset leads to; any other instruction comes with
/// its operands.
pub open spec fn read_instr_as(
    r: Result<(Instruction, Option<usize>), ParseError>,
    op: u8,
    spec: Decoded<Seq<int>>,
    end: int,
) -> bool {
    match spec {
        Ok((ops, q)) => r matches Ok((i, t)) && end == q && opcode_of(i) == op && if is_branch(op) {
            t matches Some(x) && x as int == pos_code(ops[0])
        } else {
            t is None && operands_of(i) == ops
        },
        Err(e) => r == Err::<(Instruction, Option<usize>), ParseError>(e),
    }
}

/// Reads the operands of an instruction whose operands are at most one
/// number.
fn read_plain_operands(cursor: &mut ClassReader, p: usize, op: u8) -> (r: Result<
    (Instruction, Option<usize>),
    ParseError,
>)
    requires
        op_shape(op) == Shape::NoOperand || op_shape(op) == Shape::U8 || op_shape(op) == Shape::I8
            || op_shape(op) == Shape::U16 || op_shape(op) == Shape::I16 || op_shape(op)
            == Shape::I32,
    ensures
        final(cursor).bytes@ == old(cursor).bytes@,
        read_instr_as(
            r,
            op,
            sp_operands(old(cursor).bytes@, p as int, op, old(cursor).pos as int),
            final(cursor).pos as int,
        ),
{
    match shape_of(op) {
        Shape::U8 => match cursor.read_u8() {
            Ok(x) => Ok((with_u8(op, x), None)),
            Err(e) => Err(e),
        },
        Shape::I8 => match cursor.read_i8() {
            Ok(x) => Ok((with_i8(op, x), None)),
            Err(e) => Err(e),
        },
        Shape::U16 => match cursor.read_u16() {
            Ok(x) => Ok((with_u16(op, x), None)),
            Err(e) => Err(e),
        },
        Shape::I16 => match cursor.read_i16() {
            Ok(x) => Ok((with_i16(op, x), None)),
            Err(e) => Err(e),
        },
        Shape::I32 => match cursor.read_i32() {
            Ok(x) => Ok((Instruction::JsrW(x), None)),
            Err(e) => Err(e),
        },
        _ => Ok((simple_instruction(op), None)),
    }
}

/// Reads the operands of an instruction whose operands are several numbers
/// or an array type.
fn read_compound_operands(cursor: &mut ClassReader, p: usize, op: u8) -> (r: Result<
    (Instruction, Option<usize>),
    ParseError,
>)
    requires
        op_shape(op) == Shape::Iinc || op_shape(op) == Shape::U16U8U8 || op_shape(op)
            == Shape::U16U8 || op_shape(op) == Shape::NewArray,
    ensures
        final(cursor).bytes@ == old(cursor).bytes@,
        read_instr_as(
            r,
            op,
            sp_operands(old(cursor).bytes@, p as int, op, old(cursor).pos as int),
            final(cursor).pos as int,
        ),
{
    match shape_of(op) {
        Shape::Iinc => {
            let a = match cursor.read_u8() {
                Ok(a) => a,
                Err(e) => {
                    return Err(e);
                },
            };
            match cursor.read_i8() {
                Ok(b) => Ok((Instruction::Iinc(a, b), None)),
                Err(e) => Err(e),
            }
        },
        Shape::U16U8U8 => {
            let a = match cursor.read_u16() {
                Ok(a) => a,
                Err(e) => {
                    return Err(e);
                },
            };
            let b = match cursor.read_u8() {
                Ok(b) => b,
                Err(e) => {
                    return Err(e);
                },
            };
            match cursor.read_u8() {
                Ok(c) => Ok((with_u16_u8_u8(op, a, b, c), None)),
                Err(e) => Err(e),
            }
        },
        Shape::U16U8 => {
            let a = match cursor.read_u16() {
                Ok(a) => a,
                Err(e) => {
                    return Err(e);
                },
            };
            match cursor.read_u8() {
                Ok(b) => Ok((Instruction::MultiaNewArray(a, b), None)),
                Err(e) => Err(e),
            }
        },
        _ => {
            let tag = match cursor.read_u8() {
                Ok(x) => x,
                Err(e) => {
                    return Err(e);
                },
            };
            match ArrayType::try_from(tag) {
                Ok(t) => Ok((Instruction::NewArray(t), None)),
                Err(e) => Err(e),
            }
        },
    }
}

/// Reads the offset of a branch whose opcode starts at `p`, and turns it into
/// the position it leads to.
fn read_branch_operands(cursor: &mut ClassReader, p: usize, op: u8) -> (r: Result<
    (Instruction, Option<usize>),
    ParseError,
>)
    requires
        op_shape(op) == Shape::Branch || op_shape(op) == Shape::BranchWide,
    ensures
        final(cursor).bytes@ == old(cursor).bytes@,
        read_instr_as(
            r,
            op,
            sp_operands(old(cursor).bytes@, p as int, op, old(cursor).pos as int),
            final(cursor).pos as int,
        ),
{
    if op == 200 {
        match cursor.read_i32() {
            Ok(off) => Ok((branch_to(op, 0), Some(branch_target(p, off as i64)))),
            Err(e) => Err(e),
        }
    } else {
        match cursor.read_i16() {
            Ok(off) => Ok((branch_to(op, 0), Some(branch_target(p, off as i64)))),
            Err(e) => Err(e),
        }
    }
}

/// Reads the operands of an instruction with opcode `op` that starts at `p`.
fn read_operands(cursor: &mut ClassReader, p: usize, op: u8) -> (r: Result<
    (Instruction, Option<usize>),
    ParseError,
>)
    ensures
        final(cursor).bytes@ == old(cursor).bytes@,
        read_instr_as(
            r,
            op,
            sp_operands(old(cursor).bytes@, p as int, op, old(cursor).pos as int),
            final(cursor).pos as int,
        ),
{
    match shape_of(op) {
        Shape::NoOperand | Shape::U8 | Shape::I8 | Shape::U16 | Shape::I16 | Shape::I32 => {
            read_plain_operands(cursor, p, op)
        },
        Shape::Iinc | Shape::U16U8U8 | Shape::U16U8 | Shape::NewArray => {
            read_compound_operands(cursor, p, op)
        },
        Shape::Branch | Shape::BranchWide => read_branch_operands(cursor, p, op),
        Shape::LookupSwitch => match read_lookupswitch(cursor) {
            Ok(i) => Ok((i, None)),
            Err(e) => Err(e),
        },
        Shape::TableSwitch => match read_tableswitch(cursor) {
            Ok(i) => Ok((i, None)),
            Err(e) => Err(e),
        },
        Shape::Wide => match parse_wide_opcode(cursor) {
            Ok(w) => Ok((Instruction::Wide(w), None)),
            Err(e) => Err(e),
        },
        Shape::Unknown => Err(ParseError::InvalidInstruction),
    }
}

/// Reads one instruction at the reader's position. A branch comes back with
/// target 0, beside the position its offset leads to.
fn read_instruction(cursor: &mut ClassReader) -> (r: Result<(Instruction, Option<usize>), ParseError>)
    ensures
        final(cursor).bytes@ == old(cursor).bytes@,
        match sp_instr(old(cursor).bytes@, old(cursor).pos as int) {
            Ok(((op, ops), q)) => read_instr_as(r, op, Ok((ops, q)), final(cursor).pos as int),
            Err(e) => r == Err::<(Instruction, Option<usize>), ParseError>(e),
        },
{
    let p = cursor.pos;
    let op = match cursor.read_u8() {
        Ok(b) => b,
        Err(e) => {
            return Err(e);
        },
    };
    read_operands(cursor, p, op)
}

/// Adding an instruction behind all the others leaves the index found for
/// every other position as it was.
proof fn lemma_index_at_push(raw: Seq<RawInstr>, x: RawInstr, t: int, k: int)
    requires
        0 <= k <= raw.len(),
        forall|j: int| k <= j < raw.len() ==> (#[trigger] raw[j]).0 < x.0,
    ensures
        index_at(raw.push(x), t, k) == if t == x.0 {
            raw.len() as int
        } else {
            index_at(raw, t, k)
        },
    decreases raw.len() - k,
{
    if k < raw.len() {
        assert(raw.push(x)[k] == raw[k]);
        lemma_index_at_push(raw, x, t, k + 1);
    } else {
        assert(raw.push(x)[k] == x);
        assert(index_at(raw.push(x), t, k + 1) == 0);
    }
}

/// Retargeting a branch keeps its opcode and makes `t` its only operand.
proof fn lemma_retarget(i: Instruction, t: usize)
    requires
        is_branch(opcode_of(i)),
    ensures
        opcode_of(retarget(i, t)) == opcode_of(i),
        operands_of(retarget(i, t)) == seq![t as int],
{
}

impl Instruction {
    /// Points each branch listed in `registry` (the index of the branch and
    /// the position it leads to) at the instruction that `byte_to_instr`
    /// gives for that position.
    fn fix_jmps(registry: Vec<(usize, usize)>, byte_to_instr: &[usize], instrs: &mut Vec<Instruction>)
        requires
            forall|m: int|
                0 <= m < registry.len() ==> {
                    let (k, t) = #[trigger] registry@[m];
                    &&& k < old(instrs).len()
                    &&& is_branch(opcode_of(old(instrs)@[k as int]))
                    &&& 0 <= t < byte_to_instr.len()
                },
            forall|m1: int, m2: int|
                0 <= m1 < m2 < registry.len() ==> (#[trigger] registry@[m1]).0 < (
                #[trigger] registry@[m2]).0,
        ensures
            final(instrs).len() == old(instrs).len(),
            forall|m: int|
                0 <= m < registry.len() ==> {
                    let (k, t) = #[trigger] registry@[m];
                    final(instrs)@[k as int] == retarget(
                        old(instrs)@[k as int],
                        byte_to_instr@[t as int],
                    )
                },
            forall|k: int|
                0 <= k < old(instrs).len() && (forall|m: int|
                    0 <= m < registry.len() ==> (#[trigger] registry@[m]).0 != k)
                    ==> final(instrs)@[k] == old(instrs)@[k],
    {
        let ghost before = instrs@;
        let mut m: usize = 0;
        while m < registry.len()
            invariant
                before == old(instrs)@,
                instrs.len() == before.len(),
                m <= registry.len(),
                forall|m2: int|
                    0 <= m2 < registry.len() ==> {
                        let (k, t) = #[trigger] registry@[m2];
                        &&& k < before.len()
                        &&& is_branch(opcode_of(before[k as int]))
                        &&& 0 <= t < byte_to_instr.len()
                    },
                forall|m1: int, m2: int|
                    0 <= m1 < m2 < registry.len() ==> (#[trigger] registry@[m1]).0 < (
                    #[trigger] registry@[m2]).0,
                forall|m2: int|
                    0 <= m2 < m ==> {
                        let (k, t) = #[trigger] registry@[m2];
                        instrs@[k as int] == retarget(before[k as int], byte_to_instr@[t as int])
                    },
                forall|k: int|
                    0 <= k < before.len() && (forall|m2: int|
                        0 <= m2 < m ==> (#[trigger] registry@[m2]).0 != k) ==> instrs@[k]
                        == before[k],
            decreases registry.len() - m,
        {
            let (jmp_instr_index, jmp_byte) = registry[m];
            assert(forall|m2: int| 0 <= m2 < m ==> (#[trigger] registry@[m2]).0 != jmp_instr_index);
            let target = byte_to_instr[jmp_byte];
            let fixed_instr = with_target(&instrs[jmp_instr_index], target);
            instrs.set(jmp_instr_index, fixed_instr);
            m += 1;
        }
    }

    /// Decodes the code array of a method into its instructions. The target of
    /// each branch is the index, in the returned vector, of the instruction
    /// that starts at the position its offset leads to (0 where none starts
    /// there).
    pub fn from_bytes(bytes: &[u8]) -> (r: Result<Vec<Instruction>, ParseError>)
        ensures
            match sp_code(bytes@) {
                Ok(l) => r matches Ok(v) && views(v@) == l,
                Err(e) => r == Err::<Vec<Instruction>, ParseError>(e),
            },
    {
        let mut cursor = ClassReader::with_buffer(bytes);
        let ghost s = bytes@;
        let mut instructions: Vec<Instruction> = Vec::new();
        // The index of the instruction that starts at each byte of the code.
        let mut byte_to_instr: Vec<usize> = Vec::new();
        let mut i: usize = 0;
        while i < bytes.len()
            invariant
                i <= bytes.len(),
                byte_to_instr.len() == i,
                forall|b: int| 0 <= b < i ==> byte_to_instr@[b] == 0,
            decreases bytes.len() - i,
        {
            byte_to_instr.push(0);
            i += 1;
        }
        // Each branch decoded so far: its index and the position it leads to.
        let mut jmp_registry: Vec<(usize, usize)> = Vec::new();
        let ghost mut done: Seq<RawInstr> = seq![];
        proof {
            assert(seq![] + sp_raw_code(s, 0)->Ok_0 =~= sp_raw_code(s, 0)->Ok_0);
        }
        while cursor.pos < bytes.len()
            invariant
                cursor.bytes@ == s,
                s == bytes@,
                cursor.pos <= s.len(),
                byte_to_instr.len() == s.len(),
                instructions.len() == done.len(),
                sp_raw_code(s, 0) == match sp_raw_code(s, cursor.pos as int) {
                    Ok(rest) => Ok(done + rest),
                    Err(e) => Err(e),
                },
                forall|k: int| 0 <= k < done.len() ==> 0 <= (#[trigger] done[k]).0 < cursor.pos,
                forall|j: int, k: int|
                    0 <= j < k < done.len() ==> (#[trigger] done[j]).0 < (#[trigger] done[k]).0,
                forall|b: int| 0 <= b < s.len() ==> byte_to_instr@[b] == index_at(done, b, 0),
                forall|k: int|
                    0 <= k < done.len() ==> opcode_of(#[trigger] instructions@[k]) == done[k].1,
                forall|k: int|
                    0 <= k < done.len() && !is_branch(done[k].1) ==> operands_of(
                        #[trigger] instructions@[k],
                    ) == done[k].2,
                forall|k: int|
                    0 <= k < done.len() && is_branch(#[trigger] done[k].1) ==> exists|m: int|
                        0 <= m < jmp_registry.len() && (#[trigger] jmp_registry@[m]).0 == k,
                forall|m: int|
                    0 <= m < jmp_registry.len() ==> {
                        let (k, t) = #[trigger] jmp_registry@[m];
                        &&& k < done.len()
                        &&& is_branch(done[k as int].1)
                        &&& t as int == pos_code(done[k as int].2[0])
                    },
                forall|m1: int, m2: int|
                    0 <= m1 < m2 < jmp_registry.len() ==> (#[trigger] jmp_registry@[m1]).0 < (
                    #[trigger] jmp_registry@[m2]).0,
            decreases s.len() - cursor.pos,
        {
            let p = cursor.pos;
            byte_to_instr.set(p, instructions.len());
            match read_instruction(&mut cursor) {
                Ok((instruction, target)) => {
                    let ghost x = sp_instr(s, p as int)->Ok_0;
                    let ghost raw_x: RawInstr = (p as int, x.0.0, x.0.1);
                    let ghost old_reg = jmp_registry@;
                    let ghost old_done = done;
                    proof {
                        lemma_instr_advances(s, p as int);
                        assert forall|b: int| 0 <= b < s.len() implies byte_to_instr@[b]
                            == index_at(done.push(raw_x), b, 0) by {
                            lemma_index_at_push(done, raw_x, b, 0);
                        }
                        match sp_raw_code(s, x.1) {
                            Ok(rest) => {
                                assert(done + (seq![raw_x] + rest) =~= done.push(raw_x) + rest);
                            },
                            Err(e) => {},
                        }
                    }
                    match target {
                        Some(t) => {
                            jmp_registry.push((instructions.len(), t));
                        },
                        None => {},
                    }
                    instructions.push(instruction);
                    proof {
                        done = done.push(raw_x);
                        assert forall|k: int|
                            0 <= k < done.len() && is_branch(#[trigger] done[k].1) implies exists|m: int|
                            0 <= m < jmp_registry.len() && (#[trigger] jmp_registry@[m]).0 == k by {
                            if k < old_done.len() {
                                assert(done[k] == old_done[k]);
                                let m = choose|m: int|
                                    0 <= m < old_reg.len() && (#[trigger] old_reg[m]).0 == k;
                                assert(jmp_registry@[m] == old_reg[m]);
                            } else {
                                assert(jmp_registry@[old_reg.len() as int].0 == k);
                            }
                        }
                    }
                },
                Err(e) => {
                    return Err(e);
                },
            }
        }
        proof {
            assert(done + seq![] =~= done);
        }
        let mut m: usize = 0;
        while m < jmp_registry.len()
            invariant
                s == bytes@,
                sp_raw_code(s, 0) == Ok::<Seq<RawInstr>, ParseError>(done),
                forall|m2: int|
                    0 <= m2 < jmp_registry.len() ==> {
                        let (k, t) = #[trigger] jmp_registry@[m2];
                        &&& k < done.len()
                        &&& is_branch(done[k as int].1)
                        &&& t as int == pos_code(done[k as int].2[0])
                    },
                m <= jmp_registry.len(),
                forall|m2: int|
                    0 <= m2 < m ==> 0 <= (#[trigger] jmp_registry@[m2]).1 < s.len(),
            decreases jmp_registry.len() - m,
        {
            let jmp_byte = jmp_registry[m].1;
            if jmp_byte >= bytes.len() {
                return Err(ParseError::InvalidJump);
            }
            m += 1;
        }
        let ghost decoded = instructions@;
        if jmp_registry.len() > 0 {
            Self::fix_jmps(jmp_registry, byte_to_instr.as_slice(), &mut instructions);
        }
        proof {
            assert forall|k: int| 0 <= k < done.len() implies views(instructions@)[k] == fixed(done, k) by {
                if is_branch(done[k].1) {
                    let m = choose|m: int| 0 <= m < jmp_registry.len() && (#[trigger] jmp_registry@[m]).0 == k;
                    lemma_retarget(decoded[k], byte_to_instr@[jmp_registry@[m].1 as int]);
                }
            }
            assert(views(instructions@) =~= Seq::new(done.len(), |k: int| fixed(done, k)));
        }
        Ok(instructions)
    }
}

} // verus!
