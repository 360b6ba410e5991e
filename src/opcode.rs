//! The decode table: from an instruction byte to what it means and costs.

use vstd::prelude::*;

verus! {

/// An instruction as decoded from its opcode byte.
#[derive(Clone, Copy, Debug, PartialEq, Eq, Structural)]
pub enum OpCode {
    /// LDA Immediate.
    LdaIm,
    /// LDA Zero Page.
    LdaZp,
    /// LDA Zero Page,X.
    LdaZpX,
    /// JSR Absolute.
    Jsr,
    /// A byte with no handler; it carries the byte.
    Unimplemented(u8),
}

/// What an instruction does.
#[derive(Clone, Copy, Debug, PartialEq, Eq, Structural)]
pub enum Mnemonic {
    Lda,
    Jsr,
}

/// How an instruction's operand bytes locate its data.
#[derive(Clone, Copy, Debug, PartialEq, Eq, Structural)]
pub enum AddressingMode {
    Immediate,
    ZeroPage,
    ZeroPageX,
    Absolute,
}

/// One row of the decode table.
#[derive(Clone, Copy, Debug, PartialEq, Eq, Structural)]
pub struct Instruction {
    pub mnemonic: Mnemonic,
    pub mode: AddressingMode,
    /// The cycles the instruction takes, the opcode fetch included.
    pub cycles: u32,
}

/// The instruction that `byte` stands for.
pub open spec fn decode_spec(byte: u8) -> OpCode {
    if byte == 0xA9 {
        OpCode::LdaIm
    } else if byte == 0xA5 {
        OpCode::LdaZp
    } else if byte == 0xB5 {
        OpCode::LdaZpX
    } else if byte == 0x20 {
        OpCode::Jsr
    } else {
        OpCode::Unimplemented(byte)
    }
}

/// The byte that stands for `op`.
pub open spec fn encode_spec(op: OpCode) -> u8 {
    match op {
        OpCode::LdaIm => 0xA9,
        OpCode::LdaZp => 0xA5,
        OpCode::LdaZpX => 0xB5,
        OpCode::Jsr => 0x20,
        OpCode::Unimplemented(b) => b,
    }
}

/// The table row of `op`; none for a byte without a handler.
pub open spec fn instruction_spec(op: OpCode) -> Option<Instruction> {
    match op {
        OpCode::LdaIm => Some(
            Instruction { mnemonic: Mnemonic::Lda, mode: AddressingMode::Immediate, cycles: 2 },
        ),
        OpCode::LdaZp => Some(
            Instruction { mnemonic: Mnemonic::Lda, mode: AddressingMode::ZeroPage, cycles: 3 },
        ),
        OpCode::LdaZpX => Some(
            Instruction { mnemonic: Mnemonic::Lda, mode: AddressingMode::ZeroPageX, cycles: 4 },
        ),
        OpCode::Jsr => Some(
            Instruction { mnemonic: Mnemonic::Jsr, mode: AddressingMode::Absolute, cycles: 6 },
        ),
        OpCode::Unimplemented(_) => None,
    }
}

impl OpCode {
    /// Decodes an instruction byte. Every byte decodes: one outside the table
    /// becomes `Unimplemented` carrying the byte.
    pub fn decode(byte: u8) -> (r: OpCode)
        ensures
            r == decode_spec(byte),
    {
        match byte {
            0xA9 => OpCode::LdaIm,
            0xA5 => OpCode::LdaZp,
            0xB5 => OpCode::LdaZpX,
            0x20 => OpCode::Jsr,
            _ => OpCode::Unimplemented(byte),
        }
    }

    /// The byte that this instruction is decoded from.
    pub fn encode(self) -> (r: u8)
        ensures
            r == encode_spec(self),
    {
        match self {
            OpCode::LdaIm => 0xA9,
            OpCode::LdaZp => 0xA5,
            OpCode::LdaZpX => 0xB5,
            OpCode::Jsr => 0x20,
            OpCode::Unimplemented(b) => b,
        }
    }

    /// The instruction's mnemonic, addressing mode and cycle cost, or `None`
    /// where the byte has no handler.
    pub fn instruction(self) -> (r: Option<Instruction>)
        ensures
            r == instruction_spec(self),
    {
        match self {
            OpCode::LdaIm => Some(
                Instruction { mnemonic: Mnemonic::Lda, mode: AddressingMode::Immediate, cycles: 2 },
            ),
            OpCode::LdaZp => Some(
                Instruction { mnemonic: Mnemonic::Lda, mode: AddressingMode::ZeroPage, cycles: 3 },
            ),
            OpCode::LdaZpX => Some(
                Instruction { mnemonic: Mnemonic::Lda, mode: AddressingMode::ZeroPageX, cycles: 4 },
            ),
            OpCode::Jsr => Some(
                Instruction { mnemonic: Mnemonic::Jsr, mode: AddressingMode::Absolute, cycles: 6 },
            ),
            OpCode::Unimplemented(_) => None,
        }
    }
}

impl From<u8> for OpCode {
    fn from(byte: u8) -> (r: OpCode)
        ensures
            r == decode_spec(byte),
    {
        OpCode::decode(byte)
    }
}

impl vstd::std_specs::convert::FromSpecImpl<u8> for OpCode {
    open spec fn obeys_from_spec() -> bool {
        true
    }

    open spec fn from_spec(byte: u8) -> OpCode {
        decode_spec(byte)
    }
}

impl From<OpCode> for u8 {
    fn from(op: OpCode) -> (r: u8)
        ensures
            r == encode_spec(op),
    {
        op.encode()
    }
}

impl vstd::std_specs::convert::FromSpecImpl<OpCode> for u8 {
    open spec fn obeys_from_spec() -> bool {
        true
    }

    open spec fn from_spec(op: OpCode) -> u8 {
        encode_spec(op)
    }
}

/// Decoding is total and every byte decodes to an instruction that encodes
/// back to that same byte.
pub proof fn lemma_decode_total(byte: u8)
    ensures
        encode_spec(decode_spec(byte)) == byte,
        decode_spec(byte) is Unimplemented <==> instruction_spec(decode_spec(byte)) is None,
{
}

/// Encoding then decoding gives the instruction back, for every instruction in
/// the table and for every byte outside it.
pub proof fn lemma_encode_decode(op: OpCode)
    requires
        op is Unimplemented ==> decode_spec(op->Unimplemented_0) is Unimplemented,
    ensures
        decode_spec(encode_spec(op)) == op,
{
}

} // verus!
