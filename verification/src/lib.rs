//! A disassembler core for a 16-bit, word-addressed instruction set of the
//! MSP430 family: bit-field decoding, constant-generator normalisation,
//! recognition of emulated instructions, and a flow controller that follows
//! calls, returns and branches.

pub mod address;
pub mod bits;
pub mod decode;
pub mod flow;
pub mod instruction;
pub mod normalize;
pub mod pseudo;
pub mod render;
pub mod scope;

pub use address::Address;
pub use decode::{disassemble, get_instruction, get_instruction_flavor};
pub use flow::{check_for_flow, FlowController, FlowStep};
pub use instruction::{
    address_mode, jump_opcode, one_opcode, two_opcode, AddressMode, Bbit, DestReg, Indexing,
    Instruction, InstructionFlavor, JmpOpcode, Offset, OneOpcode, SignedWord, SrcReg, TwoOpcode,
    Word, PC, SP, SR, ZR,
};
pub use normalize::check_special_am;
pub use pseudo::{check_pseudo, PsuedoOpcode};
pub use scope::{words_from_bytes, CurrentBinaryScope, DecodeError, UsedWords};
