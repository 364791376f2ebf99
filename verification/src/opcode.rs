use vstd::prelude::*;

verus! {

/// The byte of the opcode that ends execution.
pub const STOP: u8 = 0x00;

/// The byte of the opcode that marks a jump destination.
pub const JUMPDEST: u8 = 0x5b;

/// The byte of the opcode under which calls into precompiles are counted.
pub const DELEGATECALL: u8 = 0xf4;

/// Whether `revm_bytecode` knows an opcode with this byte.
pub uninterp spec fn opcode_defined(byte: u8) -> bool;

/// The name that `revm_bytecode` gives to the opcode with this byte.
pub uninterp spec fn opcode_name(byte: u8) -> Seq<char>;

/// The byte of the opcode that `revm_bytecode` knows under this name.
pub uninterp spec fn opcode_of_name(name: Seq<char>) -> Option<u8>;

/// `revm_bytecode::OpCode::new`: whether the byte is an opcode of the table
/// that the crate holds.
#[verifier::external_body]
pub(crate) fn is_opcode(byte: u8) -> (defined: bool)
    ensures
        defined == opcode_defined(byte),
{
    match revm_bytecode::OpCode::new(byte) {
        Some(_) => true,
        None => false,
    }
}

/// `revm_bytecode::OpCode::name_by_op`: the name of the opcode in the crate's
/// table, and the crate's word for an unknown one where the byte is none.
#[verifier::external_body]
pub(crate) fn name_of_opcode(byte: u8) -> (name: &'static str)
    ensures
        name@ == opcode_name(byte),
{
    revm_bytecode::OpCode::name_by_op(byte)
}

/// `revm_bytecode::OpCode::parse`, with `OpCode::get` on what it finds: the
/// byte of the opcode that the crate's table of names holds under `name`.
#[verifier::external_body]
pub(crate) fn opcode_by_name(name: &str) -> (byte: Option<u8>)
    ensures
        byte == opcode_of_name(name@),
{
    match revm_bytecode::OpCode::parse(name) {
        Some(opcode) => Some(opcode.get()),
        None => None,
    }
}

} // verus!
