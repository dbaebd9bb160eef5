use vstd::prelude::*;

verus! {

/// The ways in which decoding a class file, a descriptor or a byte code
/// array can fail.
#[derive(Debug, Clone, Copy, PartialEq, Eq)]
pub enum ParseError {
    /// The input ended before the item being read was complete.
    UnexpectedEof,
    /// A descriptor string does not follow the descriptor grammar.
    InvalidDescriptor,
    /// A count field holds a value the format does not allow.
    InvalidCount,
    /// A constant pool tag is not one of the known tags.
    UnknownConstant,
    /// A modified UTF-8 byte sequence could not be decoded.
    InvalidUtf8,
    /// An index did not point at the expected kind of constant pool entry.
    InvalidIndex,
    /// An access flag word holds bits that the flag set does not define.
    InvalidFlags,
    /// The first four bytes of a class file are not `0xCAFEBABE`.
    InvalidMagic,
    /// An attribute occurred more often than allowed or where it is not allowed.
    InvalidAttribute,
    /// An attribute did not consume exactly the number of bytes it declared.
    InvalidCursor,
    /// An opcode is unknown or not allowed where it occurs.
    InvalidInstruction,
    /// A branch target lies outside the code array or its offset overflows.
    InvalidJump,
    /// A `tableswitch` or `lookupswitch` has inconsistent bounds.
    InvalidSwitch,
    /// A `newarray` type tag is not one of the primitive array tags.
    InvalidArrayType,
    /// A stack map frame type byte is not a valid frame type.
    InvalidStackMapFrame,
    /// A verification type tag is not a valid tag.
    InvalidVType,
    /// A type annotation target type is not a valid target type.
    InvalidTypeTarget,
    /// An annotation element value tag is not a valid tag.
    InvalidElementValue,
    /// A method handle's reference kind is not one of the kinds 1 to 9.
    InvalidReferenceKind,
    /// An attribute name does not denote an annotation attribute.
    InvalidAnnotation,
}

} // verus!
