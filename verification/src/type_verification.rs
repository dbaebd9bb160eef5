//! The verification types of a stack map frame (JVMS 4.7.4).
use vstd::prelude::*;
use crate::error::ParseError;

verus! {

/// A verification type.
#[derive(Debug, Clone, Copy, Eq, PartialEq, Hash)]
pub enum VType {
    Top,
    Integer,
    Float,
    Long,
    Double,
    Null,
    UninitThis,
    /// A class type, by the index of its `Class` constant.
    Object(usize),
    /// An uninitialized object, by the offset of the `new` that created it.
    UninitVar(usize),
    /// A placeholder that no decoded frame holds.
    Dummy,
}

impl View for VType {
    type V = VType;

    open spec fn view(&self) -> VType {
        *self
    }
}

/// The verification type a tag denotes, its index, if it has one, being 0.
pub open spec fn vtype_of_tag(tag: u8) -> Option<VType> {
    if tag == 0 {
        Some(VType::Top)
    } else if tag == 1 {
        Some(VType::Integer)
    } else if tag == 2 {
        Some(VType::Float)
    } else if tag == 3 {
        Some(VType::Double)
    } else if tag == 4 {
        Some(VType::Long)
    } else if tag == 5 {
        Some(VType::Null)
    } else if tag == 6 {
        Some(VType::UninitThis)
    } else if tag == 7 {
        Some(VType::Object(0))
    } else if tag == 8 {
        Some(VType::UninitVar(0))
    } else {
        None
    }
}

impl VType {
    /// The verification type a tag denotes; an `Object` or `UninitVar` comes
    /// with index 0.
    pub fn try_from(value: u8) -> (r: Result<VType, ParseError>)
        ensures
            match vtype_of_tag(value) {
                Some(v) => r == Ok::<VType, ParseError>(v),
                None => r == Err::<VType, ParseError>(ParseError::InvalidVType),
            },
    {
        let v_type = match value {
            0 => VType::Top,
            1 => VType::Integer,
            2 => VType::Float,
            3 => VType::Double,
            4 => VType::Long,
            5 => VType::Null,
            6 => VType::UninitThis,
            7 => VType::Object(0),
            8 => VType::UninitVar(0),
            _ => {
                return Err(ParseError::InvalidVType);
            },
        };
        Ok(v_type)
    }
}

} // verus!
