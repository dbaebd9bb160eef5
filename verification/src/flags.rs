//! The access and property flags of the class file format. Each set only
//! admits the flags the format defines for its item.
use vstd::prelude::*;

verus! {

/// The flags of a class (JVMS 4.1).
#[derive(Debug, Default, Clone, Copy, PartialEq, Eq, Hash)]
pub struct ClassAccessFlags {
    /// The flags, one bit each.
    pub bits: u16,
}

impl ClassAccessFlags {
    pub const PUBLIC: u16 = 0x0001;
    pub const FINAL: u16 = 0x0010;
    pub const SUPER: u16 = 0x0020;
    pub const INTERFACE: u16 = 0x0200;
    pub const ABSTRACT: u16 = 0x0400;
    pub const SYNTHETIC: u16 = 0x1000;
    pub const ANNOTATION: u16 = 0x2000;
    pub const ENUM: u16 = 0x4000;
    pub const MODULE: u16 = 0x8000;

    /// Every flag this set defines.
    pub open spec fn known() -> u16 {
        0xF631u16
    }

    /// The flags this set admits are exactly its named flags, taken
    /// together.
    pub proof fn lemma_known_flags()
        ensures
            Self::known() == Self::PUBLIC | Self::FINAL | Self::SUPER | Self::INTERFACE | Self::ABSTRACT | Self::SYNTHETIC | Self::ANNOTATION | Self::ENUM | Self::MODULE,
    {
        assert(0xF631u16 == (0x0001u16 | 0x0010u16 | 0x0020u16 | 0x0200u16 | 0x0400u16 | 0x1000u16 | 0x2000u16 | 0x4000u16 | 0x8000u16)) by (bit_vector);
    }

    /// The set of no flags.
    pub fn empty() -> (r: Self)
        ensures
            r.bits == 0,
    {
        ClassAccessFlags { bits: 0 }
    }

    /// The set with the given bits, if each of them is a flag this set defines.
    pub fn from_bits(bits: u16) -> (r: Option<Self>)
        ensures
            bits & !Self::known() == 0 ==> (r matches Some(f) && f.bits == bits),
            bits & !Self::known() != 0 ==> r is None,
            (r is Some) == (bits & !(Self::PUBLIC | Self::FINAL | Self::SUPER | Self::INTERFACE | Self::ABSTRACT | Self::SYNTHETIC | Self::ANNOTATION | Self::ENUM | Self::MODULE) == 0),
    {
        proof {
            Self::lemma_known_flags();
        }
        if bits & !0xF631u16 == 0 {
            Some(ClassAccessFlags { bits })
        } else {
            None
        }
    }

    /// The bits of the set.
    pub fn bits(&self) -> (r: u16)
        ensures
            r == self.bits,
    {
        self.bits
    }

    /// Whether every flag of `flags` is in the set.
    pub fn contains(&self, flags: u16) -> (r: bool)
        ensures
            r == (self.bits & flags == flags),
    {
        self.bits & flags == flags
    }
}

/// The flags of a method (JVMS 4.6).
#[derive(Debug, Default, Clone, Copy, PartialEq, Eq, Hash)]
pub struct MethodAccessFlags {
    /// The flags, one bit each.
    pub bits: u16,
}

impl MethodAccessFlags {
    pub const PUBLIC: u16 = 0x0001;
    pub const PRIVATE: u16 = 0x0002;
    pub const PROTECTED: u16 = 0x0004;
    pub const STATIC: u16 = 0x0008;
    pub const FINAL: u16 = 0x0010;
    pub const SYNCHRONIZED: u16 = 0x0020;
    pub const BRIDGE: u16 = 0x0040;
    pub const VARARGS: u16 = 0x0080;
    pub const NATIVE: u16 = 0x0100;
    pub const ABSTRACT: u16 = 0x0400;
    pub const STRICT: u16 = 0x0800;
    pub const SYNTHETIC: u16 = 0x1000;

    /// Every flag this set defines.
    pub open spec fn known() -> u16 {
        0x1DFFu16
    }

    /// The flags this set admits are exactly its named flags, taken
    /// together.
    pub proof fn lemma_known_flags()
        ensures
            Self::known() == Self::PUBLIC | Self::PRIVATE | Self::PROTECTED | Self::STATIC | Self::FINAL | Self::SYNCHRONIZED | Self::BRIDGE | Self::VARARGS | Self::NATIVE | Self::ABSTRACT | Self::STRICT | Self::SYNTHETIC,
    {
        assert(0x1DFFu16 == (0x0001u16 | 0x0002u16 | 0x0004u16 | 0x0008u16 | 0x0010u16 | 0x0020u16 | 0x0040u16 | 0x0080u16 | 0x0100u16 | 0x0400u16 | 0x0800u16 | 0x1000u16)) by (bit_vector);
    }

    /// The set of no flags.
    pub fn empty() -> (r: Self)
        ensures
            r.bits == 0,
    {
        MethodAccessFlags { bits: 0 }
    }

    /// The set with the given bits, if each of them is a flag this set defines.
    pub fn from_bits(bits: u16) -> (r: Option<Self>)
        ensures
            bits & !Self::known() == 0 ==> (r matches Some(f) && f.bits == bits),
            bits & !Self::known() != 0 ==> r is None,
            (r is Some) == (bits & !(Self::PUBLIC | Self::PRIVATE | Self::PROTECTED | Self::STATIC | Self::FINAL | Self::SYNCHRONIZED | Self::BRIDGE | Self::VARARGS | Self::NATIVE | Self::ABSTRACT | Self::STRICT | Self::SYNTHETIC) == 0),
    {
        proof {
            Self::lemma_known_flags();
        }
        if bits & !0x1DFFu16 == 0 {
            Some(MethodAccessFlags { bits })
        } else {
            None
        }
    }

    /// The bits of the set.
    pub fn bits(&self) -> (r: u16)
        ensures
            r == self.bits,
    {
        self.bits
    }

    /// Whether every flag of `flags` is in the set.
    pub fn contains(&self, flags: u16) -> (r: bool)
        ensures
            r == (self.bits & flags == flags),
    {
        self.bits & flags == flags
    }
}

/// The flags of a field (JVMS 4.5).
#[derive(Debug, Default, Clone, Copy, PartialEq, Eq, Hash)]
pub struct FieldAccessFlags {
    /// The flags, one bit each.
    pub bits: u16,
}

impl FieldAccessFlags {
    pub const PUBLIC: u16 = 0x0001;
    pub const PRIVATE: u16 = 0x0002;
    pub const PROTECTED: u16 = 0x0004;
    pub const STATIC: u16 = 0x0008;
    pub const FINAL: u16 = 0x0010;
    pub const VOLATILE: u16 = 0x0040;
    pub const TRANSIENT: u16 = 0x0080;
    pub const SYNTHETIC: u16 = 0x1000;
    pub const ENUM: u16 = 0x4000;

    /// Every flag this set defines.
    pub open spec fn known() -> u16 {
        0x50DFu16
    }

    /// The flags this set admits are exactly its named flags, taken
    /// together.
    pub proof fn lemma_known_flags()
        ensures
            Self::known() == Self::PUBLIC | Self::PRIVATE | Self::PROTECTED | Self::STATIC | Self::FINAL | Self::VOLATILE | Self::TRANSIENT | Self::SYNTHETIC | Self::ENUM,
    {
        assert(0x50DFu16 == (0x0001u16 | 0x0002u16 | 0x0004u16 | 0x0008u16 | 0x0010u16 | 0x0040u16 | 0x0080u16 | 0x1000u16 | 0x4000u16)) by (bit_vector);
    }

    /// The set of no flags.
    pub fn empty() -> (r: Self)
        ensures
            r.bits == 0,
    {
        FieldAccessFlags { bits: 0 }
    }

    /// The set with the given bits, if each of them is a flag this set defines.
    pub fn from_bits(bits: u16) -> (r: Option<Self>)
        ensures
            bits & !Self::known() == 0 ==> (r matches Some(f) && f.bits == bits),
            bits & !Self::known() != 0 ==> r is None,
            (r is Some) == (bits & !(Self::PUBLIC | Self::PRIVATE | Self::PROTECTED | Self::STATIC | Self::FINAL | Self::VOLATILE | Self::TRANSIENT | Self::SYNTHETIC | Self::ENUM) == 0),
    {
        proof {
            Self::lemma_known_flags();
        }
        if bits & !0x50DFu16 == 0 {
            Some(FieldAccessFlags { bits })
        } else {
            None
        }
    }

    /// The bits of the set.
    pub fn bits(&self) -> (r: u16)
        ensures
            r == self.bits,
    {
        self.bits
    }

    /// Whether every flag of `flags` is in the set.
    pub fn contains(&self, flags: u16) -> (r: bool)
        ensures
            r == (self.bits & flags == flags),
    {
        self.bits & flags == flags
    }
}

/// The flags of an inner class (JVMS 4.7.6).
#[derive(Debug, Default, Clone, Copy, PartialEq, Eq, Hash)]
pub struct InnerClassAccessFlags {
    /// The flags, one bit each.
    pub bits: u16,
}

impl InnerClassAccessFlags {
    pub const PUBLIC: u16 = 0x0001;
    pub const PRIVATE: u16 = 0x0002;
    pub const PROTECTED: u16 = 0x0004;
    pub const STATIC: u16 = 0x0008;
    pub const FINAL: u16 = 0x0010;
    pub const INTERFACE: u16 = 0x0200;
    pub const ABSTRACT: u16 = 0x0400;
    pub const SYNTHETIC: u16 = 0x1000;
    pub const ANNOTATION: u16 = 0x2000;
    pub const ENUM: u16 = 0x4000;

    /// Every flag this set defines.
    pub open spec fn known() -> u16 {
        0x761Fu16
    }

    /// The flags this set admits are exactly its named flags, taken
    /// together.
    pub proof fn lemma_known_flags()
        ensures
            Self::known() == Self::PUBLIC | Self::PRIVATE | Self::PROTECTED | Self::STATIC | Self::FINAL | Self::INTERFACE | Self::ABSTRACT | Self::SYNTHETIC | Self::ANNOTATION | Self::ENUM,
    {
        assert(0x761Fu16 == (0x0001u16 | 0x0002u16 | 0x0004u16 | 0x0008u16 | 0x0010u16 | 0x0200u16 | 0x0400u16 | 0x1000u16 | 0x2000u16 | 0x4000u16)) by (bit_vector);
    }

    /// The set of no flags.
    pub fn empty() -> (r: Self)
        ensures
            r.bits == 0,
    {
        InnerClassAccessFlags { bits: 0 }
    }

    /// The set with the given bits, if each of them is a flag this set defines.
    pub fn from_bits(bits: u16) -> (r: Option<Self>)
        ensures
            bits & !Self::known() == 0 ==> (r matches Some(f) && f.bits == bits),
            bits & !Self::known() != 0 ==> r is None,
            (r is Some) == (bits & !(Self::PUBLIC | Self::PRIVATE | Self::PROTECTED | Self::STATIC | Self::FINAL | Self::INTERFACE | Self::ABSTRACT | Self::SYNTHETIC | Self::ANNOTATION | Self::ENUM) == 0),
    {
        proof {
            Self::lemma_known_flags();
        }
        if bits & !0x761Fu16 == 0 {
            Some(InnerClassAccessFlags { bits })
        } else {
            None
        }
    }

    /// The bits of the set.
    pub fn bits(&self) -> (r: u16)
        ensures
            r == self.bits,
    {
        self.bits
    }

    /// Whether every flag of `flags` is in the set.
    pub fn contains(&self, flags: u16) -> (r: bool)
        ensures
            r == (self.bits & flags == flags),
    {
        self.bits & flags == flags
    }
}

/// The flags of a method parameter (JVMS 4.7.24).
#[derive(Debug, Default, Clone, Copy, PartialEq, Eq, Hash)]
pub struct MethodParamAccessFlags {
    /// The flags, one bit each.
    pub bits: u16,
}

impl MethodParamAccessFlags {
    pub const FINAL: u16 = 0x0010;
    pub const SYNTHETIC: u16 = 0x1000;
    pub const MANDATED: u16 = 0x8000;

    /// Every flag this set defines.
    pub open spec fn known() -> u16 {
        0x9010u16
    }

    /// The flags this set admits are exactly its named flags, taken
    /// together.
    pub proof fn lemma_known_flags()
        ensures
            Self::known() == Self::FINAL | Self::SYNTHETIC | Self::MANDATED,
    {
        assert(0x9010u16 == (0x0010u16 | 0x1000u16 | 0x8000u16)) by (bit_vector);
    }

    /// The set of no flags.
    pub fn empty() -> (r: Self)
        ensures
            r.bits == 0,
    {
        MethodParamAccessFlags { bits: 0 }
    }

    /// The set with the given bits, if each of them is a flag this set defines.
    pub fn from_bits(bits: u16) -> (r: Option<Self>)
        ensures
            bits & !Self::known() == 0 ==> (r matches Some(f) && f.bits == bits),
            bits & !Self::known() != 0 ==> r is None,
            (r is Some) == (bits & !(Self::FINAL | Self::SYNTHETIC | Self::MANDATED) == 0),
    {
        proof {
            Self::lemma_known_flags();
        }
        if bits & !0x9010u16 == 0 {
            Some(MethodParamAccessFlags { bits })
        } else {
            None
        }
    }

    /// The bits of the set.
    pub fn bits(&self) -> (r: u16)
        ensures
            r == self.bits,
    {
        self.bits
    }

    /// Whether every flag of `flags` is in the set.
    pub fn contains(&self, flags: u16) -> (r: bool)
        ensures
            r == (self.bits & flags == flags),
    {
        self.bits & flags == flags
    }
}

/// The flags of a module (JVMS 4.7.25).
#[derive(Debug, Default, Clone, Copy, PartialEq, Eq, Hash)]
pub struct ModuleFlags {
    /// The flags, one bit each.
    pub bits: u16,
}

impl ModuleFlags {
    pub const OPEN: u16 = 0x0020;
    pub const SYNTHETIC: u16 = 0x1000;
    pub const MANDATED: u16 = 0x8000;

    /// Every flag this set defines.
    pub open spec fn known() -> u16 {
        0x9020u16
    }

    /// The flags this set admits are exactly its named flags, taken
    /// together.
    pub proof fn lemma_known_flags()
        ensures
            Self::known() == Self::OPEN | Self::SYNTHETIC | Self::MANDATED,
    {
        assert(0x9020u16 == (0x0020u16 | 0x1000u16 | 0x8000u16)) by (bit_vector);
    }

    /// The set of no flags.
    pub fn empty() -> (r: Self)
        ensures
            r.bits == 0,
    {
        ModuleFlags { bits: 0 }
    }

    /// The set with the given bits, if each of them is a flag this set defines.
    pub fn from_bits(bits: u16) -> (r: Option<Self>)
        ensures
            bits & !Self::known() == 0 ==> (r matches Some(f) && f.bits == bits),
            bits & !Self::known() != 0 ==> r is None,
            (r is Some) == (bits & !(Self::OPEN | Self::SYNTHETIC | Self::MANDATED) == 0),
    {
        proof {
            Self::lemma_known_flags();
        }
        if bits & !0x9020u16 == 0 {
            Some(ModuleFlags { bits })
        } else {
            None
        }
    }

    /// The bits of the set.
    pub fn bits(&self) -> (r: u16)
        ensures
            r == self.bits,
    {
        self.bits
    }

    /// Whether every flag of `flags` is in the set.
    pub fn contains(&self, flags: u16) -> (r: bool)
        ensures
            r == (self.bits & flags == flags),
    {
        self.bits & flags == flags
    }
}

/// The flags of a module dependence (JVMS 4.7.25).
#[derive(Debug, Default, Clone, Copy, PartialEq, Eq, Hash)]
pub struct RequiresFlags {
    /// The flags, one bit each.
    pub bits: u16,
}

impl RequiresFlags {
    pub const TRANSITIVE: u16 = 0x0020;
    pub const STATIC_PHASE: u16 = 0x0040;
    pub const SYNTHETIC: u16 = 0x1000;
    pub const MANDATED: u16 = 0x8000;

    /// Every flag this set defines.
    pub open spec fn known() -> u16 {
        0x9060u16
    }

    /// The flags this set admits are exactly its named flags, taken
    /// together.
    pub proof fn lemma_known_flags()
        ensures
            Self::known() == Self::TRANSITIVE | Self::STATIC_PHASE | Self::SYNTHETIC | Self::MANDATED,
    {
        assert(0x9060u16 == (0x0020u16 | 0x0040u16 | 0x1000u16 | 0x8000u16)) by (bit_vector);
    }

    /// The set of no flags.
    pub fn empty() -> (r: Self)
        ensures
            r.bits == 0,
    {
        RequiresFlags { bits: 0 }
    }

    /// The set with the given bits, if each of them is a flag this set defines.
    pub fn from_bits(bits: u16) -> (r: Option<Self>)
        ensures
            bits & !Self::known() == 0 ==> (r matches Some(f) && f.bits == bits),
            bits & !Self::known() != 0 ==> r is None,
            (r is Some) == (bits & !(Self::TRANSITIVE | Self::STATIC_PHASE | Self::SYNTHETIC | Self::MANDATED) == 0),
    {
        proof {
            Self::lemma_known_flags();
        }
        if bits & !0x9060u16 == 0 {
            Some(RequiresFlags { bits })
        } else {
            None
        }
    }

    /// The bits of the set.
    pub fn bits(&self) -> (r: u16)
        ensures
            r == self.bits,
    {
        self.bits
    }

    /// Whether every flag of `flags` is in the set.
    pub fn contains(&self, flags: u16) -> (r: bool)
        ensures
            r == (self.bits & flags == flags),
    {
        self.bits & flags == flags
    }
}

/// The flags of an exported package (JVMS 4.7.25).
#[derive(Debug, Default, Clone, Copy, PartialEq, Eq, Hash)]
pub struct ExportFlags {
    /// The flags, one bit each.
    pub bits: u16,
}

impl ExportFlags {
    pub const SYNTHETIC: u16 = 0x1000;
    pub const MANDATED: u16 = 0x8000;

    /// Every flag this set defines.
    pub open spec fn known() -> u16 {
        0x9000u16
    }

    /// The flags this set admits are exactly its named flags, taken
    /// together.
    pub proof fn lemma_known_flags()
        ensures
            Self::known() == Self::SYNTHETIC | Self::MANDATED,
    {
        assert(0x9000u16 == (0x1000u16 | 0x8000u16)) by (bit_vector);
    }

    /// The set of no flags.
    pub fn empty() -> (r: Self)
        ensures
            r.bits == 0,
    {
        ExportFlags { bits: 0 }
    }

    /// The set with the given bits, if each of them is a flag this set defines.
    pub fn from_bits(bits: u16) -> (r: Option<Self>)
        ensures
            bits & !Self::known() == 0 ==> (r matches Some(f) && f.bits == bits),
            bits & !Self::known() != 0 ==> r is None,
            (r is Some) == (bits & !(Self::SYNTHETIC | Self::MANDATED) == 0),
    {
        proof {
            Self::lemma_known_flags();
        }
        if bits & !0x9000u16 == 0 {
            Some(ExportFlags { bits })
        } else {
            None
        }
    }

    /// The bits of the set.
    pub fn bits(&self) -> (r: u16)
        ensures
            r == self.bits,
    {
        self.bits
    }

    /// Whether every flag of `flags` is in the set.
    pub fn contains(&self, flags: u16) -> (r: bool)
        ensures
            r == (self.bits & flags == flags),
    {
        self.bits & flags == flags
    }
}

/// The flags of an opened package (JVMS 4.7.25).
#[derive(Debug, Default, Clone, Copy, PartialEq, Eq, Hash)]
pub struct OpenFlags {
    /// The flags, one bit each.
    pub bits: u16,
}

impl OpenFlags {
    pub const SYNTHETIC: u16 = 0x1000;
    pub const MANDATED: u16 = 0x8000;

    /// Every flag this set defines.
    pub open spec fn known() -> u16 {
        0x9000u16
    }

    /// The flags this set admits are exactly its named flags, taken
    /// together.
    pub proof fn lemma_known_flags()
        ensures
            Self::known() == Self::SYNTHETIC | Self::MANDATED,
    {
        assert(0x9000u16 == (0x1000u16 | 0x8000u16)) by (bit_vector);
    }

    /// The set of no flags.
    pub fn empty() -> (r: Self)
        ensures
            r.bits == 0,
    {
        OpenFlags { bits: 0 }
    }

    /// The set with the given bits, if each of them is a flag this set defines.
    pub fn from_bits(bits: u16) -> (r: Option<Self>)
        ensures
            bits & !Self::known() == 0 ==> (r matches Some(f) && f.bits == bits),
            bits & !Self::known() != 0 ==> r is None,
            (r is Some) == (bits & !(Self::SYNTHETIC | Self::MANDATED) == 0),
    {
        proof {
            Self::lemma_known_flags();
        }
        if bits & !0x9000u16 == 0 {
            Some(OpenFlags { bits })
        } else {
            None
        }
    }

    /// The bits of the set.
    pub fn bits(&self) -> (r: u16)
        ensures
            r == self.bits,
    {
        self.bits
    }

    /// Whether every flag of `flags` is in the set.
    pub fn contains(&self, flags: u16) -> (r: bool)
        ensures
            r == (self.bits & flags == flags),
    {
        self.bits & flags == flags
    }
}

} // verus!
