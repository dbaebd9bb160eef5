//! Decoding of the attributes of a class file that describe its nesting,
//! its bootstrap methods and its module (JVMS 4.7.6, 4.7.23, 4.7.25 to 4.7.29).
use vstd::prelude::*;
use crate::attribute::{
    BootstrapMethod, BootstrapMethods, Exports, InnerClassInfo, InnerClasses, Module,
    ModulePackages, ModuleView, Opens, Provides, Requires,
};
use crate::class_reader::{ClassReader, read_as, read_vec_as};
use crate::constant_pool::{ConstantPool, is_utf8_at, is_class_at, is_package_at, is_module_at};
use crate::constant::ConstantView;
use crate::decode::{
    sp_u16, repeat, lemma_repeat_err, sp_counted, views, u16_decoder, Decoded, Decoder,
};
use crate::error::ParseError;
use crate::flags::{
    ExportFlags, InnerClassAccessFlags, ModuleFlags, OpenFlags, RequiresFlags,
};
use crate::pool_reader::sp_index;

verus! {

pub open spec fn index_decoder() -> Decoder<usize> {
    |s: Seq<u8>, p: int| sp_index(s, p)
}

/// Decodes the index of a `Class` constant of `cp`.
pub open spec fn sp_class_index(cp: Seq<ConstantView>, s: Seq<u8>, p: int) -> Decoded<usize> {
    match sp_u16(s, p) {
        Err(e) => Err(e),
        Ok((x, q)) => if !is_class_at(cp, x as int) {
            Err(ParseError::InvalidIndex)
        } else {
            Ok((x as usize, q))
        },
    }
}

pub open spec fn class_index_decoder(cp: Seq<ConstantView>) -> Decoder<usize> {
    |s: Seq<u8>, p: int| sp_class_index(cp, s, p)
}

/// Decodes the index of a `Package` constant of `cp`.
pub open spec fn sp_package_index(cp: Seq<ConstantView>, s: Seq<u8>, p: int) -> Decoded<usize> {
    match sp_u16(s, p) {
        Err(e) => Err(e),
        Ok((x, q)) => if !is_package_at(cp, x as int) {
            Err(ParseError::InvalidIndex)
        } else {
            Ok((x as usize, q))
        },
    }
}

pub open spec fn package_index_decoder(cp: Seq<ConstantView>) -> Decoder<usize> {
    |s: Seq<u8>, p: int| sp_package_index(cp, s, p)
}

/// Decodes the `u16` index of a `Package` constant of `cp`.
pub open spec fn sp_package_u16(cp: Seq<ConstantView>, s: Seq<u8>, p: int) -> Decoded<u16> {
    match sp_u16(s, p) {
        Err(e) => Err(e),
        Ok((x, q)) => if !is_package_at(cp, x as int) {
            Err(ParseError::InvalidIndex)
        } else {
            Ok((x, q))
        },
    }
}

pub open spec fn package_u16_decoder(cp: Seq<ConstantView>) -> Decoder<u16> {
    |s: Seq<u8>, p: int| sp_package_u16(cp, s, p)
}

/// Decodes a bootstrap method: its method handle and its counted arguments.
pub open spec fn sp_bootstrap_method(s: Seq<u8>, p: int) -> Decoded<(u16, Seq<u16>)> {
    match sp_u16(s, p) {
        Err(e) => Err(e),
        Ok((m, q)) => match sp_counted(u16_decoder(), s, q) {
            Ok((args, r)) => Ok(((m, args), r)),
            Err(e) => Err(e),
        },
    }
}

pub open spec fn bootstrap_decoder() -> Decoder<(u16, Seq<u16>)> {
    |s: Seq<u8>, p: int| sp_bootstrap_method(s, p)
}

/// Decodes an inner class entry. A nonzero inner class index must be a
/// `Class` constant; a nonzero outer class index is accepted exactly when
/// the inner class index is a `Class` constant; a nonzero name index must be a
/// UTF8 constant; the flags must be inner class flags.
pub open spec fn sp_inner_class(cp: Seq<ConstantView>, s: Seq<u8>, p: int) -> Decoded<InnerClassInfo> {
    match sp_u16(s, p) {
        Err(e) => Err(e),
        Ok((inner, q1)) => if inner != 0 && !is_class_at(cp, inner as int) {
            Err(ParseError::InvalidIndex)
        } else {
            match sp_u16(s, q1) {
                Err(e) => Err(e),
                Ok((outer, q2)) => if outer != 0 && !is_class_at(cp, inner as int) {
                    Err(ParseError::InvalidIndex)
                } else {
                    match sp_u16(s, q2) {
                        Err(e) => Err(e),
                        Ok((name, q3)) => if name != 0 && !is_utf8_at(cp, name as int) {
                            Err(ParseError::InvalidIndex)
                        } else {
                            match sp_u16(s, q3) {
                                Err(e) => Err(e),
                                Ok((bits, q4)) => if bits & !InnerClassAccessFlags::known() != 0 {
                                    Err(ParseError::InvalidFlags)
                                } else {
                                    Ok(
                                        (
                                            InnerClassInfo {
                                                inner_class_info_index: inner as usize,
                                                outer_class_info_index: outer as usize,
                                                inner_name_index: name as usize,
                                                inner_class_access_flags: InnerClassAccessFlags {
                                                    bits,
                                                },
                                            },
                                            q4,
                                        ),
                                    )
                                },
                            }
                        },
                    }
                },
            }
        },
    }
}

pub open spec fn inner_class_decoder(cp: Seq<ConstantView>) -> Decoder<InnerClassInfo> {
    |s: Seq<u8>, p: int| sp_inner_class(cp, s, p)
}

/// Decodes a module dependence: a `Module` constant, requires flags, and a
/// UTF8 version.
pub open spec fn sp_requires(cp: Seq<ConstantView>, s: Seq<u8>, p: int) -> Decoded<Requires> {
    match sp_u16(s, p) {
        Err(e) => Err(e),
        Ok((idx, q1)) => if !is_module_at(cp, idx as int) {
            Err(ParseError::InvalidIndex)
        } else {
            match sp_u16(s, q1) {
                Err(e) => Err(e),
                Ok((bits, q2)) => if bits & !RequiresFlags::known() != 0 {
                    Err(ParseError::InvalidFlags)
                } else {
                    match sp_u16(s, q2) {
                        Err(e) => Err(e),
                        Ok((ver, q3)) => if !is_utf8_at(cp, ver as int) {
                            Err(ParseError::InvalidIndex)
                        } else {
                            Ok(
                                (
                                    Requires {
                                        requires_index: idx as usize,
                                        requires_flags: RequiresFlags { bits },
                                        requires_ver_index: ver as usize,
                                    },
                                    q3,
                                ),
                            )
                        },
                    }
                },
            }
        },
    }
}

pub open spec fn requires_decoder(cp: Seq<ConstantView>) -> Decoder<Requires> {
    |s: Seq<u8>, p: int| sp_requires(cp, s, p)
}

/// Decodes an exported package: a `Package` constant, export flags, and the
/// counted `Package` constants it is exported to.
pub open spec fn sp_exports(cp: Seq<ConstantView>, s: Seq<u8>, p: int) -> Decoded<(usize, ExportFlags, Seq<usize>)> {
    match sp_u16(s, p) {
        Err(e) => Err(e),
        Ok((idx, q1)) => if !is_package_at(cp, idx as int) {
            Err(ParseError::InvalidIndex)
        } else {
            match sp_u16(s, q1) {
                Err(e) => Err(e),
                Ok((bits, q2)) => if bits & !ExportFlags::known() != 0 {
                    Err(ParseError::InvalidFlags)
                } else {
                    match sp_counted(package_index_decoder(cp), s, q2) {
                        Ok((to, q3)) => Ok(((idx as usize, ExportFlags { bits }, to), q3)),
                        Err(e) => Err(e),
                    }
                },
            }
        },
    }
}

pub open spec fn exports_decoder(cp: Seq<ConstantView>) -> Decoder<(usize, ExportFlags, Seq<usize>)> {
    |s: Seq<u8>, p: int| sp_exports(cp, s, p)
}

/// Decodes an opened package: a `Package` constant, open flags, and the
/// counted `Package` constants it is opened to.
pub open spec fn sp_opens(cp: Seq<ConstantView>, s: Seq<u8>, p: int) -> Decoded<(usize, OpenFlags, Seq<u16>)> {
    match sp_u16(s, p) {
        Err(e) => Err(e),
        Ok((idx, q1)) => if !is_package_at(cp, idx as int) {
            Err(ParseError::InvalidIndex)
        } else {
            match sp_u16(s, q1) {
                Err(e) => Err(e),
                Ok((bits, q2)) => if bits & !OpenFlags::known() != 0 {
                    Err(ParseError::InvalidFlags)
                } else {
                    match sp_counted(package_u16_decoder(cp), s, q2) {
                        Ok((to, q3)) => Ok(((idx as usize, OpenFlags { bits }, to), q3)),
                        Err(e) => Err(e),
                    }
                },
            }
        },
    }
}

pub open spec fn opens_decoder(cp: Seq<ConstantView>) -> Decoder<(usize, OpenFlags, Seq<u16>)> {
    |s: Seq<u8>, p: int| sp_opens(cp, s, p)
}

/// Decodes a provided service: a `Class` constant and the counted `Class`
/// constants of its implementations.
pub open spec fn sp_provides(cp: Seq<ConstantView>, s: Seq<u8>, p: int) -> Decoded<(usize, Seq<usize>)> {
    match sp_u16(s, p) {
        Err(e) => Err(e),
        Ok((idx, q1)) => if !is_class_at(cp, idx as int) {
            Err(ParseError::InvalidIndex)
        } else {
            match sp_counted(class_index_decoder(cp), s, q1) {
                Ok((with, q2)) => Ok(((idx as usize, with), q2)),
                Err(e) => Err(e),
            }
        },
    }
}

pub open spec fn provides_decoder(cp: Seq<ConstantView>) -> Decoder<(usize, Seq<usize>)> {
    |s: Seq<u8>, p: int| sp_provides(cp, s, p)
}

/// Decodes a `Module` attribute: the module's name, flags and version, then
/// its counted requires, exports, opens, uses and provides.
pub open spec fn sp_module(cp: Seq<ConstantView>, s: Seq<u8>, p: int) -> Decoded<ModuleView> {
    match sp_u16(s, p) {
        Err(e) => Err(e),
        Ok((name, q1)) => match sp_u16(s, q1) {
            Err(e) => Err(e),
            Ok((bits, q2)) => if bits & !ModuleFlags::known() != 0 {
                Err(ParseError::InvalidFlags)
            } else {
                match sp_u16(s, q2) {
                    Err(e) => Err(e),
                    Ok((ver, q3)) => match sp_counted(requires_decoder(cp), s, q3) {
                        Err(e) => Err(e),
                        Ok((reqs, q4)) => match sp_counted(exports_decoder(cp), s, q4) {
                            Err(e) => Err(e),
                            Ok((exports, q5)) => match sp_counted(opens_decoder(cp), s, q5) {
                                Err(e) => Err(e),
                                Ok((opens, q6)) => match sp_counted(class_index_decoder(cp), s, q6) {
                                    Err(e) => Err(e),
                                    Ok((uses, q7)) => match sp_counted(provides_decoder(cp), s, q7) {
                                        Err(e) => Err(e),
                                        Ok((provides, q8)) => Ok(
                                            (
                                                ModuleView {
                                                    module_name_index: name as usize,
                                                    module_flags: ModuleFlags { bits },
                                                    module_ver_index: ver as usize,
                                                    requires: reqs,
                                                    exports,
                                                    opens,
                                                    uses,
                                                    provides,
                                                },
                                                q8,
                                            ),
                                        ),
                                    },
                                },
                            },
                        },
                    },
                }
            },
        },
    }
}

impl ClassReader {
    /// Reads the index of a `Class` constant.
    pub(crate) fn read_class_index(&mut self, cp: &ConstantPool) -> (r: Result<usize, ParseError>)
        ensures
            read_as(*old(self), *final(self), r, sp_class_index(cp@, old(self).bytes@, old(self).pos as int)),
    {
        let class = match self.read_u16() {
            Ok(x) => x as usize,
            Err(e) => {
                return Err(e);
            },
        };
        if !cp.is_class(class) {
            return Err(ParseError::InvalidIndex);
        }
        Ok(class)
    }

    /// Reads the index of a `Package` constant.
    fn read_package_index(&mut self, cp: &ConstantPool) -> (r: Result<usize, ParseError>)
        ensures
            read_as(*old(self), *final(self), r, sp_package_index(cp@, old(self).bytes@, old(self).pos as int)),
    {
        let index = match self.read_u16() {
            Ok(x) => x as usize,
            Err(e) => {
                return Err(e);
            },
        };
        if !cp.is_package(index) {
            return Err(ParseError::InvalidIndex);
        }
        Ok(index)
    }

    /// Reads the `u16` index of a `Package` constant.
    fn read_package_u16(&mut self, cp: &ConstantPool) -> (r: Result<u16, ParseError>)
        ensures
            read_as(*old(self), *final(self), r, sp_package_u16(cp@, old(self).bytes@, old(self).pos as int)),
    {
        let const_index = match self.read_u16() {
            Ok(x) => x,
            Err(e) => {
                return Err(e);
            },
        };
        if !cp.is_package(const_index as usize) {
            return Err(ParseError::InvalidIndex);
        }
        Ok(const_index)
    }

    /// Reads an index.
    fn read_index(&mut self) -> (r: Result<usize, ParseError>)
        ensures
            read_as(*old(self), *final(self), r, sp_index(old(self).bytes@, old(self).pos as int)),
    {
        match self.read_u16() {
            Ok(i) => Ok(i as usize),
            Err(e) => Err(e),
        }
    }

    /// Reads and interprets the next bytes as the class' list of interface indices.
    pub fn parse_interfaces(&mut self) -> (r: Result<Vec<usize>, ParseError>)
        ensures
            read_as(*old(self), *final(self), r, sp_counted(index_decoder(), old(self).bytes@, old(self).pos as int)),
    {
        let ghost s = self.bytes@;
        let ghost p_start = self.pos as int;
        let table_len: u16 = match self.read_u16() {
            Ok(n) => n,
            Err(e) => {
                return Err(e);
            },
        };
        let ghost p0 = self.pos as int;
        let mut table: Vec<usize> = Vec::new();
        let mut i: u16 = 0;
        
        while i < table_len
            invariant
                self.bytes@ == s,
                s == old(self).bytes@,
                p_start == old(self).pos,
                sp_counted(index_decoder(), s, p_start) == repeat(index_decoder(), s, p0, table_len as nat),
                0 <= i <= table_len,
                repeat(index_decoder(), s, p0, i as nat) == Ok::<(Seq<usize>, int), ParseError>(
                    (table@, self.pos as int),
                ),
            decreases table_len - i,
        {
            let ghost prev = table@;
            match self.read_index() {
                Ok(entry) => {
                    table.push(entry);
                    
                },
                Err(e) => {
                    proof {
                        assert(repeat(index_decoder(), s, p0, (i + 1) as nat) == Err::<(Seq<usize>, int), ParseError>(e));
                        lemma_repeat_err(index_decoder(), s, p0, (i + 1) as nat, table_len as nat);
                    }
                    return Err(e);
                },
            }
            i += 1;
        }
        Ok(table)
    }
    /// Reads the next `length` indices, each that of a `Class` constant.
    pub fn read_classes(&mut self, length: usize, cp: &ConstantPool) -> (r: Result<Vec<usize>, ParseError>)
        ensures
            read_as(*old(self), *final(self), r, repeat(class_index_decoder(cp@), old(self).bytes@, old(self).pos as int, length as nat)),
    {
        let ghost s = self.bytes@;
        let ghost p_start = self.pos as int;
        let table_len: usize = match Ok::<usize, ParseError>(length) {
            Ok(n) => n,
            Err(e) => {
                return Err(e);
            },
        };
        let ghost p0 = self.pos as int;
        let mut table: Vec<usize> = Vec::new();
        let mut i: usize = 0;
        
        while i < table_len
            invariant
                self.bytes@ == s,
                s == old(self).bytes@,
                p_start == old(self).pos,
                repeat(class_index_decoder(cp@), s, p_start, length as nat) == repeat(class_index_decoder(cp@), s, p0, table_len as nat),
                0 <= i <= table_len,
                repeat(class_index_decoder(cp@), s, p0, i as nat) == Ok::<(Seq<usize>, int), ParseError>(
                    (table@, self.pos as int),
                ),
            decreases table_len - i,
        {
            let ghost prev = table@;
            match self.read_class_index(cp) {
                Ok(entry) => {
                    table.push(entry);
                    
                },
                Err(e) => {
                    proof {
                        assert(repeat(class_index_decoder(cp@), s, p0, (i + 1) as nat) == Err::<(Seq<usize>, int), ParseError>(e));
                        lemma_repeat_err(class_index_decoder(cp@), s, p0, (i + 1) as nat, table_len as nat);
                    }
                    return Err(e);
                },
            }
            i += 1;
        }
        Ok(table)
    }
    /// Reads and interprets the next bytes as a `ModulePackages` attribute.
    pub fn parse_module_pckgs_attr(&mut self, cp: &ConstantPool) -> (r: Result<ModulePackages, ParseError>)
        ensures
            read_as(*old(self), *final(self), r, sp_counted(package_index_decoder(cp@), old(self).bytes@, old(self).pos as int)),
    {
        let ghost s = self.bytes@;
        let ghost p_start = self.pos as int;
        let table_len: u16 = match self.read_u16() {
            Ok(n) => n,
            Err(e) => {
                return Err(e);
            },
        };
        let ghost p0 = self.pos as int;
        let mut table: Vec<usize> = Vec::new();
        let mut i: u16 = 0;
        
        while i < table_len
            invariant
                self.bytes@ == s,
                s == old(self).bytes@,
                p_start == old(self).pos,
                sp_counted(package_index_decoder(cp@), s, p_start) == repeat(package_index_decoder(cp@), s, p0, table_len as nat),
                0 <= i <= table_len,
                repeat(package_index_decoder(cp@), s, p0, i as nat) == Ok::<(Seq<usize>, int), ParseError>(
                    (table@, self.pos as int),
                ),
            decreases table_len - i,
        {
            let ghost prev = table@;
            match self.read_package_index(cp) {
                Ok(entry) => {
                    table.push(entry);
                    
                },
                Err(e) => {
                    proof {
                        assert(repeat(package_index_decoder(cp@), s, p0, (i + 1) as nat) == Err::<(Seq<usize>, int), ParseError>(e));
                        lemma_repeat_err(package_index_decoder(cp@), s, p0, (i + 1) as nat, table_len as nat);
                    }
                    return Err(e);
                },
            }
            i += 1;
        }
        Ok(ModulePackages(table))
    }
    /// Reads a bootstrap method.
    fn read_bootstrap_method(&mut self) -> (r: Result<BootstrapMethod, ParseError>)
        ensures
            read_as(*old(self), *final(self), r, sp_bootstrap_method(old(self).bytes@, old(self).pos as int)),
    {
        let btstr_mthd_ref = match self.read_u16() {
            Ok(x) => x,
            Err(e) => {
                return Err(e);
            },
        };
        let num_bts_args = match self.read_u16() {
            Ok(x) => x as usize,
            Err(e) => {
                return Err(e);
            },
        };
        match self.read_u16s(num_bts_args) {
            Ok(btstr_args) => Ok(BootstrapMethod { btstr_mthd_ref, btstr_args }),
            Err(e) => Err(e),
        }
    }

    /// Reads the entries of a `BootstrapMethods` attribute.
    fn read_bootstrap_methods(&mut self) -> (r: Result<BootstrapMethods, ParseError>)
        ensures
            read_as(*old(self), *final(self), r, sp_counted(bootstrap_decoder(), old(self).bytes@, old(self).pos as int)),
    {
        let ghost s = self.bytes@;
        let ghost p_start = self.pos as int;
        let table_len: u16 = match self.read_u16() {
            Ok(n) => n,
            Err(e) => {
                return Err(e);
            },
        };
        let ghost p0 = self.pos as int;
        let mut table: Vec<BootstrapMethod> = Vec::new();
        let mut i: u16 = 0;
        proof { assert(views(table@) =~= Seq::<(u16, Seq<u16>)>::empty()); }
        while i < table_len
            invariant
                self.bytes@ == s,
                s == old(self).bytes@,
                p_start == old(self).pos,
                sp_counted(bootstrap_decoder(), s, p_start) == repeat(bootstrap_decoder(), s, p0, table_len as nat),
                0 <= i <= table_len,
                repeat(bootstrap_decoder(), s, p0, i as nat) == Ok::<(Seq<(u16, Seq<u16>)>, int), ParseError>(
                    (views(table@), self.pos as int),
                ),
            decreases table_len - i,
        {
            let ghost prev = table@;
            match self.read_bootstrap_method() {
                Ok(entry) => {
                    table.push(entry);
                    proof { assert(views(table@) =~= views(prev).push(entry@)); }
                },
                Err(e) => {
                    proof {
                        assert(repeat(bootstrap_decoder(), s, p0, (i + 1) as nat) == Err::<(Seq<(u16, Seq<u16>)>, int), ParseError>(e));
                        lemma_repeat_err(bootstrap_decoder(), s, p0, (i + 1) as nat, table_len as nat);
                    }
                    return Err(e);
                },
            }
            i += 1;
        }
        Ok(BootstrapMethods(table))
    }
    /// Reads and interprets the next bytes as a `BootstrapMethods` attribute;
    /// a class may have only one.
    pub fn parse_btstrp_methods_attr(&mut self, btstr_parsed: &mut bool) -> (r: Result<BootstrapMethods, ParseError>)
        ensures
            *old(btstr_parsed) ==> r == Err::<BootstrapMethods, ParseError>(ParseError::InvalidAttribute) && *final(self) == *old(self),
            !*old(btstr_parsed) ==> *final(btstr_parsed) && read_as(*old(self), *final(self), r, sp_counted(bootstrap_decoder(), old(self).bytes@, old(self).pos as int)),
    {
        if *btstr_parsed {
            return Err(ParseError::InvalidAttribute);
        }
        *btstr_parsed = true;
        self.read_bootstrap_methods()
    }

    /// Reads an inner class entry.
    fn read_inner_class(&mut self, cp: &ConstantPool) -> (r: Result<InnerClassInfo, ParseError>)
        ensures
            read_as(*old(self), *final(self), r, sp_inner_class(cp@, old(self).bytes@, old(self).pos as int)),
    {
        // An index of 0 stands for an anonymous class, which has no entry.
        let inner_class_info_index = match self.read_u16() {
            Ok(x) => x as usize,
            Err(e) => {
                return Err(e);
            },
        };
        if inner_class_info_index != 0 && !cp.is_class(inner_class_info_index) {
            return Err(ParseError::InvalidIndex);
        }
        let outer_class_info_index = match self.read_u16() {
            Ok(x) => x as usize,
            Err(e) => {
                return Err(e);
            },
        };
        if outer_class_info_index != 0 && !cp.is_class(inner_class_info_index) {
            return Err(ParseError::InvalidIndex);
        }
        let inner_name_index = match self.read_u16() {
            Ok(x) => x as usize,
            Err(e) => {
                return Err(e);
            },
        };
        if inner_name_index != 0 {
            match Self::verify_utf8(cp, inner_name_index) {
                Ok(()) => {},
                Err(e) => {
                    return Err(e);
                },
            }
        }
        let access_flags = match self.read_u16() {
            Ok(x) => x,
            Err(e) => {
                return Err(e);
            },
        };
        match InnerClassAccessFlags::from_bits(access_flags) {
            Some(inner_class_access_flags) => Ok(
                InnerClassInfo {
                    inner_class_info_index,
                    outer_class_info_index,
                    inner_name_index,
                    inner_class_access_flags,
                },
            ),
            None => Err(ParseError::InvalidFlags),
        }
    }

    /// Reads and interprets the next bytes as an `InnerClasses` attribute.
    pub fn parse_inner_class_attr(&mut self, cp: &ConstantPool) -> (r: Result<InnerClasses, ParseError>)
        ensures
            read_as(*old(self), *final(self), r, sp_counted(inner_class_decoder(cp@), old(self).bytes@, old(self).pos as int)),
    {
        let ghost s = self.bytes@;
        let ghost p_start = self.pos as int;
        let table_len: u16 = match self.read_u16() {
            Ok(n) => n,
            Err(e) => {
                return Err(e);
            },
        };
        let ghost p0 = self.pos as int;
        let mut table: Vec<InnerClassInfo> = Vec::new();
        let mut i: u16 = 0;
        
        while i < table_len
            invariant
                self.bytes@ == s,
                s == old(self).bytes@,
                p_start == old(self).pos,
                sp_counted(inner_class_decoder(cp@), s, p_start) == repeat(inner_class_decoder(cp@), s, p0, table_len as nat),
                0 <= i <= table_len,
                repeat(inner_class_decoder(cp@), s, p0, i as nat) == Ok::<(Seq<InnerClassInfo>, int), ParseError>(
                    (table@, self.pos as int),
                ),
            decreases table_len - i,
        {
            let ghost prev = table@;
            match self.read_inner_class(cp) {
                Ok(entry) => {
                    table.push(entry);
                    
                },
                Err(e) => {
                    proof {
                        assert(repeat(inner_class_decoder(cp@), s, p0, (i + 1) as nat) == Err::<(Seq<InnerClassInfo>, int), ParseError>(e));
                        lemma_repeat_err(inner_class_decoder(cp@), s, p0, (i + 1) as nat, table_len as nat);
                    }
                    return Err(e);
                },
            }
            i += 1;
        }
        Ok(InnerClasses(table))
    }
    /// Reads and interprets the next bytes as a module dependence.
    pub fn parse_requires(&mut self, cp: &ConstantPool) -> (r: Result<Requires, ParseError>)
        ensures
            read_as(*old(self), *final(self), r, sp_requires(cp@, old(self).bytes@, old(self).pos as int)),
    {
        let requires_index = match self.read_u16() {
            Ok(x) => x as usize,
            Err(e) => {
                return Err(e);
            },
        };
        if !cp.is_module(requires_index) {
            return Err(ParseError::InvalidIndex);
        }
        let flag = match self.read_u16() {
            Ok(x) => x,
            Err(e) => {
                return Err(e);
            },
        };
        let requires_flags = match RequiresFlags::from_bits(flag) {
            Some(f) => f,
            None => {
                return Err(ParseError::InvalidFlags);
            },
        };
        let requires_ver_index = match self.read_u16() {
            Ok(x) => x as usize,
            Err(e) => {
                return Err(e);
            },
        };
        match Self::verify_utf8(cp, requires_ver_index) {
            Ok(()) => {},
            Err(e) => {
                return Err(e);
            },
        }
        Ok(Requires { requires_index, requires_flags, requires_ver_index })
    }

    /// Reads and interprets the next bytes as an exported package.
    pub fn parse_exports(&mut self, cp: &ConstantPool) -> (r: Result<Exports, ParseError>)
        ensures
            read_as(*old(self), *final(self), r, sp_exports(cp@, old(self).bytes@, old(self).pos as int)),
    {
        let exports_index = match self.read_u16() {
            Ok(x) => x as usize,
            Err(e) => {
                return Err(e);
            },
        };
        if !cp.is_package(exports_index) {
            return Err(ParseError::InvalidIndex);
        }
        let flag = match self.read_u16() {
            Ok(x) => x,
            Err(e) => {
                return Err(e);
            },
        };
        let exports_flags = match ExportFlags::from_bits(flag) {
            Some(f) => f,
            None => {
                return Err(ParseError::InvalidFlags);
            },
        };
        match self.read_package_indices(cp) {
            Ok(exports_to_index) => Ok(Exports { exports_index, exports_flags, exports_to_index }),
            Err(e) => Err(e),
        }
    }

    /// Reads and interprets the next bytes as an opened package.
    pub fn parse_opens(&mut self, cp: &ConstantPool) -> (r: Result<Opens, ParseError>)
        ensures
            read_as(*old(self), *final(self), r, sp_opens(cp@, old(self).bytes@, old(self).pos as int)),
    {
        let opens_index = match self.read_u16() {
            Ok(x) => x as usize,
            Err(e) => {
                return Err(e);
            },
        };
        if !cp.is_package(opens_index) {
            return Err(ParseError::InvalidIndex);
        }
        let flag = match self.read_u16() {
            Ok(x) => x,
            Err(e) => {
                return Err(e);
            },
        };
        let opens_flags = match OpenFlags::from_bits(flag) {
            Some(f) => f,
            None => {
                return Err(ParseError::InvalidFlags);
            },
        };
        match self.read_package_u16s(cp) {
            Ok(opens_to_index) => Ok(Opens { opens_index, opens_flags, opens_to_index }),
            Err(e) => Err(e),
        }
    }

    /// Reads and interprets the next bytes as a provided service.
    pub fn parse_provides(&mut self, cp: &ConstantPool) -> (r: Result<Provides, ParseError>)
        ensures
            read_as(*old(self), *final(self), r, sp_provides(cp@, old(self).bytes@, old(self).pos as int)),
    {
        let provides_index = match self.read_u16() {
            Ok(x) => x as usize,
            Err(e) => {
                return Err(e);
            },
        };
        if !cp.is_class(provides_index) {
            return Err(ParseError::InvalidIndex);
        }
        let provides_len = match self.read_u16() {
            Ok(x) => x as usize,
            Err(e) => {
                return Err(e);
            },
        };
        match self.read_classes(provides_len, cp) {
            Ok(provides_with_index) => Ok(Provides { provides_index, provides_with_index }),
            Err(e) => Err(e),
        }
    }

    /// Reads counted indices of `Package` constants.
    fn read_package_indices(&mut self, cp: &ConstantPool) -> (r: Result<Vec<usize>, ParseError>)
        ensures
            read_as(*old(self), *final(self), r, sp_counted(package_index_decoder(cp@), old(self).bytes@, old(self).pos as int)),
    {
        let ghost s = self.bytes@;
        let ghost p_start = self.pos as int;
        let table_len: u16 = match self.read_u16() {
            Ok(n) => n,
            Err(e) => {
                return Err(e);
            },
        };
        let ghost p0 = self.pos as int;
        let mut table: Vec<usize> = Vec::new();
        let mut i: u16 = 0;
        
        while i < table_len
            invariant
                self.bytes@ == s,
                s == old(self).bytes@,
                p_start == old(self).pos,
                sp_counted(package_index_decoder(cp@), s, p_start) == repeat(package_index_decoder(cp@), s, p0, table_len as nat),
                0 <= i <= table_len,
                repeat(package_index_decoder(cp@), s, p0, i as nat) == Ok::<(Seq<usize>, int), ParseError>(
                    (table@, self.pos as int),
                ),
            decreases table_len - i,
        {
            let ghost prev = table@;
            match self.read_package_index(cp) {
                Ok(entry) => {
                    table.push(entry);
                    
                },
                Err(e) => {
                    proof {
                        assert(repeat(package_index_decoder(cp@), s, p0, (i + 1) as nat) == Err::<(Seq<usize>, int), ParseError>(e));
                        lemma_repeat_err(package_index_decoder(cp@), s, p0, (i + 1) as nat, table_len as nat);
                    }
                    return Err(e);
                },
            }
            i += 1;
        }
        Ok(table)
    }
    /// Reads counted `u16` indices of `Package` constants.
    fn read_package_u16s(&mut self, cp: &ConstantPool) -> (r: Result<Vec<u16>, ParseError>)
        ensures
            read_as(*old(self), *final(self), r, sp_counted(package_u16_decoder(cp@), old(self).bytes@, old(self).pos as int)),
    {
        let ghost s = self.bytes@;
        let ghost p_start = self.pos as int;
        let table_len: u16 = match self.read_u16() {
            Ok(n) => n,
            Err(e) => {
                return Err(e);
            },
        };
        let ghost p0 = self.pos as int;
        let mut table: Vec<u16> = Vec::new();
        let mut i: u16 = 0;
        
        while i < table_len
            invariant
                self.bytes@ == s,
                s == old(self).bytes@,
                p_start == old(self).pos,
                sp_counted(package_u16_decoder(cp@), s, p_start) == repeat(package_u16_decoder(cp@), s, p0, table_len as nat),
                0 <= i <= table_len,
                repeat(package_u16_decoder(cp@), s, p0, i as nat) == Ok::<(Seq<u16>, int), ParseError>(
                    (table@, self.pos as int),
                ),
            decreases table_len - i,
        {
            let ghost prev = table@;
            match self.read_package_u16(cp) {
                Ok(entry) => {
                    table.push(entry);
                    
                },
                Err(e) => {
                    proof {
                        assert(repeat(package_u16_decoder(cp@), s, p0, (i + 1) as nat) == Err::<(Seq<u16>, int), ParseError>(e));
                        lemma_repeat_err(package_u16_decoder(cp@), s, p0, (i + 1) as nat, table_len as nat);
                    }
                    return Err(e);
                },
            }
            i += 1;
        }
        Ok(table)
    }
    /// Reads counted module dependences.
    fn read_requires_table(&mut self, cp: &ConstantPool) -> (r: Result<Vec<Requires>, ParseError>)
        ensures
            read_as(*old(self), *final(self), r, sp_counted(requires_decoder(cp@), old(self).bytes@, old(self).pos as int)),
    {
        let ghost s = self.bytes@;
        let ghost p_start = self.pos as int;
        let table_len: u16 = match self.read_u16() {
            Ok(n) => n,
            Err(e) => {
                return Err(e);
            },
        };
        let ghost p0 = self.pos as int;
        let mut table: Vec<Requires> = Vec::new();
        let mut i: u16 = 0;
        
        while i < table_len
            invariant
                self.bytes@ == s,
                s == old(self).bytes@,
                p_start == old(self).pos,
                sp_counted(requires_decoder(cp@), s, p_start) == repeat(requires_decoder(cp@), s, p0, table_len as nat),
                0 <= i <= table_len,
                repeat(requires_decoder(cp@), s, p0, i as nat) == Ok::<(Seq<Requires>, int), ParseError>(
                    (table@, self.pos as int),
                ),
            decreases table_len - i,
        {
            let ghost prev = table@;
            match self.parse_requires(cp) {
                Ok(entry) => {
                    table.push(entry);
                    
                },
                Err(e) => {
                    proof {
                        assert(repeat(requires_decoder(cp@), s, p0, (i + 1) as nat) == Err::<(Seq<Requires>, int), ParseError>(e));
                        lemma_repeat_err(requires_decoder(cp@), s, p0, (i + 1) as nat, table_len as nat);
                    }
                    return Err(e);
                },
            }
            i += 1;
        }
        Ok(table)
    }
    /// Reads counted exported packages.
    fn read_exports_table(&mut self, cp: &ConstantPool) -> (r: Result<Vec<Exports>, ParseError>)
        ensures
            read_vec_as(*old(self), *final(self), r, sp_counted(exports_decoder(cp@), old(self).bytes@, old(self).pos as int)),
    {
        let ghost s = self.bytes@;
        let ghost p_start = self.pos as int;
        let table_len: u16 = match self.read_u16() {
            Ok(n) => n,
            Err(e) => {
                return Err(e);
            },
        };
        let ghost p0 = self.pos as int;
        let mut table: Vec<Exports> = Vec::new();
        let mut i: u16 = 0;
        proof { assert(views(table@) =~= Seq::<(usize, ExportFlags, Seq<usize>)>::empty()); }
        while i < table_len
            invariant
                self.bytes@ == s,
                s == old(self).bytes@,
                p_start == old(self).pos,
                sp_counted(exports_decoder(cp@), s, p_start) == repeat(exports_decoder(cp@), s, p0, table_len as nat),
                0 <= i <= table_len,
                repeat(exports_decoder(cp@), s, p0, i as nat) == Ok::<(Seq<(usize, ExportFlags, Seq<usize>)>, int), ParseError>(
                    (views(table@), self.pos as int),
                ),
            decreases table_len - i,
        {
            let ghost prev = table@;
            match self.parse_exports(cp) {
                Ok(entry) => {
                    table.push(entry);
                    proof { assert(views(table@) =~= views(prev).push(entry@)); }
                },
                Err(e) => {
                    proof {
                        assert(repeat(exports_decoder(cp@), s, p0, (i + 1) as nat) == Err::<(Seq<(usize, ExportFlags, Seq<usize>)>, int), ParseError>(e));
                        lemma_repeat_err(exports_decoder(cp@), s, p0, (i + 1) as nat, table_len as nat);
                    }
                    return Err(e);
                },
            }
            i += 1;
        }
        Ok(table)
    }
    /// Reads counted opened packages.
    fn read_opens_table(&mut self, cp: &ConstantPool) -> (r: Result<Vec<Opens>, ParseError>)
        ensures
            read_vec_as(*old(self), *final(self), r, sp_counted(opens_decoder(cp@), old(self).bytes@, old(self).pos as int)),
    {
        let ghost s = self.bytes@;
        let ghost p_start = self.pos as int;
        let table_len: u16 = match self.read_u16() {
            Ok(n) => n,
            Err(e) => {
                return Err(e);
            },
        };
        let ghost p0 = self.pos as int;
        let mut table: Vec<Opens> = Vec::new();
        let mut i: u16 = 0;
        proof { assert(views(table@) =~= Seq::<(usize, OpenFlags, Seq<u16>)>::empty()); }
        while i < table_len
            invariant
                self.bytes@ == s,
                s == old(self).bytes@,
                p_start == old(self).pos,
                sp_counted(opens_decoder(cp@), s, p_start) == repeat(opens_decoder(cp@), s, p0, table_len as nat),
                0 <= i <= table_len,
                repeat(opens_decoder(cp@), s, p0, i as nat) == Ok::<(Seq<(usize, OpenFlags, Seq<u16>)>, int), ParseError>(
                    (views(table@), self.pos as int),
                ),
            decreases table_len - i,
        {
            let ghost prev = table@;
            match self.parse_opens(cp) {
                Ok(entry) => {
                    table.push(entry);
                    proof { assert(views(table@) =~= views(prev).push(entry@)); }
                },
                Err(e) => {
                    proof {
                        assert(repeat(opens_decoder(cp@), s, p0, (i + 1) as nat) == Err::<(Seq<(usize, OpenFlags, Seq<u16>)>, int), ParseError>(e));
                        lemma_repeat_err(opens_decoder(cp@), s, p0, (i + 1) as nat, table_len as nat);
                    }
                    return Err(e);
                },
            }
            i += 1;
        }
        Ok(table)
    }
    /// Reads counted provided services.
    fn read_provides_table(&mut self, cp: &ConstantPool) -> (r: Result<Vec<Provides>, ParseError>)
        ensures
            read_vec_as(*old(self), *final(self), r, sp_counted(provides_decoder(cp@), old(self).bytes@, old(self).pos as int)),
    {
        let ghost s = self.bytes@;
        let ghost p_start = self.pos as int;
        let table_len: u16 = match self.read_u16() {
            Ok(n) => n,
            Err(e) => {
                return Err(e);
            },
        };
        let ghost p0 = self.pos as int;
        let mut table: Vec<Provides> = Vec::new();
        let mut i: u16 = 0;
        proof { assert(views(table@) =~= Seq::<(usize, Seq<usize>)>::empty()); }
        while i < table_len
            invariant
                self.bytes@ == s,
                s == old(self).bytes@,
                p_start == old(self).pos,
                sp_counted(provides_decoder(cp@), s, p_start) == repeat(provides_decoder(cp@), s, p0, table_len as nat),
                0 <= i <= table_len,
                repeat(provides_decoder(cp@), s, p0, i as nat) == Ok::<(Seq<(usize, Seq<usize>)>, int), ParseError>(
                    (views(table@), self.pos as int),
                ),
            decreases table_len - i,
        {
            let ghost prev = table@;
            match self.parse_provides(cp) {
                Ok(entry) => {
                    table.push(entry);
                    proof { assert(views(table@) =~= views(prev).push(entry@)); }
                },
                Err(e) => {
                    proof {
                        assert(repeat(provides_decoder(cp@), s, p0, (i + 1) as nat) == Err::<(Seq<(usize, Seq<usize>)>, int), ParseError>(e));
                        lemma_repeat_err(provides_decoder(cp@), s, p0, (i + 1) as nat, table_len as nat);
                    }
                    return Err(e);
                },
            }
            i += 1;
        }
        Ok(table)
    }
    /// Reads and interprets the next bytes as a `Module` attribute.
    pub fn parse_module_attr(&mut self, cp: &ConstantPool) -> (r: Result<Module, ParseError>)
        ensures
            read_as(*old(self), *final(self), r, sp_module(cp@, old(self).bytes@, old(self).pos as int)),
    {
        let module_name_index = match self.read_u16() {
            Ok(x) => x as usize,
            Err(e) => {
                return Err(e);
            },
        };
        let flag = match self.read_u16() {
            Ok(x) => x,
            Err(e) => {
                return Err(e);
            },
        };
        let module_flags = match ModuleFlags::from_bits(flag) {
            Some(f) => f,
            None => {
                return Err(ParseError::InvalidFlags);
            },
        };
        let module_ver_index = match self.read_u16() {
            Ok(x) => x as usize,
            Err(e) => {
                return Err(e);
            },
        };
        let requires_table = match self.read_requires_table(cp) {
            Ok(t) => t,
            Err(e) => {
                return Err(e);
            },
        };
        let exports = match self.read_exports_table(cp) {
            Ok(t) => t,
            Err(e) => {
                return Err(e);
            },
        };
        let opens = match self.read_opens_table(cp) {
            Ok(t) => t,
            Err(e) => {
                return Err(e);
            },
        };
        let uses_len = match self.read_u16() {
            Ok(x) => x as usize,
            Err(e) => {
                return Err(e);
            },
        };
        let uses = match self.read_classes(uses_len, cp) {
            Ok(t) => t,
            Err(e) => {
                return Err(e);
            },
        };
        let provides = match self.read_provides_table(cp) {
            Ok(t) => t,
            Err(e) => {
                return Err(e);
            },
        };
        Ok(
            Module {
                module_name_index,
                module_flags,
                module_ver_index,
                requires: requires_table,
                exports,
                opens,
                uses,
                provides,
            },
        )
    }
}

} // verus!
