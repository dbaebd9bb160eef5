//! Decoding of the `Code` attribute and of the attributes inside it (JVMS
//! 4.7.3 to 4.7.14).
use vstd::prelude::*;
use crate::attribute::{
    frame_offset, frame_type_admits, Code, CodeView, Exception, FrameView, LineNumberTable, LineNumberTableEntry,
    LocalVarTableEntry, LocalVarTypeEntry, LocalVariableTable, LocalVariableTypeTable,
    StackMapFrame, StackMapTable,
};
use crate::class_reader::{ClassReader, read_as, validate_cursor};
use crate::constant_pool::{ConstantPool, is_utf8_at, is_class_at};
use crate::constant::ConstantView;
use crate::decode::{
    lemma_repeat_len,
    sp_u8, sp_u16, sp_u32, sp_bytes, repeat, lemma_repeat_err, sp_counted, views, Decoded,
    Decoder,
};
use crate::error::ParseError;
use crate::instruction::{Instruction, sp_code};
use crate::text::str_eq;
use crate::type_verification::{VType, vtype_of_tag};

verus! {

/// Decodes a verification type: its tag, then the index of an `Object` or
/// the offset of an `UninitVar`.
pub open spec fn sp_vtype(s: Seq<u8>, p: int) -> Decoded<VType> {
    match sp_u8(s, p) {
        Err(e) => Err(e),
        Ok((t, q)) => match vtype_of_tag(t) {
            None => Err(ParseError::InvalidVType),
            Some(VType::Object(_)) => match sp_u16(s, q) {
                Ok((x, r)) => Ok((VType::Object(x as usize), r)),
                Err(e) => Err(e),
            },
            Some(VType::UninitVar(_)) => match sp_u16(s, q) {
                Ok((x, r)) => Ok((VType::UninitVar(x as usize), r)),
                Err(e) => Err(e),
            },
            Some(v) => Ok((v, q)),
        },
    }
}

/// A decoded stack map frame is of the kind its frame type byte stands for
/// (JVMS 4.7.4), its explicit `offset_delta`, where it has one, is the
/// big-endian `u16` right after that byte, and a reserved frame type byte
/// (128 to 246) is refused.
pub proof fn lemma_frame_kind(s: Seq<u8>, p: int)
    requires
        0 <= p,
    ensures
        sp_frame(s, p) matches Ok((f, _)) ==> frame_type_admits(s[p], f),
        sp_frame(s, p) matches Ok((f, _)) ==> (frame_offset(f) matches Some(o) ==> o as int
            == s[p + 1] as int * 256 + s[p + 2] as int),
        p < s.len() && 128 <= s[p] <= 246 ==> sp_frame(s, p) == Err::<(FrameView, int), ParseError>(
            ParseError::InvalidStackMapFrame,
        ),
{
    if let Ok((t, q)) = sp_u8(s, p) {
        if 252 <= t <= 254 {
            if let Ok((off, r)) = sp_u16(s, q) {
                lemma_repeat_len(vtype_decoder(), s, r, (t - 251) as nat);
            }
        }
    }
}

pub open spec fn vtype_decoder() -> Decoder<VType> {
    |s: Seq<u8>, p: int| sp_vtype(s, p)
}

/// Decodes a stack map frame: its type byte, then what that type carries.
pub open spec fn sp_frame(s: Seq<u8>, p: int) -> Decoded<FrameView> {
    match sp_u8(s, p) {
        Err(e) => Err(e),
        Ok((t, q)) => if t <= 63 {
            Ok((FrameView::SameFrame, q))
        } else if t <= 127 {
            match sp_vtype(s, q) {
                Ok((v, r)) => Ok((FrameView::SameLocals(v), r)),
                Err(e) => Err(e),
            }
        } else if t == 247 {
            match sp_u16(s, q) {
                Err(e) => Err(e),
                Ok((off, r)) => match sp_vtype(s, r) {
                    Ok((v, u)) => Ok((FrameView::SameLocalsExt(off, v), u)),
                    Err(e) => Err(e),
                },
            }
        } else if 248 <= t <= 250 {
            match sp_u16(s, q) {
                Ok((off, r)) => Ok((FrameView::Chop(off), r)),
                Err(e) => Err(e),
            }
        } else if t == 251 {
            match sp_u16(s, q) {
                Ok((off, r)) => Ok((FrameView::SameFrameExt(off), r)),
                Err(e) => Err(e),
            }
        } else if 252 <= t <= 254 {
            match sp_u16(s, q) {
                Err(e) => Err(e),
                Ok((off, r)) => match repeat(vtype_decoder(), s, r, (t - 251) as nat) {
                    Ok((vs, u)) => Ok((FrameView::Append(off, vs), u)),
                    Err(e) => Err(e),
                },
            }
        } else if t == 255 {
            match sp_u16(s, q) {
                Err(e) => Err(e),
                Ok((off, r)) => match sp_counted(vtype_decoder(), s, r) {
                    Err(e) => Err(e),
                    Ok((locals, u)) => match sp_counted(vtype_decoder(), s, u) {
                        Ok((stack, w)) => Ok((FrameView::Full { offset: off, locals, stack }, w)),
                        Err(e) => Err(e),
                    },
                },
            }
        } else {
            Err(ParseError::InvalidStackMapFrame)
        },
    }
}

pub open spec fn frame_decoder() -> Decoder<FrameView> {
    |s: Seq<u8>, p: int| sp_frame(s, p)
}

/// Decodes a line number table entry: the first instruction byte of a line
/// and the line.
pub open spec fn sp_line_entry(s: Seq<u8>, p: int) -> Decoded<LineNumberTableEntry> {
    match sp_u16(s, p) {
        Err(e) => Err(e),
        Ok((a, q)) => match sp_u16(s, q) {
            Ok((b, r)) => Ok((LineNumberTableEntry { start_pc: a, line_number: b }, r)),
            Err(e) => Err(e),
        },
    }
}

pub open spec fn line_entry_decoder() -> Decoder<LineNumberTableEntry> {
    |s: Seq<u8>, p: int| sp_line_entry(s, p)
}

/// Decodes a local variable table entry; its name must be a UTF8 constant of
/// `cp`.
pub open spec fn sp_local_var_entry(cp: Seq<ConstantView>, s: Seq<u8>, p: int) -> Decoded<
    LocalVarTableEntry,
> {
    match sp_u16(s, p) {
        Err(e) => Err(e),
        Ok((start_pc, q1)) => match sp_u16(s, q1) {
            Err(e) => Err(e),
            Ok((len, q2)) => match sp_u16(s, q2) {
                Err(e) => Err(e),
                Ok((name_index, q3)) => if !is_utf8_at(cp, name_index as int) {
                    Err(ParseError::InvalidIndex)
                } else {
                    match sp_u16(s, q3) {
                        Err(e) => Err(e),
                        Ok((descriptor_index, q4)) => match sp_u16(s, q4) {
                            Err(e) => Err(e),
                            Ok((index, q5)) => Ok(
                                (
                                    LocalVarTableEntry {
                                        start_pc,
                                        len,
                                        name_index: name_index as usize,
                                        descriptor_index: descriptor_index as usize,
                                        index: index as usize,
                                    },
                                    q5,
                                ),
                            ),
                        },
                    }
                },
            },
        },
    }
}

pub open spec fn local_var_decoder(cp: Seq<ConstantView>) -> Decoder<LocalVarTableEntry> {
    |s: Seq<u8>, p: int| sp_local_var_entry(cp, s, p)
}

/// Decodes a local variable type table entry; its signature must be a UTF8
/// constant of `cp`.
pub open spec fn sp_local_type_entry(cp: Seq<ConstantView>, s: Seq<u8>, p: int) -> Decoded<
    LocalVarTypeEntry,
> {
    match sp_u16(s, p) {
        Err(e) => Err(e),
        Ok((start_pc, q1)) => match sp_u16(s, q1) {
            Err(e) => Err(e),
            Ok((len, q2)) => match sp_u16(s, q2) {
                Err(e) => Err(e),
                Ok((name_index, q3)) => match sp_u16(s, q3) {
                    Err(e) => Err(e),
                    Ok((signature_index, q4)) => if !is_utf8_at(cp, signature_index as int) {
                        Err(ParseError::InvalidIndex)
                    } else {
                        match sp_u16(s, q4) {
                            Err(e) => Err(e),
                            Ok((index, q5)) => Ok(
                                (
                                    LocalVarTypeEntry {
                                        start_pc,
                                        len,
                                        name_index: name_index as usize,
                                        signature_index: signature_index as usize,
                                        index: index as usize,
                                    },
                                    q5,
                                ),
                            ),
                        }
                    },
                },
            },
        },
    }
}

pub open spec fn local_type_decoder(cp: Seq<ConstantView>) -> Decoder<LocalVarTypeEntry> {
    |s: Seq<u8>, p: int| sp_local_type_entry(cp, s, p)
}

/// Decodes an exception handler; a nonzero catch type must be a `Class`
/// constant of `cp` (0 catches everything).
pub open spec fn sp_exception_entry(cp: Seq<ConstantView>, s: Seq<u8>, p: int) -> Decoded<
    Exception,
> {
    match sp_u16(s, p) {
        Err(e) => Err(e),
        Ok((start_pc, q1)) => match sp_u16(s, q1) {
            Err(e) => Err(e),
            Ok((end_pc, q2)) => match sp_u16(s, q2) {
                Err(e) => Err(e),
                Ok((handler_pc, q3)) => match sp_u16(s, q3) {
                    Err(e) => Err(e),
                    Ok((catch_type, q4)) => if catch_type != 0 && !is_class_at(
                        cp,
                        catch_type as int,
                    ) {
                        Err(ParseError::InvalidIndex)
                    } else {
                        Ok((Exception { start_pc, end_pc, handler_pc, catch_type }, q4))
                    },
                },
            },
        },
    }
}

pub open spec fn exception_decoder(cp: Seq<ConstantView>) -> Decoder<Exception> {
    |s: Seq<u8>, p: int| sp_exception_entry(cp, s, p)
}

/// Whether an attribute that started at `start` with declared length `len`
/// ended at `end`, where the format says it must.
pub open spec fn ends_where_declared(start: int, len: int, end: int) -> bool {
    end == start + len
}

/// Decodes one attribute of a `Code` attribute and records it in `c`: the
/// line number, local variable, stack map and local variable type tables
/// replace the ones `c` holds; the bytes of any other attribute are appended
/// to `c.attributes`. The name must be a UTF8 constant of `cp`, and the
/// attribute must end where its declared length says.
pub open spec fn sp_code_inner_attr(cp: Seq<ConstantView>, s: Seq<u8>, p: int, c: CodeView) -> Decoded<CodeView> {
    match sp_u16(s, p) {
        Err(e) => Err(e),
        Ok((ni, q)) => if !is_utf8_at(cp, ni as int) {
            Err(ParseError::InvalidIndex)
        } else {
            let name = cp[ni as int]->Utf8_0;
            match sp_u32(s, q) {
                Err(e) => Err(e),
                Ok((len, start)) => {
                    let body: Decoded<CodeView> = if name == "LineNumberTable"@ {
                        match sp_counted(line_entry_decoder(), s, start) {
                            Ok((t, e)) => Ok((CodeView { line_number_table: t, ..c }, e)),
                            Err(x) => Err(x),
                        }
                    } else if name == "LocalVariableTable"@ {
                        match sp_counted(local_var_decoder(cp), s, start) {
                            Ok((t, e)) => Ok((CodeView { local_var_table: t, ..c }, e)),
                            Err(x) => Err(x),
                        }
                    } else if name == "StackMapTable"@ {
                        match sp_counted(frame_decoder(), s, start) {
                            Ok((t, e)) => Ok((CodeView { stack_map_table: t, ..c }, e)),
                            Err(x) => Err(x),
                        }
                    } else if name == "LocalVariableTypeTable"@ {
                        match sp_counted(local_type_decoder(cp), s, start) {
                            Ok((t, e)) => Ok((CodeView { local_var_type_table: t, ..c }, e)),
                            Err(x) => Err(x),
                        }
                    } else {
                        match sp_bytes(s, start, len as int) {
                            Ok((b, e)) => Ok((CodeView { attributes: c.attributes + b, ..c }, e)),
                            Err(x) => Err(x),
                        }
                    };
                    match body {
                        Err(e) => Err(e),
                        Ok((c2, e)) => if !ends_where_declared(start, len as int, e) {
                            Err(ParseError::InvalidCursor)
                        } else {
                            Ok((c2, e))
                        },
                    }
                },
            }
        },
    }
}

/// Decodes `n` attributes of a `Code` attribute one after the other,
/// recording each in `c`.
pub open spec fn sp_code_inner_attrs(
    cp: Seq<ConstantView>,
    s: Seq<u8>,
    p: int,
    n: nat,
    c: CodeView,
) -> Decoded<CodeView>
    decreases n,
{
    if n == 0 {
        Ok((c, p))
    } else {
        match sp_code_inner_attr(cp, s, p, c) {
            Ok((c2, q)) => sp_code_inner_attrs(cp, s, q, (n - 1) as nat, c2),
            Err(e) => Err(e),
        }
    }
}

/// Decodes a `Code` attribute: its limits, its code array, its exception
/// handlers and its attributes.
pub open spec fn sp_code_attr(cp: Seq<ConstantView>, s: Seq<u8>, p: int) -> Decoded<CodeView> {
    match sp_u16(s, p) {
        Err(e) => Err(e),
        Ok((max_stack, q1)) => match sp_u16(s, q1) {
            Err(e) => Err(e),
            Ok((max_locals, q2)) => match sp_u32(s, q2) {
                Err(e) => Err(e),
                Ok((code_len, q3)) => match sp_bytes(s, q3, code_len as int) {
                    Err(e) => Err(e),
                    Ok((bytes, q4)) => match sp_code(bytes) {
                        Err(e) => Err(e),
                        Ok(op_code) => match sp_counted(exception_decoder(cp), s, q4) {
                            Err(e) => Err(e),
                            Ok((exception_table, q5)) => match sp_u16(s, q5) {
                                Err(e) => Err(e),
                                Ok((n, q6)) => sp_code_inner_attrs(
                                    cp,
                                    s,
                                    q6,
                                    n as nat,
                                    CodeView {
                                        max_stack,
                                        max_locals,
                                        op_code,
                                        exception_table,
                                        line_number_table: seq![],
                                        local_var_table: seq![],
                                        stack_map_table: seq![],
                                        local_var_type_table: seq![],
                                        attributes: seq![],
                                    },
                                ),
                            },
                        },
                    },
                },
            },
        },
    }
}

impl ClassReader {
    /// Reads and interprets the next bytes as a verification type.
    pub fn get_v_type(&mut self) -> (r: Result<VType, ParseError>)
        ensures
            read_as(*old(self), *final(self), r, sp_vtype(old(self).bytes@, old(self).pos as int)),
    {
        let tag = match self.read_u8() {
            Ok(t) => t,
            Err(e) => {
                return Err(e);
            },
        };
        let v_type = match VType::try_from(tag) {
            Ok(v) => v,
            Err(e) => {
                return Err(e);
            },
        };
        match v_type {
            VType::Object(_) => match self.read_u16() {
                Ok(x) => Ok(VType::Object(x as usize)),
                Err(e) => Err(e),
            },
            VType::UninitVar(_) => match self.read_u16() {
                Ok(x) => Ok(VType::UninitVar(x as usize)),
                Err(e) => Err(e),
            },
            _ => Ok(v_type),
        }
    }

    /// Reads and interprets the next bytes as `size` verification types.
    pub fn v_type_vec(&mut self, size: usize) -> (r: Result<Vec<VType>, ParseError>)
        ensures
            read_as(*old(self), *final(self), r, repeat(vtype_decoder(), old(self).bytes@, old(self).pos as int, size as nat)),
    {
        let ghost s = self.bytes@;
        let ghost p0 = self.pos as int;
        let mut vec: Vec<VType> = Vec::new();
        let mut i: usize = 0;
        while i < size
            invariant
                self.bytes@ == s,
                s == old(self).bytes@,
                p0 == old(self).pos,
                0 <= i <= size,
                repeat(vtype_decoder(), s, p0, i as nat) == Ok::<(Seq<VType>, int), ParseError>(
                    (vec@, self.pos as int),
                ),
            decreases size - i,
        {
            match self.get_v_type() {
                Ok(v) => {
                    vec.push(v);
                },
                Err(e) => {
                    proof {
                        assert(repeat(vtype_decoder(), s, p0, (i + 1) as nat) == Err::<(Seq<VType>, int), ParseError>(e));
                        lemma_repeat_err(vtype_decoder(), s, p0, (i + 1) as nat, size as nat);
                    }
                    return Err(e);
                },
            }
            i += 1;
        }
        Ok(vec)
    }

    /// Reads and interprets the next bytes as a stack map frame.
    #[verifier::rlimit(50)]
    pub fn read_smf(&mut self) -> (r: Result<StackMapFrame, ParseError>)
        ensures
            read_as(*old(self), *final(self), r, sp_frame(old(self).bytes@, old(self).pos as int)),
    {
        let frame_type = match self.read_u8() {
            Ok(t) => t,
            Err(e) => {
                return Err(e);
            },
        };
        if frame_type <= 63 {
            Ok(StackMapFrame::SameFrame)
        } else if frame_type <= 127 {
            match self.get_v_type() {
                Ok(v) => Ok(StackMapFrame::SameLocals(v)),
                Err(e) => Err(e),
            }
        } else if frame_type == 247 {
            let offset = match self.read_u16() {
                Ok(o) => o,
                Err(e) => {
                    return Err(e);
                },
            };
            match self.get_v_type() {
                Ok(v) => Ok(StackMapFrame::SameLocalsExt(offset, v)),
                Err(e) => Err(e),
            }
        } else if 248 <= frame_type && frame_type <= 250 {
            match self.read_u16() {
                Ok(o) => Ok(StackMapFrame::Chop(o)),
                Err(e) => Err(e),
            }
        } else if frame_type == 251 {
            match self.read_u16() {
                Ok(o) => Ok(StackMapFrame::SameFrameExt(o)),
                Err(e) => Err(e),
            }
        } else if 252 <= frame_type && frame_type <= 254 {
            let offset = match self.read_u16() {
                Ok(o) => o,
                Err(e) => {
                    return Err(e);
                },
            };
            match self.v_type_vec((frame_type - 251) as usize) {
                Ok(locals) => Ok(StackMapFrame::Append(offset, locals)),
                Err(e) => Err(e),
            }
        } else if frame_type == 255 {
            let offset = match self.read_u16() {
                Ok(o) => o,
                Err(e) => {
                    return Err(e);
                },
            };
            let local_len = match self.read_u16() {
                Ok(n) => n as usize,
                Err(e) => {
                    return Err(e);
                },
            };
            let locals = match self.v_type_vec(local_len) {
                Ok(l) => l,
                Err(e) => {
                    return Err(e);
                },
            };
            let stack_len = match self.read_u16() {
                Ok(n) => n as usize,
                Err(e) => {
                    return Err(e);
                },
            };
            match self.v_type_vec(stack_len) {
                Ok(stack) => Ok(StackMapFrame::Full { offset, locals, stack }),
                Err(e) => Err(e),
            }
        } else {
            Err(ParseError::InvalidStackMapFrame)
        }
    }

    /// Reads a line number table entry.
    fn read_line_entry(&mut self) -> (r: Result<LineNumberTableEntry, ParseError>)
        ensures
            read_as(*old(self), *final(self), r, sp_line_entry(old(self).bytes@, old(self).pos as int)),
    {
        let start_pc = match self.read_u16() {
            Ok(x) => x,
            Err(e) => {
                return Err(e);
            },
        };
        match self.read_u16() {
            Ok(line_number) => Ok(LineNumberTableEntry { start_pc, line_number }),
            Err(e) => Err(e),
        }
    }

    /// Reads a local variable table entry.
    fn read_local_var_entry(&mut self, cp: &ConstantPool) -> (r: Result<LocalVarTableEntry, ParseError>)
        ensures
            read_as(*old(self), *final(self), r, sp_local_var_entry(cp@, old(self).bytes@, old(self).pos as int)),
    {
        let start_pc = match self.read_u16() {
            Ok(x) => x,
            Err(e) => {
                return Err(e);
            },
        };
        let length = match self.read_u16() {
            Ok(x) => x,
            Err(e) => {
                return Err(e);
            },
        };
        let name_index = match self.read_u16() {
            Ok(x) => x as usize,
            Err(e) => {
                return Err(e);
            },
        };
        match Self::verify_utf8(cp, name_index) {
            Ok(()) => {},
            Err(e) => {
                return Err(e);
            },
        }
        let descriptor_index = match self.read_u16() {
            Ok(x) => x as usize,
            Err(e) => {
                return Err(e);
            },
        };
        match self.read_u16() {
            Ok(index) => Ok(
                LocalVarTableEntry {
                    start_pc,
                    len: length,
                    name_index,
                    descriptor_index,
                    index: index as usize,
                },
            ),
            Err(e) => Err(e),
        }
    }

    /// Reads a local variable type table entry.
    fn read_local_type_entry(&mut self, cp: &ConstantPool) -> (r: Result<LocalVarTypeEntry, ParseError>)
        ensures
            read_as(*old(self), *final(self), r, sp_local_type_entry(cp@, old(self).bytes@, old(self).pos as int)),
    {
        let start_pc = match self.read_u16() {
            Ok(x) => x,
            Err(e) => {
                return Err(e);
            },
        };
        let len = match self.read_u16() {
            Ok(x) => x,
            Err(e) => {
                return Err(e);
            },
        };
        let name_index = match self.read_u16() {
            Ok(x) => x as usize,
            Err(e) => {
                return Err(e);
            },
        };
        let signature_index = match self.read_u16() {
            Ok(x) => x as usize,
            Err(e) => {
                return Err(e);
            },
        };
        match Self::verify_utf8(cp, signature_index) {
            Ok(()) => {},
            Err(e) => {
                return Err(e);
            },
        }
        match self.read_u16() {
            Ok(index) => Ok(
                LocalVarTypeEntry { start_pc, len, name_index, signature_index, index: index as usize },
            ),
            Err(e) => Err(e),
        }
    }

    /// Reads an exception handler of a `Code` attribute.
    fn read_exception_entry(&mut self, cp: &ConstantPool) -> (r: Result<Exception, ParseError>)
        ensures
            read_as(*old(self), *final(self), r, sp_exception_entry(cp@, old(self).bytes@, old(self).pos as int)),
    {
        let start_pc = match self.read_u16() {
            Ok(x) => x,
            Err(e) => {
                return Err(e);
            },
        };
        let end_pc = match self.read_u16() {
            Ok(x) => x,
            Err(e) => {
                return Err(e);
            },
        };
        let handler_pc = match self.read_u16() {
            Ok(x) => x,
            Err(e) => {
                return Err(e);
            },
        };
        let catch_type = match self.read_u16() {
            Ok(x) => x,
            Err(e) => {
                return Err(e);
            },
        };
        // A catch type of 0 makes the handler catch every exception.
        if catch_type != 0 && !cp.is_class(catch_type as usize) {
            return Err(ParseError::InvalidIndex);
        }
        Ok(Exception { start_pc, end_pc, handler_pc, catch_type })
    }

    /// Reads and interprets the next bytes as a `StackMapTable`.
    pub fn parse_stack_map_table(&mut self) -> (r: Result<StackMapTable, ParseError>)
        ensures
            read_as(*old(self), *final(self), r, sp_counted(frame_decoder(), old(self).bytes@, old(self).pos as int)),
    {
        let ghost s = self.bytes@;
        let ghost p_start = self.pos as int;
        let table_len: u16 = match self.read_u16() {
            Ok(n) => n,
            Err(e) => {
                return Err(e);
            },
        };
        let ghost p0 = self.pos as int;
        let mut table: Vec<StackMapFrame> = Vec::new();
        let mut i: u16 = 0;
        proof { assert(views(table@) =~= Seq::<FrameView>::empty()); }
        while i < table_len
            invariant
                self.bytes@ == s,
                s == old(self).bytes@,
                p_start == old(self).pos,
                sp_counted(frame_decoder(), s, p_start) == repeat(frame_decoder(), s, p0, table_len as nat),
                0 <= i <= table_len,
                repeat(frame_decoder(), s, p0, i as nat) == Ok::<(Seq<FrameView>, int), ParseError>(
                    (views(table@), self.pos as int),
                ),
            decreases table_len - i,
        {
            let ghost prev = table@;
            match self.read_smf() {
                Ok(entry) => {
                    table.push(entry);
                    proof { assert(views(table@) =~= views(prev).push(entry@)); }
                },
                Err(e) => {
                    proof {
                        assert(repeat(frame_decoder(), s, p0, (i + 1) as nat) == Err::<(Seq<FrameView>, int), ParseError>(e));
                        lemma_repeat_err(frame_decoder(), s, p0, (i + 1) as nat, table_len as nat);
                    }
                    return Err(e);
                },
            }
            i += 1;
        }
        Ok(StackMapTable(table))
    }
    /// Reads and interprets the next bytes as a `LineNumberTable`.
    pub fn parse_line_number_table(&mut self) -> (r: Result<LineNumberTable, ParseError>)
        ensures
            read_as(*old(self), *final(self), r, sp_counted(line_entry_decoder(), old(self).bytes@, old(self).pos as int)),
    {
        let ghost s = self.bytes@;
        let ghost p_start = self.pos as int;
        let table_len: u16 = match self.read_u16() {
            Ok(n) => n,
            Err(e) => {
                return Err(e);
            },
        };
        let ghost p0 = self.pos as int;
        let mut table: Vec<LineNumberTableEntry> = Vec::new();
        let mut i: u16 = 0;
        
        while i < table_len
            invariant
                self.bytes@ == s,
                s == old(self).bytes@,
                p_start == old(self).pos,
                sp_counted(line_entry_decoder(), s, p_start) == repeat(line_entry_decoder(), s, p0, table_len as nat),
                0 <= i <= table_len,
                repeat(line_entry_decoder(), s, p0, i as nat) == Ok::<(Seq<LineNumberTableEntry>, int), ParseError>(
                    (table@, self.pos as int),
                ),
            decreases table_len - i,
        {
            let ghost prev = table@;
            match self.read_line_entry() {
                Ok(entry) => {
                    table.push(entry);
                    
                },
                Err(e) => {
                    proof {
                        assert(repeat(line_entry_decoder(), s, p0, (i + 1) as nat) == Err::<(Seq<LineNumberTableEntry>, int), ParseError>(e));
                        lemma_repeat_err(line_entry_decoder(), s, p0, (i + 1) as nat, table_len as nat);
                    }
                    return Err(e);
                },
            }
            i += 1;
        }
        Ok(LineNumberTable(table))
    }
    /// Reads and interprets the next bytes as a `LocalVariableTable`; each name must be a UTF8 constant.
    pub fn parse_local_var_table(&mut self, cp: &ConstantPool) -> (r: Result<LocalVariableTable, ParseError>)
        ensures
            read_as(*old(self), *final(self), r, sp_counted(local_var_decoder(cp@), old(self).bytes@, old(self).pos as int)),
    {
        let ghost s = self.bytes@;
        let ghost p_start = self.pos as int;
        let table_len: u16 = match self.read_u16() {
            Ok(n) => n,
            Err(e) => {
                return Err(e);
            },
        };
        let ghost p0 = self.pos as int;
        let mut table: Vec<LocalVarTableEntry> = Vec::new();
        let mut i: u16 = 0;
        
        while i < table_len
            invariant
                self.bytes@ == s,
                s == old(self).bytes@,
                p_start == old(self).pos,
                sp_counted(local_var_decoder(cp@), s, p_start) == repeat(local_var_decoder(cp@), s, p0, table_len as nat),
                0 <= i <= table_len,
                repeat(local_var_decoder(cp@), s, p0, i as nat) == Ok::<(Seq<LocalVarTableEntry>, int), ParseError>(
                    (table@, self.pos as int),
                ),
            decreases table_len - i,
        {
            let ghost prev = table@;
            match self.read_local_var_entry(cp) {
                Ok(entry) => {
                    table.push(entry);
                    
                },
                Err(e) => {
                    proof {
                        assert(repeat(local_var_decoder(cp@), s, p0, (i + 1) as nat) == Err::<(Seq<LocalVarTableEntry>, int), ParseError>(e));
                        lemma_repeat_err(local_var_decoder(cp@), s, p0, (i + 1) as nat, table_len as nat);
                    }
                    return Err(e);
                },
            }
            i += 1;
        }
        Ok(LocalVariableTable(table))
    }
    /// Reads and interprets the next bytes as a `LocalVariableTypeTable`; each signature must be a UTF8 constant.
    pub fn parse_local_type_table(&mut self, cp: &ConstantPool) -> (r: Result<LocalVariableTypeTable, ParseError>)
        ensures
            read_as(*old(self), *final(self), r, sp_counted(local_type_decoder(cp@), old(self).bytes@, old(self).pos as int)),
    {
        let ghost s = self.bytes@;
        let ghost p_start = self.pos as int;
        let table_len: u16 = match self.read_u16() {
            Ok(n) => n,
            Err(e) => {
                return Err(e);
            },
        };
        let ghost p0 = self.pos as int;
        let mut table: Vec<LocalVarTypeEntry> = Vec::new();
        let mut i: u16 = 0;
        
        while i < table_len
            invariant
                self.bytes@ == s,
                s == old(self).bytes@,
                p_start == old(self).pos,
                sp_counted(local_type_decoder(cp@), s, p_start) == repeat(local_type_decoder(cp@), s, p0, table_len as nat),
                0 <= i <= table_len,
                repeat(local_type_decoder(cp@), s, p0, i as nat) == Ok::<(Seq<LocalVarTypeEntry>, int), ParseError>(
                    (table@, self.pos as int),
                ),
            decreases table_len - i,
        {
            let ghost prev = table@;
            match self.read_local_type_entry(cp) {
                Ok(entry) => {
                    table.push(entry);
                    
                },
                Err(e) => {
                    proof {
                        assert(repeat(local_type_decoder(cp@), s, p0, (i + 1) as nat) == Err::<(Seq<LocalVarTypeEntry>, int), ParseError>(e));
                        lemma_repeat_err(local_type_decoder(cp@), s, p0, (i + 1) as nat, table_len as nat);
                    }
                    return Err(e);
                },
            }
            i += 1;
        }
        Ok(LocalVariableTypeTable(table))
    }
    /// Reads and interprets the next bytes as the exception table of a `Code` attribute.
    pub fn parse_exceptions_table(&mut self, cp: &ConstantPool) -> (r: Result<Vec<Exception>, ParseError>)
        ensures
            read_as(*old(self), *final(self), r, sp_counted(exception_decoder(cp@), old(self).bytes@, old(self).pos as int)),
    {
        let ghost s = self.bytes@;
        let ghost p_start = self.pos as int;
        let table_len: u16 = match self.read_u16() {
            Ok(n) => n,
            Err(e) => {
                return Err(e);
            },
        };
        let ghost p0 = self.pos as int;
        let mut table: Vec<Exception> = Vec::new();
        let mut i: u16 = 0;
        
        while i < table_len
            invariant
                self.bytes@ == s,
                s == old(self).bytes@,
                p_start == old(self).pos,
                sp_counted(exception_decoder(cp@), s, p_start) == repeat(exception_decoder(cp@), s, p0, table_len as nat),
                0 <= i <= table_len,
                repeat(exception_decoder(cp@), s, p0, i as nat) == Ok::<(Seq<Exception>, int), ParseError>(
                    (table@, self.pos as int),
                ),
            decreases table_len - i,
        {
            let ghost prev = table@;
            match self.read_exception_entry(cp) {
                Ok(entry) => {
                    table.push(entry);
                    
                },
                Err(e) => {
                    proof {
                        assert(repeat(exception_decoder(cp@), s, p0, (i + 1) as nat) == Err::<(Seq<Exception>, int), ParseError>(e));
                        lemma_repeat_err(exception_decoder(cp@), s, p0, (i + 1) as nat, table_len as nat);
                    }
                    return Err(e);
                },
            }
            i += 1;
        }
        Ok(table)
    }

    /// Reads the next `length` bytes of an attribute the parser does not
    /// interpret.
    pub fn parse_unrec_attr(&mut self, length: usize) -> (r: Result<Vec<u8>, ParseError>)
        ensures
            read_as(*old(self), *final(self), r, sp_bytes(old(self).bytes@, old(self).pos as int, length as int)),
    {
        self.read_bytes(length)
    }

    /// Checks that the entry at `index` of `cp` is a UTF8 constant.
    pub fn verify_utf8(cp: &ConstantPool, index: usize) -> (r: Result<(), ParseError>)
        ensures
            is_utf8_at(cp@, index as int) ==> r is Ok,
            !is_utf8_at(cp@, index as int) ==> r == Err::<(), ParseError>(ParseError::InvalidIndex),
    {
        match cp.get_utf8(index) {
            Ok(_) => Ok(()),
            Err(e) => Err(e),
        }
    }

    /// Checks that the reader stopped `len` bytes after `start`.
    pub fn end_attribute(&self, start: usize, len: usize) -> (r: Result<(), ParseError>)
        ensures
            ends_where_declared(start as int, len as int, self.pos as int) ==> r is Ok,
            !ends_where_declared(start as int, len as int, self.pos as int) ==> r == Err::<(), ParseError>(ParseError::InvalidCursor),
    {
        match (start as u64).checked_add(len as u64) {
            Some(expect) => validate_cursor(self.pos as u64, expect),
            None => Err(ParseError::InvalidCursor),
        }
    }

    /// Reads and interprets the next bytes as an attribute inside a `Code`
    /// attribute, and records it in `code`.
    pub fn parse_code_inner_attr(&mut self, cp: &ConstantPool, code: &mut Code) -> (r: Result<(), ParseError>)
        ensures
            final(self).bytes@ == old(self).bytes@,
            match sp_code_inner_attr(cp@, old(self).bytes@, old(self).pos as int, old(code)@) {
                Ok((c, q)) => r is Ok && final(code)@ == c && final(self).pos == q,
                Err(e) => r == Err::<(), ParseError>(e),
            },
    {
        let code_attr_name = match self.read_u16() {
            Ok(x) => x,
            Err(e) => {
                return Err(e);
            },
        };
        let name = match cp.get_utf8(code_attr_name as usize) {
            Ok(n) => n,
            Err(e) => {
                return Err(e);
            },
        };
        let attr_len = match self.read_u32() {
            Ok(x) => x as usize,
            Err(e) => {
                return Err(e);
            },
        };
        // The position must be read after the attribute length.
        let cursor = self.position();
        if str_eq(name, "LineNumberTable") {
            match self.parse_line_number_table() {
                Ok(t) => {
                    code.line_number_table = t;
                },
                Err(e) => {
                    return Err(e);
                },
            }
        } else if str_eq(name, "LocalVariableTable") {
            match self.parse_local_var_table(cp) {
                Ok(t) => {
                    code.local_var_table = t;
                },
                Err(e) => {
                    return Err(e);
                },
            }
        } else if str_eq(name, "StackMapTable") {
            match self.parse_stack_map_table() {
                Ok(t) => {
                    code.stack_map_table = t;
                },
                Err(e) => {
                    return Err(e);
                },
            }
        } else if str_eq(name, "LocalVariableTypeTable") {
            match self.parse_local_type_table(cp) {
                Ok(t) => {
                    code.local_var_type_table = t;
                },
                Err(e) => {
                    return Err(e);
                },
            }
        } else {
            match self.parse_unrec_attr(attr_len) {
                Ok(mut attribute) => {
                    code.attributes.append(&mut attribute);
                },
                Err(e) => {
                    return Err(e);
                },
            }
        }
        self.end_attribute(cursor, attr_len)
    }

    /// Reads and interprets the next bytes as a `Code` attribute.
    pub fn parse_code_attr(&mut self, cp: &ConstantPool) -> (r: Result<Code, ParseError>)
        ensures
            read_as(*old(self), *final(self), r, sp_code_attr(cp@, old(self).bytes@, old(self).pos as int)),
    {
        let ghost s = self.bytes@;
        let max_stack = match self.read_u16() {
            Ok(x) => x,
            Err(e) => {
                return Err(e);
            },
        };
        let max_locals = match self.read_u16() {
            Ok(x) => x,
            Err(e) => {
                return Err(e);
            },
        };
        let code_len = match self.read_u32() {
            Ok(x) => x as usize,
            Err(e) => {
                return Err(e);
            },
        };
        let bytes = match self.read_bytes(code_len) {
            Ok(b) => b,
            Err(e) => {
                return Err(e);
            },
        };
        let op_code = match Instruction::from_bytes(bytes.as_slice()) {
            Ok(v) => v,
            Err(e) => {
                return Err(e);
            },
        };
        let exception_table = match self.parse_exceptions_table(cp) {
            Ok(t) => t,
            Err(e) => {
                return Err(e);
            },
        };
        let mut code = Code {
            max_stack,
            max_locals,
            op_code,
            exception_table,
            line_number_table: LineNumberTable(Vec::new()),
            local_var_table: LocalVariableTable(Vec::new()),
            stack_map_table: StackMapTable(Vec::new()),
            local_var_type_table: LocalVariableTypeTable(Vec::new()),
            attributes: Vec::new(),
        };
        let attrs_len = match self.read_u16() {
            Ok(n) => n,
            Err(e) => {
                return Err(e);
            },
        };
        let ghost p0 = self.pos as int;
        let ghost c0 = code@;
        proof {
            assert(c0.line_number_table =~= seq![]);
            assert(c0.local_var_table =~= seq![]);
            assert(c0.stack_map_table =~= seq![]);
            assert(c0.local_var_type_table =~= seq![]);
            assert(c0.attributes =~= seq![]);
        }
        let mut i: u16 = 0;
        while i < attrs_len
            invariant
                self.bytes@ == s,
                s == old(self).bytes@,
                sp_code_attr(cp@, s, old(self).pos as int) == sp_code_inner_attrs(cp@, s, p0, attrs_len as nat, c0),
                i <= attrs_len,
                sp_code_inner_attrs(cp@, s, p0, attrs_len as nat, c0) == sp_code_inner_attrs(cp@, s, self.pos as int, (attrs_len - i) as nat, code@),
            decreases attrs_len - i,
        {
            match self.parse_code_inner_attr(cp, &mut code) {
                Ok(()) => {},
                Err(e) => {
                    return Err(e);
                },
            }
            i += 1;
        }
        Ok(code)
    }
}

} // verus!
