//! The constant pool of a class file.
use vstd::prelude::*;
use crate::constant::{Constant, ConstantView};
use crate::decode::views;
use crate::error::ParseError;

verus! {

/// The constant pool: the entries in the order the class file gives them,
/// behind the unused entry at index 0.
#[derive(Debug, Default, PartialEq, Clone)]
pub struct ConstantPool(Vec<Constant>);

impl View for ConstantPool {
    type V = Seq<ConstantView>;

    open spec fn view(&self) -> Seq<ConstantView> {
        views(self.entries())
    }
}

/// Whether entry `index` of the pool `cp` is a UTF8 constant.
pub open spec fn is_utf8_at(cp: Seq<ConstantView>, index: int) -> bool {
    0 <= index < cp.len() && cp[index] is Utf8
}

/// Whether entry `index` of the pool `cp` is a `Class` constant.
pub open spec fn is_class_at(cp: Seq<ConstantView>, index: int) -> bool {
    0 <= index < cp.len() && cp[index] is Class
}

/// Whether entry `index` of the pool `cp` is a `Package` constant.
pub open spec fn is_package_at(cp: Seq<ConstantView>, index: int) -> bool {
    0 <= index < cp.len() && cp[index] is Package
}

/// Whether entry `index` of the pool `cp` is a `Module` constant.
pub open spec fn is_module_at(cp: Seq<ConstantView>, index: int) -> bool {
    0 <= index < cp.len() && cp[index] is Module
}

impl ConstantPool {
    /// The entries, as a sequence.
    pub closed spec fn entries(&self) -> Seq<Constant> {
        self.0@
    }

    /// An empty pool with room for `capacity` entries.
    pub fn new(capacity: usize) -> (r: ConstantPool)
        ensures
            r@ == Seq::<ConstantView>::empty(),
    {
        let v: Vec<Constant> = Vec::with_capacity(capacity);
        let r = ConstantPool(v);
        assert(r@ =~= Seq::<ConstantView>::empty());
        r
    }

    /// Appends an entry.
    pub fn push(&mut self, c: Constant)
        ensures
            final(self)@ == old(self)@.push(c@),
    {
        self.0.push(c);
        assert(self@ =~= old(self)@.push(c@));
    }

    /// The number of entries, the unused one at index 0 included.
    pub fn len(&self) -> (n: usize)
        ensures
            n == self@.len(),
    {
        self.0.len()
    }

    /// The entry at `index`, if there is one.
    pub fn get(&self, index: usize) -> (r: Option<&Constant>)
        ensures
            index < self@.len() ==> (r matches Some(c) && c@ == self@[index as int]),
            index >= self@.len() ==> r is None,
    {
        if index < self.0.len() {
            Some(&self.0[index])
        } else {
            None
        }
    }

    /// The string of the UTF8 constant at `index`; an error where there is
    /// none.
    pub fn get_utf8(&self, index: usize) -> (r: Result<&str, ParseError>)
        ensures
            is_utf8_at(self@, index as int) ==> (r matches Ok(s) && ConstantView::Utf8(s@)
                == self@[index as int]),
            !is_utf8_at(self@, index as int) ==> r == Err::<&str, ParseError>(
                ParseError::InvalidIndex,
            ),
    {
        if let Some(Constant::UTF8(string)) = self.get(index) {
            return Ok(string.as_str());
        }
        Err(ParseError::InvalidIndex)
    }

    /// Whether the entry at `index` is a `Class` constant.
    pub fn is_class(&self, index: usize) -> (b: bool)
        ensures
            b == is_class_at(self@, index as int),
    {
        match self.get(index) {
            Some(Constant::Class(_)) => true,
            _ => false,
        }
    }

    /// Whether the entry at `index` is a `Package` constant.
    pub fn is_package(&self, index: usize) -> (b: bool)
        ensures
            b == is_package_at(self@, index as int),
    {
        match self.get(index) {
            Some(Constant::Package(_)) => true,
            _ => false,
        }
    }

    /// Whether the entry at `index` is a `Module` constant.
    pub fn is_module(&self, index: usize) -> (b: bool)
        ensures
            b == is_module_at(self@, index as int),
    {
        match self.get(index) {
            Some(Constant::Module(_)) => true,
            _ => false,
        }
    }
}

} // verus!
