//! Guest-side wide strings: sequences of 32-bit units that are known to be
//! valid UTF-32, borrowed ([`WStr`]) or owned ([`WString`]).

use crate::utf32::{is_first_invalid, valid_utf32, validate, Utf32Error};
use vstd::prelude::*;

verus! {

/// A borrowed wide string: a read-only slice of units, each a Unicode scalar
/// value. It copies nothing and lives as long as the slice it was made from.
#[derive(Clone, Copy, Debug, PartialEq, Eq)]
pub struct WStr<'a> {
    units: &'a [u32],
}

/// An owned wide string: a buffer of its own, each unit a Unicode scalar
/// value.
#[derive(Debug, PartialEq, Eq)]
pub struct WString {
    units: Vec<u32>,
}

impl<'a> View for WStr<'a> {
    type V = Seq<u32>;

    closed spec fn view(&self) -> Seq<u32> {
        self.units@
    }
}

impl View for WString {
    type V = Seq<u32>;

    closed spec fn view(&self) -> Seq<u32> {
        self.units@
    }
}

impl Clone for WString {
    /// A second buffer with the same units.
    fn clone(&self) -> (copy: Self)
        ensures
            copy@ == self@,
    {
        proof {
            use_type_invariant(self);
        }
        let units = self.units.clone();
        assert(units@ =~= self.units@);
        WString { units }
    }
}

impl<'a> WStr<'a> {
    #[verifier::type_invariant]
    spec fn well_formed(self) -> bool {
        valid_utf32(self.units@)
    }

    /// Borrows `units` as a wide string if they are valid UTF-32; otherwise
    /// says where they first fail to be.
    pub fn from_slice(units: &'a [u32]) -> (made: Result<WStr<'a>, Utf32Error>)
        ensures
            made is Ok <==> valid_utf32(units@),
            made matches Ok(s) ==> s@ == units@,
            made matches Err(e) ==> is_first_invalid(units@, e.index as int),
    {
        match validate(units) {
            Ok(()) => Ok(WStr { units }),
            Err(e) => Err(e),
        }
    }

    /// The units of the string.
    pub fn as_slice(&self) -> (units: &'a [u32])
        ensures
            units@ == self@,
            valid_utf32(units@),
    {
        proof {
            use_type_invariant(self);
        }
        self.units
    }

    /// Number of code points in the string.
    pub fn len(&self) -> (n: usize)
        ensures
            n == self@.len(),
    {
        self.units.len()
    }
}

impl WString {
    #[verifier::type_invariant]
    spec fn well_formed(self) -> bool {
        valid_utf32(self.units@)
    }

    /// Takes `units` over as a wide string if they are valid UTF-32;
    /// otherwise says where they first fail to be.
    pub fn from_vec(units: Vec<u32>) -> (made: Result<WString, Utf32Error>)
        ensures
            made is Ok <==> valid_utf32(units@),
            made matches Ok(s) ==> s@ == units@,
            made matches Err(e) ==> is_first_invalid(units@, e.index as int),
    {
        match validate(units.as_slice()) {
            Ok(()) => Ok(WString { units }),
            Err(e) => Err(e),
        }
    }

    /// The units of the string.
    pub fn as_slice(&self) -> (units: &[u32])
        ensures
            units@ == self@,
            valid_utf32(units@),
    {
        proof {
            use_type_invariant(self);
        }
        self.units.as_slice()
    }

    /// Number of code points in the string.
    pub fn len(&self) -> (n: usize)
        ensures
            n == self@.len(),
    {
        self.units.len()
    }
}

} // verus!
