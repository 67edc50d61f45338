//! Host-side values as the guest receives them, and their conversions into
//! guest wide strings.
//!
//! The host hands over wide-character buffers that it owns. A
//! [`WideCharView`] is one such buffer, a [`WideCharList`] a sequence of
//! them. Converting to an owned guest string copies the units; nothing that
//! is returned keeps hold of a list's storage.

use crate::utf32::{valid_utf32, validate, wchar_t};
use crate::wstring::{WStr, WString};
use vstd::prelude::*;
use vstd::slice::slice_to_vec;

verus! {

/// A borrowed view of a wide-character buffer of the host: its units, in
/// order, as many as the host gave for its length.
#[derive(Clone, Copy, Debug, PartialEq, Eq)]
pub struct WideCharView<'a> {
    units: &'a [wchar_t],
}

/// A sequence of wide-character strings held by the host, reached by
/// position.
#[derive(Debug, PartialEq, Eq)]
pub struct WideCharList {
    items: Vec<Vec<wchar_t>>,
}

impl<'a> View for WideCharView<'a> {
    type V = Seq<u32>;

    closed spec fn view(&self) -> Seq<u32> {
        self.units@
    }
}

impl View for WideCharList {
    type V = Seq<Seq<u32>>;

    closed spec fn view(&self) -> Seq<Seq<u32>> {
        Seq::new(self.items@.len(), |i: int| self.items@[i]@)
    }
}

/// Every string of `strings` is valid UTF-32.
pub open spec fn all_valid_utf32(strings: Seq<Seq<u32>>) -> bool {
    forall|i: int| 0 <= i < strings.len() ==> valid_utf32(#[trigger] strings[i])
}

impl<'a> WideCharView<'a> {
    /// The view of a buffer that holds `units`.
    pub fn new(units: &'a [wchar_t]) -> (view: WideCharView<'a>)
        ensures
            view@ == units@,
    {
        WideCharView { units }
    }

    /// Number of units in the buffer.
    pub fn length(&self) -> (n: usize)
        ensures
            n == self@.len(),
    {
        self.units.len()
    }

    /// Tells whether the buffer holds valid UTF-32.
    pub fn is_valid(&self) -> (ok: bool)
        ensures
            ok == valid_utf32(self@),
    {
        validate(self.units).is_ok()
    }

    /// The same units as a borrowed guest string: nothing is copied, and the
    /// result has the length of the view. The units must be valid UTF-32.
    pub fn to_wstr(&self) -> (s: WStr<'a>)
        requires
            valid_utf32(self@),
        ensures
            s@ == self@,
            s@.len() == self@.len(),
    {
        match WStr::from_slice(self.units) {
            Ok(s) => s,
            Err(_) => vstd::pervasive::unreached(),
        }
    }

    /// A copy of the units as an owned guest string, equal to the view unit
    /// for unit. The units must be valid UTF-32.
    pub fn to_wstring(&self) -> (s: WString)
        requires
            valid_utf32(self@),
        ensures
            s@ == self@,
    {
        match WString::from_vec(slice_to_vec(self.units)) {
            Ok(s) => s,
            Err(_) => vstd::pervasive::unreached(),
        }
    }
}

impl WideCharList {
    /// The list that holds `items`, in their order.
    pub fn new(items: Vec<Vec<wchar_t>>) -> (list: WideCharList)
        ensures
            list@.len() == items@.len(),
            forall|i: int| 0 <= i < items@.len() ==> list@[i] == #[trigger] items@[i]@,
    {
        WideCharList { items }
    }

    /// Number of strings in the list.
    pub fn size(&self) -> (n: usize)
        ensures
            n == self@.len(),
    {
        self.items.len()
    }

    /// The string at position `i`.
    pub fn at(&self, i: usize) -> (view: WideCharView<'_>)
        requires
            i < self@.len(),
        ensures
            view@ == self@[i as int],
    {
        WideCharView { units: self.items[i].as_slice() }
    }

    /// Tells whether every string of the list is valid UTF-32.
    pub fn is_valid(&self) -> (ok: bool)
        ensures
            ok == all_valid_utf32(self@),
    {
        let n = self.size();
        let mut i: usize = 0;
        while i < n
            invariant
                n == self@.len(),
                i <= n,
                forall|k: int| 0 <= k < i ==> valid_utf32(#[trigger] self@[k]),
            decreases n - i,
        {
            if !self.at(i).is_valid() {
                return false;
            }
            i += 1;
        }
        true
    }

    /// The strings of the list as owned guest strings: as many as the list
    /// holds, in the list's order, the one at each position being the owned
    /// copy of the list's string there. Every string must be valid UTF-32.
    pub fn to_wstrings(&self) -> (strings: Vec<WString>)
        requires
            all_valid_utf32(self@),
        ensures
            strings@.len() == self@.len(),
            forall|i: int| 0 <= i < self@.len() ==> (#[trigger] strings@[i])@ == self@[i],
    {
        let n = self.size();
        let mut strings: Vec<WString> = Vec::with_capacity(n);
        let mut i: usize = 0;
        while i < n
            invariant
                n == self@.len(),
                i <= n,
                all_valid_utf32(self@),
                strings@.len() == i,
                forall|k: int| 0 <= k < i ==> (#[trigger] strings@[k])@ == self@[k],
            decreases n - i,
        {
            strings.push(self.at(i).to_wstring());
            i += 1;
        }
        strings
    }
}

} // verus!
