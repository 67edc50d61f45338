//! An untyped address as a plain value that can be stored, copied, compared
//! and printed.

use vstd::prelude::*;
use vstd::std_specs::convert::{FromSpec, FromSpecImpl};
use vstd::string::StringExecFns;

verus! {

/// An untyped address. The value is the address and nothing else: it owns
/// nothing, is never followed, and two of them are equal exactly when they
/// are the same address. What the address points at, and whether that may be
/// touched from another thread, is the business of whoever follows it.
#[allow(non_camel_case_types)]
#[derive(Clone, Copy, PartialEq, Eq, Structural)]
pub struct void_ptr(pub usize);

/// The character that stands for `digit` in base 16, for `digit` below 16.
pub open spec fn hex_digit(digit: int) -> char {
    seq!['0', '1', '2', '3', '4', '5', '6', '7', '8', '9', 'a', 'b', 'c', 'd', 'e', 'f'][digit]
}

/// The digits of `n` in base 16, most significant first, without leading
/// zeros; zero is the single digit `0`.
pub open spec fn hex_digits(n: nat) -> Seq<char>
    decreases n,
{
    if n < 16 {
        seq![hex_digit(n as int)]
    } else {
        hex_digits(n / 16).push(hex_digit((n % 16) as int))
    }
}

/// How an address is written: `0x`, then its digits in base 16.
pub open spec fn hex_address(addr: usize) -> Seq<char> {
    seq!['0', 'x'] + hex_digits(addr as nat)
}

impl From<usize> for void_ptr {
    /// Wraps an address.
    fn from(addr: usize) -> (ptr: void_ptr) {
        void_ptr(addr)
    }
}

impl FromSpecImpl<usize> for void_ptr {
    open spec fn obeys_from_spec() -> bool {
        true
    }

    open spec fn from_spec(addr: usize) -> void_ptr {
        void_ptr(addr)
    }
}

impl From<void_ptr> for usize {
    /// The address that was wrapped.
    fn from(ptr: void_ptr) -> (addr: usize) {
        ptr.0
    }
}

impl FromSpecImpl<void_ptr> for usize {
    open spec fn obeys_from_spec() -> bool {
        true
    }

    open spec fn from_spec(ptr: void_ptr) -> usize {
        ptr.0
    }
}

impl void_ptr {
    /// The address as it is printed for diagnostics: `0x` and the address in
    /// base 16 with lower-case digits, `0x0` for the null address.
    pub fn debug_string(&self) -> (text: String)
        ensures
            text@ == hex_address(self.0),
    {
        let mut text = String::from_str("0x");
        proof {
            reveal_strlit("0x");
            assert(text@ =~= seq!['0', 'x']);
        }
        append_hex_digits(self.0, &mut text);
        text
    }
}

/// The one-character string that stands for `digit` in base 16.
fn hex_digit_str(digit: usize) -> (s: &'static str)
    requires
        digit < 16,
    ensures
        s@ == seq![hex_digit(digit as int)],
{
    proof {
        reveal_strlit("0");
        reveal_strlit("1");
        reveal_strlit("2");
        reveal_strlit("3");
        reveal_strlit("4");
        reveal_strlit("5");
        reveal_strlit("6");
        reveal_strlit("7");
        reveal_strlit("8");
        reveal_strlit("9");
        reveal_strlit("a");
        reveal_strlit("b");
        reveal_strlit("c");
        reveal_strlit("d");
        reveal_strlit("e");
        reveal_strlit("f");
    }
    let s = match digit {
        0 => "0",
        1 => "1",
        2 => "2",
        3 => "3",
        4 => "4",
        5 => "5",
        6 => "6",
        7 => "7",
        8 => "8",
        9 => "9",
        10 => "a",
        11 => "b",
        12 => "c",
        13 => "d",
        14 => "e",
        _ => "f",
    };
    assert(s@ =~= seq![hex_digit(digit as int)]);
    s
}

/// Appends the digits of `n` in base 16 to `text`.
fn append_hex_digits(n: usize, text: &mut String)
    ensures
        final(text)@ == old(text)@ + hex_digits(n as nat),
    decreases n,
{
    if n >= 16 {
        append_hex_digits(n / 16, text);
    }
    text.append(hex_digit_str(n % 16));
    assert(final(text)@ =~= old(text)@ + hex_digits(n as nat));
}

/// Wrapping an address and unwrapping it gives the address back, and
/// unwrapping a pointer and wrapping the address gives the pointer back.
pub proof fn lemma_wrap_round_trip(addr: usize, ptr: void_ptr)
    ensures
        <usize as FromSpec<void_ptr>>::from_spec(<void_ptr as FromSpec<usize>>::from_spec(addr))
            == addr,
        <void_ptr as FromSpec<usize>>::from_spec(<usize as FromSpec<void_ptr>>::from_spec(ptr))
            == ptr,
{
}

/// Addresses that are written alike are the same address.
pub proof fn lemma_hex_address_injective(a: usize, b: usize)
    requires
        hex_address(a) == hex_address(b),
    ensures
        a == b,
{
    assert(hex_address(a).subrange(2, hex_address(a).len() as int) =~= hex_digits(a as nat));
    assert(hex_address(b).subrange(2, hex_address(b).len() as int) =~= hex_digits(b as nat));
    lemma_hex_digits_injective(a as nat, b as nat);
}

/// No two digits are written with the same character.
pub proof fn lemma_hex_digit_injective(i: int, j: int)
    requires
        0 <= i < 16,
        0 <= j < 16,
        hex_digit(i) == hex_digit(j),
    ensures
        i == j,
{
}

/// No two numbers have the same digits in base 16.
pub proof fn lemma_hex_digits_injective(a: nat, b: nat)
    requires
        hex_digits(a) == hex_digits(b),
    ensures
        a == b,
    decreases a,
{
    if a < 16 && b < 16 {
        assert(hex_digits(a)[0] == hex_digit(a as int));
        assert(hex_digits(b)[0] == hex_digit(b as int));
        lemma_hex_digit_injective(a as int, b as int);
    } else if a >= 16 && b >= 16 {
        assert(hex_digits(a).last() == hex_digit((a % 16) as int));
        assert(hex_digits(b).last() == hex_digit((b % 16) as int));
        lemma_hex_digit_injective((a % 16) as int, (b % 16) as int);
        assert(hex_digits(a).drop_last() =~= hex_digits(a / 16));
        assert(hex_digits(b).drop_last() =~= hex_digits(b / 16));
        lemma_hex_digits_injective(a / 16, b / 16);
    } else if a < 16 {
        lemma_hex_digits_len(b / 16);
        assert(hex_digits(b).len() >= 2);
    } else {
        lemma_hex_digits_len(a / 16);
        assert(hex_digits(a).len() >= 2);
    }
}

/// Every number has at least one digit in base 16.
pub proof fn lemma_hex_digits_len(n: nat)
    ensures
        hex_digits(n).len() >= 1,
    decreases n,
{
    if n >= 16 {
        lemma_hex_digits_len(n / 16);
    }
}

} // verus!
