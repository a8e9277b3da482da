//! Remote addresses of loaded managed assemblies and their text form.
use vstd::prelude::*;

use crate::text::{chars_of, concat2, hex, parse_radix, parse_bounded, u64_to_hex};

verus! {

/// Address of a managed assembly loaded into a target process; never zero.
#[derive(Debug, Clone, Copy, PartialEq, Eq, Structural)]
pub struct AssemblyHandle {
    raw: u64,
}

/// Text of a handle as it is displayed and remembered: `0x` and lower-case hex.
pub open spec fn handle_text(raw: u64) -> Seq<char> {
    seq!['0', 'x'] + hex(raw as nat)
}

/// The hexadecimal digits of a handle's text: one leading `0x` or `0X` is dropped.
pub open spec fn handle_digits(raw: Seq<char>) -> Seq<char> {
    if raw.len() >= 2 && raw[0] == '0' && (raw[1] == 'x' || raw[1] == 'X') {
        raw.skip(2)
    } else {
        raw
    }
}

/// The number written in a handle's text, if it is a hex integer that fits in 64 bits.
pub open spec fn parse_handle_spec(raw: Seq<char>) -> Option<nat> {
    parse_bounded(handle_digits(raw), 16, u64::MAX as nat)
}

impl AssemblyHandle {
    /// A handle never holds the zero address.
    #[verifier::type_invariant]
    pub closed spec fn nonzero(self) -> bool {
        self.raw != 0
    }

    /// The address held by the handle.
    pub closed spec fn value(self) -> u64 {
        self.raw
    }

    /// A handle that meets its invariant holds a non-zero address.
    pub proof fn lemma_nonzero(self)
        requires
            self.nonzero(),
        ensures
            self.value() != 0,
    {
    }

    /// Wraps a raw address; zero is no handle.
    pub fn from_raw(raw: u64) -> (r: Option<AssemblyHandle>)
        ensures
            r is Some <==> raw != 0,
            r matches Some(h) ==> h.value() == raw,
    {
        if raw == 0 {
            None
        } else {
            Some(AssemblyHandle { raw })
        }
    }

    /// Two handles are equal exactly when they hold the same address.
    pub proof fn lemma_value_injective(self, other: AssemblyHandle)
        ensures
            (self == other) <==> (self.value() == other.value()),
    {
    }

    /// The address held by the handle.
    pub fn get(&self) -> (r: u64)
        ensures
            r == self.value(),
    {
        self.raw
    }

    /// Text form of the handle, for example `0x7fff00001234`.
    pub fn to_text(&self) -> (s: String)
        ensures
            s@ == handle_text(self.value()),
    {
        let digits = u64_to_hex(self.raw);
        proof {
            reveal_strlit("0x");
        }
        assert("0x"@ =~= seq!['0', 'x']);
        concat2("0x", digits.as_str())
    }
}

/// Reads a hexadecimal handle, with or without a `0x`/`0X` prefix.
pub fn parse_handle(raw: &str) -> (r: Option<u64>)
    ensures
        r matches Some(v) ==> parse_handle_spec(raw@) == Some(v as nat),
        r is None ==> parse_handle_spec(raw@) is None,
{
    let chars = chars_of(raw);
    if chars.len() >= 2 && chars[0] == '0' && (chars[1] == 'x' || chars[1] == 'X') {
        let mut digits: Vec<char> = Vec::new();
        let mut i: usize = 2;
        while i < chars.len()
            invariant
                2 <= i <= chars.len(),
                digits@ == chars@.subrange(2, i as int),
            decreases chars.len() - i,
        {
            digits.push(chars[i]);
            i = i + 1;
        }
        assert(digits@ =~= handle_digits(raw@));
        parse_radix(digits.as_slice(), 16, u64::MAX)
    } else {
        parse_radix(chars.as_slice(), 16, u64::MAX)
    }
}

/// A handle's text reads back as the same address.
pub proof fn lemma_handle_text_roundtrip(raw: u64)
    ensures
        parse_handle_spec(handle_text(raw)) == Some(raw as nat),
{
    crate::text::lemma_hex_roundtrip(raw as nat);
    let t = handle_text(raw);
    assert(handle_digits(t) =~= hex(raw as nat));
}

} // verus!
