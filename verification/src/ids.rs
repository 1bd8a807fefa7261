//! Resource identifiers.
//!
//! Every resource owns a globally unique 128-bit identifier generated
//! locally at creation time. Identifiers render in the canonical
//! hyphenated hexadecimal form when they travel inside control messages.

use vstd::prelude::*;
use vstd::string::StringExecFns;

verus! {

/// Lower-case hexadecimal digit for a value below sixteen.
pub open spec fn hex_char(d: u128) -> char {
    if d == 0 {
        '0'
    } else if d == 1 {
        '1'
    } else if d == 2 {
        '2'
    } else if d == 3 {
        '3'
    } else if d == 4 {
        '4'
    } else if d == 5 {
        '5'
    } else if d == 6 {
        '6'
    } else if d == 7 {
        '7'
    } else if d == 8 {
        '8'
    } else if d == 9 {
        '9'
    } else if d == 10 {
        'a'
    } else if d == 11 {
        'b'
    } else if d == 12 {
        'c'
    } else if d == 13 {
        'd'
    } else if d == 14 {
        'e'
    } else {
        'f'
    }
}

/// The `n` low-order nibbles of `v`, most significant first.
pub open spec fn hex_chars(v: u128, n: nat) -> Seq<char>
    decreases n,
{
    if n == 0 {
        Seq::empty()
    } else {
        hex_chars(v / 16, (n - 1) as nat).push(hex_char(v % 16))
    }
}

/// Canonical hyphenated rendering of a 128-bit identifier:
/// thirty-two hexadecimal digits grouped 8-4-4-4-12, most significant
/// nibble first.
pub open spec fn uuid_chars(v: u128) -> Seq<char> {
    hex_chars(v / 0x1000000000000000000000000, 8) + seq!['-'] + hex_chars(
        (v / 0x100000000000000000000) % 0x10000,
        4,
    ) + seq!['-'] + hex_chars((v / 0x10000000000000000) % 0x10000, 4) + seq!['-'] + hex_chars(
        (v / 0x1000000000000) % 0x10000,
        4,
    ) + seq!['-'] + hex_chars(v % 0x1000000000000, 12)
}

/// One-character string slice for a hexadecimal digit.
fn hex_digit_str(d: u128) -> (r: &'static str)
    requires
        d < 16,
    ensures
        r@ == seq![hex_char(d)],
{
    proof {
        reveal_strlit("0");
        reveal_strlit("1");
        reveal_strlit("2");
        reveal_strlit("3");
        reveal_strlit("4");
        reveal_strlit("5");
        reveal_strlit("6");
        reveal_strlit("7");
        reveal_strlit("8");
        reveal_strlit("9");
        reveal_strlit("a");
        reveal_strlit("b");
        reveal_strlit("c");
        reveal_strlit("d");
        reveal_strlit("e");
        reveal_strlit("f");
    }
    if d == 0 {
        "0"
    } else if d == 1 {
        "1"
    } else if d == 2 {
        "2"
    } else if d == 3 {
        "3"
    } else if d == 4 {
        "4"
    } else if d == 5 {
        "5"
    } else if d == 6 {
        "6"
    } else if d == 7 {
        "7"
    } else if d == 8 {
        "8"
    } else if d == 9 {
        "9"
    } else if d == 10 {
        "a"
    } else if d == 11 {
        "b"
    } else if d == 12 {
        "c"
    } else if d == 13 {
        "d"
    } else if d == 14 {
        "e"
    } else {
        "f"
    }
}

/// The rendering of `v` over `n` digits has length `n`.
proof fn lemma_hex_chars_len(v: u128, n: nat)
    ensures
        hex_chars(v, n).len() == n,
    decreases n,
{
    if n > 0 {
        lemma_hex_chars_len(v / 16, (n - 1) as nat);
    }
}

/// Appends the `n` low-order nibbles of `v` to `s`, most significant first.
fn append_hex(s: &mut String, v: u128, n: u32)
    requires
        n <= 32,
    ensures
        final(s)@ == old(s)@ + hex_chars(v, n as nat),
    decreases n,
{
    if n > 0 {
        append_hex(s, v / 16, n - 1);
        let piece = hex_digit_str(v % 16);
        s.append(piece);
        assert(final(s)@ == old(s)@ + hex_chars(v, n as nat)) by {
            assert(hex_chars(v, n as nat) == hex_chars(v / 16, (n - 1) as nat).push(
                hex_char(v % 16),
            ));
            assert(old(s)@ + hex_chars(v, n as nat) =~= (old(s)@ + hex_chars(
                v / 16,
                (n - 1) as nat,
            )) + seq![hex_char(v % 16)]);
        }
    } else {
        assert(old(s)@ + hex_chars(v, 0) =~= old(s)@);
    }
}

/// Renders a 128-bit identifier in hyphenated hexadecimal form.
pub fn format_uuid(v: u128) -> (r: String)
    ensures
        r@ == uuid_chars(v),
        r@.len() == 36,
{
    proof {
        reveal_strlit("-");
    }
    let mut s = String::new();
    append_hex(&mut s, v / 0x1000000000000000000000000, 8);
    s.append("-");
    append_hex(&mut s, (v / 0x100000000000000000000) % 0x10000, 4);
    s.append("-");
    append_hex(&mut s, (v / 0x10000000000000000) % 0x10000, 4);
    s.append("-");
    append_hex(&mut s, (v / 0x1000000000000) % 0x10000, 4);
    s.append("-");
    append_hex(&mut s, v % 0x1000000000000, 12);
    proof {
        lemma_hex_chars_len(v / 0x1000000000000000000000000, 8);
        lemma_hex_chars_len((v / 0x100000000000000000000) % 0x10000, 4);
        lemma_hex_chars_len((v / 0x10000000000000000) % 0x10000, 4);
        lemma_hex_chars_len((v / 0x1000000000000) % 0x10000, 4);
        lemma_hex_chars_len(v % 0x1000000000000, 12);
        assert(s@ =~= uuid_chars(v));
    }
    s
}

/// Relies on `uuid::Uuid::new_v4` for a freshly generated random
/// identifier, read back as its 128-bit value. Nothing is assumed of the
/// value: callers treat every outcome alike.
#[verifier::external_body]
fn random_uuid_u128() -> u128 {
    uuid::Uuid::new_v4().as_u128()
}

/// Router identifier.
#[derive(Debug, Copy, Clone, PartialEq, Eq, PartialOrd, Ord, Hash, Structural)]
pub struct RouterId {
    pub value: u128,
}

impl RouterId {
    /// A freshly generated identifier.
    pub fn new() -> Self {
        RouterId { value: random_uuid_u128() }
    }

    /// The identifier holding a given 128-bit value.
    pub fn from_u128(value: u128) -> (r: Self)
        ensures
            r.value == value,
    {
        RouterId { value }
    }

    /// Canonical hyphenated rendering.
    pub fn hyphenated_string(&self) -> (r: String)
        ensures
            r@ == uuid_chars(self.value),
    {
        format_uuid(self.value)
    }
}

/// Transport identifier.
#[derive(Debug, Copy, Clone, PartialEq, Eq, PartialOrd, Ord, Hash, Structural)]
pub struct TransportId {
    pub value: u128,
}

impl TransportId {
    /// A freshly generated identifier.
    pub fn new() -> Self {
        TransportId { value: random_uuid_u128() }
    }

    /// The identifier holding a given 128-bit value.
    pub fn from_u128(value: u128) -> (r: Self)
        ensures
            r.value == value,
    {
        TransportId { value }
    }

    /// Canonical hyphenated rendering.
    pub fn hyphenated_string(&self) -> (r: String)
        ensures
            r@ == uuid_chars(self.value),
    {
        format_uuid(self.value)
    }
}

/// Data producer identifier.
#[derive(Debug, Copy, Clone, PartialEq, Eq, PartialOrd, Ord, Hash, Structural)]
pub struct DataProducerId {
    pub value: u128,
}

impl DataProducerId {
    /// A freshly generated identifier.
    pub fn new() -> Self {
        DataProducerId { value: random_uuid_u128() }
    }

    /// The identifier holding a given 128-bit value.
    pub fn from_u128(value: u128) -> (r: Self)
        ensures
            r.value == value,
    {
        DataProducerId { value }
    }

    /// Canonical hyphenated rendering.
    pub fn hyphenated_string(&self) -> (r: String)
        ensures
            r@ == uuid_chars(self.value),
    {
        format_uuid(self.value)
    }
}

/// Data consumer identifier.
#[derive(Debug, Copy, Clone, PartialEq, Eq, PartialOrd, Ord, Hash, Structural)]
pub struct DataConsumerId {
    pub value: u128,
}

impl DataConsumerId {
    /// A freshly generated identifier.
    pub fn new() -> Self {
        DataConsumerId { value: random_uuid_u128() }
    }

    /// The identifier holding a given 128-bit value.
    pub fn from_u128(value: u128) -> (r: Self)
        ensures
            r.value == value,
    {
        DataConsumerId { value }
    }

    /// Canonical hyphenated rendering.
    pub fn hyphenated_string(&self) -> (r: String)
        ensures
            r@ == uuid_chars(self.value),
    {
        format_uuid(self.value)
    }
}

/// Key under which channel notifications are routed: either a resource
/// identifier or the worker process number itself.
#[derive(Debug, Copy, Clone, PartialEq, Eq, Hash, Structural)]
pub enum SubscriptionTarget {
    /// A resource identified by its 128-bit identifier.
    Uuid(u128),
    /// The worker process, identified by its process number.
    Number(u64),
}

} // verus!
