//! 20-byte account addresses, supplied externally as hex text.

use vstd::prelude::*;

verus! {

/// The hexadecimal value of a character, or 16 when the character is not a
/// hex digit.
pub open spec fn hex_digit_value(c: char) -> nat {
    let u = c as u32;
    if 48 <= u && u <= 57 {
        (u - 48) as nat
    } else if 97 <= u && u <= 102 {
        (u - 87) as nat
    } else if 65 <= u && u <= 70 {
        (u - 55) as nat
    } else {
        16
    }
}

pub open spec fn is_hex_digit(c: char) -> bool {
    hex_digit_value(c) < 16
}

/// Text with a leading `0x` or `0X` stripped; other text unchanged.
pub open spec fn strip_hex_prefix(s: Seq<char>) -> Seq<char> {
    if s.len() >= 2 && s[0] == '0' && (s[1] == 'x' || s[1] == 'X') {
        s.subrange(2, s.len() as int)
    } else {
        s
    }
}

pub open spec fn all_hex_digits(s: Seq<char>) -> bool {
    forall|i: int| 0 <= i < s.len() ==> is_hex_digit(#[trigger] s[i])
}

/// The byte encoded by the hex digit pair at positions `2*i` and `2*i + 1`.
pub open spec fn hex_byte_at(s: Seq<char>, i: int) -> u8 {
    ((hex_digit_value(s[2 * i]) * 16 + hex_digit_value(s[2 * i + 1])) % 256) as u8
}

/// The address encoded by a piece of hex text: exactly 40 hex digits after an
/// optional `0x`/`0X` prefix, two digits per byte, most significant first.
pub open spec fn parsed_address(s: Seq<char>) -> Option<Seq<u8>> {
    let t = strip_hex_prefix(s);
    if t.len() == 40 && all_hex_digits(t) {
        Some(Seq::new(20, |i: int| hex_byte_at(t, i)))
    } else {
        None
    }
}

/// A 20-byte account address.
#[derive(Debug)]
pub struct Address {
    bytes: Vec<u8>,
}

impl View for Address {
    type V = Seq<u8>;

    closed spec fn view(&self) -> Seq<u8> {
        self.bytes@
    }
}

impl Address {
    #[verifier::type_invariant]
    pub closed spec fn wf(self) -> bool {
        self.bytes@.len() == 20
    }

    /// Wraps exactly 20 bytes as an address; rejects any other length.
    pub fn from_bytes(bytes: Vec<u8>) -> (r: Option<Address>)
        ensures
            r is Some <==> bytes@.len() == 20,
            r matches Some(a) ==> a@ == bytes@,
    {
        if bytes.len() == 20 {
            Some(Address { bytes })
        } else {
            None
        }
    }

    /// The address as its 20 bytes.
    pub fn to_bytes(&self) -> (r: Vec<u8>)
        ensures
            r@ == self@,
    {
        proof {
            use_type_invariant(self);
        }
        let mut r: Vec<u8> = Vec::new();
        let mut i: usize = 0;
        while i < self.bytes.len()
            invariant
                i <= self.bytes.len(),
                r@ == self.bytes@.take(i as int),
            decreases self.bytes.len() - i,
        {
            r.push(self.bytes[i]);
            i = i + 1;
        }
        proof {
            assert(r@ =~= self.bytes@);
        }
        r
    }

    /// The number of bytes in an address.
    pub fn byte_len(&self) -> (n: usize)
        ensures
            n == self@.len(),
            n == 20,
    {
        proof {
            use_type_invariant(self);
        }
        self.bytes.len()
    }
}

impl Clone for Address {
    fn clone(&self) -> (r: Self)
        ensures
            r@ == self@,
    {
        proof {
            use_type_invariant(self);
        }
        Address { bytes: self.to_bytes() }
    }
}

/// Whether two addresses hold the same bytes.
pub fn addr_eq(a: &Address, b: &Address) -> (r: bool)
    ensures
        r == (a@ == b@),
{
    proof {
        use_type_invariant(a);
        use_type_invariant(b);
    }
    let mut i: usize = 0;
    while i < a.bytes.len()
        invariant
            a.bytes@.len() == 20,
            b.bytes@.len() == 20,
            i <= 20,
            forall|k: int| 0 <= k < i ==> a.bytes@[k] == b.bytes@[k],
        decreases a.bytes.len() - i,
    {
        if a.bytes[i] != b.bytes[i] {
            return false;
        }
        i = i + 1;
    }
    proof {
        assert(a.bytes@ =~= b.bytes@);
    }
    true
}

/// The hexadecimal value of one character.
fn hex_val(c: char) -> (r: Option<u8>)
    ensures
        r is Some <==> is_hex_digit(c),
        r matches Some(v) ==> v as nat == hex_digit_value(c) && v < 16,
{
    let u = c as u32;
    if u >= 48 && u <= 57 {
        Some((u - 48) as u8)
    } else if u >= 97 && u <= 102 {
        Some((u - 87) as u8)
    } else if u >= 65 && u <= 70 {
        Some((u - 55) as u8)
    } else {
        None
    }
}

/// Parses hex text into an address: exactly 40 hex digits after an optional
/// `0x`/`0X` prefix; anything else is rejected.
pub fn parse_address(s: &str) -> (r: Option<Address>)
    ensures
        r is Some <==> parsed_address(s@) is Some,
        r matches Some(a) ==> parsed_address(s@) == Some(a@),
{
    let n = s.unicode_len();
    let mut start: usize = 0;
    if n >= 2 && s.get_char(0) == '0' {
        let c1 = s.get_char(1);
        if c1 == 'x' || c1 == 'X' {
            start = 2;
        }
    }
    let ghost t = strip_hex_prefix(s@);
    proof {
        assert(t =~= s@.subrange(start as int, n as int));
    }
    if n - start != 40 {
        return None;
    }
    let mut bytes: Vec<u8> = Vec::new();
    let mut i: usize = 0;
    while i < 20
        invariant
            start + 40 == n,
            n as nat == s@.len(),
            t =~= s@.subrange(start as int, n as int),
            t.len() == 40,
            i <= 20,
            bytes@.len() == i,
            forall|k: int| 0 <= k < i ==> bytes@[k] == hex_byte_at(t, k),
            forall|k: int| 0 <= k < 2 * i ==> is_hex_digit(#[trigger] t[k]),
        decreases 20 - i,
    {
        let c1 = s.get_char(start + 2 * i);
        let c2 = s.get_char(start + 2 * i + 1);
        proof {
            assert(t[2 * i as int] == s@[start + 2 * i as int]);
            assert(t[2 * i as int + 1] == s@[start + 2 * i as int + 1]);
        }
        let v1 = match hex_val(c1) {
            Some(v) => v,
            None => {
                proof {
                    assert(!is_hex_digit(t[2 * i as int]));
                }
                return None;
            },
        };
        let v2 = match hex_val(c2) {
            Some(v) => v,
            None => {
                proof {
                    assert(!is_hex_digit(t[2 * i as int + 1]));
                }
                return None;
            },
        };
        let b: u8 = v1 * 16 + v2;
        proof {
            assert(b == hex_byte_at(t, i as int));
        }
        bytes.push(b);
        i = i + 1;
    }
    proof {
        assert(all_hex_digits(t));
        assert(bytes@ =~= Seq::new(20, |k: int| hex_byte_at(t, k)));
    }
    Some(Address { bytes })
}

} // verus!
