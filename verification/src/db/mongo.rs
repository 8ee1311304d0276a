//! Identifiers of stored documents.
use vstd::prelude::*;

use crate::text::chars_of;

verus! {

/// The value of a hexadecimal digit, in either case.
pub open spec fn hex_value(c: char) -> Option<u8> {
    if '0' <= c && c <= '9' {
        Some((c as int - 48) as u8)
    } else if 'a' <= c && c <= 'f' {
        Some((c as int - 87) as u8)
    } else if 'A' <= c && c <= 'F' {
        Some((c as int - 55) as u8)
    } else {
        None
    }
}

/// The twelve bytes that 24 hexadecimal digits write, or `None` for any
/// other text.
pub open spec fn object_id_bytes(s: Seq<char>) -> Option<Seq<u8>> {
    if s.len() == 24 && forall|i: int| 0 <= i < 24 ==> (#[trigger] hex_value(s[i])) is Some {
        Some(Seq::new(12, |i: int| (hex_value(s[2 * i])->0 * 16 + hex_value(s[2 * i + 1])->0) as u8))
    } else {
        None
    }
}

/// The lower-case hexadecimal digit of `v`.
pub open spec fn hex_digit(v: int) -> char {
    if v < 10 {
        (48 + v) as char
    } else {
        (87 + v) as char
    }
}

/// The lower-case hexadecimal digits of some bytes, two per byte.
pub open spec fn hex_of(b: Seq<u8>) -> Seq<char> {
    Seq::new(
        2 * b.len(),
        |i: int|
            if i % 2 == 0 {
                hex_digit((b[i / 2] / 16) as int)
            } else {
                hex_digit((b[i / 2] % 16) as int)
            },
    )
}

/// The identifier of a stored document.
#[derive(Debug, Clone, Copy, PartialEq, Eq)]
pub struct ObjectID(pub [u8; 12]);

fn hex_value_exec(c: char) -> (r: Option<u8>)
    ensures
        r == hex_value(c),
{
    if '0' <= c && c <= '9' {
        Some(((c as u32) - 48) as u8)
    } else if 'a' <= c && c <= 'f' {
        Some(((c as u32) - 87) as u8)
    } else if 'A' <= c && c <= 'F' {
        Some(((c as u32) - 55) as u8)
    } else {
        None
    }
}

/// A fresh identifier from `bson::oid::ObjectId::new`, which the
/// current time, the process and a counter make up; nothing is claimed
/// of its bytes.
#[verifier::external_body]
fn fresh_object_id() -> (r: [u8; 12]) {
    bson::oid::ObjectId::new().bytes()
}

fn hex_digit_exec(v: u8) -> (r: char)
    requires
        v < 16,
    ensures
        r == hex_digit(v as int),
{
    if v < 10 {
        (v + 48) as char
    } else {
        (v + 87) as char
    }
}

impl ObjectID {
    /// The identifier that 24 hexadecimal digits write, or `None` for any
    /// other text.
    pub fn parse(s: &str) -> (r: Option<Self>)
        ensures
            match object_id_bytes(s@) {
                Some(b) => r matches Some(id) && id.0@ == b,
                None => r is None,
            },
    {
        let c = chars_of(s);
        let mut out = [0u8; 12];
        if c.len() != 24 {
            return None;
        }
        let mut i: usize = 0;
        while i < 12
            invariant
                c@ == s@,
                c@.len() == 24,
                i <= 12,
                forall|j: int| 0 <= j < 2 * i ==> (#[trigger] hex_value(c@[j])) is Some,
                forall|j: int|
                    0 <= j < i ==> out@[j] == (hex_value(c@[2 * j])->0 * 16 + hex_value(
                        c@[2 * j + 1],
                    )->0) as u8,
                out@.len() == 12,
            decreases 12 - i,
        {
            let hi = hex_value_exec(c[2 * i]);
            let lo = hex_value_exec(c[2 * i + 1]);
            match (hi, lo) {
                (Some(h), Some(l)) => {
                    out[i] = h * 16 + l;
                },
                _ => {
                    assert(object_id_bytes(s@) is None) by {
                        if hex_value(c@[2 * i as int]) is None {
                            assert(!(hex_value(s@[2 * i as int]) is Some));
                        } else {
                            assert(!(hex_value(s@[2 * i + 1]) is Some));
                        }
                    }
                    return None;
                },
            }
            i = i + 1;
        }
        assert(out@ =~= object_id_bytes(s@)->0);
        Some(ObjectID(out))
    }

    /// The identifier that `s` writes in hexadecimal; for any other text,
    /// a freshly made identifier.
    pub fn new(s: &str) -> (r: Self)
        ensures
            object_id_bytes(s@) matches Some(b) ==> r.0@ == b,
    {
        match Self::parse(s) {
            Some(id) => id,
            None => ObjectID(fresh_object_id()),
        }
    }

    /// The identifier in lower-case hexadecimal, as it is written out.
    pub fn to_hex(&self) -> (r: String)
        ensures
            r@ == hex_of(self.0@),
    {
        let mut out = String::new();
        let mut i: usize = 0;
        while i < 12
            invariant
                i <= 12,
                self.0@.len() == 12,
                out@ == hex_of(self.0@).take(2 * i),
            decreases 12 - i,
        {
            let b = self.0[i];
            out.push(hex_digit_exec(b / 16));
            out.push(hex_digit_exec(b % 16));
            assert(out@ =~= hex_of(self.0@).take(2 * i + 2));
            i = i + 1;
        }
        assert(hex_of(self.0@).take(24) =~= hex_of(self.0@));
        out
    }

    /// The bytes of the identifier.
    pub fn into_inner(&self) -> (r: [u8; 12])
        ensures
            r == self.0,
    {
        self.0
    }

}

/// An identifier written out in hexadecimal reads back as itself.
pub proof fn lemma_object_id_hex_roundtrip(id: ObjectID)
    ensures
        object_id_bytes(hex_of(id.0@)) == Some(id.0@),
{
    let h = hex_of(id.0@);
    assert forall|i: int| 0 <= i < 24 implies (#[trigger] hex_value(h[i])) is Some by {
        let b = id.0@[i / 2];
        let v: int = if i % 2 == 0 {
            (b / 16) as int
        } else {
            (b % 16) as int
        };
        assert(0 <= v < 16);
    }
    assert(object_id_bytes(h)->0 =~= id.0@) by {
        assert forall|j: int| 0 <= j < 12 implies object_id_bytes(h)->0[j] == id.0@[j] by {
            let b = id.0@[j];
            assert((2 * j) / 2 == j && (2 * j + 1) / 2 == j);
            assert((2 * j) % 2 == 0 && (2 * j + 1) % 2 == 1);
            assert(h[2 * j] == hex_digit((b / 16) as int));
            assert(h[2 * j + 1] == hex_digit((b % 16) as int));
        }
    }
}

} // verus!
