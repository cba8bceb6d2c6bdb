//! Object ids.
use vstd::prelude::*;

use crate::model::Model;

verus! {

/// The id of a git object: twenty bytes.
#[derive(Debug, Clone, Copy, PartialEq, Eq)]
pub struct Oid {
    pub bytes: [u8; 20],
}

impl View for Oid {
    type V = Seq<u8>;

    open spec fn view(&self) -> Seq<u8> {
        self.bytes@
    }
}

impl Model for Oid {
    type M = Seq<u8>;

    open spec fn model(&self) -> Seq<u8> {
        self@
    }
}

/// The value of a hexadecimal digit, of either case.
pub open spec fn hex_value(c: char) -> Option<int> {
    if '0' <= c <= '9' {
        Some(c as int - 0x30)
    } else if 'a' <= c <= 'f' {
        Some(c as int - 0x61 + 10)
    } else if 'A' <= c <= 'F' {
        Some(c as int - 0x41 + 10)
    } else {
        None
    }
}

/// The lower-case hexadecimal digit of value `v`.
pub open spec fn hex_digit(v: int) -> char {
    if v < 10 {
        (v + 0x30) as char
    } else {
        (v - 10 + 0x61) as char
    }
}

/// Whether `s` spells an object id: one to forty hexadecimal digits.
pub open spec fn is_oid_text(s: Seq<char>) -> bool {
    &&& 1 <= s.len() <= 40
    &&& forall|i: int| 0 <= i < s.len() ==> hex_value(#[trigger] s[i]) is Some
}

/// The value of digit `i` of `s`; zero past its end.
pub open spec fn digit_at(s: Seq<char>, i: int) -> int {
    if 0 <= i < s.len() {
        hex_value(s[i])->0
    } else {
        0
    }
}

/// The id that `s` spells, filled up with zeros; nothing where `s` spells none.
pub open spec fn oid_of_text(s: Seq<char>) -> Option<Seq<u8>> {
    if is_oid_text(s) {
        Some(Seq::new(20, |i: int| (16 * digit_at(s, 2 * i) + digit_at(s, 2 * i + 1)) as u8))
    } else {
        None
    }
}

/// Digit `i` of the hexadecimal form of some bytes.
pub open spec fn oid_digit(bytes: Seq<u8>, i: int) -> char {
    hex_digit(
        if i % 2 == 0 {
            bytes[i / 2] as int / 16
        } else {
            bytes[i / 2] as int % 16
        },
    )
}

/// The hexadecimal form of an id: forty lower-case digits.
pub open spec fn text_of_oid(bytes: Seq<u8>) -> Seq<char> {
    Seq::new(40, |i: int| oid_digit(bytes, i))
}

/// `git2::Oid::from_str`: succeeds exactly on one to forty hexadecimal digits, and fills a short
/// id up with zeros at its end.
#[verifier::external_body]
fn git2_oid_from_str(s: &str) -> (r: Option<[u8; 20]>)
    ensures
        r is Some <==> oid_of_text(s@) is Some,
        r is Some ==> Some(r->0@) == oid_of_text(s@),
{
    git2::Oid::from_str(s).ok().map(|oid| {
        let mut bytes = [0u8; 20];
        bytes.copy_from_slice(oid.as_bytes());
        bytes
    })
}

/// `git2::Oid`'s `to_string`: two lower-case hexadecimal digits for each byte.
#[verifier::external_body]
fn git2_oid_to_string(bytes: &[u8; 20]) -> (r: String)
    ensures
        r@ == text_of_oid(bytes@),
{
    git2::Oid::from_bytes(bytes).unwrap().to_string()
}

impl Oid {
    /// The id that `s` spells.
    pub fn parse(s: &str) -> (r: Option<Oid>)
        ensures
            r.model() == oid_of_text(s@),
    {
        match git2_oid_from_str(s) {
            Some(bytes) => Some(Oid { bytes }),
            None => None,
        }
    }

    /// The forty lower-case hexadecimal digits of this id.
    pub fn to_text(&self) -> (r: String)
        ensures
            r@ == text_of_oid(self@),
    {
        git2_oid_to_string(&self.bytes)
    }

    /// Whether all bytes are zero.
    pub fn is_zero(&self) -> (r: bool)
        ensures
            r == is_zero_oid(self@),
    {
        let mut i: usize = 0;
        while i < 20
            invariant
                i <= 20,
                forall|j: int| 0 <= j < i ==> self.bytes@[j] == 0,
            decreases 20 - i,
        {
            if self.bytes[i] != 0 {
                return false;
            }
            i = i + 1;
        }
        true
    }
}

/// Whether all bytes of an id are zero.
pub open spec fn is_zero_oid(bytes: Seq<u8>) -> bool {
    forall|i: int| 0 <= i < bytes.len() ==> bytes[i] == 0
}

/// The digits of an id spell that id.
pub proof fn law_oid_text_round_trip(bytes: Seq<u8>)
    requires
        bytes.len() == 20,
    ensures
        oid_of_text(text_of_oid(bytes)) == Some(bytes),
{
    let s = text_of_oid(bytes);
    assert forall|i: int| 0 <= i < 40 implies hex_value(#[trigger] s[i]) == Some(
        if i % 2 == 0 {
            bytes[i / 2] as int / 16
        } else {
            bytes[i / 2] as int % 16
        },
    ) by {
        assert(s[i] == oid_digit(bytes, i));
    }
    assert(is_oid_text(s));
    assert forall|i: int| 0 <= i < 20 implies (16 * digit_at(s, 2 * i) + digit_at(s, 2 * i + 1))
        as u8 == bytes[i] by {
        assert(hex_value(s[2 * i]) is Some);
        assert(hex_value(s[2 * i + 1]) is Some);
        assert((2 * i) / 2 == i && (2 * i + 1) / 2 == i);
    }
    assert(oid_of_text(s)->0 =~= bytes);
}

/// Whether a character is a hexadecimal digit.
pub open spec fn is_hex_digit(c: char) -> bool {
    '0' <= c <= '9' || 'a' <= c <= 'f' || 'A' <= c <= 'F'
}

/// One to forty hexadecimal digits are an id; nothing else is. The id has those digits, in lower
/// case, and zeros behind them.
pub proof fn law_id_of_text(s: Seq<char>)
    ensures
        oid_of_text(s) is Some <==> 1 <= s.len() <= 40 && (forall|i: int|
            0 <= i < s.len() ==> is_hex_digit(#[trigger] s[i])),
        oid_of_text(s) is Some ==> {
            &&& oid_of_text(s)->0.len() == 20
            &&& forall|i: int|
                0 <= i < 40 ==> #[trigger] text_of_oid(oid_of_text(s)->0)[i] == if i >= s.len() {
                    '0'
                } else if 'A' <= s[i] <= 'F' {
                    (s[i] as int + 0x20) as char
                } else {
                    s[i]
                }
        },
{
    assert(is_oid_text(s) <==> 1 <= s.len() <= 40 && (forall|i: int|
        0 <= i < s.len() ==> is_hex_digit(#[trigger] s[i]))) by {
        if is_oid_text(s) {
            assert forall|i: int| 0 <= i < s.len() implies is_hex_digit(#[trigger] s[i]) by {
                assert(hex_value(s[i]) is Some);
            }
        }
    }
    if is_oid_text(s) {
        let bytes = oid_of_text(s)->0;
        assert forall|i: int| 0 <= i < 40 implies #[trigger] text_of_oid(bytes)[i] == hex_digit(
            digit_at(s, i),
        ) by {
            let j = i / 2;
            let a = digit_at(s, 2 * j);
            let b = digit_at(s, 2 * j + 1);
            assert(0 <= a < 16) by {
                if 2 * j < s.len() {
                    assert(hex_value(s[2 * j]) is Some);
                }
            }
            assert(0 <= b < 16) by {
                if 2 * j + 1 < s.len() {
                    assert(hex_value(s[2 * j + 1]) is Some);
                }
            }
            assert(bytes[j] == (16 * a + b) as u8);
            assert(bytes[j] as int / 16 == a);
            assert(bytes[j] as int % 16 == b);
            assert(text_of_oid(bytes)[i] == oid_digit(bytes, i));
            assert(i % 2 == 0 ==> i == 2 * j);
            assert(i % 2 != 0 ==> i == 2 * j + 1);
        }
        assert forall|i: int| 0 <= i < 40 implies #[trigger] text_of_oid(bytes)[i] == if i
            >= s.len() {
            '0'
        } else if 'A' <= s[i] <= 'F' {
            (s[i] as int + 0x20) as char
        } else {
            s[i]
        } by {
            assert(text_of_oid(bytes)[i] == hex_digit(digit_at(s, i)));
            if i < s.len() {
                assert(hex_value(s[i]) is Some);
            }
        }
    }
}

/// A commit, by its id.
#[derive(Debug, Clone, Copy, PartialEq, Eq)]
pub struct Commit(Oid);

impl View for Commit {
    type V = Seq<u8>;

    closed spec fn view(&self) -> Seq<u8> {
        self.0@
    }
}

impl Model for Commit {
    type M = Seq<u8>;

    open spec fn model(&self) -> Seq<u8> {
        self@
    }
}

impl Commit {
    /// The commit of this id.
    pub fn new(id: Oid) -> (r: Commit)
        ensures
            r@ == id@,
    {
        Commit(id)
    }

    /// The id of this commit.
    pub fn as_oid(&self) -> (r: Oid)
        ensures
            r@ == self@,
    {
        self.0
    }

    /// The id in hexadecimal.
    pub fn to_text(&self) -> (r: String)
        ensures
            r@ == text_of_oid(self@),
    {
        self.0.to_text()
    }
}

} // verus!
