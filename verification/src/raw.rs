//! Text as the operating system hands it over.
use vstd::prelude::*;
use vstd::utf8::encode_utf8;

use crate::model::{models, Model};
use crate::text::{self, utf8_fault, utf8_lossy};

verus! {

broadcast use crate::model::lemma_models_push;

/// Bytes from or for the operating system: a path, an argument of a command, what a program
/// reads or writes. They need not be valid UTF-8.
#[derive(Debug, PartialEq, Eq)]
pub struct RawText {
    pub bytes: Vec<u8>,
}

impl View for RawText {
    type V = Seq<u8>;

    open spec fn view(&self) -> Seq<u8> {
        self.bytes@
    }
}

impl Model for RawText {
    type M = Seq<u8>;

    open spec fn model(&self) -> Seq<u8> {
        self@
    }
}

/// The UTF-8 encoding of some text.
pub open spec fn utf8(s: Seq<char>) -> Seq<u8> {
    encode_utf8(s)
}

impl RawText {
    /// The UTF-8 encoding of `s`.
    pub fn of(s: &str) -> (r: RawText)
        ensures
            r@ == utf8(s@),
    {
        RawText { bytes: s.as_bytes_vec() }
    }

    /// The same bytes again.
    pub fn copy(&self) -> (r: RawText)
        ensures
            r@ == self@,
    {
        let bytes: Vec<u8> = text::bytes_of(&self.bytes, 0, self.bytes.len());
        assert(bytes@ =~= self.bytes@);
        RawText { bytes }
    }

    /// The bytes as text, with the parts that are not UTF-8 replaced.
    pub fn to_text(&self) -> (r: String)
        ensures
            r@ == utf8_lossy(self@),
            vstd::utf8::valid_utf8(self@) ==> r@ == vstd::utf8::decode_utf8(self@),
    {
        text::decode_lossy(&self.bytes)
    }

    /// The bytes as text, where they are UTF-8.
    pub fn as_text(&self) -> (r: Option<String>)
        ensures
            r.model() == strict_text(self@),
    {
        match text::decode_strict(&self.bytes) {
            Ok(s) => Some(s),
            Err(_) => None,
        }
    }

    /// The bytes as text, or what is wrong with them.
    pub fn check_text(&self) -> (r: Result<String, String>)
        ensures
            r.model() == checked_text(self@),
    {
        text::decode_strict(&self.bytes)
    }
}

/// The text that some bytes encode, where they are UTF-8.
pub open spec fn strict_text(bytes: Seq<u8>) -> Option<Seq<char>> {
    if vstd::utf8::valid_utf8(bytes) {
        Some(vstd::utf8::decode_utf8(bytes))
    } else {
        None
    }
}

/// The text that some bytes encode, or what is wrong with them where they are not UTF-8.
pub open spec fn checked_text(bytes: Seq<u8>) -> Result<Seq<char>, Seq<char>> {
    if vstd::utf8::valid_utf8(bytes) {
        Ok(vstd::utf8::decode_utf8(bytes))
    } else {
        Err(utf8_fault(bytes))
    }
}

/// The one argument `a`.
pub(crate) fn argv1(a: &str) -> (r: Vec<RawText>)
    ensures
        models(r@) == seq![utf8(a@)],
{
    let mut v: Vec<RawText> = Vec::new();
    v.push(RawText::of(a));
    assert(models(v@) =~= seq![utf8(a@)]);
    v
}

/// Two arguments.
pub(crate) fn argv2(a: &str, b: &str) -> (r: Vec<RawText>)
    ensures
        models(r@) == seq![utf8(a@), utf8(b@)],
{
    let mut v: Vec<RawText> = argv1(a);
    v.push(RawText::of(b));
    assert(models(v@) =~= seq![utf8(a@), utf8(b@)]);
    v
}

/// Three arguments.
pub(crate) fn argv3(a: &str, b: &str, c: &str) -> (r: Vec<RawText>)
    ensures
        models(r@) == seq![utf8(a@), utf8(b@), utf8(c@)],
{
    let mut v: Vec<RawText> = argv2(a, b);
    v.push(RawText::of(c));
    assert(models(v@) =~= seq![utf8(a@), utf8(b@), utf8(c@)]);
    v
}

/// Four arguments.
pub(crate) fn argv4(a: &str, b: &str, c: &str, d: &str) -> (r: Vec<RawText>)
    ensures
        models(r@) == seq![utf8(a@), utf8(b@), utf8(c@), utf8(d@)],
{
    let mut v: Vec<RawText> = argv3(a, b, c);
    v.push(RawText::of(d));
    assert(models(v@) =~= seq![utf8(a@), utf8(b@), utf8(c@), utf8(d@)]);
    v
}

/// Five arguments.
pub(crate) fn argv5(a: &str, b: &str, c: &str, d: &str, e: &str) -> (r: Vec<RawText>)
    ensures
        models(r@) == seq![utf8(a@), utf8(b@), utf8(c@), utf8(d@), utf8(e@)],
{
    let mut v: Vec<RawText> = argv4(a, b, c, d);
    v.push(RawText::of(e));
    assert(models(v@) =~= seq![utf8(a@), utf8(b@), utf8(c@), utf8(d@), utf8(e@)]);
    v
}

} // verus!
