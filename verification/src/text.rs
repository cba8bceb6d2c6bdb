//! Text as sequences of characters: cutting, trimming, searching and joining.
//!
//! The contracts speak of `Seq<char>`; the functions take `&str` and return `String`.
use vstd::prelude::*;
use vstd::utf8::{decode_utf8, valid_utf8};

use crate::model::models;

verus! {

// ---------------------------------------------------------------------------
// What the operations mean
// ---------------------------------------------------------------------------

/// The characters with Unicode's `White_Space` property.
pub open spec fn is_white_space(c: char) -> bool {
    let u = c as u32;
    ||| 0x09 <= u <= 0x0d
    ||| u == 0x20
    ||| u == 0x85
    ||| u == 0xa0
    ||| u == 0x1680
    ||| 0x2000 <= u <= 0x200a
    ||| u == 0x2028
    ||| u == 0x2029
    ||| u == 0x202f
    ||| u == 0x205f
    ||| u == 0x3000
}

/// `s` without the white space at its front.
pub open spec fn trimmed_start(s: Seq<char>) -> Seq<char>
    decreases s.len(),
{
    if s.len() > 0 && is_white_space(s[0]) {
        trimmed_start(s.skip(1))
    } else {
        s
    }
}

/// `s` without the white space at its end.
pub open spec fn trimmed_end(s: Seq<char>) -> Seq<char>
    decreases s.len(),
{
    if s.len() > 0 && is_white_space(s.last()) {
        trimmed_end(s.drop_last())
    } else {
        s
    }
}

/// `s` without the white space around it.
pub open spec fn trimmed(s: Seq<char>) -> Seq<char> {
    trimmed_end(trimmed_start(s))
}

/// Where `sep` first occurs in `s`; the length of `s` where it does not.
pub open spec fn first_at<T>(s: Seq<T>, sep: T) -> int
    decreases s.len(),
{
    if s.len() == 0 || s[0] == sep {
        0
    } else {
        1 + first_at(s.skip(1), sep)
    }
}

/// The pieces of `s` between the occurrences of `sep`: one more than there are occurrences.
pub open spec fn pieces<T>(s: Seq<T>, sep: T) -> Seq<Seq<T>>
    decreases s.len(),
{
    let k = first_at(s, sep);
    if 0 <= k < s.len() {
        seq![s.take(k)] + pieces(s.skip(k + 1), sep)
    } else {
        seq![s]
    }
}

/// `s` without one carriage return at its end.
pub open spec fn without_return(s: Seq<char>) -> Seq<char> {
    if s.len() > 0 && s.last() == '\r' {
        s.drop_last()
    } else {
        s
    }
}

/// The lines of `s`: each ends in a line feed, before which one carriage return may stand, and
/// the last may lack that ending. What follows a final line feed is no line if it is empty.
pub open spec fn lines_of(s: Seq<char>) -> Seq<Seq<char>>
    decreases s.len(),
{
    let k = first_at(s, '\n');
    if s.len() == 0 {
        seq![]
    } else if 0 <= k < s.len() {
        seq![without_return(s.take(k))] + lines_of(s.skip(k + 1))
    } else {
        seq![s]
    }
}

/// What follows `prefix` in `s`, where `s` begins with it.
pub open spec fn after_prefix(s: Seq<char>, prefix: Seq<char>) -> Option<Seq<char>> {
    if prefix.is_prefix_of(s) {
        Some(s.skip(prefix.len() as int))
    } else {
        None
    }
}

/// Whether `part` stands somewhere in `s`.
pub open spec fn has_part(s: Seq<char>, part: Seq<char>) -> bool {
    exists|i: int| #[trigger] part_at(s, part, i)
}

/// Whether `part` stands in `s` at position `i`.
pub open spec fn part_at(s: Seq<char>, part: Seq<char>, i: int) -> bool {
    0 <= i && i + part.len() <= s.len() && s.subrange(i, i + part.len()) == part
}

/// `s` with the first occurrence of `from` replaced by `to`.
pub open spec fn with_first_replaced(s: Seq<char>, from: Seq<char>, to: Seq<char>) -> Seq<char>
    decreases s.len(),
{
    if from.is_prefix_of(s) {
        to + s.skip(from.len() as int)
    } else if s.len() == 0 {
        s
    } else {
        seq![s[0]] + with_first_replaced(s.skip(1), from, to)
    }
}

/// The parts in order, with `sep` between neighbours.
pub open spec fn joined(parts: Seq<Seq<char>>, sep: Seq<char>) -> Seq<char>
    decreases parts.len(),
{
    if parts.len() == 0 {
        seq![]
    } else if parts.len() == 1 {
        parts[0]
    } else {
        joined(parts.drop_last(), sep) + sep + parts.last()
    }
}

/// The decimal digit of value `d`.
pub open spec fn digit(d: int) -> char {
    (d + 0x30) as char
}

/// `n` in decimal, without leading zeros.
pub open spec fn decimal(n: nat) -> Seq<char>
    decreases n,
{
    if n < 10 {
        seq![digit(n as int)]
    } else {
        decimal(n / 10).push(digit((n % 10) as int))
    }
}

/// `c`, or its lower-case form where it is one of `A` to `Z`.
pub open spec fn ascii_lower(c: char) -> char {
    if 'A' <= c <= 'Z' {
        (c as u32 + 32) as char
    } else {
        c
    }
}

/// `s` with each of `A` to `Z` in lower case.
pub open spec fn ascii_lowered(s: Seq<char>) -> Seq<char> {
    s.map_values(|c: char| ascii_lower(c))
}

/// The views of some strings.
pub open spec fn texts(s: Seq<String>) -> Seq<Seq<char>> {
    models(s)
}

// ---------------------------------------------------------------------------
// Calls into the standard library
// ---------------------------------------------------------------------------

/// `String::push`: appends one character.
pub assume_specification[ String::push ](s: &mut String, c: char)
    ensures
        final(s)@ == old(s)@.push(c),
;

/// What `String::from_utf8_lossy` makes of some bytes.
pub uninterp spec fn utf8_lossy(bytes: Seq<u8>) -> Seq<char>;

/// `String::from_utf8_lossy`: valid UTF-8 is decoded as it stands. What replaces the invalid
/// parts of other input is not spelled out: the result has the name `utf8_lossy`.
#[verifier::external_body]
pub(crate) fn decode_lossy(bytes: &Vec<u8>) -> (r: String)
    ensures
        r@ == utf8_lossy(bytes@),
        valid_utf8(bytes@) ==> r@ == decode_utf8(bytes@),
{
    String::from_utf8_lossy(bytes).to_string()
}

/// What the error of `core::str::from_utf8` says of some bytes that are not valid UTF-8.
pub uninterp spec fn utf8_fault(bytes: Seq<u8>) -> Seq<char>;

/// `core::str::from_utf8`: text exactly where the bytes are valid UTF-8, and then the text that
/// they encode. What its error says of other bytes has the name `utf8_fault`.
#[verifier::external_body]
pub(crate) fn decode_strict(bytes: &Vec<u8>) -> (r: Result<String, String>)
    ensures
        r is Ok <==> valid_utf8(bytes@),
        r is Ok ==> r->Ok_0@ == decode_utf8(bytes@),
        r is Err ==> r->Err_0@ == utf8_fault(bytes@),
{
    match core::str::from_utf8(bytes) {
        Ok(s) => Ok(s.to_owned()),
        Err(e) => Err(e.to_string()),
    }
}

/// What `str::to_lowercase` makes of some text.
pub uninterp spec fn unicode_lowered(s: Seq<char>) -> Seq<char>;

/// Whether all of a text is ASCII.
pub open spec fn all_ascii(s: Seq<char>) -> bool {
    forall|i: int| 0 <= i < s.len() ==> (#[trigger] s[i] as int) < 128
}

/// `str::to_lowercase`: Unicode's lower-case mapping, which has the name `unicode_lowered`. Text that
/// is all ASCII has its letters `A` to `Z` replaced by `a` to `z`, and nothing else.
#[verifier::external_body]
pub(crate) fn to_lower(s: &str) -> (r: String)
    ensures
        r@ == unicode_lowered(s@),
        all_ascii(s@) ==> r@ == ascii_lowered(s@),
{
    s.to_lowercase()
}

// ---------------------------------------------------------------------------
// Characters and strings
// ---------------------------------------------------------------------------

/// The characters of `s`.
pub fn chars_of(s: &str) -> (r: Vec<char>)
    ensures
        r@ == s@,
{
    let mut v: Vec<char> = Vec::new();
    for c in it: s.chars()
        invariant
            v@ == it.seq().take(it.index() as int),
            it.seq() == s@,
    {
        v.push(c);
    }
    v
}

/// The characters `from` up to `to` as text.
fn text_of(v: &Vec<char>, from: usize, to: usize) -> (r: String)
    requires
        from <= to <= v@.len(),
    ensures
        r@ == v@.subrange(from as int, to as int),
{
    let mut out: String = String::new();
    let mut i: usize = from;
    while i < to
        invariant
            from <= i <= to <= v@.len(),
            out@ == v@.subrange(from as int, i as int),
        decreases to - i,
    {
        out.push(v[i]);
        i = i + 1;
    }
    out
}

/// Whether `c` is white space.
pub fn white_space(c: char) -> (r: bool)
    ensures
        r == is_white_space(c),
{
    let u: u32 = c as u32;
    (0x09 <= u && u <= 0x0d) || u == 0x20 || u == 0x85 || u == 0xa0 || u == 0x1680 || (0x2000 <= u
        && u <= 0x200a) || u == 0x2028 || u == 0x2029 || u == 0x202f || u == 0x205f || u == 0x3000
}

/// The end of `v[from..]` without the white space at its end.
fn end_trimmed(v: &Vec<char>, from: usize) -> (r: usize)
    requires
        from <= v@.len(),
    ensures
        from <= r <= v@.len(),
        v@.subrange(from as int, r as int) == trimmed_end(v@.skip(from as int)),
{
    let mut to: usize = v.len();
    assert(v@.subrange(from as int, to as int) =~= v@.skip(from as int));
    while from < to && white_space(v[to - 1])
        invariant
            from <= to <= v@.len(),
            trimmed_end(v@.subrange(from as int, to as int)) == trimmed_end(v@.skip(from as int)),
        decreases to,
    {
        assert(v@.subrange(from as int, to as int).drop_last() =~= v@.subrange(
            from as int,
            to - 1,
        ));
        to = to - 1;
    }
    to
}

/// `s` without the white space at its end.
pub fn trim_end(s: &str) -> (r: String)
    ensures
        r@ == trimmed_end(s@),
{
    let v: Vec<char> = chars_of(s);
    let to: usize = end_trimmed(&v, 0);
    assert(v@.skip(0) =~= v@);
    text_of(&v, 0, to)
}

/// `s` without the white space around it.
pub fn trim(s: &str) -> (r: String)
    ensures
        r@ == trimmed(s@),
{
    let v: Vec<char> = chars_of(s);
    let mut from: usize = 0;
    assert(v@.skip(0) =~= v@);
    while from < v.len() && white_space(v[from])
        invariant
            from <= v@.len(),
            trimmed_start(v@.skip(from as int)) == trimmed_start(v@),
        decreases v@.len() - from,
    {
        assert(v@.skip(from as int).skip(1) =~= v@.skip(from + 1));
        from = from + 1;
    }
    let to: usize = end_trimmed(&v, from);
    text_of(&v, from, to)
}

// ---------------------------------------------------------------------------
// Cutting
// ---------------------------------------------------------------------------

proof fn lemma_first_at<T>(s: Seq<T>, sep: T, k: int)
    requires
        0 <= k <= s.len(),
        forall|i: int| 0 <= i < k ==> s[i] != sep,
        k < s.len() ==> s[k] == sep,
    ensures
        first_at(s, sep) == k,
    decreases s.len(),
{
    if k > 0 {
        assert forall|i: int| 0 <= i < k - 1 implies s.skip(1)[i] != sep by {
            assert(s.skip(1)[i] == s[i + 1]);
        }
        lemma_first_at(s.skip(1), sep, k - 1);
    }
}

fn find_char(v: &Vec<char>, from: usize, sep: char) -> (r: usize)
    requires
        from <= v@.len(),
    ensures
        from <= r <= v@.len(),
        r - from == first_at(v@.skip(from as int), sep),
{
    let mut i: usize = from;
    while i < v.len() && v[i] != sep
        invariant
            from <= i <= v@.len(),
            forall|j: int| from <= j < i ==> v@[j] != sep,
        decreases v@.len() - i,
    {
        i = i + 1;
    }
    proof {
        lemma_first_at(v@.skip(from as int), sep, i - from);
    }
    i
}

fn find_byte(v: &Vec<u8>, from: usize, sep: u8) -> (r: usize)
    requires
        from <= v@.len(),
    ensures
        from <= r <= v@.len(),
        r - from == first_at(v@.skip(from as int), sep),
{
    let mut i: usize = from;
    while i < v.len() && v[i] != sep
        invariant
            from <= i <= v@.len(),
            forall|j: int| from <= j < i ==> v@[j] != sep,
        decreases v@.len() - i,
    {
        i = i + 1;
    }
    proof {
        lemma_first_at(v@.skip(from as int), sep, i - from);
    }
    i
}

/// The lines of `s`.
pub fn lines(s: &str) -> (r: Vec<String>)
    ensures
        texts(r@) == lines_of(s@),
{
    let v: Vec<char> = chars_of(s);
    let mut out: Vec<String> = Vec::new();
    let mut start: usize = 0;
    assert(v@.skip(0) =~= v@);
    assert(texts(out@) + lines_of(v@) =~= lines_of(v@));
    while start < v.len()
        invariant
            start <= v@.len(),
            v@ == s@,
            texts(out@) + lines_of(v@.skip(start as int)) == lines_of(s@),
        decreases v@.len() - start,
    {
        let ghost before = out@;
        let ghost rest = v@.skip(start as int);
        let end: usize = find_char(&v, start, '\n');
        if end < v.len() {
            let last: usize = if end > start && v[end - 1] == '\r' {
                end - 1
            } else {
                end
            };
            let line: String = text_of(&v, start, last);
            proof {
                assert(rest.take(end - start) =~= v@.subrange(start as int, end as int));
                assert(line@ =~= without_return(rest.take(end - start)));
                assert(rest.skip(end - start + 1) =~= v@.skip(end + 1));
            }
            out.push(line);
            proof {
                assert(texts(out@) =~= texts(before).push(line@));
                assert(texts(out@) + lines_of(v@.skip(end + 1)) =~= texts(before) + (seq![line@]
                    + lines_of(v@.skip(end + 1))));
            }
            start = end + 1;
        } else {
            let line: String = text_of(&v, start, end);
            assert(line@ =~= rest);
            out.push(line);
            proof {
                assert(v@.skip(v@.len() as int).len() == 0);
                assert(texts(out@) =~= texts(before).push(line@));
                assert(texts(out@) + lines_of(v@.skip(v@.len() as int)) =~= texts(before) + seq![
                    line@,
                ]);
            }
            start = end;
        }
    }
    proof {
        assert(lines_of(v@.skip(start as int)) =~= seq![]);
        assert(texts(out@) + seq![] =~= texts(out@));
    }
    out
}

/// The pieces of `s` between the occurrences of `sep`.
pub fn split(s: &str, sep: char) -> (r: Vec<String>)
    ensures
        texts(r@) == pieces(s@, sep),
{
    let v: Vec<char> = chars_of(s);
    let mut out: Vec<String> = Vec::new();
    let mut start: usize = 0;
    let mut end: usize = find_char(&v, 0, sep);
    assert(v@.skip(0) =~= v@);
    assert(texts(out@) + pieces(v@, sep) =~= pieces(v@, sep));
    while end < v.len()
        invariant
            start <= end <= v@.len(),
            v@ == s@,
            end - start == first_at(v@.skip(start as int), sep),
            texts(out@) + pieces(v@.skip(start as int), sep) == pieces(s@, sep),
        decreases v@.len() - start,
    {
        let ghost before = out@;
        let ghost rest = v@.skip(start as int);
        let piece: String = text_of(&v, start, end);
        proof {
            assert(piece@ =~= rest.take(end - start));
            assert(rest.skip(end - start + 1) =~= v@.skip(end + 1));
        }
        out.push(piece);
        proof {
            assert(texts(out@) =~= texts(before).push(piece@));
            assert(texts(out@) + pieces(v@.skip(end + 1), sep) =~= texts(before) + (seq![piece@]
                + pieces(v@.skip(end + 1), sep)));
        }
        start = end + 1;
        end = find_char(&v, start, sep);
    }
    let ghost before = out@;
    let piece: String = text_of(&v, start, end);
    assert(piece@ =~= v@.skip(start as int));
    out.push(piece);
    assert(texts(out@) =~= texts(before) + seq![piece@]);
    out
}

/// The views of some byte strings.
pub open spec fn byte_texts(s: Seq<Vec<u8>>) -> Seq<Seq<u8>> {
    s.map_values(|t: Vec<u8>| t@)
}

/// The bytes `from` up to `to`.
pub(crate) fn bytes_of(v: &Vec<u8>, from: usize, to: usize) -> (r: Vec<u8>)
    requires
        from <= to <= v@.len(),
    ensures
        r@ == v@.subrange(from as int, to as int),
{
    let mut out: Vec<u8> = Vec::new();
    let mut i: usize = from;
    while i < to
        invariant
            from <= i <= to <= v@.len(),
            out@ == v@.subrange(from as int, i as int),
        decreases to - i,
    {
        out.push(v[i]);
        i = i + 1;
    }
    out
}

/// The pieces of some bytes between the occurrences of `sep`.
pub fn split_bytes(v: &Vec<u8>, sep: u8) -> (r: Vec<Vec<u8>>)
    ensures
        byte_texts(r@) == pieces(v@, sep),
{
    let mut out: Vec<Vec<u8>> = Vec::new();
    let mut start: usize = 0;
    let mut end: usize = find_byte(v, 0, sep);
    assert(v@.skip(0) =~= v@);
    assert(byte_texts(out@) + pieces(v@, sep) =~= pieces(v@, sep));
    while end < v.len()
        invariant
            start <= end <= v@.len(),
            end - start == first_at(v@.skip(start as int), sep),
            byte_texts(out@) + pieces(v@.skip(start as int), sep) == pieces(v@, sep),
        decreases v@.len() - start,
    {
        let ghost before = out@;
        let ghost rest = v@.skip(start as int);
        let piece: Vec<u8> = bytes_of(v, start, end);
        proof {
            assert(piece@ =~= rest.take(end - start));
            assert(rest.skip(end - start + 1) =~= v@.skip(end + 1));
        }
        out.push(piece);
        proof {
            assert(byte_texts(out@) =~= byte_texts(before).push(piece@));
            assert(byte_texts(out@) + pieces(v@.skip(end + 1), sep) =~= byte_texts(before) + (seq![
                piece@,
            ] + pieces(v@.skip(end + 1), sep)));
        }
        start = end + 1;
        end = find_byte(v, start, sep);
    }
    let ghost before = out@;
    let piece: Vec<u8> = bytes_of(v, start, end);
    assert(piece@ =~= v@.skip(start as int));
    out.push(piece);
    assert(byte_texts(out@) =~= byte_texts(before) + seq![piece@]);
    out
}

/// Whether `part` stands in `v` at position `i`.
fn stands_at(v: &Vec<char>, part: &Vec<char>, i: usize) -> (r: bool)
    requires
        i <= v@.len(),
    ensures
        r == part_at(v@, part@, i as int),
{
    let n: usize = v.len();
    if n - i < part.len() {
        return false;
    }
    let mut j: usize = 0;
    while j < part.len()
        invariant
            j <= part@.len(),
            i + part@.len() <= n,
            n == v@.len(),
            forall|k: int| 0 <= k < j ==> v@[i + k] == part@[k],
        decreases part@.len() - j,
    {
        if v[i + j] != part[j] {
            proof {
                let sub = v@.subrange(i as int, i + part@.len());
                assert(sub[j as int] != part@[j as int]);
            }
            return false;
        }
        j = j + 1;
    }
    assert(v@.subrange(i as int, i + part@.len()) =~= part@);
    true
}

/// What follows `prefix` in `s`, where `s` begins with it.
pub fn strip_prefix(s: &str, prefix: &str) -> (r: Option<String>)
    ensures
        r is Some <==> after_prefix(s@, prefix@) is Some,
        r is Some ==> Some(r->0@) == after_prefix(s@, prefix@),
{
    let v: Vec<char> = chars_of(s);
    let p: Vec<char> = chars_of(prefix);
    if stands_at(&v, &p, 0) {
        assert(prefix@.is_prefix_of(s@));
        let rest: String = text_of(&v, p.len(), v.len());
        assert(rest@ =~= s@.skip(prefix@.len() as int));
        Some(rest)
    } else {
        assert(!prefix@.is_prefix_of(s@)) by {
            if prefix@.is_prefix_of(s@) {
                assert(s@.subrange(0, prefix@.len() as int) =~= prefix@);
            }
        }
        None
    }
}

/// Whether `part` stands somewhere in `s`.
pub fn contains(s: &str, part: &str) -> (r: bool)
    ensures
        r == has_part(s@, part@),
{
    let v: Vec<char> = chars_of(s);
    let p: Vec<char> = chars_of(part);
    let mut i: usize = 0;
    loop
        invariant
            v@ == s@,
            p@ == part@,
            i <= v@.len(),
            forall|j: int| 0 <= j < i ==> !part_at(s@, part@, j),
        decreases v@.len() - i,
    {
        if stands_at(&v, &p, i) {
            return true;
        }
        if i == v.len() {
            assert forall|j: int| !part_at(s@, part@, j) by {}
            return false;
        }
        i = i + 1;
    }
}

/// Whether `s` ends with `suffix`.
pub fn ends_with(s: &str, suffix: &str) -> (r: bool)
    ensures
        r == suffix@.is_suffix_of(s@),
{
    let v: Vec<char> = chars_of(s);
    let p: Vec<char> = chars_of(suffix);
    if p.len() > v.len() {
        return false;
    }
    let i: usize = v.len() - p.len();
    let r: bool = stands_at(&v, &p, i);
    assert(v@.subrange(i as int, i + p@.len()) =~= v@.skip(i as int));
    r
}

proof fn lemma_replaced_at(s: Seq<char>, from: Seq<char>, to: Seq<char>, i: int)
    requires
        0 <= i <= s.len(),
        forall|j: int| 0 <= j < i ==> !part_at(s, from, j),
        i < s.len() ==> part_at(s, from, i),
        i == s.len() ==> !part_at(s, from, i),
    ensures
        with_first_replaced(s, from, to) == if i < s.len() {
            s.take(i) + to + s.skip(i + from.len())
        } else {
            s
        },
    decreases s.len(),
{
    assert(from.is_prefix_of(s) ==> s.subrange(0, from.len() as int) =~= from);
    if i == 0 {
        if s.len() > 0 {
            assert(from.is_prefix_of(s));
            assert(s.take(0) + to =~= to);
        } else {
            assert(!from.is_prefix_of(s));
        }
    } else {
        assert(!part_at(s, from, 0));
        assert(!from.is_prefix_of(s));
        let t = s.skip(1);
        assert forall|j: int| 0 <= j < t.len() implies part_at(t, from, j) == part_at(
            s,
            from,
            j + 1,
        ) by {
            if j + from.len() <= t.len() {
                assert(t.subrange(j, j + from.len()) =~= s.subrange(j + 1, j + 1 + from.len()));
            }
        }
        if i == s.len() {
            if part_at(t, from, i - 1) {
                assert(from.len() == 0);
                assert(s.subrange(i, i) =~= from);
            }
        }
        lemma_replaced_at(t, from, to, i - 1);
        if i < s.len() {
            assert(seq![s[0]] + (t.take(i - 1) + to + t.skip(i - 1 + from.len())) =~= s.take(i) + to
                + s.skip(i + from.len()));
        } else {
            assert(seq![s[0]] + t =~= s);
        }
    }
}

/// `s` with the first occurrence of `from` replaced by `to`.
pub fn replace_first(s: &str, from: &str, to: &str) -> (r: String)
    ensures
        r@ == with_first_replaced(s@, from@, to@),
{
    let v: Vec<char> = chars_of(s);
    let p: Vec<char> = chars_of(from);
    if v.len() == 0 {
        if p.len() == 0 {
            assert(from@.is_prefix_of(s@));
            assert(to@ + s@.skip(0) =~= to@);
            return to.to_owned();
        }
        return s.to_owned();
    }
    let mut i: usize = 0;
    while i < v.len()
        invariant
            v@ == s@,
            p@ == from@,
            i <= v@.len(),
            v@.len() > 0,
            forall|j: int| 0 <= j < i ==> !part_at(s@, from@, j),
        decreases v@.len() - i,
    {
        if stands_at(&v, &p, i) {
            let head: String = text_of(&v, 0, i);
            let tail: String = text_of(&v, i + p.len(), v.len());
            proof {
                lemma_replaced_at(s@, from@, to@, i as int);
                assert(head@ =~= s@.take(i as int));
                assert(tail@ =~= s@.skip(i + from@.len()));
            }
            return head.concat(to).concat(tail.as_str());
        }
        i = i + 1;
    }
    proof {
        if from@.len() == 0 {
            assert(s@.subrange(0, 0) =~= from@);
            assert(part_at(s@, from@, 0));
        }
        lemma_replaced_at(s@, from@, to@, i as int);
    }
    s.to_owned()
}

// ---------------------------------------------------------------------------
// Joining and formatting
// ---------------------------------------------------------------------------

/// The parts in order, with `sep` between neighbours.
pub fn join(parts: &Vec<String>, sep: &str) -> (r: String)
    ensures
        r@ == joined(texts(parts@), sep@),
{
    let mut out: String = String::new();
    let mut i: usize = 0;
    assert(texts(parts@).take(0) =~= seq![]);
    while i < parts.len()
        invariant
            i <= parts@.len(),
            out@ == joined(texts(parts@).take(i as int), sep@),
        decreases parts@.len() - i,
    {
        if i > 0 {
            out.append(sep);
        }
        out.append(parts[i].as_str());
        proof {
            let t = texts(parts@).take(i + 1);
            assert(t.drop_last() =~= texts(parts@).take(i as int));
            assert(t.last() == parts@[i as int]@);
            if i == 0 {
                assert(seq![] + t[0] =~= t[0]);
            }
        }
        i = i + 1;
    }
    assert(texts(parts@).take(i as int) =~= texts(parts@));
    out
}

/// `n` in decimal.
pub fn decimal_text(n: usize) -> (r: String)
    ensures
        r@ == decimal(n as nat),
    decreases n,
{
    if n < 10 {
        let mut out: String = String::new();
        out.push(digit_char(n));
        assert(out@ =~= decimal(n as nat));
        out
    } else {
        let mut out: String = decimal_text(n / 10);
        out.push(digit_char(n % 10));
        out
    }
}

fn digit_char(d: usize) -> (c: char)
    requires
        d < 10,
    ensures
        c == digit(d as int),
{
    (d as u8 + 0x30u8) as char
}

/// `s` with each of `A` to `Z` in lower case.
pub fn ascii_lowercase(s: &str) -> (r: String)
    ensures
        r@ == ascii_lowered(s@),
{
    let v: Vec<char> = chars_of(s);
    let mut out: String = String::new();
    let mut i: usize = 0;
    while i < v.len()
        invariant
            i <= v@.len(),
            v@ == s@,
            out@ == ascii_lowered(s@.take(i as int)),
        decreases v@.len() - i,
    {
        let c: char = v[i];
        let d: char = if 'A' <= c && c <= 'Z' {
            (c as u8 + 32u8) as char
        } else {
            c
        };
        out.push(d);
        assert(ascii_lowered(s@.take(i + 1)) =~= ascii_lowered(s@.take(i as int)).push(d));
        i = i + 1;
    }
    assert(s@.take(i as int) =~= s@);
    out
}

/// `a` and `b` in a row.
pub fn cat(a: &str, b: &str) -> (r: String)
    ensures
        r@ == a@ + b@,
{
    a.to_owned().concat(b)
}

/// `a`, `b` and `c` in a row.
pub fn cat3(a: &str, b: &str, c: &str) -> (r: String)
    ensures
        r@ == a@ + b@ + c@,
{
    a.to_owned().concat(b).concat(c)
}

/// Whether two texts are the same.
pub fn same(a: &str, b: &str) -> (r: bool)
    ensures
        r == (a@ == b@),
{
    let x: String = a.to_owned();
    let y: String = b.to_owned();
    x == y
}

/// A copy of some strings.
pub fn copied_texts(v: &Vec<String>) -> (r: Vec<String>)
    ensures
        texts(r@) == texts(v@),
{
    let mut out: Vec<String> = Vec::new();
    let mut i: usize = 0;
    while i < v.len()
        invariant
            i <= v@.len(),
            out@.len() == i,
            forall|j: int| 0 <= j < i ==> out@[j]@ == v@[j]@,
        decreases v@.len() - i,
    {
        out.push(v[i].clone());
        i = i + 1;
    }
    assert(texts(out@) =~= texts(v@));
    out
}

// ---------------------------------------------------------------------------
// Cutting apart what was put together
// ---------------------------------------------------------------------------

/// A text without the separator is one piece.
pub proof fn law_one_piece<T>(a: Seq<T>, sep: T)
    requires
        !a.contains(sep),
    ensures
        pieces(a, sep) == seq![a],
{
    assert forall|i: int| 0 <= i < a.len() implies a[i] != sep by {}
    lemma_first_at(a, sep, a.len() as int);
}

/// What stands before the first separator is the first piece.
pub proof fn law_first_piece<T>(a: Seq<T>, rest: Seq<T>, sep: T)
    requires
        !a.contains(sep),
    ensures
        pieces(a.push(sep) + rest, sep) == seq![a] + pieces(rest, sep),
{
    let s = a.push(sep) + rest;
    assert forall|i: int| 0 <= i < a.len() implies s[i] != sep by {
        assert(s[i] == a[i]);
        assert(a.contains(a[i]));
    }
    assert(s[a.len() as int] == sep);
    lemma_first_at(s, sep, a.len() as int);
    assert(s.take(a.len() as int) =~= a);
    assert(s.skip(a.len() + 1int) =~= rest);
}

/// What stands before the first line feed is the first line, where it does not end in a carriage
/// return.
pub proof fn law_first_line(a: Seq<char>, rest: Seq<char>)
    requires
        !a.contains('\n'),
        a.len() > 0 ==> a.last() != '\r',
    ensures
        lines_of(a.push('\n') + rest) == seq![a] + lines_of(rest),
{
    let s = a.push('\n') + rest;
    assert forall|i: int| 0 <= i < a.len() implies s[i] != '\n' by {
        assert(s[i] == a[i]);
        assert(a.contains(a[i]));
    }
    assert(s[a.len() as int] == '\n');
    lemma_first_at(s, '\n', a.len() as int);
    assert(s.take(a.len() as int) =~= a);
    assert(s.skip(a.len() + 1int) =~= rest);
}

/// A text that neither begins nor ends with white space is left as it is.
pub proof fn law_trimmed_kept(s: Seq<char>)
    requires
        s.len() > 0,
        !is_white_space(s[0]),
        !is_white_space(s.last()),
    ensures
        trimmed(s) == s,
{
}

/// What stands behind a prefix is what was put there.
pub proof fn law_after_prefix(prefix: Seq<char>, rest: Seq<char>)
    ensures
        after_prefix(prefix + rest, prefix) == Some(rest),
{
    assert((prefix + rest).take(prefix.len() as int) =~= prefix);
    assert((prefix + rest).skip(prefix.len() as int) =~= rest);
}

/// One carriage return before a line feed belongs to the end of the line, not to the line.
pub proof fn law_returned_line(a: Seq<char>, rest: Seq<char>)
    requires
        !a.contains('\n'),
    ensures
        lines_of(a.push('\r').push('\n') + rest) == seq![a] + lines_of(rest),
{
    let s = a.push('\r').push('\n') + rest;
    let k: int = a.len() as int + 1;
    assert forall|i: int| 0 <= i < k implies s[i] != '\n' by {
        if i < a.len() {
            assert(s[i] == a[i]);
            assert(a.contains(a[i]));
        }
    }
    assert(s[k] == '\n');
    lemma_first_at(s, '\n', k);
    assert(s.take(k) =~= a.push('\r'));
    assert(without_return(s.take(k)) =~= a);
    assert(s.skip(k + 1) =~= rest);
}

/// What stands behind the last line feed is a line of its own, as it is, where it is not empty.
pub proof fn law_last_line(a: Seq<char>)
    requires
        !a.contains('\n'),
    ensures
        lines_of(a) == if a.len() > 0 {
            seq![a]
        } else {
            seq![]
        },
{
    assert forall|i: int| 0 <= i < a.len() implies a[i] != '\n' by {
        assert(a.contains(a[i]));
    }
    lemma_first_at(a, '\n', a.len() as int);
}

/// The first occurrence of a text is replaced, and only that one; a text without one is left as it
/// is.
pub proof fn law_first_replaced(
    s: Seq<char>,
    a: Seq<char>,
    from: Seq<char>,
    to: Seq<char>,
    b: Seq<char>,
)
    requires
        from.len() > 0,
    ensures
        s == a + from + b && (forall|i: int| 0 <= i < a.len() ==> !part_at(s, from, i))
            ==> with_first_replaced(s, from, to) == a + to + b,
        !has_part(s, from) ==> with_first_replaced(s, from, to) == s,
{
    if s == a + from + b && (forall|i: int| 0 <= i < a.len() ==> !part_at(s, from, i)) {
        assert(s.subrange(a.len() as int, a.len() as int + from.len()) =~= from);
        assert(part_at(s, from, a.len() as int));
        lemma_replaced_at(s, from, to, a.len() as int);
        assert(s.take(a.len() as int) =~= a);
        assert(s.skip(a.len() as int + from.len()) =~= b);
    }
    if !has_part(s, from) {
        lemma_replaced_at(s, from, to, s.len() as int);
    }
}

/// White space is what Unicode counts as such: twenty-five characters.
pub proof fn law_white_space(c: char)
    ensures
        is_white_space(c) <==> ({
            let u = c as u32;
            u == 0x09 || u == 0x0a || u == 0x0b || u == 0x0c || u == 0x0d || u == 0x20 || u == 0x85
                || u == 0xa0 || u == 0x1680 || u == 0x2000 || u == 0x2001 || u == 0x2002
                || u == 0x2003 || u == 0x2004 || u == 0x2005 || u == 0x2006 || u == 0x2007
                || u == 0x2008 || u == 0x2009 || u == 0x200a || u == 0x2028 || u == 0x2029
                || u == 0x202f || u == 0x205f || u == 0x3000
        }),
{
}

/// A text has a part exactly where it is that part with something before it and behind it.
pub proof fn law_part_found(s: Seq<char>, part: Seq<char>) -> (around: (Seq<char>, Seq<char>))
    ensures
        has_part(s, part) ==> s == around.0 + part + around.1,
        forall|a: Seq<char>, b: Seq<char>|
            s == #[trigger] ((a + part) + b) ==> has_part(s, part),
{
    assert forall|a: Seq<char>, b: Seq<char>| s == #[trigger] ((a + part) + b) implies has_part(
        s,
        part,
    ) by {
        assert(s.subrange(a.len() as int, a.len() as int + part.len()) =~= part);
        assert(part_at(s, part, a.len() as int));
    }
    if has_part(s, part) {
        let i = choose|i: int| #[trigger] part_at(s, part, i);
        let around = (s.take(i), s.skip(i + part.len()));
        assert(s.subrange(i, i + part.len()) == part);
        assert(s =~= around.0 + part + around.1);
        around
    } else {
        (seq![], seq![])
    }
}

/// A text that does not begin with a prefix has nothing behind it; one that does is the prefix and
/// what stands behind it.
pub proof fn law_prefix_taken_off(s: Seq<char>, prefix: Seq<char>)
    ensures
        after_prefix(s, prefix) matches Some(rest) ==> s == prefix + rest,
        after_prefix(s, prefix) is None ==> forall|rest: Seq<char>| s != #[trigger] (prefix + rest),
{
    if prefix.is_prefix_of(s) {
        assert(s =~= prefix + s.skip(prefix.len() as int));
    } else {
        assert forall|rest: Seq<char>| s != #[trigger] (prefix + rest) by {
            if s == prefix + rest {
                law_after_prefix(prefix, rest);
            }
        }
    }
}

} // verus!
