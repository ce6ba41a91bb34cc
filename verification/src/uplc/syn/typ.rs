//! The textual grammar of constant types.
//!
//! ```text
//! type ::= integer | bool | bytestring | string | data | unit | value
//!        | bls12_381_G1_element | bls12_381_G2_element
//!        | ( pair type type ) | ( list type ) | ( array type )
//! ```
//!
//! Words are identifiers (a letter or `_`, then letters, digits or `_`) that
//! must equal the keyword exactly; whitespace may surround the parts of a
//! parenthesised type.
use vstd::prelude::*;

use crate::uplc::arena::Arena;
use crate::uplc::typ::{Type, TypeShape};

verus! {

/// A whitespace byte: space, tab, line feed, vertical tab, form feed, carriage return.
pub open spec fn is_space(b: u8) -> bool {
    b == 32 || (9 <= b && b <= 13)
}

/// A byte that may start an identifier: an ASCII letter or `_`.
pub open spec fn is_ident_start(b: u8) -> bool {
    (65 <= b && b <= 90) || (97 <= b && b <= 122) || b == 95
}

/// A byte that may continue an identifier: an ASCII letter, digit or `_`.
pub open spec fn is_ident_continue(b: u8) -> bool {
    is_ident_start(b) || (48 <= b && b <= 57)
}

/// The first position at or after `p` that is not whitespace.
pub open spec fn skip_space(s: Seq<u8>, p: int) -> int
    decreases s.len() - p,
{
    if 0 <= p < s.len() && is_space(s[p]) {
        skip_space(s, p + 1)
    } else {
        p
    }
}

/// The end of the identifier characters that start at `p`.
pub open spec fn ident_end(s: Seq<u8>, p: int) -> int
    decreases s.len() - p,
{
    if 0 <= p < s.len() && is_ident_continue(s[p]) {
        ident_end(s, p + 1)
    } else {
        p
    }
}

/// The keywords of the type grammar.
#[derive(Debug, Copy, Clone, PartialEq, Eq, Structural)]
pub enum Word {
    Integer,
    Bool,
    ByteString,
    String,
    Pair,
    List,
    Array,
    Data,
    Unit,
    G1,
    G2,
    Value,
}

/// The keyword that an identifier spells, if any.
pub open spec fn word_of(w: Seq<u8>) -> Option<Word> {
    if w == seq![105u8, 110, 116, 101, 103, 101, 114] {
        Some(Word::Integer)
    } else if w == seq![98u8, 111, 111, 108] {
        Some(Word::Bool)
    } else if w == seq![98u8, 121, 116, 101, 115, 116, 114, 105, 110, 103] {
        Some(Word::ByteString)
    } else if w == seq![115u8, 116, 114, 105, 110, 103] {
        Some(Word::String)
    } else if w == seq![112u8, 97, 105, 114] {
        Some(Word::Pair)
    } else if w == seq![108u8, 105, 115, 116] {
        Some(Word::List)
    } else if w == seq![97u8, 114, 114, 97, 121] {
        Some(Word::Array)
    } else if w == seq![100u8, 97, 116, 97] {
        Some(Word::Data)
    } else if w == seq![117u8, 110, 105, 116] {
        Some(Word::Unit)
    } else if w == seq![
        98u8,
        108,
        115,
        49,
        50,
        95,
        51,
        56,
        49,
        95,
        71,
        49,
        95,
        101,
        108,
        101,
        109,
        101,
        110,
        116,
    ] {
        Some(Word::G1)
    } else if w == seq![
        98u8,
        108,
        115,
        49,
        50,
        95,
        51,
        56,
        49,
        95,
        71,
        50,
        95,
        101,
        108,
        101,
        109,
        101,
        110,
        116,
    ] {
        Some(Word::G2)
    } else if w == seq![118u8, 97, 108, 117, 101] {
        Some(Word::Value)
    } else {
        None
    }
}

/// The shape of the type a keyword names on its own.
pub open spec fn atom_shape(w: Word) -> Option<TypeShape> {
    match w {
        Word::Integer => Some(TypeShape::Integer),
        Word::Bool => Some(TypeShape::Bool),
        Word::ByteString => Some(TypeShape::ByteString),
        Word::String => Some(TypeShape::String),
        Word::Data => Some(TypeShape::Data),
        Word::Unit => Some(TypeShape::Unit),
        Word::G1 => Some(TypeShape::Bls12_381G1Element),
        Word::G2 => Some(TypeShape::Bls12_381G2Element),
        Word::Value => Some(TypeShape::Value),
        _ => None,
    }
}

/// `x` lies strictly after `p` and within the input.
pub open spec fn advances(s: Seq<u8>, p: int, x: int) -> bool {
    p < x <= s.len()
}

/// A closing parenthesis after optional whitespace, ending the type `t`.
pub open spec fn close_paren(s: Seq<u8>, e: int, t: TypeShape) -> Option<(TypeShape, int)> {
    let q = skip_space(s, e);
    if 0 <= q < s.len() && s[q] == 41u8 {
        Some((t, q + 1))
    } else {
        None
    }
}

/// The type written at position `p`, with the position just after it.
pub open spec fn parse_type_at(s: Seq<u8>, p: int) -> Option<(TypeShape, int)>
    decreases s.len() - p,
{
    if p < 0 || p >= s.len() {
        None
    } else if s[p] == 40u8 {
        let q = skip_space(s, p + 1);
        if 0 <= q < s.len() && is_ident_start(s[q]) {
            let e = ident_end(s, q);
            let after = skip_space(s, e);
            match word_of(s.subrange(q, e)) {
                Some(Word::Pair) => if advances(s, p, after) {
                    match parse_type_at(s, after) {
                        Some((a, e1)) => {
                            let q2 = skip_space(s, e1);
                            if advances(s, p, q2) {
                                match parse_type_at(s, q2) {
                                    Some((b, e2)) => close_paren(
                                        s,
                                        e2,
                                        TypeShape::Pair(Box::new(a), Box::new(b)),
                                    ),
                                    None => None,
                                }
                            } else {
                                None
                            }
                        },
                        None => None,
                    }
                } else {
                    None
                },
                Some(Word::List) => if advances(s, p, after) {
                    match parse_type_at(s, after) {
                        Some((a, e1)) => close_paren(s, e1, TypeShape::List(Box::new(a))),
                        None => None,
                    }
                } else {
                    None
                },
                Some(Word::Array) => if advances(s, p, after) {
                    match parse_type_at(s, after) {
                        Some((a, e1)) => close_paren(s, e1, TypeShape::Array(Box::new(a))),
                        None => None,
                    }
                } else {
                    None
                },
                _ => None,
            }
        } else {
            None
        }
    } else if is_ident_start(s[p]) {
        let e = ident_end(s, p);
        match word_of(s.subrange(p, e)) {
            Some(w) => match atom_shape(w) {
                Some(t) => Some((t, e)),
                None => None,
            },
            None => None,
        }
    } else {
        None
    }
}

/// The first non-whitespace position at or after `p`.
fn skip_space_from(s: &[u8], p: usize) -> (q: usize)
    requires
        p <= s@.len(),
    ensures
        q == skip_space(s@, p as int),
        p <= q <= s@.len(),
{
    let mut q = p;
    while q < s.len() && (s[q] == 32 || (9 <= s[q] && s[q] <= 13))
        invariant
            p <= q <= s@.len(),
            skip_space(s@, p as int) == skip_space(s@, q as int),
        decreases s@.len() - q,
    {
        q = q + 1;
    }
    q
}

/// The end of the identifier characters starting at `p`.
fn ident_end_from(s: &[u8], p: usize) -> (q: usize)
    requires
        p <= s@.len(),
    ensures
        q == ident_end(s@, p as int),
        p <= q <= s@.len(),
        p < s@.len() && is_ident_continue(s@[p as int]) ==> p < q,
{
    let mut q = p;
    while q < s.len() && ((65 <= s[q] && s[q] <= 90) || (97 <= s[q] && s[q] <= 122) || s[q] == 95 || (
    48 <= s[q] && s[q] <= 57))
        invariant
            p <= q <= s@.len(),
            ident_end(s@, p as int) == ident_end(s@, q as int),
        decreases s@.len() - q,
    {
        q = q + 1;
    }
    q
}

/// Whether the bytes from `start` to `end` are exactly `w`.
fn spells(s: &[u8], start: usize, end: usize, w: &[u8]) -> (b: bool)
    requires
        start <= end <= s@.len(),
    ensures
        b == (s@.subrange(start as int, end as int) == w@),
{
    if end - start != w.len() {
        return false;
    }
    let mut i: usize = 0;
    while i < w.len()
        invariant
            end - start == w@.len(),
            start <= end <= s@.len(),
            0 <= i <= w@.len(),
            forall|j: int| 0 <= j < i ==> s@[start + j] == w@[j],
        decreases w@.len() - i,
    {
        if s[start + i] != w[i] {
            assert(s@.subrange(start as int, end as int)[i as int] != w@[i as int]);
            return false;
        }
        i = i + 1;
    }
    assert(s@.subrange(start as int, end as int) =~= w@);
    true
}

/// The keyword spelt by the bytes from `start` to `end`, if any.
fn word_between(s: &[u8], start: usize, end: usize) -> (r: Option<Word>)
    requires
        start <= end <= s@.len(),
    ensures
        r == word_of(s@.subrange(start as int, end as int)),
{
    let integer: [u8; 7] = [105, 110, 116, 101, 103, 101, 114];
    let bool_: [u8; 4] = [98, 111, 111, 108];
    let bytestring: [u8; 10] = [98, 121, 116, 101, 115, 116, 114, 105, 110, 103];
    let string: [u8; 6] = [115, 116, 114, 105, 110, 103];
    let pair: [u8; 4] = [112, 97, 105, 114];
    let list: [u8; 4] = [108, 105, 115, 116];
    let array: [u8; 5] = [97, 114, 114, 97, 121];
    let data: [u8; 4] = [100, 97, 116, 97];
    let unit: [u8; 4] = [117, 110, 105, 116];
    let g1: [u8; 20] = [
        98,
        108,
        115,
        49,
        50,
        95,
        51,
        56,
        49,
        95,
        71,
        49,
        95,
        101,
        108,
        101,
        109,
        101,
        110,
        116,
    ];
    let g2: [u8; 20] = [
        98,
        108,
        115,
        49,
        50,
        95,
        51,
        56,
        49,
        95,
        71,
        50,
        95,
        101,
        108,
        101,
        109,
        101,
        110,
        116,
    ];
    let value: [u8; 5] = [118, 97, 108, 117, 101];
    proof {
        assert(integer@ =~= seq![105u8, 110, 116, 101, 103, 101, 114]);
        assert(bool_@ =~= seq![98u8, 111, 111, 108]);
        assert(bytestring@ =~= seq![98u8, 121, 116, 101, 115, 116, 114, 105, 110, 103]);
        assert(string@ =~= seq![115u8, 116, 114, 105, 110, 103]);
        assert(pair@ =~= seq![112u8, 97, 105, 114]);
        assert(list@ =~= seq![108u8, 105, 115, 116]);
        assert(array@ =~= seq![97u8, 114, 114, 97, 121]);
        assert(data@ =~= seq![100u8, 97, 116, 97]);
        assert(unit@ =~= seq![117u8, 110, 105, 116]);
        assert(g1@ =~= seq![
            98u8,
            108,
            115,
            49,
            50,
            95,
            51,
            56,
            49,
            95,
            71,
            49,
            95,
            101,
            108,
            101,
            109,
            101,
            110,
            116,
        ]);
        assert(g2@ =~= seq![
            98u8,
            108,
            115,
            49,
            50,
            95,
            51,
            56,
            49,
            95,
            71,
            50,
            95,
            101,
            108,
            101,
            109,
            101,
            110,
            116,
        ]);
        assert(value@ =~= seq![118u8, 97, 108, 117, 101]);
    }
    if spells(s, start, end, integer.as_slice()) {
        Some(Word::Integer)
    } else if spells(s, start, end, bool_.as_slice()) {
        Some(Word::Bool)
    } else if spells(s, start, end, bytestring.as_slice()) {
        Some(Word::ByteString)
    } else if spells(s, start, end, string.as_slice()) {
        Some(Word::String)
    } else if spells(s, start, end, pair.as_slice()) {
        Some(Word::Pair)
    } else if spells(s, start, end, list.as_slice()) {
        Some(Word::List)
    } else if spells(s, start, end, array.as_slice()) {
        Some(Word::Array)
    } else if spells(s, start, end, data.as_slice()) {
        Some(Word::Data)
    } else if spells(s, start, end, unit.as_slice()) {
        Some(Word::Unit)
    } else if spells(s, start, end, g1.as_slice()) {
        Some(Word::G1)
    } else if spells(s, start, end, g2.as_slice()) {
        Some(Word::G2)
    } else if spells(s, start, end, value.as_slice()) {
        Some(Word::Value)
    } else {
        None
    }
}

/// The type named by a keyword on its own, allocated in the arena.
fn atom<'a>(arena: &'a Arena, w: Word) -> (r: Option<&'a Type<'a>>)
    ensures
        match r {
            Some(t) => atom_shape(w) == Some(t.shape()),
            None => atom_shape(w) is None,
        },
{
    match w {
        Word::Integer => Some(Type::integer(arena)),
        Word::Bool => Some(Type::bool(arena)),
        Word::ByteString => Some(Type::byte_string(arena)),
        Word::String => Some(Type::string(arena)),
        Word::Data => Some(Type::data(arena)),
        Word::Unit => Some(Type::unit(arena)),
        Word::G1 => Some(Type::g1(arena)),
        Word::G2 => Some(Type::g2(arena)),
        Word::Value => Some(Type::value(arena)),
        _ => None,
    }
}

/// The closing parenthesis that must follow, after optional whitespace.
fn closing_paren(s: &[u8], e: usize) -> (r: Option<usize>)
    requires
        e <= s@.len(),
    ensures
        match r {
            Some(end) => {
                let q = skip_space(s@, e as int);
                &&& 0 <= q < s@.len()
                &&& s@[q] == 41u8
                &&& end == q + 1
                &&& e < end <= s@.len()
            },
            None => {
                let q = skip_space(s@, e as int);
                !(0 <= q < s@.len() && s@[q] == 41u8)
            },
        },
{
    let q = skip_space_from(s, e);
    if q < s.len() && s[q] == 41 {
        Some(q + 1)
    } else {
        None
    }
}

/// Parses the type written at `pos` in `input`, allocating it in the arena;
/// gives the type and the position just after it, or `None` where no type is
/// written there.
pub fn parser<'a>(arena: &'a Arena, input: &[u8], pos: usize) -> (r: Option<(&'a Type<'a>, usize)>)
    ensures
        match r {
            Some((t, end)) => parse_type_at(input@, pos as int) == Some((t.shape(), end as int))
                && pos < end <= input@.len(),
            None => parse_type_at(input@, pos as int) is None,
        },
    decreases input@.len() - pos,
{
    if pos >= input.len() {
        return None;
    }
    if input[pos] == 40 {
        let q = skip_space_from(input, pos + 1);
        if !(q < input.len() && ((65 <= input[q] && input[q] <= 90) || (97 <= input[q] && input[q]
            <= 122) || input[q] == 95)) {
            return None;
        }
        let e = ident_end_from(input, q);
        proof {
            assert(is_ident_continue(input@[q as int]));
        }
        let after = skip_space_from(input, e);
        let word = word_between(input, q, e);
        match word {
            Some(Word::Pair) => {
                let (a, e1) = match parser(arena, input, after) {
                    Some(found) => found,
                    None => return None,
                };
                let q2 = skip_space_from(input, e1);
                let (b, e2) = match parser(arena, input, q2) {
                    Some(found) => found,
                    None => return None,
                };
                match closing_paren(input, e2) {
                    Some(end) => Some((Type::pair(arena, a, b), end)),
                    None => None,
                }
            },
            Some(Word::List) => {
                let (a, e1) = match parser(arena, input, after) {
                    Some(found) => found,
                    None => return None,
                };
                match closing_paren(input, e1) {
                    Some(end) => Some((Type::list(arena, a), end)),
                    None => None,
                }
            },
            Some(Word::Array) => {
                let (a, e1) = match parser(arena, input, after) {
                    Some(found) => found,
                    None => return None,
                };
                match closing_paren(input, e1) {
                    Some(end) => Some((Type::array(arena, a), end)),
                    None => None,
                }
            },
            _ => None,
        }
    } else if (65 <= input[pos] && input[pos] <= 90) || (97 <= input[pos] && input[pos] <= 122)
        || input[pos] == 95 {
        let e = ident_end_from(input, pos);
        proof {
            assert(is_ident_continue(input@[pos as int]));
        }
        match word_between(input, pos, e) {
            Some(w) => match atom(arena, w) {
                Some(t) => Some((t, e)),
                None => None,
            },
            None => None,
        }
    } else {
        None
    }
}

/// The bytes `w` stand at position `p` of `s` as a whole identifier: nothing
/// that may continue an identifier follows them.
pub open spec fn keyword_at(s: Seq<u8>, p: int, w: Seq<u8>) -> bool {
    &&& 0 <= p
    &&& p + w.len() <= s.len()
    &&& s.subrange(p, p + w.len()) == w
    &&& (p + w.len() == s.len() || !is_ident_continue(s[p + w.len()]))
}

/// Identifier bytes from `q` up to a boundary at `end` end the identifier there.
proof fn lemma_ident_end_at(s: Seq<u8>, q: int, end: int)
    requires
        0 <= q <= end <= s.len(),
        forall|i: int| q <= i < end ==> is_ident_continue(#[trigger] s[i]),
        end == s.len() || !is_ident_continue(s[end]),
    ensures
        ident_end(s, q) == end,
    decreases end - q,
{
    if q < end {
        lemma_ident_end_at(s, q + 1, end);
    }
}

/// A keyword standing at `p` is read whole.
proof fn lemma_keyword_word(s: Seq<u8>, p: int, w: Seq<u8>)
    requires
        keyword_at(s, p, w),
        w.len() > 0,
        is_ident_start(w[0]),
        forall|i: int| 0 <= i < w.len() ==> is_ident_continue(#[trigger] w[i]),
    ensures
        s[p] == w[0],
        ident_end(s, p) == p + w.len(),
        s.subrange(p, ident_end(s, p)) == w,
{
    assert forall|i: int| p <= i < p + w.len() implies is_ident_continue(#[trigger] s[i]) by {
        assert(s[i] == s.subrange(p, p + w.len())[i - p]);
    }
    assert(s[p] == s.subrange(p, p + w.len())[0]);
    lemma_ident_end_at(s, p, p + w.len());
}


/// A keyword standing at `p` parses to the shape its word names on its own.
proof fn lemma_keyword_parses(s: Seq<u8>, p: int, w: Seq<u8>)
    ensures
        keyword_at(s, p, w) && w.len() > 0 && is_ident_start(w[0]) && (forall|i: int|
            0 <= i < w.len() ==> is_ident_continue(#[trigger] w[i])) ==> parse_type_at(s, p) == (match word_of(w) {
            Some(word) => match atom_shape(word) {
                Some(t) => Some((t, p + w.len())),
                None => None,
            },
            None => None,
        }),
{
    if keyword_at(s, p, w) && w.len() > 0 && is_ident_start(w[0]) && (forall|i: int|
        0 <= i < w.len() ==> is_ident_continue(#[trigger] w[i])) {
        lemma_keyword_word(s, p, w);
    }
}

/// Each keyword that names a type on its own parses, where it stands as a
/// whole identifier, to that type, ending just after the keyword: `integer`,
/// `bool`, `bytestring`, `string`, `data`, `unit`, `bls12_381_G1_element`,
/// `bls12_381_G2_element` and `value`.
pub proof fn lemma_keywords_parse(s: Seq<u8>, p: int)
    ensures
        keyword_at(s, p, seq![105u8, 110, 116, 101, 103, 101, 114]) ==> parse_type_at(s, p) == Some((TypeShape::Integer, p + 7)),
        keyword_at(s, p, seq![98u8, 111, 111, 108]) ==> parse_type_at(s, p) == Some((TypeShape::Bool, p + 4)),
        keyword_at(s, p, seq![98u8, 121, 116, 101, 115, 116, 114, 105, 110, 103]) ==> parse_type_at(s, p) == Some((TypeShape::ByteString, p + 10)),
        keyword_at(s, p, seq![115u8, 116, 114, 105, 110, 103]) ==> parse_type_at(s, p) == Some((TypeShape::String, p + 6)),
        keyword_at(s, p, seq![100u8, 97, 116, 97]) ==> parse_type_at(s, p) == Some((TypeShape::Data, p + 4)),
        keyword_at(s, p, seq![117u8, 110, 105, 116]) ==> parse_type_at(s, p) == Some((TypeShape::Unit, p + 4)),
        keyword_at(s, p, seq![98u8, 108, 115, 49, 50, 95, 51, 56, 49, 95, 71, 49, 95, 101, 108, 101, 109, 101, 110, 116]) ==> parse_type_at(s, p) == Some((TypeShape::Bls12_381G1Element, p + 20)),
        keyword_at(s, p, seq![98u8, 108, 115, 49, 50, 95, 51, 56, 49, 95, 71, 50, 95, 101, 108, 101, 109, 101, 110, 116]) ==> parse_type_at(s, p) == Some((TypeShape::Bls12_381G2Element, p + 20)),
        keyword_at(s, p, seq![118u8, 97, 108, 117, 101]) ==> parse_type_at(s, p) == Some((TypeShape::Value, p + 5)),
{
    lemma_keyword_parses(s, p, seq![105u8, 110, 116, 101, 103, 101, 114]);
    lemma_keyword_parses(s, p, seq![98u8, 111, 111, 108]);
    lemma_keyword_parses(s, p, seq![98u8, 121, 116, 101, 115, 116, 114, 105, 110, 103]);
    lemma_keyword_parses(s, p, seq![115u8, 116, 114, 105, 110, 103]);
    lemma_keyword_parses(s, p, seq![100u8, 97, 116, 97]);
    lemma_keyword_parses(s, p, seq![117u8, 110, 105, 116]);
    lemma_keyword_parses(s, p, seq![98u8, 108, 115, 49, 50, 95, 51, 56, 49, 95, 71, 49, 95, 101, 108, 101, 109, 101, 110, 116]);
    lemma_keyword_parses(s, p, seq![98u8, 108, 115, 49, 50, 95, 51, 56, 49, 95, 71, 50, 95, 101, 108, 101, 109, 101, 110, 116]);
    lemma_keyword_parses(s, p, seq![118u8, 97, 108, 117, 101]);
}

/// Skipping whitespace from a position within the input stays within it.
proof fn lemma_skip_space_bounds(s: Seq<u8>, p: int)
    requires
        0 <= p <= s.len(),
    ensures
        p <= skip_space(s, p) <= s.len(),
    decreases s.len() - p,
{
    if p < s.len() && is_space(s[p]) {
        lemma_skip_space_bounds(s, p + 1);
    }
}

/// A list type, `(list t)`: an opening parenthesis, the keyword `list`,
/// whitespace, the element type, and a closing parenthesis (after optional
/// whitespace) parse to the list of that element type.
pub proof fn lemma_list_parses(s: Seq<u8>, p: int)
    requires
        0 <= p < s.len(),
        s[p] == 40u8,
        keyword_at(s, p + 1, seq![108u8, 105, 115, 116]),
        p + 5 < s.len() && is_space(s[p + 5]),
    ensures
        parse_type_at(s, skip_space(s, p + 5)) matches Some((element, end)) ==> parse_type_at(s, p) == (
        if 0 <= skip_space(s, end) < s.len() && s[skip_space(s, end)] == 41u8 {
            Some((TypeShape::List(Box::new(element)), skip_space(s, end) + 1))
        } else {
            None
        }),
{
    lemma_compound_head(s, p, seq![108u8, 105, 115, 116]);
}

/// An array type, `(array t)`, parses to the array of its element type.
pub proof fn lemma_array_parses(s: Seq<u8>, p: int)
    requires
        0 <= p < s.len(),
        s[p] == 40u8,
        keyword_at(s, p + 1, seq![97u8, 114, 114, 97, 121]),
        p + 6 < s.len() && is_space(s[p + 6]),
    ensures
        parse_type_at(s, skip_space(s, p + 6)) matches Some((element, end)) ==> parse_type_at(s, p) == (
        if 0 <= skip_space(s, end) < s.len() && s[skip_space(s, end)] == 41u8 {
            Some((TypeShape::Array(Box::new(element)), skip_space(s, end) + 1))
        } else {
            None
        }),
{
    lemma_compound_head(s, p, seq![97u8, 114, 114, 97, 121]);
}

/// A pair type, `(pair a b)`, parses to the pair of its two types, in order.
pub proof fn lemma_pair_parses(s: Seq<u8>, p: int)
    requires
        0 <= p < s.len(),
        s[p] == 40u8,
        keyword_at(s, p + 1, seq![112u8, 97, 105, 114]),
        p + 5 < s.len() && is_space(s[p + 5]),
    ensures
        parse_type_at(s, skip_space(s, p + 5)) matches Some((first, e1)) ==> (parse_type_at(
            s,
            skip_space(s, e1),
        ) matches Some((second, e2)) ==> (skip_space(s, e1) > p ==> parse_type_at(s, p) == (if 0 <= skip_space(s, e2)
            < s.len() && s[skip_space(s, e2)] == 41u8 {
            Some((TypeShape::Pair(Box::new(first), Box::new(second)), skip_space(s, e2) + 1))
        } else {
            None
        }))),
{
    lemma_compound_head(s, p, seq![112u8, 97, 105, 114]);
}

/// The head `(` + keyword of a compound type: the keyword is read whole and
/// what follows it is skipped to past the keyword.
proof fn lemma_compound_head(s: Seq<u8>, p: int, w: Seq<u8>)
    requires
        0 <= p < s.len(),
        s[p] == 40u8,
        keyword_at(s, p + 1, w),
        w.len() > 0,
        is_ident_start(w[0]),
        forall|i: int| 0 <= i < w.len() ==> is_ident_continue(#[trigger] w[i]),
        p + 1 + w.len() < s.len() && is_space(s[p + 1 + w.len()]),
    ensures
        skip_space(s, p + 1) == p + 1,
        is_ident_start(s[p + 1]),
        ident_end(s, p + 1) == p + 1 + w.len(),
        s.subrange(p + 1, p + 1 + w.len()) == w,
        p + 1 + w.len() <= skip_space(s, p + 1 + w.len()) <= s.len(),
{
    lemma_keyword_word(s, p + 1, w);
    lemma_skip_space_bounds(s, p + 1 + w.len());
}

} // verus!
