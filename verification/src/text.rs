//! Small verified text helpers: string equality, character access and
//! decimal rendering.

use vstd::prelude::*;
use vstd::string::StringSliceAdditionalSpecFns;
use vstd::utf8::*;

verus! {

/// Whether two strings hold the same characters.
pub fn str_eq(a: &str, b: &str) -> (r: bool)
    ensures
        r == (a@ == b@),
{
    let x = a.as_bytes();
    let y = b.as_bytes();
    proof {
        encode_utf8_decode_utf8(a@);
        encode_utf8_decode_utf8(b@);
    }
    if x.len() != y.len() {
        return false;
    }
    let mut i: usize = 0;
    while i < x.len()
        invariant
            x@ == a.spec_bytes(),
            y@ == b.spec_bytes(),
            x@.len() == y@.len(),
            i <= x@.len(),
            forall|j: int| 0 <= j < i ==> x@[j] == y@[j],
        decreases x@.len() - i,
    {
        if x[i] != y[i] {
            return false;
        }
        i += 1;
    }
    assert(x@ =~= y@);
    true
}

/// The characters of a string, in order.
pub fn chars_of(s: &str) -> (v: Vec<char>)
    ensures
        v@ == s@,
{
    let mut v: Vec<char> = Vec::new();
    for c in it: s.chars()
        invariant
            v@ == it.seq().take(it.index() as int),
    {
        v.push(c);
    }
    v
}

/// The texts held by a sequence of strings.
pub open spec fn texts(strings: Seq<String>) -> Seq<Seq<char>> {
    Seq::new(strings.len(), |i: int| strings[i]@)
}

/// Whether `position` is where `item` first occurs in `items`.
pub open spec fn first_at<T>(items: Seq<T>, item: T, position: int) -> bool {
    &&& 0 <= position < items.len()
    &&& items[position] == item
    &&& forall|j: int| 0 <= j < position ==> items[j] != item
}

/// Whether `position` is where `item` last occurs in `items`.
pub open spec fn last_at<T>(items: Seq<T>, item: T, position: int) -> bool {
    &&& 0 <= position < items.len()
    &&& items[position] == item
    &&& forall|j: int| position < j < items.len() ==> items[j] != item
}

/// Whether `whole` ends with `tail`.
pub open spec fn ends_with(whole: Seq<char>, tail: Seq<char>) -> bool {
    tail.len() <= whole.len() && whole.subrange(whole.len() - tail.len(), whole.len() as int)
        == tail
}

/// Whether `part` occurs in `whole` starting at `position`.
pub open spec fn occurs_at(whole: Seq<char>, part: Seq<char>, position: int) -> bool {
    0 <= position && position + part.len() <= whole.len() && whole.subrange(
        position,
        position + part.len(),
    ) == part
}

/// Whether `part` occurs somewhere in `whole`.
pub open spec fn occurs_in(whole: Seq<char>, part: Seq<char>) -> bool {
    exists|position: int| occurs_at(whole, part, position)
}

/// Whether `position` is where `part` first occurs in `whole`.
pub open spec fn first_occurrence(whole: Seq<char>, part: Seq<char>, position: int) -> bool {
    occurs_at(whole, part, position) && forall|earlier: int|
        0 <= earlier < position ==> !occurs_at(whole, part, earlier)
}

/// A copy of every string, in order.
pub fn clone_strings(strings: &[String]) -> (copies: Vec<String>)
    ensures
        texts(copies@) == texts(strings@),
{
    let mut copies: Vec<String> = Vec::new();
    let mut i: usize = 0;
    while i < strings.len()
        invariant
            i <= strings@.len(),
            copies@.len() == i,
            forall|j: int| 0 <= j < i ==> copies@[j]@ == strings@[j]@,
        decreases strings@.len() - i,
    {
        copies.push(strings[i].clone());
        i += 1;
    }
    assert(texts(copies@) =~= texts(strings@));
    copies
}

/// Where `item` first occurs in `items`, if it occurs.
pub fn find_first(items: &[char], item: char) -> (r: Option<usize>)
    ensures
        match r {
            Some(position) => first_at(items@, item, position as int),
            None => !items@.contains(item),
        },
{
    let mut i: usize = 0;
    while i < items.len()
        invariant
            i <= items@.len(),
            forall|j: int| 0 <= j < i ==> items@[j] != item,
        decreases items@.len() - i,
    {
        if items[i] == item {
            return Some(i);
        }
        i += 1;
    }
    None
}

/// Where `item` last occurs in `items`, if it occurs.
pub fn find_last(items: &[char], item: char) -> (r: Option<usize>)
    ensures
        match r {
            Some(position) => last_at(items@, item, position as int),
            None => !items@.contains(item),
        },
{
    let mut i: usize = items.len();
    while i > 0
        invariant
            i <= items@.len(),
            forall|j: int| i <= j < items@.len() ==> items@[j] != item,
        decreases i,
    {
        i -= 1;
        if items[i] == item {
            return Some(i);
        }
    }
    None
}

/// Whether `part` occurs in `whole` starting at `position`.
pub fn matches_at(whole: &[char], part: &[char], position: usize) -> (r: bool)
    ensures
        r == occurs_at(whole@, part@, position as int),
{
    if position > whole.len() || part.len() > whole.len() - position {
        return false;
    }
    let mut i: usize = 0;
    while i < part.len()
        invariant
            position + part@.len() <= whole@.len() <= usize::MAX,
            i <= part@.len(),
            forall|j: int| 0 <= j < i ==> whole@[position + j] == part@[j],
        decreases part@.len() - i,
    {
        if whole[position + i] != part[i] {
            assert(whole@.subrange(position as int, position + part@.len())[i as int]
                != part@[i as int]);
            return false;
        }
        i += 1;
    }
    assert(whole@.subrange(position as int, position + part@.len()) =~= part@);
    true
}

/// Whether `whole` ends with `tail`.
pub fn has_suffix(whole: &[char], tail: &[char]) -> (r: bool)
    ensures
        r == ends_with(whole@, tail@),
{
    if tail.len() > whole.len() {
        return false;
    }
    matches_at(whole, tail, whole.len() - tail.len())
}

/// Where `part` first occurs in `whole`, if it occurs.
pub fn find_text(whole: &[char], part: &[char]) -> (r: Option<usize>)
    ensures
        match r {
            Some(position) => first_occurrence(whole@, part@, position as int),
            None => !occurs_in(whole@, part@),
        },
{
    if part.len() > whole.len() {
        assert(forall|position: int| !occurs_at(whole@, part@, position));
        return None;
    }
    let last: usize = whole.len() - part.len();
    let mut i: usize = 0;
    loop
        invariant
            last == whole@.len() - part@.len(),
            i <= last,
            forall|position: int| 0 <= position < i ==> !occurs_at(whole@, part@, position),
        decreases last - i,
    {
        if matches_at(whole, part, i) {
            return Some(i);
        }
        if i == last {
            assert(forall|position: int| !occurs_at(whole@, part@, position));
            return None;
        }
        i += 1;
    }
}

/// The lower-case form of an ASCII capital letter; any other character
/// unchanged.
pub open spec fn spec_lower(c: char) -> char {
    if 'A' <= c <= 'Z' {
        ((c as u8) + 32) as char
    } else {
        c
    }
}

/// A text with its ASCII capital letters made lower case.
pub open spec fn lowered(text: Seq<char>) -> Seq<char> {
    Seq::new(text.len(), |i: int| spec_lower(text[i]))
}

/// The lower-case form of an ASCII capital letter; any other character
/// unchanged.
pub fn lower(c: char) -> (r: char)
    ensures
        r == spec_lower(c),
{
    if 'A' <= c && c <= 'Z' {
        ((c as u8) + 32u8) as char
    } else {
        c
    }
}

/// Whether two texts are equal once their ASCII capital letters are made
/// lower case.
pub fn eq_ignoring_ascii_case(a: &[char], b: &[char]) -> (r: bool)
    ensures
        r == (lowered(a@) == lowered(b@)),
{
    if a.len() != b.len() {
        assert(lowered(a@).len() != lowered(b@).len());
        return false;
    }
    let mut i: usize = 0;
    while i < a.len()
        invariant
            a@.len() == b@.len(),
            i <= a@.len(),
            forall|j: int| 0 <= j < i ==> spec_lower(a@[j]) == spec_lower(b@[j]),
        decreases a@.len() - i,
    {
        if lower(a[i]) != lower(b[i]) {
            assert(lowered(a@)[i as int] != lowered(b@)[i as int]);
            return false;
        }
        i += 1;
    }
    assert(lowered(a@) =~= lowered(b@));
    true
}

/// The character that writes the decimal digit `d`.
pub open spec fn digit_char(d: nat) -> char {
    if d == 0 {
        '0'
    } else if d == 1 {
        '1'
    } else if d == 2 {
        '2'
    } else if d == 3 {
        '3'
    } else if d == 4 {
        '4'
    } else if d == 5 {
        '5'
    } else if d == 6 {
        '6'
    } else if d == 7 {
        '7'
    } else if d == 8 {
        '8'
    } else {
        '9'
    }
}

/// The decimal numeral of a natural number, without leading zeros.
pub open spec fn decimal(n: nat) -> Seq<char>
    decreases n,
{
    if n < 10 {
        seq![digit_char(n)]
    } else {
        decimal(n / 10).push(digit_char(n % 10))
    }
}

/// The decimal numeral of an integer, with a leading minus sign when negative.
pub open spec fn signed_decimal(n: int) -> Seq<char> {
    if n < 0 {
        seq!['-'] + decimal((-n) as nat)
    } else {
        decimal(n as nat)
    }
}

fn digit_str(d: u64) -> (s: &'static str)
    requires
        d < 10,
    ensures
        s@ == seq![digit_char(d as nat)],
{
    proof {
        reveal_strlit("0");
        reveal_strlit("1");
        reveal_strlit("2");
        reveal_strlit("3");
        reveal_strlit("4");
        reveal_strlit("5");
        reveal_strlit("6");
        reveal_strlit("7");
        reveal_strlit("8");
        reveal_strlit("9");
    }
    let s = if d == 0 {
        "0"
    } else if d == 1 {
        "1"
    } else if d == 2 {
        "2"
    } else if d == 3 {
        "3"
    } else if d == 4 {
        "4"
    } else if d == 5 {
        "5"
    } else if d == 6 {
        "6"
    } else if d == 7 {
        "7"
    } else if d == 8 {
        "8"
    } else {
        "9"
    };
    assert(s@ =~= seq![digit_char(d as nat)]);
    s
}

/// Writes a natural number in decimal.
pub fn decimal_string(n: u64) -> (s: String)
    ensures
        s@ == decimal(n as nat),
    decreases n,
{
    if n < 10 {
        String::from_str(digit_str(n))
    } else {
        let mut s = decimal_string(n / 10);
        s.append(digit_str(n % 10));
        assert(s@ =~= decimal(n as nat));
        s
    }
}

/// Writes an integer in decimal.
pub fn signed_decimal_string(n: i64) -> (s: String)
    ensures
        s@ == signed_decimal(n as int),
{
    if n < 0 {
        let magnitude: u64 = if n == i64::MIN {
            9223372036854775808u64
        } else {
            (-n) as u64
        };
        let mut s = String::from_str("-");
        let digits = decimal_string(magnitude);
        s.append(digits.as_str());
        proof {
            reveal_strlit("-");
            assert(s@ =~= signed_decimal(n as int));
        }
        s
    } else {
        decimal_string(n as u64)
    }
}

} // verus!
