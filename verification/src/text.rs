//! Operations on text: the few that the deployment rules need, over the
//! characters of a string.

use vstd::prelude::*;
use vstd::string::*;

verus! {

/// Whether `part` occurs in `text`.
pub open spec fn occurs_in(part: Seq<char>, text: Seq<char>) -> bool {
    exists|i: int|
        0 <= i <= text.len() - part.len() && #[trigger] text.subrange(i, i + part.len()) == part
}

/// What is left of `text` once every leading repetition of `part` is gone.
pub open spec fn without_leading(text: Seq<char>, part: Seq<char>) -> Seq<char>
    decreases text.len(),
{
    if part.len() > 0 && part.is_prefix_of(text) {
        without_leading(text.skip(part.len() as int), part)
    } else {
        text
    }
}

/// `text` without its last character, if that character is `end`.
pub open spec fn without_trailing(text: Seq<char>, end: char) -> Seq<char> {
    if text.len() > 0 && text.last() == end {
        text.drop_last()
    } else {
        text
    }
}

/// The lower-case hexadecimal digit of a number below 16.
pub open spec fn hex_digit(n: int) -> char {
    if n < 10 {
        ('0' as int + n) as char
    } else {
        ('a' as int + (n - 10)) as char
    }
}

/// A byte as exactly two hexadecimal digits.
pub open spec fn hex_pair(byte: u8) -> Seq<char> {
    seq![hex_digit(byte as int / 16), hex_digit(byte as int % 16)]
}

/// A byte as a hexadecimal number without leading zeros.
pub open spec fn hex_number(byte: u8) -> Seq<char> {
    if byte < 16 {
        seq![hex_digit(byte as int)]
    } else {
        hex_pair(byte)
    }
}

/// Whether two texts have the same characters.
pub fn same_text(a: &str, b: &str) -> (same: bool)
    ensures
        same == (a@ == b@),
{
    a.to_owned() == b.to_owned()
}

/// The characters of `text`, in order.
pub fn chars_of(text: &str) -> (chars: Vec<char>)
    ensures
        chars@ == text@,
{
    let mut chars: Vec<char> = Vec::new();
    for c in it: text.chars()
        invariant
            it.seq() == text@,
            chars@ == text@.take(it.index() as int),
    {
        chars.push(c);
    }
    assert(text@.take(text@.len() as int) == text@);
    chars
}

/// Whether `part` stands in `chars` from position `at` on.
fn stands_at(chars: &Vec<char>, part: &Vec<char>, at: usize) -> (found: bool)
    requires
        at + part@.len() <= chars@.len(),
    ensures
        found == (chars@.subrange(at as int, at + part@.len()) == part@),
{
    let end: usize = chars.len();
    let mut i: usize = 0;
    while i < part.len()
        invariant
            end == chars@.len(),
            i <= part@.len(),
            at + part@.len() <= chars@.len(),
            forall|j: int| 0 <= j < i ==> chars@[at + j] == part@[j],
        decreases part@.len() - i,
    {
        if chars[at + i] != part[i] {
            assert(chars@.subrange(at as int, at + part@.len())[i as int] != part@[i as int]);
            return false;
        }
        i += 1;
    }
    assert(chars@.subrange(at as int, at + part@.len()) =~= part@);
    true
}

/// Whether `part` occurs in `text`.
pub fn contains_text(text: &str, part: &str) -> (found: bool)
    ensures
        found == occurs_in(part@, text@),
{
    let chars = chars_of(text);
    let wanted = chars_of(part);
    if wanted.len() > chars.len() {
        return false;
    }
    let last: usize = chars.len() - wanted.len();
    let mut at: usize = 0;
    loop
        invariant
            chars@ == text@,
            wanted@ == part@,
            at <= last,
            last == chars@.len() - wanted@.len(),
            forall|i: int|
                0 <= i < at ==> #[trigger] text@.subrange(i, i + part@.len()) != part@,
        decreases last - at,
    {
        if stands_at(&chars, &wanted, at) {
            assert(text@.subrange(at as int, at + part@.len()) == part@);
            return true;
        }
        if at == last {
            return false;
        }
        at += 1;
    }
}

/// `text` without its leading repetitions of `part`.
pub fn trim_start_text(text: &str, part: &str) -> (rest: String)
    requires
        part@.len() > 0,
    ensures
        rest@ == without_leading(text@, part@),
{
    let chars = chars_of(text);
    let prefix = chars_of(part);
    let mut at: usize = 0;
    assert(text@.skip(0) == text@);
    loop
        invariant
            chars@ == text@,
            prefix@ == part@,
            part@.len() > 0,
            at <= chars@.len(),
            without_leading(text@, part@) == without_leading(text@.skip(at as int), part@),
        ensures
            without_leading(text@, part@) == text@.skip(at as int),
        decreases chars@.len() - at,
    {
        let ghost rest = text@.skip(at as int);
        if prefix.len() > chars.len() - at {
            break;
        }
        assert(rest.subrange(0, part@.len() as int) == text@.subrange(at as int, at + part@.len()));
        if !stands_at(&chars, &prefix, at) {
            break;
        }
        assert(rest.skip(part@.len() as int) == text@.skip(at + part@.len()));
        at += prefix.len();
    }
    text.substring_char(at, chars.len()).to_owned()
}

/// `text` without one trailing `end`.
pub fn strip_trailing(text: &str, end: char) -> (rest: String)
    ensures
        rest@ == without_trailing(text@, end),
{
    let chars = chars_of(text);
    if chars.len() > 0 && chars[chars.len() - 1] == end {
        text.substring_char(0, chars.len() - 1).to_owned()
    } else {
        text.to_owned()
    }
}

/// The text of one hexadecimal digit.
fn digit_text(n: u8) -> (digit: &'static str)
    requires
        n < 16,
    ensures
        digit@ == seq![hex_digit(n as int)],
{
    proof {
        reveal_strlit("0");
        reveal_strlit("1");
        reveal_strlit("2");
        reveal_strlit("3");
        reveal_strlit("4");
        reveal_strlit("5");
        reveal_strlit("6");
        reveal_strlit("7");
        reveal_strlit("8");
        reveal_strlit("9");
        reveal_strlit("a");
        reveal_strlit("b");
        reveal_strlit("c");
        reveal_strlit("d");
        reveal_strlit("e");
        reveal_strlit("f");
    }
    match n {
        0 => "0",
        1 => "1",
        2 => "2",
        3 => "3",
        4 => "4",
        5 => "5",
        6 => "6",
        7 => "7",
        8 => "8",
        9 => "9",
        10 => "a",
        11 => "b",
        12 => "c",
        13 => "d",
        14 => "e",
        _ => "f",
    }
}

/// A byte as two hexadecimal digits.
pub fn hex_pair_text(byte: u8) -> (text: String)
    ensures
        text@ == hex_pair(byte),
{
    digit_text(byte / 16).to_owned().concat(digit_text(byte % 16))
}

/// A byte as a hexadecimal number without leading zeros.
pub fn hex_number_text(byte: u8) -> (text: String)
    ensures
        text@ == hex_number(byte),
{
    if byte < 16 {
        digit_text(byte).to_owned()
    } else {
        hex_pair_text(byte)
    }
}

/// A text some number of times over.
pub open spec fn repeated(part: Seq<char>, n: nat) -> Seq<char>
    decreases n,
{
    if n == 0 {
        Seq::empty()
    } else {
        part + repeated(part, (n - 1) as nat)
    }
}

/// A text occurs in another exactly if the other is something, the text, and
/// something again.
pub proof fn law_occurrence(part: Seq<char>, text: Seq<char>)
    ensures
        occurs_in(part, text) <==> exists|front: Seq<char>, back: Seq<char>| #[trigger]
            (front + part + back) == text,
{
    if occurs_in(part, text) {
        let i = choose|i: int|
            0 <= i <= text.len() - part.len() && #[trigger] text.subrange(i, i + part.len())
                == part;
        let front = text.take(i);
        let back = text.skip(i + part.len());
        assert(front + part + back =~= text) by {
            assert forall|k: int| 0 <= k < text.len() implies (front + part + back)[k]
                == text[k] by {
                if i <= k < i + part.len() {
                    assert(part[k - i] == text.subrange(i, i + part.len())[k - i]);
                }
            }
        }
    }
    if exists|front: Seq<char>, back: Seq<char>| #[trigger] (front + part + back) == text {
        let (front, back) = choose|front: Seq<char>, back: Seq<char>| #[trigger]
            (front + part + back) == text;
        let i = front.len() as int;
        assert(text.subrange(i, i + part.len()) =~= part);
    }
}

/// Of a text that begins with repetitions of a part, what follows the last of
/// them is left.
pub proof fn law_leading_repetitions_go(part: Seq<char>, n: nat, rest: Seq<char>)
    requires
        part.len() > 0,
        !part.is_prefix_of(rest),
    ensures
        without_leading(repeated(part, n) + rest, part) == rest,
    decreases n,
{
    let text = repeated(part, n) + rest;
    if n == 0 {
        assert(text =~= rest);
    } else {
        let fewer = repeated(part, (n - 1) as nat) + rest;
        law_leading_repetitions_go(part, (n - 1) as nat, rest);
        assert(text =~= part + fewer);
        assert(text.take(part.len() as int) =~= part);
        assert(text.skip(part.len() as int) =~= fewer);
        assert(part.is_prefix_of(text));
    }
}

/// One trailing character goes, and nothing else.
pub proof fn law_one_trailing_character_goes(text: Seq<char>, end: char)
    ensures
        without_trailing(text.push(end), end) == text,
        text.len() == 0 || text[text.len() - 1] != end ==> without_trailing(text, end) == text,
{
    assert(text.push(end).drop_last() =~= text);
}

/// The digits are the sixteen lower-case ones, in their order. A byte as a pair is
/// its upper half and its lower half; as a number it loses an upper half of zero.
pub proof fn law_hexadecimal(byte: u8)
    ensures
        forall|n: int| 0 <= n < 16 ==> #[trigger] hex_digit(n) == "0123456789abcdef"@[n],
        hex_pair(byte) == seq![
            "0123456789abcdef"@[byte as int / 16],
            "0123456789abcdef"@[byte as int % 16],
        ],
        byte < 16 ==> hex_number(byte) == seq!["0123456789abcdef"@[byte as int]],
        byte >= 16 ==> hex_number(byte) == hex_pair(byte),
{
    reveal_strlit("0123456789abcdef");
    assert forall|n: int| 0 <= n < 16 implies #[trigger] hex_digit(n) == "0123456789abcdef"@[n] by {
    }
    assert(hex_digit(byte as int / 16) == "0123456789abcdef"@[byte as int / 16]);
    assert(hex_digit(byte as int % 16) == "0123456789abcdef"@[byte as int % 16]);
}

} // verus!
