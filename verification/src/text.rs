//! Small text operations: comparison, search, decimal numbers and quoting.

use vstd::prelude::*;
use vstd::string::*;

verus! {

/// The decimal digit `d` as a character.
pub open spec fn digit_char(d: nat) -> char {
    (('0' as u8) + d) as char
}

/// The decimal notation of `n`, without leading zeros.
pub open spec fn decimal(n: nat) -> Seq<char>
    decreases n,
{
    if n < 10 {
        seq![digit_char(n)]
    } else {
        decimal(n / 10).push(digit_char(n % 10))
    }
}

/// The decimal notation of `n`, with a minus sign where `n` is negative.
pub open spec fn signed_decimal(n: int) -> Seq<char> {
    if n < 0 {
        seq!['-'] + decimal((-n) as nat)
    } else {
        decimal(n as nat)
    }
}

/// `part` occurs in `text`.
pub open spec fn contains_text(text: Seq<char>, part: Seq<char>) -> bool {
    exists|start: int| occurs_at(text, part, start)
}

/// `part` stands in `text` from position `start` on.
pub open spec fn occurs_at(text: Seq<char>, part: Seq<char>, start: int) -> bool {
    0 <= start && start + part.len() <= text.len() && text.subrange(start, start + part.len())
        == part
}

/// What std's `Debug` prints for a string: the text in double quotes, with escapes.
pub uninterp spec fn debug_quoted(text: Seq<char>) -> Seq<char>;

/// The bytes read as UTF-8, with a replacement character for each malformed part.
pub uninterp spec fn utf8_lossy(bytes: Seq<u8>) -> Seq<char>;

/// Calls std's `Debug` for `str` through `format!`: the result is the quoted text.
#[verifier::external_body]
pub(crate) fn quoted(text: &str) -> (res: String)
    ensures
        res@ == debug_quoted(text@),
{
    format!("{:?}", text)
}

/// Calls std's `String::from_utf8_lossy`: the result is the lossy reading of the bytes.
#[verifier::external_body]
pub(crate) fn lossy_text(bytes: &[u8]) -> (res: String)
    ensures
        res@ == utf8_lossy(bytes@),
{
    String::from_utf8_lossy(bytes).into_owned()
}

/// Compares two texts.
pub fn same_text(left: &str, right: &str) -> (same: bool)
    ensures
        same == (left@ == right@),
{
    left.to_owned() == right.to_owned()
}

fn digit_text(d: u64) -> (res: &'static str)
    requires
        d < 10,
    ensures
        res@ == seq![digit_char(d as nat)],
{
    proof {
        reveal_strlit("0");
        reveal_strlit("1");
        reveal_strlit("2");
        reveal_strlit("3");
        reveal_strlit("4");
        reveal_strlit("5");
        reveal_strlit("6");
        reveal_strlit("7");
        reveal_strlit("8");
        reveal_strlit("9");
    }
    let res = match d {
        0 => "0",
        1 => "1",
        2 => "2",
        3 => "3",
        4 => "4",
        5 => "5",
        6 => "6",
        7 => "7",
        8 => "8",
        _ => "9",
    };
    assert(res@ =~= seq![digit_char(d as nat)]);
    res
}

/// Writes a number in decimal.
pub fn decimal_text(n: u64) -> (res: String)
    ensures
        res@ == decimal(n as nat),
    decreases n,
{
    if n < 10 {
        digit_text(n).to_owned()
    } else {
        let mut res = decimal_text(n / 10);
        res.append(digit_text(n % 10));
        assert(res@ =~= decimal((n / 10) as nat).push(digit_char((n % 10) as nat)));
        res
    }
}

/// Writes a signed number in decimal.
pub fn signed_decimal_text(n: i64) -> (res: String)
    ensures
        res@ == signed_decimal(n as int),
{
    if n < 0 {
        let mut res = "-".to_owned();
        let magnitude: u64 = if n == i64::MIN {
            0x8000_0000_0000_0000u64
        } else {
            (-n) as u64
        };
        proof {
            reveal_strlit("-");
            assert(res@ =~= seq!['-']);
        }
        let digits = decimal_text(magnitude);
        res.append(digits.as_str());
        res
    } else {
        decimal_text(n as u64)
    }
}

/// The characters of a text, one by one.
pub fn chars_of(text: &str) -> (chars: Vec<char>)
    ensures
        chars@ == text@,
{
    let mut chars: Vec<char> = Vec::new();
    for c in iter: text.chars()
        invariant
            iter.seq() == text@,
            chars@ == text@.take(iter.index() as int),
    {
        assert(text@.take(iter.index() as int + 1) =~= text@.take(iter.index() as int).push(c));
        chars.push(c);
    }
    assert(text@.take(text@.len() as int) =~= text@);
    chars
}

/// Whether `part` stands in `text` from position `start` on.
fn stands_at(text: &Vec<char>, part: &Vec<char>, start: usize) -> (res: bool)
    requires
        start + part@.len() <= text@.len(),
    ensures
        res == occurs_at(text@, part@, start as int),
{
    let length = text.len();
    let mut i: usize = 0;
    while i < part.len()
        invariant
            i <= part@.len(),
            length == text@.len(),
            start + part@.len() <= text@.len(),
            forall|j: int| 0 <= j < i ==> text@[start + j] == part@[j],
        decreases part@.len() - i,
    {
        if text[start + i] != part[i] {
            assert(text@.subrange(start as int, start + part@.len())[i as int] == text@[start + i]);
            return false;
        }
        i = i + 1;
    }
    assert(text@.subrange(start as int, start + part@.len()) =~= part@);
    true
}

/// Searches for `part` in `text`.
pub fn has_text(text: &str, part: &str) -> (res: bool)
    ensures
        res == contains_text(text@, part@),
{
    let text_chars = chars_of(text);
    let part_chars = chars_of(part);
    if part_chars.len() > text_chars.len() {
        return false;
    }
    let last = text_chars.len() - part_chars.len();
    let mut start: usize = 0;
    while start <= last
        invariant
            text_chars@ == text@,
            part_chars@ == part@,
            last + part@.len() == text@.len(),
            text_chars@.len() <= usize::MAX,
            start <= last + 1,
            forall|s: int| 0 <= s < start ==> !occurs_at(text@, part@, s),
        decreases last + 1 - start,
    {
        if stands_at(&text_chars, &part_chars, start) {
            return true;
        }
        if start == last {
            return false;
        }
        start = start + 1;
    }
    false
}

} // verus!
