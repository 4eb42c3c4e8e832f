//! Dates at the end of time in XML property lists. A date on the last day of the year 9999, in a
//! time zone west of Greenwich, can lie beyond that year in universal time, and no date type holds
//! it then. Documents with such a date are found here before they are read.

use vstd::prelude::*;
use vstd::slice::*;

verus! {

/// The position behind the first `mark` that stands at position `i` or later; the end of the
/// document where there is none.
pub open spec fn behind(bytes: Seq<u8>, i: int, mark: Seq<u8>) -> int
    decreases bytes.len() - i,
{
    if i < 0 || i >= bytes.len() || i + mark.len() > bytes.len() {
        bytes.len() as int
    } else if bytes.subrange(i, i + mark.len()) == mark {
        i + mark.len()
    } else {
        behind(bytes, i + 1, mark)
    }
}

/// The position of the first `>` outside quotes at position `i` or later, or of the first `[` where
/// that ends it too; the end of the document where there is none. The quote that is open at `i`, if
/// any, is given.
pub open spec fn closing(bytes: Seq<u8>, i: int, quote: Option<u8>, bracket: bool) -> int
    decreases bytes.len() - i,
{
    if i < 0 || i >= bytes.len() {
        bytes.len() as int
    } else if quote is Some {
        closing(
            bytes,
            i + 1,
            if bytes[i] == quote->0 {
                None
            } else {
                quote
            },
            bracket,
        )
    } else if bytes[i] == ('>' as u8) || (bracket && bytes[i] == ('[' as u8)) {
        i
    } else if bytes[i] == ('"' as u8) || bytes[i] == ('\'' as u8) {
        closing(bytes, i + 1, Some(bytes[i]), bracket)
    } else {
        closing(bytes, i + 1, None, bracket)
    }
}

/// Whether a document type declaration at position `i` has declarations of its own in brackets.
pub open spec fn opens_subset(bytes: Seq<u8>, i: int) -> bool {
    let end = closing(bytes, i + 2, None, true);
    &&& i + 2 < bytes.len()
    &&& bytes[i + 1] == ('!' as u8)
    &&& bytes[i + 2] == ('D' as u8) || bytes[i + 2] == ('d' as u8)
    &&& end < bytes.len()
    &&& bytes[end] == ('[' as u8)
}

/// The position behind the comment, the character data, the processing instruction or the document
/// type declaration without brackets at position `i`; the end of the document where it is none of
/// these or does not end.
pub open spec fn behind_markup(bytes: Seq<u8>, i: int) -> int {
    if i + 1 < bytes.len() && bytes[i + 1] == ('?' as u8) {
        behind(bytes, i + 1, seq!['?' as u8, '>' as u8])
    } else if i + 2 >= bytes.len() {
        bytes.len() as int
    } else if bytes[i + 2] == ('-' as u8) {
        behind(bytes, i + 4, seq!['-' as u8, '-' as u8, '>' as u8])
    } else if bytes[i + 2] == ('[' as u8) {
        behind(bytes, i + 2, seq![']' as u8, ']' as u8, '>' as u8])
    } else if bytes[i + 2] == ('D' as u8) || bytes[i + 2] == ('d' as u8) {
        let end = closing(bytes, i + 2, None, false);
        if end < bytes.len() {
            end + 1
        } else {
            end
        }
    } else {
        bytes.len() as int
    }
}

/// A search goes forward.
pub proof fn lemma_behind_is_later(bytes: Seq<u8>, i: int, mark: Seq<u8>)
    requires
        0 <= i,
    ensures
        behind(bytes, i, mark) <= bytes.len(),
        behind(bytes, i, mark) >= i + mark.len() || behind(bytes, i, mark) == bytes.len(),
    decreases bytes.len() - i,
{
    if i < bytes.len() && i + mark.len() <= bytes.len() && bytes.subrange(i, i + mark.len())
        != mark {
        lemma_behind_is_later(bytes, i + 1, mark);
    }
}

/// What closes a tag does not stand before it.
pub proof fn lemma_closing_is_later(bytes: Seq<u8>, i: int, quote: Option<u8>, bracket: bool)
    requires
        0 <= i <= bytes.len(),
    ensures
        i <= closing(bytes, i, quote, bracket) <= bytes.len(),
    decreases bytes.len() - i,
{
    if i < bytes.len() {
        lemma_closing_is_later(
            bytes,
            i + 1,
            if bytes[i] == quote->0 {
                None
            } else {
                quote
            },
            bracket,
        );
        lemma_closing_is_later(bytes, i + 1, Some(bytes[i]), bracket);
        lemma_closing_is_later(bytes, i + 1, None, bracket);
    }
}

/// Markup takes some bytes.
pub proof fn lemma_behind_markup_is_later(bytes: Seq<u8>, i: int)
    requires
        0 <= i < bytes.len(),
    ensures
        i < behind_markup(bytes, i) <= bytes.len(),
{
    lemma_behind_is_later(bytes, i + 1, seq!['?' as u8, '>' as u8]);
    lemma_behind_is_later(bytes, i + 4, seq!['-' as u8, '-' as u8, '>' as u8]);
    lemma_behind_is_later(bytes, i + 2, seq![']' as u8, ']' as u8, '>' as u8]);
    if i + 2 <= bytes.len() {
        lemma_closing_is_later(bytes, i + 2, None, false);
    }
}

/// The value of a digit, also one beyond nine.
pub open spec fn digit_value(byte: u8) -> int {
    if ('0' as u8) <= byte <= ('9' as u8) {
        byte - ('0' as u8)
    } else if ('a' as u8) <= byte <= ('f' as u8) {
        byte - ('a' as u8) + 10
    } else if ('A' as u8) <= byte <= ('F' as u8) {
        byte - ('A' as u8) + 10
    } else {
        16
    }
}

/// What no character number exceeds.
pub open spec fn number_limit() -> int {
    0x11_0000
}

/// The number that some digits stand for, where all are digits; a large one by the limit.
pub open spec fn number_of(digits: Seq<u8>, radix: int) -> Option<int>
    decreases digits.len(),
{
    if digits.len() == 0 {
        Some(0)
    } else {
        match number_of(digits.drop_last(), radix) {
            Some(head) => if digit_value(digits.last()) >= radix {
                None
            } else if head * radix + digit_value(digits.last()) > number_limit() {
                Some(number_limit())
            } else {
                Some(head * radix + digit_value(digits.last()))
            },
            None => None,
        }
    }
}

/// What a character number stands for: itself where it is plain ASCII, and else a byte that is
/// none.
pub open spec fn numbered(number: Option<int>) -> Option<Seq<u8>> {
    match number {
        Some(number) => if number < 128 {
            Some(seq![number as u8])
        } else {
            Some(seq![0xffu8])
        },
        None => None,
    }
}

/// What a reference stands for: the character with its number or of its name, nothing where the
/// name is unknown. A malformed number has no meaning.
pub open spec fn referenced(name: Seq<u8>) -> Option<Seq<u8>> {
    if name.len() > 0 && name[0] == ('#' as u8) {
        if name.len() > 1 && name[1] == ('x' as u8) {
            if name.len() == 2 {
                None
            } else {
                numbered(number_of(name.skip(2), 16))
            }
        } else if name.len() == 1 {
            None
        } else {
            numbered(number_of(name.skip(1), 10))
        }
    } else if name == seq!['l' as u8, 't' as u8] {
        Some(seq!['<' as u8])
    } else if name == seq!['g' as u8, 't' as u8] {
        Some(seq!['>' as u8])
    } else if name == seq!['a' as u8, 'm' as u8, 'p' as u8] {
        Some(seq!['&' as u8])
    } else if name == seq!['a' as u8, 'p' as u8, 'o' as u8, 's' as u8] {
        Some(seq!['\'' as u8])
    } else if name == seq!['q' as u8, 'u' as u8, 'o' as u8, 't' as u8] {
        Some(seq!['"' as u8])
    } else {
        Some(Seq::empty())
    }
}

/// The last day that a date can name.
pub open spec fn last_day() -> Seq<u8> {
    seq![
        '9' as u8,
        '9' as u8,
        '9' as u8,
        '9' as u8,
        '-' as u8,
        '1' as u8,
        '2' as u8,
        '-' as u8,
        '3' as u8,
        '1' as u8,
    ]
}

/// Whether two digits stand at position `i`.
pub open spec fn has_pair(text: Seq<u8>, i: int) -> bool {
    ('0' as u8) <= text[i] <= ('9' as u8) && ('0' as u8) <= text[i + 1] <= ('9' as u8)
}

/// The number of the two digits at position `i`.
pub open spec fn pair(text: Seq<u8>, i: int) -> int {
    (text[i] - ('0' as u8)) * 10 + (text[i + 1] - ('0' as u8))
}

/// The minutes of an hour and a minute that stand at position `i` with a colon between them.
pub open spec fn minutes_at(text: Seq<u8>, i: int) -> int {
    pair(text, i) * 60 + pair(text, i + 3)
}

/// Whether an hour and a minute stand at position `i`.
pub open spec fn has_minutes(text: Seq<u8>, i: int) -> bool {
    has_pair(text, i) && text[i + 2] == (':' as u8) && has_pair(text, i + 3)
}

/// Whether the text of a date names a time on the last day that lies beyond it in universal time:
/// the time of day and the distance west of Greenwich are together a day or more.
pub open spec fn passes_the_last_day(text: Seq<u8>) -> bool {
    let zone = text.len() - 5;
    &&& text.len() >= 25
    &&& text.take(10) == last_day()
    &&& has_minutes(text, 11)
    &&& text[zone - 1] == ('-' as u8)
    &&& has_minutes(text, zone)
    &&& minutes_at(text, 11) + minutes_at(text, zone) >= 24 * 60
}

/// Whether the text of an element passes the last day. `text` is what was read of it before
/// position `i`. Comments and the like are left out of it, and references stand for their
/// characters. A document type declaration with brackets may hide anything.
pub open spec fn late_content(bytes: Seq<u8>, i: int, text: Seq<u8>) -> bool
    decreases bytes.len() - i,
{
    if i < 0 || i >= bytes.len() {
        false
    } else if bytes[i] == ('<' as u8) {
        if i + 1 >= bytes.len() {
            false
        } else if bytes[i + 1] == ('/' as u8) {
            passes_the_last_day(text)
        } else if bytes[i + 1] == ('!' as u8) || bytes[i + 1] == ('?' as u8) {
            proof {
                lemma_behind_markup_is_later(bytes, i);
            }
            opens_subset(bytes, i) || late_content(bytes, behind_markup(bytes, i), text)
        } else {
            false
        }
    } else if bytes[i] == ('&' as u8) {
        proof {
            lemma_behind_is_later(bytes, i + 1, seq![';' as u8]);
        }
        let end = behind(bytes, i + 1, seq![';' as u8]);
        match referenced(bytes.subrange(i + 1, end - 1)) {
            Some(meaning) => late_content(bytes, end, text + meaning),
            None => false,
        }
    } else {
        late_content(bytes, i + 1, text.push(bytes[i]))
    }
}

/// Whether a byte ends a name.
pub open spec fn is_space(byte: u8) -> bool {
    byte == (' ' as u8) || byte == ('\t' as u8) || byte == ('\n' as u8) || byte == ('\r' as u8)
}

/// Where the name of a tag ends that begins at position `i` and is closed at `end`.
pub open spec fn name_end(bytes: Seq<u8>, i: int, end: int) -> int
    decreases end - i,
{
    if i >= end || is_space(bytes[i]) {
        i
    } else {
        name_end(bytes, i + 1, end)
    }
}

/// Where a name without its prefix begins, within a name from position `i` to `end`.
pub open spec fn local_start(bytes: Seq<u8>, i: int, from: int, end: int) -> int
    decreases end - i,
{
    if i >= end {
        from
    } else if bytes[i] == (':' as u8) {
        i + 1
    } else {
        local_start(bytes, i + 1, from, end)
    }
}

/// The name, without its prefix, of the tag from position `i` to its `>` at `end`; none where the
/// element is empty.
pub open spec fn opened_name(bytes: Seq<u8>, i: int, end: int) -> Seq<u8> {
    let to = name_end(bytes, i + 1, end);
    if bytes[end - 1] == ('/' as u8) {
        Seq::empty()
    } else {
        bytes.subrange(local_start(bytes, i + 1, i + 1, to), to)
    }
}

/// The name of the elements that hold dates.
pub open spec fn date_name() -> Seq<u8> {
    seq!['d' as u8, 'a' as u8, 't' as u8, 'e' as u8]
}

/// Whether elements of a name hold text.
pub open spec fn holds_text(name: Seq<u8>) -> bool {
    ||| name == date_name()
    ||| name == seq!['k' as u8, 'e' as u8, 'y' as u8]
    ||| name == seq!['d' as u8, 'a' as u8, 't' as u8, 'a' as u8]
    ||| name == seq!['r' as u8, 'e' as u8, 'a' as u8, 'l' as u8]
    ||| name == seq!['s' as u8, 't' as u8, 'r' as u8, 'i' as u8, 'n' as u8, 'g' as u8]
    ||| name == seq!['i' as u8, 'n' as u8, 't' as u8, 'e' as u8, 'g' as u8, 'e' as u8, 'r' as u8]
}

/// Whether the tag from position `i` to its `>` at `end` opens an element with a late date.
pub open spec fn opens_late_date(bytes: Seq<u8>, i: int, end: int) -> bool {
    opened_name(bytes, i, end) == date_name() && late_content(bytes, end + 1, Seq::empty())
}

/// Whether a tag at position `i` opens an element with a late date.
pub open spec fn late_date_at(bytes: Seq<u8>, i: int) -> bool {
    let end = closing(bytes, i + 1, None, false);
    &&& 0 <= i < bytes.len()
    &&& bytes[i] == ('<' as u8)
    &&& end < bytes.len()
    &&& opens_late_date(bytes, i, end)
}

/// Whether some tag at position `i` or later opens an element with a late date.
pub open spec fn late_date_behind(bytes: Seq<u8>, i: int) -> bool {
    exists|j: int| i <= j && #[trigger] late_date_at(bytes, j)
}

/// Whether a byte may stand between elements: a blank, or a part of a character that may be one.
pub open spec fn may_be_blank(byte: u8) -> bool {
    byte == (' ' as u8) || 9 <= byte <= 13 || byte >= 128
}

/// Whether a late date comes up when a document is read from position `i` on, `inside` an element
/// that holds text or between elements. Where reading stops with an error, none does.
pub open spec fn late_from(bytes: Seq<u8>, i: int, inside: bool) -> bool
    decreases bytes.len() - i,
{
    if i < 0 || i + 1 >= bytes.len() {
        false
    } else if bytes[i] == ('<' as u8) {
        proof {
            lemma_behind_markup_is_later(bytes, i);
            lemma_closing_is_later(bytes, i + 1, None, false);
        }
        let end = closing(bytes, i + 1, None, false);
        if bytes[i + 1] == ('!' as u8) || bytes[i + 1] == ('?' as u8) {
            if opens_subset(bytes, i) {
                late_date_behind(bytes, i)
            } else {
                late_from(bytes, behind_markup(bytes, i), inside)
            }
        } else if end >= bytes.len() {
            false
        } else if bytes[i + 1] == ('/' as u8) {
            late_from(bytes, end + 1, false)
        } else {
            !inside && (opens_late_date(bytes, i, end) || late_from(
                bytes,
                end + 1,
                holds_text(opened_name(bytes, i, end)),
            ))
        }
    } else if inside {
        late_from(bytes, i + 1, true)
    } else if bytes[i] == ('&' as u8) {
        proof {
            lemma_behind_is_later(bytes, i + 1, seq![';' as u8]);
        }
        late_from(bytes, behind(bytes, i + 1, seq![';' as u8]), false)
    } else {
        may_be_blank(bytes[i]) && late_from(bytes, i + 1, false)
    }
}

/// How a binary property list starts.
pub open spec fn binary_mark() -> Seq<u8> {
    seq!['b' as u8, 'p' as u8, 'l' as u8, 'i' as u8, 's' as u8, 't' as u8, '0' as u8, '0' as u8]
}

/// Whether a document is an XML property list with a date that lies beyond the year 9999 in
/// universal time.
pub open spec fn has_late_date(bytes: Seq<u8>) -> bool {
    !binary_mark().is_prefix_of(bytes) && late_from(bytes, 0, false)
}

/// Whether some bytes stand at a position.
fn stands_at(bytes: &[u8], i: usize, mark: &[u8]) -> (res: bool)
    requires
        i + mark@.len() <= bytes@.len(),
    ensures
        res == (bytes@.subrange(i as int, i + mark@.len()) == mark@),
{
    let length = bytes.len();
    let mut k: usize = 0;
    while k < mark.len()
        invariant
            length == bytes@.len(),
            k <= mark@.len(),
            i + mark@.len() <= bytes@.len(),
            forall|m: int| 0 <= m < k ==> bytes@[i + m] == #[trigger] mark@[m],
        decreases mark@.len() - k,
    {
        if bytes[i + k] != mark[k] {
            assert(bytes@.subrange(i as int, i + mark@.len())[k as int] != mark@[k as int]);
            return false;
        }
        k = k + 1;
    }
    assert(bytes@.subrange(i as int, i + mark@.len()) =~= mark@);
    true
}

/// Whether two byte strings are the same.
fn same_bytes(left: &[u8], right: &[u8]) -> (same: bool)
    ensures
        same == (left@ == right@),
{
    if left.len() != right.len() {
        return false;
    }
    let same = stands_at(left, 0, right);
    assert(left@.subrange(0, right@.len() as int) =~= left@);
    same
}

fn find_behind(bytes: &[u8], start: usize, mark: &[u8]) -> (position: usize)
    requires
        mark@.len() > 0,
    ensures
        position == behind(bytes@, start as int, mark@),
{
    let mut i: usize = start;
    let length = bytes.len();
    while i < length && mark.len() <= length - i
        invariant
            length == bytes@.len(),
            behind(bytes@, start as int, mark@) == behind(bytes@, i as int, mark@),
        decreases length - i,
    {
        if stands_at(bytes, i, mark) {
            return i + mark.len();
        }
        i = i + 1;
    }
    length
}

fn find_closing(bytes: &[u8], start: usize, bracket: bool) -> (position: usize)
    ensures
        position == closing(bytes@, start as int, None, bracket),
        position <= bytes@.len(),
{
    let mut i: usize = start;
    let mut quote: Option<u8> = None;
    while i < bytes.len()
        invariant
            closing(bytes@, start as int, None, bracket) == closing(
                bytes@,
                i as int,
                quote,
                bracket,
            ),
        decreases bytes@.len() - i,
    {
        let byte = bytes[i];
        match quote {
            Some(open) => {
                if byte == open {
                    quote = None;
                }
            },
            None => {
                if byte == ('>' as u8) || (bracket && byte == ('[' as u8)) {
                    return i;
                }
                if byte == ('"' as u8) || byte == ('\'' as u8) {
                    quote = Some(byte);
                }
            },
        }
        i = i + 1;
    }
    bytes.len()
}

fn find_subset(bytes: &[u8], i: usize) -> (res: bool)
    requires
        i + 1 < bytes@.len(),
    ensures
        res == opens_subset(bytes@, i as int),
{
    if bytes.len() - i <= 2 || bytes[i + 1] != ('!' as u8) {
        return false;
    }
    if bytes[i + 2] != ('D' as u8) && bytes[i + 2] != ('d' as u8) {
        return false;
    }
    let end = find_closing(bytes, i + 2, true);
    end < bytes.len() && bytes[end] == ('[' as u8)
}

fn find_behind_markup(bytes: &[u8], i: usize) -> (position: usize)
    requires
        i + 1 < bytes@.len(),
    ensures
        position == behind_markup(bytes@, i as int),
        i < position <= bytes@.len(),
{
    let length = bytes.len();
    assert(i + 1 < length);
    proof {
        lemma_behind_markup_is_later(bytes@, i as int);
    }
    if bytes[i + 1] == ('?' as u8) {
        let mark: [u8; 2] = ['?' as u8, '>' as u8];
        assert(mark@ =~= seq!['?' as u8, '>' as u8]);
        find_behind(bytes, i + 1, mark.as_slice())
    } else if bytes.len() - i <= 2 {
        bytes.len()
    } else if bytes[i + 2] == ('-' as u8) {
        let mark: [u8; 3] = ['-' as u8, '-' as u8, '>' as u8];
        assert(mark@ =~= seq!['-' as u8, '-' as u8, '>' as u8]);
        if bytes.len() - i < 4 {
            bytes.len()
        } else {
            find_behind(bytes, i + 4, mark.as_slice())
        }
    } else if bytes[i + 2] == ('[' as u8) {
        let mark: [u8; 3] = [']' as u8, ']' as u8, '>' as u8];
        assert(mark@ =~= seq![']' as u8, ']' as u8, '>' as u8]);
        find_behind(bytes, i + 2, mark.as_slice())
    } else if bytes[i + 2] == ('D' as u8) || bytes[i + 2] == ('d' as u8) {
        let end = find_closing(bytes, i + 2, false);
        if end < bytes.len() {
            end + 1
        } else {
            end
        }
    } else {
        bytes.len()
    }
}

fn read_digit(byte: u8) -> (value: u32)
    ensures
        value == digit_value(byte),
        value <= 16,
{
    if ('0' as u8) <= byte && byte <= ('9' as u8) {
        (byte - ('0' as u8)) as u32
    } else if ('a' as u8) <= byte && byte <= ('f' as u8) {
        (byte - ('a' as u8)) as u32 + 10
    } else if ('A' as u8) <= byte && byte <= ('F' as u8) {
        (byte - ('A' as u8)) as u32 + 10
    } else {
        16
    }
}

fn read_number(digits: &[u8], radix: u32) -> (number: Option<u32>)
    requires
        2 <= radix <= 16,
    ensures
        match number {
            Some(number) => number_of(digits@, radix as int) == Some(number as int) && number
                <= number_limit(),
            None => number_of(digits@, radix as int) is None,
        },
{
    let mut number: Option<u32> = Some(0);
    let mut i: usize = 0;
    assert(digits@.take(0) =~= Seq::empty());
    while i < digits.len()
        invariant
            2 <= radix <= 16,
            i <= digits@.len(),
            match number {
                Some(number) => number_of(digits@.take(i as int), radix as int) == Some(
                    number as int,
                ) && number <= number_limit(),
                None => number_of(digits@.take(i as int), radix as int) is None,
            },
        decreases digits@.len() - i,
    {
        assert(digits@.take(i + 1).drop_last() =~= digits@.take(i as int));
        assert(digits@.take(i + 1).last() == digits@[i as int]);
        let value = read_digit(digits[i]);
        number = match number {
            Some(head) => {
                assert(0 <= head * radix <= 0x11_0000 * 16) by (nonlinear_arith)
                    requires
                        0 <= head <= 0x11_0000,
                        2 <= radix <= 16,
                ;
                if value >= radix {
                    None
                } else if head * radix + value > 0x11_0000 {
                    Some(0x11_0000)
                } else {
                    Some(head * radix + value)
                }
            },
            None => None,
        };
        i = i + 1;
    }
    assert(digits@.take(digits@.len() as int) =~= digits@);
    number
}

/// The bytes of an optional byte string.
pub open spec fn optional_bytes(bytes: Option<Vec<u8>>) -> Option<Seq<u8>> {
    match bytes {
        Some(bytes) => Some(bytes@),
        None => None,
    }
}

fn one_byte(byte: u8) -> (bytes: Vec<u8>)
    ensures
        bytes@ == seq![byte],
{
    let mut bytes: Vec<u8> = Vec::new();
    bytes.push(byte);
    assert(bytes@ =~= seq![byte]);
    bytes
}

fn read_numbered(digits: &[u8], radix: u32) -> (meaning: Option<Vec<u8>>)
    requires
        2 <= radix <= 16,
    ensures
        optional_bytes(meaning) == numbered(number_of(digits@, radix as int)),
{
    match read_number(digits, radix) {
        Some(number) => {
            if number < 128 {
                Some(one_byte(number as u8))
            } else {
                Some(one_byte(0xff))
            }
        },
        None => None,
    }
}

fn read_reference(name: &[u8]) -> (meaning: Option<Vec<u8>>)
    ensures
        optional_bytes(meaning) == referenced(name@),
{
    if name.len() > 0 && name[0] == ('#' as u8) {
        if name.len() > 1 && name[1] == ('x' as u8) {
            if name.len() == 2 {
                None
            } else {
                let digits = slice_subrange(name, 2, name.len());
                assert(digits@ =~= name@.skip(2));
                read_numbered(digits, 16)
            }
        } else if name.len() == 1 {
            None
        } else {
            let digits = slice_subrange(name, 1, name.len());
            assert(digits@ =~= name@.skip(1));
            read_numbered(digits, 10)
        }
    } else {
        let lt: [u8; 2] = ['l' as u8, 't' as u8];
        let gt: [u8; 2] = ['g' as u8, 't' as u8];
        let amp: [u8; 3] = ['a' as u8, 'm' as u8, 'p' as u8];
        let apos: [u8; 4] = ['a' as u8, 'p' as u8, 'o' as u8, 's' as u8];
        let quot: [u8; 4] = ['q' as u8, 'u' as u8, 'o' as u8, 't' as u8];
        assert(lt@ =~= seq!['l' as u8, 't' as u8]);
        assert(gt@ =~= seq!['g' as u8, 't' as u8]);
        assert(amp@ =~= seq!['a' as u8, 'm' as u8, 'p' as u8]);
        assert(apos@ =~= seq!['a' as u8, 'p' as u8, 'o' as u8, 's' as u8]);
        assert(quot@ =~= seq!['q' as u8, 'u' as u8, 'o' as u8, 't' as u8]);
        if same_bytes(name, lt.as_slice()) {
            Some(one_byte(('<' as u8)))
        } else if same_bytes(name, gt.as_slice()) {
            Some(one_byte(('>' as u8)))
        } else if same_bytes(name, amp.as_slice()) {
            Some(one_byte(('&' as u8)))
        } else if same_bytes(name, apos.as_slice()) {
            Some(one_byte(('\'' as u8)))
        } else if same_bytes(name, quot.as_slice()) {
            Some(one_byte(('"' as u8)))
        } else {
            let nothing: Vec<u8> = Vec::new();
            assert(nothing@ =~= Seq::empty());
            Some(nothing)
        }
    }
}

fn is_pair(text: &[u8], i: usize) -> (res: bool)
    requires
        i + 1 < text@.len(),
    ensures
        res == has_pair(text@, i as int),
{
    read_digit(text[i]) < 10 && read_digit(text[i + 1]) < 10
}

fn read_pair(text: &[u8], i: usize) -> (number: u32)
    requires
        i + 1 < text@.len(),
        has_pair(text@, i as int),
    ensures
        number == pair(text@, i as int),
        number < 100,
{
    (text[i] - ('0' as u8)) as u32 * 10 + (text[i + 1] - ('0' as u8)) as u32
}

fn read_minutes(text: &[u8], i: usize) -> (minutes: Option<u32>)
    requires
        i + 4 < text@.len(),
    ensures
        match minutes {
            Some(minutes) => has_minutes(text@, i as int) && minutes == minutes_at(
                text@,
                i as int,
            ) && minutes < 6100,
            None => !has_minutes(text@, i as int),
        },
{
    let length = text.len();
    assert(i + 4 < length);
    if is_pair(text, i) && text[i + 2] == (':' as u8) && is_pair(text, i + 3) {
        Some(read_pair(text, i) * 60 + read_pair(text, i + 3))
    } else {
        None
    }
}

/// Tells whether the text of a date passes the last day.
pub fn is_past_the_last_day(text: &[u8]) -> (res: bool)
    ensures
        res == passes_the_last_day(text@),
{
    let length = text.len();
    if length < 25 {
        return false;
    }
    let day: [u8; 10] = [
        '9' as u8,
        '9' as u8,
        '9' as u8,
        '9' as u8,
        '-' as u8,
        '1' as u8,
        '2' as u8,
        '-' as u8,
        '3' as u8,
        '1' as u8,
    ];
    assert(day@ =~= last_day());
    assert(text@.subrange(0, 10) =~= text@.take(10));
    if !stands_at(text, 0, day.as_slice()) || text[length - 6] != ('-' as u8) {
        return false;
    }
    match (read_minutes(text, 11), read_minutes(text, length - 5)) {
        (Some(time), Some(zone)) => time + zone >= 24 * 60,
        _ => false,
    }
}

fn is_late_content(bytes: &[u8], start: usize) -> (res: bool)
    ensures
        res == late_content(bytes@, start as int, Seq::empty()),
{
    let mut text: Vec<u8> = Vec::new();
    let mut i: usize = start;
    let semicolon: [u8; 1] = [';' as u8];
    assert(semicolon@ =~= seq![';' as u8]);
    assert(text@ =~= Seq::empty());
    while i < bytes.len()
        invariant
            semicolon@ == seq![';' as u8],
            late_content(bytes@, start as int, Seq::empty()) == late_content(
                bytes@,
                i as int,
                text@,
            ),
        decreases bytes@.len() - i,
    {
        let byte = bytes[i];
        if byte == ('<' as u8) {
            if bytes.len() - i <= 1 {
                return false;
            }
            let next = bytes[i + 1];
            if next == ('/' as u8) {
                return is_past_the_last_day(text.as_slice());
            }
            if next != ('!' as u8) && next != ('?' as u8) {
                return false;
            }
            if find_subset(bytes, i) {
                return true;
            }
            i = find_behind_markup(bytes, i);
        } else if byte == ('&' as u8) {
            proof {
                lemma_behind_is_later(bytes@, i + 1, seq![';' as u8]);
            }
            let end = find_behind(bytes, i + 1, semicolon.as_slice());
            if end - i < 2 {
                proof {
                    reveal_with_fuel(late_content, 2);
                }
                return false;
            }
            let name = slice_subrange(bytes, i + 1, end - 1);
            match read_reference(name) {
                Some(meaning) => {
                    let mut read = text;
                    let mut meaning = meaning;
                    read.append(&mut meaning);
                    text = read;
                },
                None => {
                    return false;
                },
            }
            i = end;
        } else {
            text.push(byte);
            i = i + 1;
        }
    }
    false
}

fn ends_name(byte: u8) -> (res: bool)
    ensures
        res == is_space(byte),
{
    byte == (' ' as u8) || byte == ('\t' as u8) || byte == ('\n' as u8) || byte == ('\r' as u8)
}

fn find_name_end(bytes: &[u8], start: usize, end: usize) -> (position: usize)
    requires
        start <= end <= bytes@.len(),
    ensures
        position == name_end(bytes@, start as int, end as int),
        start <= position <= end,
{
    let mut i: usize = start;
    while i < end && !ends_name(bytes[i])
        invariant
            start <= i <= end <= bytes@.len(),
            name_end(bytes@, start as int, end as int) == name_end(bytes@, i as int, end as int),
        decreases end - i,
    {
        i = i + 1;
    }
    i
}

fn find_local_start(bytes: &[u8], start: usize, end: usize) -> (position: usize)
    requires
        start <= end <= bytes@.len(),
    ensures
        position == local_start(bytes@, start as int, start as int, end as int),
        start <= position <= end,
{
    let mut i: usize = start;
    while i < end
        invariant
            start <= i <= end <= bytes@.len(),
            local_start(bytes@, start as int, start as int, end as int) == local_start(
                bytes@,
                i as int,
                start as int,
                end as int,
            ),
        decreases end - i,
    {
        if bytes[i] == (':' as u8) {
            return i + 1;
        }
        i = i + 1;
    }
    start
}

fn read_opened_name(bytes: &[u8], i: usize, end: usize) -> (name: &[u8])
    requires
        i < end < bytes@.len(),
    ensures
        name@ == opened_name(bytes@, i as int, end as int),
{
    if bytes[end - 1] == ('/' as u8) {
        let name = slice_subrange(bytes, i, i);
        assert(name@ =~= Seq::empty());
        name
    } else {
        let to = find_name_end(bytes, i + 1, end);
        let from = find_local_start(bytes, i + 1, to);
        slice_subrange(bytes, from, to)
    }
}

fn is_date_name(name: &[u8]) -> (res: bool)
    ensures
        res == (name@ == date_name()),
{
    let date: [u8; 4] = ['d' as u8, 'a' as u8, 't' as u8, 'e' as u8];
    assert(date@ =~= date_name());
    same_bytes(name, date.as_slice())
}

fn names_text(name: &[u8]) -> (res: bool)
    ensures
        res == holds_text(name@),
{
    let key: [u8; 3] = ['k' as u8, 'e' as u8, 'y' as u8];
    let data: [u8; 4] = ['d' as u8, 'a' as u8, 't' as u8, 'a' as u8];
    let decimal: [u8; 4] = ['r' as u8, 'e' as u8, 'a' as u8, 'l' as u8];
    let string: [u8; 6] = ['s' as u8, 't' as u8, 'r' as u8, 'i' as u8, 'n' as u8, 'g' as u8];
    let integer: [u8; 7] = [
        'i' as u8,
        'n' as u8,
        't' as u8,
        'e' as u8,
        'g' as u8,
        'e' as u8,
        'r' as u8,
    ];
    assert(key@ =~= seq!['k' as u8, 'e' as u8, 'y' as u8]);
    assert(data@ =~= seq!['d' as u8, 'a' as u8, 't' as u8, 'a' as u8]);
    assert(decimal@ =~= seq!['r' as u8, 'e' as u8, 'a' as u8, 'l' as u8]);
    assert(string@ =~= seq!['s' as u8, 't' as u8, 'r' as u8, 'i' as u8, 'n' as u8, 'g' as u8]);
    assert(integer@ =~= seq![
        'i' as u8,
        'n' as u8,
        't' as u8,
        'e' as u8,
        'g' as u8,
        'e' as u8,
        'r' as u8,
    ]);
    is_date_name(name) || same_bytes(name, key.as_slice()) || same_bytes(name, data.as_slice())
        || same_bytes(name, decimal.as_slice()) || same_bytes(name, string.as_slice()) || same_bytes(
        name,
        integer.as_slice(),
    )
}

fn find_opened_late_date(bytes: &[u8], i: usize, end: usize) -> (res: bool)
    requires
        i < end < bytes@.len(),
    ensures
        res == opens_late_date(bytes@, i as int, end as int),
{
    let length = bytes.len();
    assert(end < length);
    is_date_name(read_opened_name(bytes, i, end)) && is_late_content(bytes, end + 1)
}

fn find_late_date_behind(bytes: &[u8], start: usize) -> (res: bool)
    ensures
        res == late_date_behind(bytes@, start as int),
{
    let mut i: usize = start;
    while i < bytes.len()
        invariant
            start <= i,
            forall|j: int| start <= j < i ==> !#[trigger] late_date_at(bytes@, j),
        decreases bytes@.len() - i,
    {
        if bytes[i] == ('<' as u8) {
            let end = find_closing(bytes, i + 1, false);
            if end < bytes.len() {
                proof {
                    lemma_closing_is_later(bytes@, i + 1, None, false);
                }
                if find_opened_late_date(bytes, i, end) {
                    assert(late_date_at(bytes@, i as int));
                    return true;
                }
            }
        }
        i = i + 1;
    }
    false
}

/// Tells whether a document is an XML property list with a date that lies beyond the year 9999 in
/// universal time.
pub fn find_late_date(bytes: &[u8]) -> (found: bool)
    ensures
        found == has_late_date(bytes@),
{
    let mark: [u8; 8] = [
        'b' as u8,
        'p' as u8,
        'l' as u8,
        'i' as u8,
        's' as u8,
        't' as u8,
        '0' as u8,
        '0' as u8,
    ];
    assert(mark@ =~= binary_mark());
    if bytes.len() >= 8 && stands_at(bytes, 0, mark.as_slice()) {
        return false;
    }
    let semicolon: [u8; 1] = [';' as u8];
    assert(semicolon@ =~= seq![';' as u8]);
    let mut i: usize = 0;
    let mut inside: bool = false;
    while i < bytes.len() && bytes.len() - i > 1
        invariant
            semicolon@ == seq![';' as u8],
            !binary_mark().is_prefix_of(bytes@),
            has_late_date(bytes@) == late_from(bytes@, i as int, inside),
        decreases bytes@.len() - i,
    {
        let byte = bytes[i];
        let next = bytes[i + 1];
        if byte == ('<' as u8) {
            if next == ('!' as u8) || next == ('?' as u8) {
                if find_subset(bytes, i) {
                    return find_late_date_behind(bytes, i);
                }
                i = find_behind_markup(bytes, i);
            } else {
                let end = find_closing(bytes, i + 1, false);
                if end >= bytes.len() {
                    return false;
                }
                proof {
                    lemma_closing_is_later(bytes@, i + 1, None, false);
                }
                if next == ('/' as u8) {
                    inside = false;
                } else if inside {
                    return false;
                } else if find_opened_late_date(bytes, i, end) {
                    return true;
                } else {
                    inside = names_text(read_opened_name(bytes, i, end));
                }
                i = end + 1;
            }
        } else if inside {
            i = i + 1;
        } else if byte == ('&' as u8) {
            proof {
                lemma_behind_is_later(bytes@, i + 1, seq![';' as u8]);
            }
            i = find_behind(bytes, i + 1, semicolon.as_slice());
        } else if byte == (' ' as u8) || (9 <= byte && byte <= 13) || byte >= 128 {
            i = i + 1;
        } else {
            return false;
        }
    }
    false
}

} // verus!
