//! Which documents hold a date beyond the last day.

use crate::xml_dates;
use vstd::prelude::*;

verus! {

/// Whether the word `date` stands at position `i`.
pub open spec fn says_date(bytes: Seq<u8>, i: int) -> bool {
    &&& 0 <= i
    &&& i + 4 <= bytes.len()
    &&& bytes[i] == ('d' as u8)
    &&& bytes[i + 1] == ('a' as u8)
    &&& bytes[i + 2] == ('t' as u8)
    &&& bytes[i + 3] == ('e' as u8)
}

proof fn lemma_name_end(bytes: Seq<u8>, i: int, end: int)
    requires
        i <= end,
    ensures
        i <= xml_dates::name_end(bytes, i, end) <= end,
    decreases end - i,
{
    if i < end && !xml_dates::is_space(bytes[i]) {
        lemma_name_end(bytes, i + 1, end);
    }
}

proof fn lemma_local_start(bytes: Seq<u8>, i: int, from: int, end: int)
    requires
        from <= i <= end,
    ensures
        from <= xml_dates::local_start(bytes, i, from, end) <= end,
    decreases end - i,
{
    if i < end && bytes[i] != (':' as u8) {
        lemma_local_start(bytes, i + 1, from, end);
    }
}

/// An element that holds a date says so.
proof fn lemma_late_dates_say_date(bytes: Seq<u8>, i: int, end: int)
    requires
        0 <= i < end < bytes.len(),
        xml_dates::opens_late_date(bytes, i, end),
    ensures
        exists|k: int| says_date(bytes, k),
{
    let to = xml_dates::name_end(bytes, i + 1, end);
    lemma_name_end(bytes, i + 1, end);
    lemma_local_start(bytes, i + 1, i + 1, to);
    let from = xml_dates::local_start(bytes, i + 1, i + 1, to);
    let name = bytes.subrange(from, to);
    assert(name == xml_dates::date_name());
    assert(name.len() == 4);
    assert(name[0] == bytes[from] && name[1] == bytes[from + 1] && name[2] == bytes[from + 2]
        && name[3] == bytes[from + 3]);
    assert(says_date(bytes, from));
}

proof fn lemma_reading_finds_no_date(bytes: Seq<u8>, i: int, inside: bool)
    requires
        forall|k: int| !says_date(bytes, k),
        0 <= i,
    ensures
        !xml_dates::late_from(bytes, i, inside),
    decreases bytes.len() - i,
{
    if i + 1 < bytes.len() {
        if bytes[i] == ('<' as u8) {
            xml_dates::lemma_behind_markup_is_later(bytes, i);
            xml_dates::lemma_closing_is_later(bytes, i + 1, None, false);
            let end = xml_dates::closing(bytes, i + 1, None, false);
            if bytes[i + 1] == ('!' as u8) || bytes[i + 1] == ('?' as u8) {
                if xml_dates::late_date_behind(bytes, i) {
                    let j = choose|j: int| i <= j && #[trigger] xml_dates::late_date_at(bytes, j);
                    let close = xml_dates::closing(bytes, j + 1, None, false);
                    xml_dates::lemma_closing_is_later(bytes, j + 1, None, false);
                    lemma_late_dates_say_date(bytes, j, close);
                }
                lemma_reading_finds_no_date(bytes, xml_dates::behind_markup(bytes, i), inside);
            } else if end < bytes.len() {
                if xml_dates::opens_late_date(bytes, i, end) {
                    lemma_late_dates_say_date(bytes, i, end);
                }
                lemma_reading_finds_no_date(bytes, end + 1, false);
                lemma_reading_finds_no_date(bytes, end + 1, true);
            }
        } else {
            xml_dates::lemma_behind_is_later(bytes, i + 1, seq![';' as u8]);
            lemma_reading_finds_no_date(
                bytes,
                xml_dates::behind(bytes, i + 1, seq![';' as u8]),
                false,
            );
            lemma_reading_finds_no_date(bytes, i + 1, inside);
        }
    }
}

/// A document in which the word `date` does not stand holds no late date.
pub proof fn law_documents_without_dates_are_read(bytes: Seq<u8>)
    requires
        forall|k: int| !says_date(bytes, k),
    ensures
        !xml_dates::has_late_date(bytes),
{
    lemma_reading_finds_no_date(bytes, 0, false);
}

/// A binary property list is never taken for one with a late date.
pub proof fn law_binary_documents_are_read(rest: Seq<u8>)
    ensures
        !xml_dates::has_late_date(
            seq![
                'b' as u8,
                'p' as u8,
                'l' as u8,
                'i' as u8,
                's' as u8,
                't' as u8,
                '0' as u8,
                '0' as u8,
            ] + rest,
        ),
{
    let document = xml_dates::binary_mark() + rest;
    assert(document.subrange(0, 8) =~= xml_dates::binary_mark());
}

/// The byte of a decimal digit.
pub open spec fn digit(value: int) -> u8 {
    (value + '0' as u8) as u8
}

/// A time of day or a distance from Greenwich: hours and minutes in two digits each, with a colon
/// between them.
pub open spec fn clock(hours: int, minutes: int) -> Seq<u8> {
    seq![
        digit(hours / 10),
        digit(hours % 10),
        ':' as u8,
        digit(minutes / 10),
        digit(minutes % 10),
    ]
}

/// A time on the last day lies beyond it in universal time exactly where the time of day and the
/// distance west of Greenwich make a day or more. The seconds, with any fraction, do not matter.
pub proof fn law_time_and_distance_make_a_day(
    hours: int,
    minutes: int,
    seconds: Seq<u8>,
    west_hours: int,
    west_minutes: int,
)
    requires
        0 <= hours < 100,
        0 <= minutes < 100,
        0 <= west_hours < 100,
        0 <= west_minutes < 100,
        seconds.len() >= 3,
    ensures
        xml_dates::passes_the_last_day(
            xml_dates::last_day() + seq!['T' as u8] + clock(hours, minutes) + seconds + seq![
                '-' as u8,
            ] + clock(west_hours, west_minutes),
        ) <==> hours * 60 + minutes + west_hours * 60 + west_minutes >= 24 * 60,
{
    let text = xml_dates::last_day() + seq!['T' as u8] + clock(hours, minutes) + seconds + seq![
        '-' as u8,
    ] + clock(west_hours, west_minutes);
    let zone = text.len() - 5;
    assert(text.take(10) =~= xml_dates::last_day());
    assert(forall|k: int| 0 <= k < 5 ==> #[trigger] clock(hours, minutes)[k] == text[11 + k]);
    assert(forall|k: int|
        0 <= k < 5 ==> #[trigger] clock(west_hours, west_minutes)[k] == text[zone + k]);
    assert(text[11] == digit(hours / 10));
    assert(text[12] == digit(hours % 10));
    assert(text[13] == (':' as u8));
    assert(text[14] == digit(minutes / 10));
    assert(text[15] == digit(minutes % 10));
    assert(text[zone] == digit(west_hours / 10));
    assert(text[zone + 1] == digit(west_hours % 10));
    assert(text[zone + 2] == (':' as u8));
    assert(text[zone + 3] == digit(west_minutes / 10));
    assert(text[zone + 4] == digit(west_minutes % 10));
    assert(text[zone - 1] == ('-' as u8));
}

/// How the text of an element is read up to its end.
proof fn lemma_content_is_read(bytes: Seq<u8>, start: int, text: Seq<u8>, k: int)
    requires
        0 <= start,
        0 <= k <= text.len(),
        start + text.len() + 2 <= bytes.len(),
        bytes.subrange(start, start + text.len()) == text,
        bytes[start + text.len()] == ('<' as u8),
        bytes[start + text.len() + 1] == ('/' as u8),
        forall|j: int|
            0 <= j < text.len() ==> #[trigger] text[j] != ('<' as u8) && text[j] != ('&' as u8),
    ensures
        xml_dates::late_content(bytes, start + k, text.take(k)) == xml_dates::passes_the_last_day(
            text,
        ),
    decreases text.len() - k,
{
    if k < text.len() {
        assert(bytes[start + k] == bytes.subrange(start, start + text.len())[k]);
        assert(text.take(k).push(text[k]) =~= text.take(k + 1));
        lemma_content_is_read(bytes, start, text, k + 1);
    } else {
        assert(text.take(k) =~= text);
    }
}

/// A date beyond the last day is found where it is the first thing in a document.
pub proof fn law_late_dates_are_found(text: Seq<u8>, rest: Seq<u8>)
    requires
        forall|j: int|
            0 <= j < text.len() ==> #[trigger] text[j] != ('<' as u8) && text[j] != ('&' as u8),
        xml_dates::passes_the_last_day(text),
    ensures
        xml_dates::has_late_date(
            seq!['<' as u8, 'd' as u8, 'a' as u8, 't' as u8, 'e' as u8, '>' as u8] + text + seq![
                '<' as u8,
                '/' as u8,
            ] + rest,
        ),
{
    let start = seq!['<' as u8, 'd' as u8, 'a' as u8, 't' as u8, 'e' as u8, '>' as u8];
    let bytes = start + text + seq!['<' as u8, '/' as u8] + rest;
    assert(bytes[0] == ('<' as u8) && bytes[1] == ('d' as u8) && bytes[2] == ('a' as u8)
        && bytes[3] == ('t' as u8) && bytes[4] == ('e' as u8) && bytes[5] == ('>' as u8));
    reveal_with_fuel(xml_dates::closing, 6);
    assert(xml_dates::closing(bytes, 1, None, false) == 5);
    reveal_with_fuel(xml_dates::name_end, 5);
    assert(xml_dates::name_end(bytes, 1, 5) == 5);
    reveal_with_fuel(xml_dates::local_start, 5);
    assert(xml_dates::local_start(bytes, 1, 1, 5) == 1);
    assert(bytes.subrange(1, 5) =~= xml_dates::date_name());
    assert(bytes.subrange(6, 6int + text.len()) =~= text);
    assert(bytes[6int + text.len()] == ('<' as u8));
    assert(bytes[6int + text.len() + 1] == ('/' as u8));
    lemma_content_is_read(bytes, 6, text, 0);
    assert(text.take(0) =~= Seq::<u8>::empty());
    assert(xml_dates::binary_mark()[0] != bytes[0]);
}

} // verus!
