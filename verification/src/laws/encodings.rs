//! What holds of the encodings that the library relies on.

use vstd::prelude::*;
use vstd::utf8::encode_utf8;

use crate::bindings::{
    base64_text, form_bytes, is_white_space, six_bits, trimmed, with_query_pair,
};

verus! {

/// The character of the standard Base64 alphabet for a six-bit value.
pub open spec fn stands_for(c: char, value: int) -> bool {
    &&& 0 <= value < 26 ==> c as int == 'A' as int + value
    &&& 26 <= value < 52 ==> c as int == 'a' as int + (value - 26)
    &&& 52 <= value < 62 ==> c as int == '0' as int + (value - 52)
    &&& value == 62 ==> c == '+'
    &&& value == 63 ==> c == '/'
}

/// Whether four six-bit values are those of the three bytes of the same place, a
/// byte past the end taken as zero.
pub open spec fn holds_bytes(values: Seq<int>, bytes: Seq<u8>, place: int) -> bool {
    let (at, from) = (4 * place, 3 * place);
    let a = bytes[from] as int;
    let b = if from + 1 < bytes.len() { bytes[from + 1] as int } else { 0 };
    let c = if from + 2 < bytes.len() { bytes[from + 2] as int } else { 0 };
    ((values[at] * 64 + values[at + 1]) * 64 + values[at + 2]) * 64 + values[at + 3] == (a * 256
        + b) * 256 + c
}

/// Whether a text is that of the six-bit values, which hold the bytes: a character
/// of the standard alphabet for each that starts within the bytes, and `=` for the
/// others.
pub open spec fn encodes(text: Seq<char>, values: Seq<int>, bytes: Seq<u8>) -> bool {
    &&& values.len() == text.len()
    &&& forall|i: int| 0 <= i < values.len() ==> 0 <= #[trigger] values[i] < 64
    &&& forall|i: int|
        0 <= i < values.len() && 6 * i < 8 * bytes.len() ==> stands_for(
            text[i],
            #[trigger] values[i],
        )
    &&& forall|i: int|
        0 <= i < values.len() && 6 * i >= 8 * bytes.len() ==> (#[trigger] text[i]) == '='
    &&& forall|k: int|
        0 <= k && 3 * k < bytes.len() ==> #[trigger] holds_bytes(values, bytes, k)
}

/// Base64 has four characters for each three bytes, or fewer at the end; they are
/// those of the standard alphabet for the very bits of the bytes, and `=` where no
/// bit is left.
pub proof fn base64_holds_the_bytes(bytes: Seq<u8>)
    ensures
        base64_text(bytes).len() == 4 * ((bytes.len() + 2) / 3),
        exists|values: Seq<int>| encodes(base64_text(bytes), values, bytes),
{
    let text = base64_text(bytes);
    let values = Seq::new(text.len(), |i: int| six_bits(bytes, i));
    assert forall|k: int| 0 <= k && 3 * k < bytes.len() implies #[trigger] holds_bytes(
        values,
        bytes,
        k,
    ) by {
        assert(4 * k + 3 < text.len());
        assert((4 * k) / 4 == k && (4 * k) % 4 == 0);
        assert((4 * k + 1) / 4 == k && (4 * k + 1) % 4 == 1);
        assert((4 * k + 2) / 4 == k && (4 * k + 2) % 4 == 2);
        assert((4 * k + 3) / 4 == k && (4 * k + 3) % 4 == 3);
    }
    assert(encodes(text, values, bytes));
}

/// Form encoding leaves letters, digits and `*-._` as they are, makes a space a
/// plus, and writes every other byte as its two hexadecimal digits behind a percent
/// sign; bytes are written one after the other.
pub proof fn form_bytes_are_written_one_by_one(bytes: Seq<u8>, b: u8)
    ensures
        form_bytes(Seq::empty()) == Seq::<char>::empty(),
        ({
            let plain = (48 <= b <= 57) || (65 <= b <= 90) || (97 <= b <= 122) || b == 42 || b == 45
                || b == 46 || b == 95;
            let text = form_bytes(bytes.push(b));
            let before = form_bytes(bytes);
            let n = before.len() as int;
            &&& text.take(n) == before
            &&& plain ==> text.len() == n + 1 && text[n] as int == b as int
            &&& b == 32 ==> text.len() == n + 1 && text[n] == '+'
            &&& !plain && b != 32 ==> {
                &&& text.len() == n + 3
                &&& text[n] == '%'
                &&& is_hex(text[n + 1], b as int / 16)
                &&& is_hex(text[n + 2], b as int % 16)
            }
        }),
{
    let text = form_bytes(bytes.push(b));
    assert(bytes.push(b).drop_last() =~= bytes);
    assert(text.take(form_bytes(bytes).len() as int) =~= form_bytes(bytes));
}

/// Whether a character is the uppercase hexadecimal digit of a value.
pub open spec fn is_hex(c: char, value: int) -> bool {
    &&& 0 <= value < 16
    &&& value < 10 ==> c as int == '0' as int + value
    &&& value >= 10 ==> c as int == 'A' as int + (value - 10)
}

/// A pair stands at the end of the query: behind a question mark where there is no
/// query yet, behind an ampersand where there is one; the fragment stays at the
/// end.
pub proof fn pair_stands_at_the_end_of_the_query(
    path: Seq<char>,
    query: Seq<char>,
    fragment: Seq<char>,
    name: Seq<char>,
    value: Seq<char>,
)
    requires
        !path.contains('?'),
        !path.contains('#'),
        !query.contains('#'),
        query.len() > 0,
    ensures
        ({
            let pair = form_bytes(encode_utf8(name)) + seq!['='] + form_bytes(encode_utf8(value));
            let behind = seq!['#'] + fragment;
            &&& with_query_pair(path, name, value) == path + seq!['?'] + pair
            &&& with_query_pair(path + behind, name, value) == path + seq!['?'] + pair + behind
            &&& with_query_pair(path + seq!['?'] + query, name, value) == path + seq!['?'] + query
                + seq!['&'] + pair
            &&& with_query_pair(path + seq!['?'] + query + behind, name, value) == path + seq!['?']
                + query + seq!['&'] + pair + behind
        }),
{
    let none = Seq::<char>::empty();
    let behind = seq!['#'] + fragment;
    pair_without_a_query(path, none, name, value);
    pair_without_a_query(path, behind, name, value);
    pair_behind_a_query(path, query, none, name, value);
    pair_behind_a_query(path, query, behind, name, value);
    let pair = form_bytes(encode_utf8(name)) + seq!['='] + form_bytes(encode_utf8(value));
    assert(path + none =~= path);
    assert(path + seq!['?'] + pair + none =~= path + seq!['?'] + pair);
    assert(path + seq!['?'] + query + none =~= path + seq!['?'] + query);
    assert(path + seq!['?'] + query + seq!['&'] + pair + none =~= path + seq!['?'] + query + seq![
        '&',
    ] + pair);
}

/// Where the fragment of a URL starts.
proof fn fragment_starts(head: Seq<char>, behind: Seq<char>)
    requires
        !head.contains('#'),
        behind.len() > 0 ==> behind[0] == '#',
    ensures
        ({
            let url = head + behind;
            let end = if url.contains('#') {
                url.index_of_first('#').unwrap()
            } else {
                url.len() as int
            };
            end == head.len() && url.take(end) == head && url.skip(end) == behind
        }),
{
    let url = head + behind;
    let n = head.len() as int;
    assert(url.take(n) =~= head);
    assert(url.skip(n) =~= behind);
    url.index_of_first_ensures('#');
    assert forall|i: int| 0 <= i < n implies url[i] != '#' by {
        assert(url[i] == head[i]);
        assert(head.contains(head[i]));
    }
    if behind.len() > 0 {
        assert(url[n] == '#');
    } else {
        assert(!url.contains('#'));
    }
}

proof fn pair_without_a_query(
    path: Seq<char>,
    behind: Seq<char>,
    name: Seq<char>,
    value: Seq<char>,
)
    requires
        !path.contains('?'),
        !path.contains('#'),
        behind.len() > 0 ==> behind[0] == '#',
    ensures
        with_query_pair(path + behind, name, value) == path + seq!['?'] + (form_bytes(
            encode_utf8(name),
        ) + seq!['='] + form_bytes(encode_utf8(value))) + behind,
{
    fragment_starts(path, behind);
    assert(with_query_pair(path + behind, name, value) =~= path + seq!['?'] + (form_bytes(
        encode_utf8(name),
    ) + seq!['='] + form_bytes(encode_utf8(value))) + behind);
}

proof fn pair_behind_a_query(
    path: Seq<char>,
    query: Seq<char>,
    behind: Seq<char>,
    name: Seq<char>,
    value: Seq<char>,
)
    requires
        !path.contains('?'),
        !path.contains('#'),
        !query.contains('#'),
        query.len() > 0,
        behind.len() > 0 ==> behind[0] == '#',
    ensures
        with_query_pair(path + seq!['?'] + query + behind, name, value) == path + seq!['?'] + query
            + seq!['&'] + (form_bytes(encode_utf8(name)) + seq!['='] + form_bytes(
            encode_utf8(value),
        )) + behind,
{
    let head = path + seq!['?'] + query;
    let n = path.len() as int;
    assert(!head.contains('#')) by {
        if head.contains('#') {
            let i = choose|i: int| 0 <= i < head.len() && head[i] == '#';
            if i < n {
                assert(path[i] == '#');
                assert(path.contains(path[i]));
            } else if i > n {
                assert(query[i - n - 1] == '#');
                assert(query.contains(query[i - n - 1]));
            }
        }
    }
    fragment_starts(head, behind);
    assert(head[n] == '?');
    assert(head.contains('?'));
    head.index_of_first_ensures('?');
    assert(head.index_of_first('?') == Some(n)) by {
        let m = head.index_of_first('?').unwrap();
        if m < n {
            assert(path[m] == '?');
            assert(path.contains(path[m]));
        }
    }
    assert(with_query_pair(head + behind, name, value) =~= head + seq!['&'] + (form_bytes(
        encode_utf8(name),
    ) + seq!['='] + form_bytes(encode_utf8(value))) + behind);
}

/// White space is the space, the tab, the line ends of ASCII, and the spaces and
/// separators of Unicode; letters, digits and other signs are none.
pub proof fn white_space_is_known(c: char)
    ensures
        is_white_space(c) <==> c == ' ' || ('\t' <= c <= '\r') || c == '\u{85}' || c == '\u{a0}'
            || c == '\u{1680}' || ('\u{2000}' <= c <= '\u{200a}') || c == '\u{2028}' || c
            == '\u{2029}' || c == '\u{202f}' || c == '\u{205f}' || c == '\u{3000}',
{
}

/// A trimmed text is what is left of a text without the white space at its ends:
/// nothing else is taken away, and no white space is left there.
pub proof fn trimmed_ends_are_white_space(text: Seq<char>) -> (range: (int, int))
    ensures
        0 <= range.0 <= range.1 <= text.len(),
        trimmed(text) == text.subrange(range.0, range.1),
        forall|i: int| 0 <= i < range.0 ==> is_white_space(#[trigger] text[i]),
        forall|i: int| range.1 <= i < text.len() ==> is_white_space(#[trigger] text[i]),
        trimmed(text).len() > 0 ==> !is_white_space(trimmed(text).first()) && !is_white_space(
            trimmed(text).last(),
        ),
    decreases text.len(),
{
    if text.len() > 0 && is_white_space(text.first()) {
        let rest = text.drop_first();
        let (from, to) = trimmed_ends_are_white_space(rest);
        assert(rest.subrange(from, to) =~= text.subrange(from + 1, to + 1));
        assert forall|i: int| 0 <= i < from + 1 implies is_white_space(#[trigger] text[i]) by {
            if i > 0 {
                assert(text[i] == rest[i - 1]);
            }
        }
        assert forall|i: int| to + 1 <= i < text.len() implies is_white_space(
            #[trigger] text[i],
        ) by {
            assert(text[i] == rest[i - 1]);
        }
        (from + 1, to + 1)
    } else if text.len() > 0 && is_white_space(text.last()) {
        let rest = text.drop_last();
        let (from, to) = trimmed_ends_are_white_space(rest);
        assert(rest.subrange(from, to) =~= text.subrange(from, to));
        assert forall|i: int| 0 <= i < from implies is_white_space(#[trigger] text[i]) by {
            assert(text[i] == rest[i]);
        }
        assert forall|i: int| to <= i < text.len() implies is_white_space(#[trigger] text[i]) by {
            if i < rest.len() {
                assert(text[i] == rest[i]);
            }
        }
        (from, to)
    } else {
        assert(text.subrange(0, text.len() as int) =~= text);
        (0, text.len() as int)
    }
}

} // verus!
