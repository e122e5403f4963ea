//! What holds of texts: numbers, prefixes, and headers.

use vstd::prelude::*;

use crate::gitea::is_header_text;
use crate::text::{decimal, first_chars, without_dot_slash};

verus! {

/// A number of one digit is written as that digit; another digit behind a number
/// is written behind it.
pub proof fn numbers_are_written_digit_by_digit(n: nat, digit: nat)
    requires
        digit < 10,
    ensures
        decimal(digit) == seq![('0' as nat + digit) as char],
        n > 0 ==> decimal(10 * n + digit) == decimal(n).push(('0' as nat + digit) as char),
{
    assert((10 * n + digit) / 10 == n);
    assert((10 * n + digit) % 10 == digit);
}

/// The first characters of a text are the very characters it starts with, as many
/// as asked for or as there are.
pub proof fn first_chars_are_the_start(text: Seq<char>, n: nat)
    ensures
        first_chars(text, n).len() == if text.len() < n { text.len() } else { n },
        forall|i: int|
            0 <= i < first_chars(text, n).len() ==> (#[trigger] first_chars(text, n)[i]) == text[i],
{
}

/// One leading `./` is taken off a path, and nothing else is.
pub proof fn leading_dot_slash_is_taken_off(path: Seq<char>)
    ensures
        without_dot_slash("./"@ + path) == path,
        !"./"@.is_prefix_of(path) ==> without_dot_slash(path) == path,
{
    reveal_strlit("./");
    assert(("./"@ + path).skip(2) =~= path);
    if path.len() >= 2 && path[0] == '.' && path[1] == '/' {
        assert("./"@ =~= path.subrange(0, 2));
    }
}

/// A text can stand in a header exactly where each of its characters is a tab or
/// no control character of ASCII.
pub proof fn headers_have_no_control_characters(text: Seq<char>)
    ensures
        is_header_text(text) <==> forall|i: int|
            0 <= i < text.len() ==> (#[trigger] text[i]) as int == 9 || (text[i] as int >= 32
                && text[i] as int != 127),
{
}

} // verus!
