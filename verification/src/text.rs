//! Small operations on strings.

use vstd::prelude::*;

verus! {

/// The lower-case form of `text` as the standard library computes it.
pub uninterp spec fn lowercase_of(text: Seq<char>) -> Seq<char>;

/// `text` without the white space at its ends, as the standard library
/// removes it.
pub uninterp spec fn trimmed_of(text: Seq<char>) -> Seq<char>;

/// Whether `text` starts with `prefix`.
pub open spec fn starts_with(text: Seq<char>, prefix: Seq<char>) -> bool {
    prefix.len() <= text.len() && text.subrange(0, prefix.len() as int) == prefix
}

/// `text` with every space replaced by a hyphen.
pub open spec fn hyphenated(text: Seq<char>) -> Seq<char> {
    text.map_values(
        |c: char|
            if c == ' ' {
                '-'
            } else {
                c
            },
    )
}

/// The character for a decimal digit.
pub open spec fn digit_char(digit: nat) -> char
    recommends
        digit < 10,
{
    if digit == 0 {
        '0'
    } else if digit == 1 {
        '1'
    } else if digit == 2 {
        '2'
    } else if digit == 3 {
        '3'
    } else if digit == 4 {
        '4'
    } else if digit == 5 {
        '5'
    } else if digit == 6 {
        '6'
    } else if digit == 7 {
        '7'
    } else if digit == 8 {
        '8'
    } else {
        '9'
    }
}

/// The decimal digits of `number`, most significant first, without leading
/// zeros.
pub open spec fn decimal_of(number: nat) -> Seq<char>
    decreases number,
{
    if number < 10 {
        seq![digit_char(number)]
    } else {
        decimal_of(number / 10).push(digit_char(number % 10))
    }
}

/// Calls `str::to_lowercase`. Trusted: the result is the one named by
/// [`lowercase_of`], which says only that it depends on the text alone.
#[verifier::external_body]
pub(crate) fn lowercase(text: &str) -> (lower: String)
    ensures
        lower@ == lowercase_of(text@),
{
    text.to_lowercase()
}

/// Calls `str::trim`. Trusted: the result is the one named by
/// [`trimmed_of`], which says only that it depends on the text alone.
#[verifier::external_body]
pub(crate) fn trimmed(text: &str) -> (inner: &str)
    ensures
        inner@ == trimmed_of(text@),
{
    text.trim()
}

/// Whether `text` starts with `prefix`.
pub fn has_prefix(text: &str, prefix: &str) -> (yes: bool)
    ensures
        yes == starts_with(text@, prefix@),
{
    let len: usize = prefix.unicode_len();
    if len > text.unicode_len() {
        return false;
    }
    let mut same: usize = 0;
    while same < len
        invariant
            same <= len,
            len == prefix@.len(),
            len <= text@.len(),
            text@.subrange(0, same as int) == prefix@.subrange(0, same as int),
        decreases len - same,
    {
        if text.get_char(same) != prefix.get_char(same) {
            assert(text@.subrange(0, len as int)[same as int] != prefix@[same as int]);
            return false;
        }
        assert(text@.subrange(0, same + 1) =~= text@.subrange(0, same as int).push(
            text@[same as int],
        ));
        assert(prefix@.subrange(0, same + 1) =~= prefix@.subrange(0, same as int).push(
            prefix@[same as int],
        ));
        same += 1;
    }
    assert(prefix@.subrange(0, len as int) =~= prefix@);
    true
}

/// `text` without its first `count` characters.
pub fn skip_chars(text: &str, count: usize) -> (rest: &str)
    requires
        count <= text@.len(),
    ensures
        rest@ == text@.subrange(count as int, text@.len() as int),
{
    text.substring_char(count, text.unicode_len())
}

/// Replaces every space in `text` by a hyphen.
pub fn hyphenate(text: &str) -> (out: String)
    ensures
        out@ == hyphenated(text@),
{
    let len: usize = text.unicode_len();
    let mut out = String::new();
    let mut done: usize = 0;
    assert(hyphenated(text@.subrange(0, 0)) =~= Seq::<char>::empty());
    while done < len
        invariant
            done <= len,
            len == text@.len(),
            out@ == hyphenated(text@.subrange(0, done as int)),
        decreases len - done,
    {
        let c = text.get_char(done);
        let ghost before = out@;
        if c == ' ' {
            out.append("-");
            proof {
                reveal_strlit("-");
                assert(out@ =~= before.push('-'));
            }
        } else {
            out.append(text.substring_char(done, done + 1));
            assert(out@ =~= before.push(c));
        }
        assert(text@.subrange(0, done + 1) =~= text@.subrange(0, done as int).push(c));
        assert(out@ =~= hyphenated(text@.subrange(0, done + 1)));
        done += 1;
    }
    assert(text@.subrange(0, len as int) =~= text@);
    out
}

/// The decimal form of `number`: its digits, after a minus sign where it is
/// negative.
pub open spec fn signed_decimal_of(number: int) -> Seq<char> {
    if number < 0 {
        seq!['-'] + decimal_of((-number) as nat)
    } else {
        decimal_of(number as nat)
    }
}

/// The text of one decimal digit.
fn digit_text(digit: u64) -> (text: &'static str)
    requires
        digit < 10,
    ensures
        text@ == seq![digit_char(digit as nat)],
{
    proof {
        reveal_strlit("0");
        reveal_strlit("1");
        reveal_strlit("2");
        reveal_strlit("3");
        reveal_strlit("4");
        reveal_strlit("5");
        reveal_strlit("6");
        reveal_strlit("7");
        reveal_strlit("8");
        reveal_strlit("9");
    }
    let text = if digit == 0 {
        "0"
    } else if digit == 1 {
        "1"
    } else if digit == 2 {
        "2"
    } else if digit == 3 {
        "3"
    } else if digit == 4 {
        "4"
    } else if digit == 5 {
        "5"
    } else if digit == 6 {
        "6"
    } else if digit == 7 {
        "7"
    } else if digit == 8 {
        "8"
    } else {
        "9"
    };
    assert(text@ =~= seq![digit_char(digit as nat)]);
    text
}

/// Writes `number` in decimal.
pub fn decimal(number: u64) -> (text: String)
    ensures
        text@ == decimal_of(number as nat),
    decreases number,
{
    if number < 10 {
        String::from_str(digit_text(number))
    } else {
        let mut text = decimal(number / 10);
        let ghost before = text@;
        text.append(digit_text(number % 10));
        assert(text@ =~= before.push(digit_char((number % 10) as nat)));
        text
    }
}

/// Writes `number` in decimal, with a minus sign where it is negative.
pub fn signed_decimal(number: i64) -> (text: String)
    ensures
        text@ == signed_decimal_of(number as int),
{
    if number < 0 {
        let magnitude: u64 = if number == i64::MIN {
            9223372036854775808u64
        } else {
            (-number) as u64
        };
        proof {
            reveal_strlit("-");
            assert("-"@ =~= seq!['-']);
        }
        String::from_str("-").concat(decimal(magnitude).as_str())
    } else {
        decimal(number as u64)
    }
}

} // verus!
