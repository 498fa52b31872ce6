//! Small operations on strings: comparison, prefixes, and numbers written
//! out in a radix.

use vstd::prelude::*;
use vstd::string::StrSliceExecFns;
use vstd::string::StringExecFns;

verus! {

/// The character that stands for the digit `d`, lower case above nine.
pub open spec fn digit_char(d: nat) -> char {
    if d == 0 {
        '0'
    } else if d == 1 {
        '1'
    } else if d == 2 {
        '2'
    } else if d == 3 {
        '3'
    } else if d == 4 {
        '4'
    } else if d == 5 {
        '5'
    } else if d == 6 {
        '6'
    } else if d == 7 {
        '7'
    } else if d == 8 {
        '8'
    } else if d == 9 {
        '9'
    } else if d == 10 {
        'a'
    } else if d == 11 {
        'b'
    } else if d == 12 {
        'c'
    } else if d == 13 {
        'd'
    } else if d == 14 {
        'e'
    } else {
        'f'
    }
}

/// The digits of `n` in the given radix, most significant first, without
/// leading zeros; a single zero for zero.
pub open spec fn radix_text(n: nat, radix: nat) -> Seq<char>
    decreases n,
    via radix_text_shrinks
{
    if radix < 2 || n < radix {
        seq![digit_char(n)]
    } else {
        radix_text(n / radix, radix).push(digit_char(n % radix))
    }
}

#[via_fn]
proof fn radix_text_shrinks(n: nat, radix: nat) {
    if radix >= 2 && n >= radix {
        assert(n / radix < n) by (nonlinear_arith)
            requires
                radix >= 2,
                n >= radix,
        ;
    }
}

/// `n` as written in decimal.
pub open spec fn decimal_text(n: nat) -> Seq<char> {
    radix_text(n, 10)
}

/// `n` as written in lower-case hexadecimal.
pub open spec fn hex_text(n: nat) -> Seq<char> {
    radix_text(n, 16)
}

/// Whether `c` is white space, as Unicode's property of that name has it.
pub open spec fn is_white_space(c: char) -> bool {
    let code = c as u32;
    ||| 0x9 <= code <= 0xd
    ||| code == 0x20
    ||| code == 0x85
    ||| code == 0xa0
    ||| code == 0x1680
    ||| 0x2000 <= code <= 0x200a
    ||| code == 0x2028
    ||| code == 0x2029
    ||| code == 0x202f
    ||| code == 0x205f
    ||| code == 0x3000
}

/// `text` without the white space at its start.
pub open spec fn trimmed_start(text: Seq<char>) -> Seq<char>
    decreases text.len(),
{
    if text.len() > 0 && is_white_space(text[0]) {
        trimmed_start(text.skip(1))
    } else {
        text
    }
}

/// `text` without the white space at its end.
pub open spec fn trimmed_end(text: Seq<char>) -> Seq<char>
    decreases text.len(),
{
    if text.len() > 0 && is_white_space(text.last()) {
        trimmed_end(text.drop_last())
    } else {
        text
    }
}

/// `text` without the white space at its start and at its end.
pub open spec fn trimmed(text: Seq<char>) -> Seq<char> {
    trimmed_end(trimmed_start(text))
}

/// `text` with every occurrence of `from` replaced by `to`, the occurrences
/// taken from the left and not overlapping; `text` itself where `from` is
/// empty.
pub open spec fn replaced(text: Seq<char>, from: Seq<char>, to: Seq<char>) -> Seq<char>
    decreases text.len(),
{
    if from.len() == 0 || text.len() < from.len() {
        text
    } else if text.subrange(0, from.len() as int) == from {
        to + replaced(text.skip(from.len() as int), from, to)
    } else {
        seq![text[0]] + replaced(text.skip(1), from, to)
    }
}

/// `str::trim`: the text without leading and trailing white space.
#[verifier::external_body]
pub(crate) fn trim(text: &str) -> (out: String)
    ensures
        out@ == trimmed(text@),
{
    text.trim().to_string()
}

/// `str::replace` with a pattern that is not empty: every match of `from`,
/// found from the left without overlap, gives way to `to`.
#[verifier::external_body]
pub(crate) fn replace(text: &str, from: &str, to: &str) -> (out: String)
    requires
        from@.len() > 0,
    ensures
        out@ == replaced(text@, from@, to@),
{
    text.replace(from, to)
}

/// Whether two string slices hold the same characters.
pub fn same_text(a: &str, b: &str) -> (same: bool)
    ensures
        same == (a@ == b@),
{
    let left = String::from_str(a);
    let right = String::from_str(b);
    left == right
}

/// Whether `text` begins with `prefix`.
pub fn starts_with(text: &str, prefix: &str) -> (found: bool)
    ensures
        found == prefix@.is_prefix_of(text@),
{
    let n = prefix.unicode_len();
    if text.unicode_len() < n {
        false
    } else {
        let head = text.substring_char(0, n);
        assert(prefix@.is_prefix_of(text@) <==> head@ =~= prefix@);
        same_text(head, prefix)
    }
}

/// The text of one digit below sixteen.
fn digit_text(d: u64) -> (text: &'static str)
    requires
        d < 16,
    ensures
        text@ == seq![digit_char(d as nat)],
{
    proof {
        reveal_strlit("0");
        reveal_strlit("1");
        reveal_strlit("2");
        reveal_strlit("3");
        reveal_strlit("4");
        reveal_strlit("5");
        reveal_strlit("6");
        reveal_strlit("7");
        reveal_strlit("8");
        reveal_strlit("9");
        reveal_strlit("a");
        reveal_strlit("b");
        reveal_strlit("c");
        reveal_strlit("d");
        reveal_strlit("e");
        reveal_strlit("f");
    }
    let text = if d == 0 {
        "0"
    } else if d == 1 {
        "1"
    } else if d == 2 {
        "2"
    } else if d == 3 {
        "3"
    } else if d == 4 {
        "4"
    } else if d == 5 {
        "5"
    } else if d == 6 {
        "6"
    } else if d == 7 {
        "7"
    } else if d == 8 {
        "8"
    } else if d == 9 {
        "9"
    } else if d == 10 {
        "a"
    } else if d == 11 {
        "b"
    } else if d == 12 {
        "c"
    } else if d == 13 {
        "d"
    } else if d == 14 {
        "e"
    } else {
        "f"
    };
    assert(text@ =~= seq![digit_char(d as nat)]);
    text
}

/// Appends `n`, written in a radix from two to sixteen, to `out`.
pub fn push_radix(out: &mut String, n: u64, radix: u64)
    requires
        2 <= radix <= 16,
    ensures
        final(out)@ == old(out)@ + radix_text(n as nat, radix as nat),
    decreases n,
{
    if n >= radix {
        assert(n / radix < n) by (nonlinear_arith)
            requires
                radix >= 2,
                n >= radix,
        ;
        push_radix(out, n / radix, radix);
    }
    assert(n % radix < radix && (n < radix ==> n % radix == n)) by (nonlinear_arith)
        requires
            radix >= 2,
    ;
    let ghost high = out@;
    out.append(digit_text(n % radix));
    proof {
        let digit = digit_char((n % radix) as nat);
        if n >= radix {
            assert(radix_text(n as nat, radix as nat) == radix_text(
                (n / radix) as nat,
                radix as nat,
            ).push(digit));
            assert(out@ =~= high + seq![digit]);
        }
    }
    assert(out@ =~= old(out)@ + radix_text(n as nat, radix as nat));
}

} // verus!
