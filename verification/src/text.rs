//! Character-level helpers shared by the SQL generators: quote escaping,
//! decimal rendering of placeholder indices, joining, lower-casing and
//! whitespace trimming.

use vstd::prelude::*;
use vstd::string::*;

verus! {

broadcast use vstd::string::group_string_axioms;

/// Number of occurrences of `c` in `s`.
pub open spec fn count_char(s: Seq<char>, c: char) -> nat
    decreases s.len(),
{
    if s.len() == 0 {
        0
    } else {
        (if s.last() == c {
            1nat
        } else {
            0nat
        }) + count_char(s.drop_last(), c)
    }
}

/// `s` with every single-quote character doubled and every other character
/// kept as it is.
pub open spec fn escape_sq(s: Seq<char>) -> Seq<char>
    decreases s.len(),
{
    if s.len() == 0 {
        Seq::empty()
    } else {
        escape_sq(s.drop_last()) + (if s.last() == '\'' {
            seq!['\'', '\'']
        } else {
            seq![s.last()]
        })
    }
}

/// The parts joined with `sep` between neighbours: empty for no parts,
/// otherwise the parts in order, one separator between each pair.
pub open spec fn join(parts: Seq<Seq<char>>, sep: Seq<char>) -> Seq<char>
    decreases parts.len(),
{
    if parts.len() == 0 {
        Seq::empty()
    } else if parts.len() == 1 {
        parts[0]
    } else {
        join(parts.drop_last(), sep) + sep + parts.last()
    }
}

/// Sum of the occurrence counts of `c` over all the parts.
pub open spec fn sum_count_char(parts: Seq<Seq<char>>, c: char) -> nat
    decreases parts.len(),
{
    if parts.len() == 0 {
        0
    } else {
        sum_count_char(parts.drop_last(), c) + count_char(parts.last(), c)
    }
}

/// Counting occurrences distributes over concatenation.
pub proof fn lemma_count_char_add(a: Seq<char>, b: Seq<char>, c: char)
    ensures
        count_char(a + b, c) == count_char(a, c) + count_char(b, c),
    decreases b.len(),
{
    if b.len() == 0 {
        assert(a + b =~= a);
    } else {
        assert((a + b).drop_last() =~= a + b.drop_last());
        assert((a + b).last() == b.last());
        lemma_count_char_add(a, b.drop_last(), c);
    }
}

/// In a join, `c` occurs as often as in all the parts together, plus once
/// per separator occurrence between each neighbouring pair.
pub proof fn lemma_count_char_join(parts: Seq<Seq<char>>, sep: Seq<char>, c: char)
    requires
        parts.len() > 0,
    ensures
        count_char(join(parts, sep), c) == sum_count_char(parts, c) + (parts.len() - 1) * count_char(
            sep,
            c,
        ),
    decreases parts.len(),
{
    if parts.len() == 1 {
        assert(sum_count_char(parts.drop_last(), c) == 0);
    } else {
        lemma_count_char_join(parts.drop_last(), sep, c);
        lemma_count_char_add(join(parts.drop_last(), sep), sep, c);
        lemma_count_char_add(join(parts.drop_last(), sep) + sep, parts.last(), c);
        assert((parts.len() - 2) * count_char(sep, c) + count_char(sep, c) == (parts.len() - 1)
            * count_char(sep, c)) by (nonlinear_arith);
    }
}

/// Escapes single quotes in `s` by doubling them, as SQL string literals
/// require.
pub fn escape_quotes(s: &str) -> (r: String)
    ensures
        r@ == escape_sq(s@),
{
    let n = s.unicode_len();
    let mut out = String::new();
    let mut i: usize = 0;
    while i < n
        invariant
            n == s@.len(),
            i <= n,
            out@ == escape_sq(s@.take(i as int)),
        decreases n - i,
    {
        let c = s.get_char(i);
        if c == '\'' {
            proof {
                reveal_strlit("''");
                assert("''"@ =~= seq!['\'', '\'']);
            }
            out.append("''");
        } else {
            let piece = s.substring_char(i, i + 1);
            assert(piece@ =~= seq![s@[i as int]]);
            out.append(piece);
        }
        proof {
            assert(s@.take(i as int + 1).drop_last() =~= s@.take(i as int));
            assert(s@.take(i as int + 1).last() == s@[i as int]);
        }
        i = i + 1;
    }
    proof {
        assert(s@.take(n as int) =~= s@);
    }
    out
}

/// The decimal digit character for `d` (`d` below ten).
pub open spec fn dec_digit(d: nat) -> char {
    if d == 0 {
        '0'
    } else if d == 1 {
        '1'
    } else if d == 2 {
        '2'
    } else if d == 3 {
        '3'
    } else if d == 4 {
        '4'
    } else if d == 5 {
        '5'
    } else if d == 6 {
        '6'
    } else if d == 7 {
        '7'
    } else if d == 8 {
        '8'
    } else {
        '9'
    }
}

/// The usual decimal rendering of `n`, most significant digit first, no
/// leading zeroes (a single `0` for zero).
pub open spec fn dec_rep(n: nat) -> Seq<char>
    decreases n,
{
    if n < 10 {
        seq![dec_digit(n)]
    } else {
        dec_rep(n / 10) + seq![dec_digit(n % 10)]
    }
}

/// The one-character string for the digit `d`.
fn digit_str(d: u64) -> (r: &'static str)
    requires
        d < 10,
    ensures
        r@ == seq![dec_digit(d as nat)],
{
    proof {
        reveal_strlit("0");
        reveal_strlit("1");
        reveal_strlit("2");
        reveal_strlit("3");
        reveal_strlit("4");
        reveal_strlit("5");
        reveal_strlit("6");
        reveal_strlit("7");
        reveal_strlit("8");
        reveal_strlit("9");
        assert("0"@ =~= seq!['0']);
        assert("1"@ =~= seq!['1']);
        assert("2"@ =~= seq!['2']);
        assert("3"@ =~= seq!['3']);
        assert("4"@ =~= seq!['4']);
        assert("5"@ =~= seq!['5']);
        assert("6"@ =~= seq!['6']);
        assert("7"@ =~= seq!['7']);
        assert("8"@ =~= seq!['8']);
        assert("9"@ =~= seq!['9']);
    }
    if d == 0 {
        "0"
    } else if d == 1 {
        "1"
    } else if d == 2 {
        "2"
    } else if d == 3 {
        "3"
    } else if d == 4 {
        "4"
    } else if d == 5 {
        "5"
    } else if d == 6 {
        "6"
    } else if d == 7 {
        "7"
    } else if d == 8 {
        "8"
    } else {
        "9"
    }
}

/// Appends the decimal rendering of `n` to `out`.
pub fn append_dec(out: &mut String, n: u64)
    ensures
        final (out)@ == old(out)@ + dec_rep(n as nat),
    decreases n,
{
    if n >= 10 {
        append_dec(out, n / 10);
        let d = n % 10;
        let ds = digit_str(d);
        out.append(ds);
        proof {
            assert(dec_rep(n as nat) == dec_rep(n as nat / 10) + seq![dec_digit(n as nat % 10)]);
        }
    } else {
        let ds = digit_str(n);
        out.append(ds);
    }
}

/// The lower-cased form of a character sequence, exactly as
/// `str::to_lowercase` computes it: a function of the characters alone.
pub uninterp spec fn lower_of(s: Seq<char>) -> Seq<char>;

/// Lower-cases `s`. Relies on `str::to_lowercase`: its result depends on the
/// characters alone (no locale), and an empty string stays empty.
#[verifier::external_body]
pub(crate) fn to_lower(s: &str) -> (r: String)
    ensures
        r@ == lower_of(s@),
        s@.len() == 0 ==> r@.len() == 0,
{
    s.to_lowercase()
}

/// True of the characters trimming removes: the Unicode `White_Space` set,
/// the one `str::trim` goes by.
pub open spec fn is_space(c: char) -> bool {
    c == '\t' || c == '\n' || c == '\u{000B}' || c == '\u{000C}' || c == '\r' || c == ' '
        || c == '\u{0085}' || c == '\u{00A0}' || c == '\u{1680}' || ('\u{2000}' <= c && c
        <= '\u{200A}') || c == '\u{2028}' || c == '\u{2029}' || c == '\u{202F}' || c
        == '\u{205F}' || c == '\u{3000}'
}

/// `s` without its leading blank characters.
pub open spec fn trim_left(s: Seq<char>) -> Seq<char>
    decreases s.len(),
{
    if s.len() > 0 && is_space(s.first()) {
        trim_left(s.drop_first())
    } else {
        s
    }
}

/// `s` without its trailing blank characters.
pub open spec fn trim_right(s: Seq<char>) -> Seq<char>
    decreases s.len(),
{
    if s.len() > 0 && is_space(s.last()) {
        trim_right(s.drop_last())
    } else {
        s
    }
}

/// `s` without leading and trailing blank characters.
pub open spec fn trim_seq(s: Seq<char>) -> Seq<char> {
    trim_right(trim_left(s))
}

/// Whether `c` is a blank character.
fn is_space_char(c: char) -> (r: bool)
    ensures
        r == is_space(c),
{
    c == '\t' || c == '\n' || c == '\u{000B}' || c == '\u{000C}' || c == '\r' || c == ' '
        || c == '\u{0085}' || c == '\u{00A0}' || c == '\u{1680}' || ('\u{2000}' <= c && c
        <= '\u{200A}') || c == '\u{2028}' || c == '\u{2029}' || c == '\u{202F}' || c
        == '\u{205F}' || c == '\u{3000}'
}

/// Removes leading and trailing blank characters from `s`.
pub fn trim(s: &str) -> (r: &str)
    ensures
        r@ == trim_seq(s@),
{
    let n = s.unicode_len();
    proof {
        assert(s@.subrange(0, n as int) =~= s@);
    }
    let mut start: usize = 0;
    while start < n && is_space_char(s.get_char(start))
        invariant
            n == s@.len(),
            start <= n,
            trim_left(s@) == trim_left(s@.subrange(start as int, n as int)),
        decreases n - start,
    {
        proof {
            assert(s@.subrange(start as int, n as int).drop_first() =~= s@.subrange(
                start as int + 1,
                n as int,
            ));
        }
        start = start + 1;
    }
    proof {
        assert(s@.subrange(0, n as int) =~= s@);
        assert(trim_left(s@) == s@.subrange(start as int, n as int));
    }
    let mut end: usize = n;
    while end > start && is_space_char(s.get_char(end - 1))
        invariant
            n == s@.len(),
            start <= end <= n,
            trim_left(s@) == s@.subrange(start as int, n as int),
            trim_right(s@.subrange(start as int, n as int)) == trim_right(
                s@.subrange(start as int, end as int),
            ),
        decreases end,
    {
        proof {
            assert(s@.subrange(start as int, end as int).drop_last() =~= s@.subrange(
                start as int,
                end as int - 1,
            ));
        }
        end = end - 1;
    }
    proof {
        assert(trim_right(s@.subrange(start as int, end as int)) == s@.subrange(
            start as int,
            end as int,
        ));
    }
    s.substring_char(start, end)
}

/// Whether `a` and `b` hold the same characters.
pub fn str_eq(a: &str, b: &str) -> (r: bool)
    ensures
        r == (a@ == b@),
{
    let na = a.unicode_len();
    let nb = b.unicode_len();
    if na != nb {
        return false;
    }
    let mut i: usize = 0;
    while i < na
        invariant
            na == a@.len(),
            na == b@.len(),
            i <= na,
            forall|j: int| 0 <= j < i ==> a@[j] == b@[j],
        decreases na - i,
    {
        if a.get_char(i) != b.get_char(i) {
            return false;
        }
        i = i + 1;
    }
    proof {
        assert(a@ =~= b@);
    }
    true
}

} // verus!
