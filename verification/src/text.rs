//! Text: the few string operations that keys, paths, identifiers and messages
//! are built from, each with an exact description over sequences of characters.

use vstd::prelude::*;
use vstd::string::*;

verus! {

/// `String::push` of the standard library: appends one character at the end.
pub assume_specification[ String::push ](s: &mut String, c: char)
    ensures
        final(s)@ == old(s)@.push(c),
;

/// `==` on `str` in the standard library: two strings are equal exactly when
/// they hold the same characters.
pub assume_specification[ <str as PartialEq>::eq ](a: &str, b: &str) -> (r: bool)
    ensures
        r == (a@ == b@),
;

/// Whether `s` is made of printable ASCII characters that need no escape in quotes.
pub open spec fn is_unescaped(s: Seq<char>) -> bool {
    forall|i: int|
        0 <= i < s.len() ==> ' ' <= #[trigger] s[i] <= '~' && s[i] != '"' && s[i] != '\\'
}

/// `s` between two quotes.
pub open spec fn in_quotes(s: Seq<char>) -> Seq<char> {
    seq!['"'] + s + seq!['"']
}

/// What the `Debug` form of a string is: the string in quotes, with escapes.
pub uninterp spec fn debug_text(s: Seq<char>) -> Seq<char>;

/// The `Debug` form of `str` in the standard library. It depends on the string alone; where
/// nothing needs an escape it is the string in quotes. How anything else is escaped is left
/// unsaid.
#[verifier::external_body]
pub(crate) fn debug_string(s: &str) -> (r: String)
    ensures
        r@ == debug_text(s@),
        is_unescaped(s@) ==> r@ == in_quotes(s@),
{
    format!("{s:?}")
}

/// The characters of a string, as a vector.
pub fn chars_of(s: &str) -> (r: Vec<char>)
    ensures
        r@ == s@,
{
    let mut out: Vec<char> = Vec::new();
    for c in it: s.chars()
        invariant
            it.seq() == s@,
            out@ == s@.take(it.index()),
    {
        out.push(c);
    }
    out
}

/// The string that a run of characters spells.
pub fn string_of(chars: &Vec<char>) -> (r: String)
    ensures
        r@ == chars@,
{
    let mut out = String::new();
    for i in 0..chars.len()
        invariant
            out@ == chars@.take(i as int),
    {
        out.push(chars[i]);
    }
    out
}

/// A copy of `s` as an owned string.
pub fn owned(s: &str) -> (r: String)
    ensures
        r@ == s@,
{
    String::from_str(s)
}

/// A copy of an optional string.
pub fn copy_of(s: &Option<String>) -> (r: Option<String>)
    ensures
        r == *s,
{
    match s {
        Some(text) => Some(text.clone()),
        None => None,
    }
}

/// `a` followed by `b`.
pub fn concat2(a: &str, b: &str) -> (r: String)
    ensures
        r@ == a@ + b@,
{
    let mut out = String::from_str(a);
    out.append(b);
    out
}

/// `a` followed by `b` followed by `c`.
pub fn concat3(a: &str, b: &str, c: &str) -> (r: String)
    ensures
        r@ == a@ + b@ + c@,
{
    let mut out = String::from_str(a);
    out.append(b);
    out.append(c);
    out
}

/// `c`, in lower case if it is an ASCII letter.
pub open spec fn ascii_lower(c: char) -> char {
    if 'A' <= c <= 'Z' {
        ((c as int) + 32) as char
    } else {
        c
    }
}

/// `s` with its ASCII letters in lower case.
pub open spec fn ascii_lowered(s: Seq<char>) -> Seq<char> {
    s.map_values(|c: char| ascii_lower(c))
}

/// Whether `s` is made of ASCII characters only.
pub open spec fn is_ascii_text(s: Seq<char>) -> bool {
    forall|i: int| 0 <= i < s.len() ==> (#[trigger] s[i] as int) < 128
}

/// Whether the last character of `s` is `c`.
pub open spec fn ends_with_char(s: Seq<char>, c: char) -> bool {
    s.len() > 0 && s.last() == c
}

/// Whether the last character of `s` is `c`.
pub fn has_last_char(s: &str, c: char) -> (r: bool)
    ensures
        r == ends_with_char(s@, c),
{
    let chars = chars_of(s);
    chars.len() > 0 && chars[chars.len() - 1] == c
}

/// `s` without its last character.
pub fn without_last_char(s: &str) -> (r: String)
    requires
        s@.len() > 0,
    ensures
        r@ == s@.drop_last(),
{
    let mut chars = chars_of(s);
    chars.pop();
    string_of(&chars)
}

// ---------------------------------------------------------------------------
// Numbers
// ---------------------------------------------------------------------------

/// The lower case hexadecimal digit of a value below sixteen.
pub open spec fn hex_digit(d: int) -> char {
    if d < 10 {
        (('0' as int) + d) as char
    } else {
        (('a' as int) + (d - 10)) as char
    }
}

/// The last `width` hexadecimal digits of `v`, most significant first.
pub open spec fn hex_text(v: int, width: nat) -> Seq<char>
    decreases width,
{
    if width == 0 {
        Seq::empty()
    } else {
        hex_text(v / 16, (width - 1) as nat).push(hex_digit(v % 16))
    }
}

/// Sixteen to the power `width`: how many values `width` hexadecimal digits tell apart.
pub open spec fn hex_span(width: nat) -> int
    decreases width,
{
    if width == 0 {
        1
    } else {
        16 * hex_span((width - 1) as nat)
    }
}

fn hex_digit_char(d: u8) -> (r: char)
    requires
        d < 16,
    ensures
        r == hex_digit(d as int),
{
    if d < 10 {
        (48u8 + d) as char
    } else {
        (87u8 + d) as char
    }
}

/// Writes the last `width` hexadecimal digits of `v`.
pub fn hex_string(v: u128, width: usize) -> (r: String)
    ensures
        r@ == hex_text(v as int, width as nat),
    decreases width,
{
    if width == 0 {
        String::new()
    } else {
        let mut out = hex_string(v / 16, width - 1);
        out.push(hex_digit_char((v % 16) as u8));
        out
    }
}

/// Hexadecimal text has as many characters as was asked for.
pub proof fn lemma_hex_text_len(v: int, width: nat)
    ensures
        hex_text(v, width).len() == width,
    decreases width,
{
    if width > 0 {
        lemma_hex_text_len(v / 16, (width - 1) as nat);
    }
}

/// Two values that fit in `width` digits and are written alike are the same value.
pub proof fn lemma_hex_text_injective(a: int, b: int, width: nat)
    requires
        0 <= a < hex_span(width),
        0 <= b < hex_span(width),
        hex_text(a, width) == hex_text(b, width),
    ensures
        a == b,
    decreases width,
{
    if width > 0 {
        let w = (width - 1) as nat;
        let ta = hex_text(a, width);
        let tb = hex_text(b, width);
        assert(ta.last() == tb.last());
        assert(ta.drop_last() == hex_text(a / 16, w));
        assert(tb.drop_last() == hex_text(b / 16, w));
        lemma_hex_text_injective(a / 16, b / 16, w);
        assert(a % 16 == b % 16);
    }
}

/// No hexadecimal digit is `c` unless `c` is one of the sixteen.
pub proof fn lemma_hex_text_digits(v: int, width: nat)
    ensures
        forall|i: int|
            0 <= i < hex_text(v, width).len() ==> {
                ||| '0' <= #[trigger] hex_text(v, width)[i] <= '9'
                ||| 'a' <= hex_text(v, width)[i] <= 'f'
            },
    decreases width,
{
    if width > 0 {
        let init = hex_text(v / 16, (width - 1) as nat);
        lemma_hex_text_digits(v / 16, (width - 1) as nat);
        assert forall|i: int| 0 <= i < hex_text(v, width).len() implies {
            ||| '0' <= #[trigger] hex_text(v, width)[i] <= '9'
            ||| 'a' <= hex_text(v, width)[i] <= 'f'
        } by {
            if i < init.len() {
                assert(hex_text(v, width)[i] == init[i]);
            }
        }
    }
}

/// `n` in decimal, without leading zeros.
pub open spec fn decimal_text(n: int) -> Seq<char>
    decreases n,
{
    if n < 10 {
        seq![hex_digit(n)]
    } else {
        decimal_text(n / 10).push(hex_digit(n % 10))
    }
}

/// Writes `n` in decimal.
pub fn decimal_string(n: u64) -> (r: String)
    ensures
        r@ == decimal_text(n as int),
    decreases n,
{
    if n < 10 {
        let mut out = String::new();
        out.push(hex_digit_char(n as u8));
        assert(out@ =~= seq![hex_digit(n as int)]);
        out
    } else {
        let mut out = decimal_string(n / 10);
        out.push(hex_digit_char((n % 10) as u8));
        out
    }
}

// ---------------------------------------------------------------------------
// Splitting and joining
// ---------------------------------------------------------------------------

/// The characters of each string of a list.
pub open spec fn texts(list: Seq<String>) -> Seq<Seq<char>> {
    list.map_values(|s: String| s@)
}

/// The pieces of `s` between the occurrences of `sep`: one more than there are
/// occurrences, and possibly empty.
pub open spec fn split(s: Seq<char>, sep: char) -> Seq<Seq<char>>
    decreases s.len(),
{
    if s.len() == 0 {
        seq![Seq::empty()]
    } else {
        let init = split(s.drop_last(), sep);
        if s.last() == sep {
            init.push(Seq::empty())
        } else {
            init.drop_last().push(init.last().push(s.last()))
        }
    }
}

/// The parts in order, with `sep` between neighbours.
pub open spec fn join(parts: Seq<Seq<char>>, sep: Seq<char>) -> Seq<char>
    decreases parts.len(),
{
    if parts.len() == 0 {
        Seq::empty()
    } else if parts.len() == 1 {
        parts[0]
    } else {
        join(parts.drop_last(), sep) + sep + parts.last()
    }
}

/// There is always at least one piece.
pub proof fn lemma_split_nonempty(s: Seq<char>, sep: char)
    ensures
        split(s, sep).len() > 0,
    decreases s.len(),
{
    if s.len() > 0 {
        lemma_split_nonempty(s.drop_last(), sep);
    }
}

/// No piece holds the separator.
pub proof fn lemma_split_pieces(s: Seq<char>, sep: char)
    ensures
        forall|i: int| 0 <= i < split(s, sep).len() ==> !(#[trigger] split(s, sep)[i]).contains(sep),
    decreases s.len(),
{
    if s.len() > 0 {
        let init = split(s.drop_last(), sep);
        lemma_split_nonempty(s.drop_last(), sep);
        lemma_split_pieces(s.drop_last(), sep);
        assert forall|i: int| 0 <= i < split(s, sep).len() implies !(#[trigger] split(
            s,
            sep,
        )[i]).contains(sep) by {
            if s.last() == sep {
                if i < init.len() {
                    assert(split(s, sep)[i] == init[i]);
                } else {
                    assert(split(s, sep)[i] == Seq::<char>::empty());
                }
            } else if i < init.len() - 1 {
                assert(split(s, sep)[i] == init[i]);
            } else {
                let p = init.last();
                assert(split(s, sep)[i] == p.push(s.last()));
                assert(!init[init.len() - 1].contains(sep));
                if p.push(s.last()).contains(sep) {
                    let k = choose|k: int| 0 <= k < p.len() + 1 && p.push(s.last())[k] == sep;
                    assert(k < p.len());
                    assert(p[k] == sep);
                }
            }
        }
    }
}

/// Splitting `a`, a separator and `b` gives the pieces of `a`, then those of `b`.
pub proof fn lemma_split_concat(a: Seq<char>, b: Seq<char>, sep: char)
    ensures
        split(a.push(sep) + b, sep) == split(a, sep) + split(b, sep),
    decreases b.len(),
{
    let s = a.push(sep) + b;
    if b.len() == 0 {
        assert(s == a.push(sep));
        assert(s.drop_last() == a);
        assert(split(s, sep) =~= split(a, sep) + split(b, sep));
    } else {
        lemma_split_concat(a, b.drop_last(), sep);
        lemma_split_nonempty(b.drop_last(), sep);
        assert(s.drop_last() == a.push(sep) + b.drop_last());
        assert(split(s, sep) =~= split(a, sep) + split(b, sep));
    }
}

/// Splits `s` at every occurrence of `sep`.
pub fn split_text(s: &str, sep: char) -> (r: Vec<String>)
    ensures
        texts(r@) == split(s@, sep),
{
    let chars = chars_of(s);
    let mut done: Vec<String> = Vec::new();
    let mut piece = String::new();
    assert(texts(done@).push(piece@) =~= split(chars@.take(0), sep));
    for i in 0..chars.len()
        invariant
            texts(done@).push(piece@) == split(chars@.take(i as int), sep),
    {
        let ghost before = texts(done@).push(piece@);
        let c = chars[i];
        assert(chars@.take(i + 1).drop_last() =~= chars@.take(i as int));
        if c == sep {
            done.push(piece);
            piece = String::new();
            assert(texts(done@) =~= before);
        } else {
            let ghost old_piece = piece@;
            piece.push(c);
            assert(before.drop_last() =~= texts(done@));
            assert(before.last() == old_piece);
        }
    }
    assert(chars@.take(chars.len() as int) =~= s@);
    let ghost all = texts(done@).push(piece@);
    done.push(piece);
    assert(texts(done@) =~= all);
    done
}

/// Joins `parts` with `sep` between neighbours.
pub fn join_text(parts: &Vec<String>, sep: &str) -> (r: String)
    ensures
        r@ == join(texts(parts@), sep@),
{
    let mut out = String::new();
    for i in 0..parts.len()
        invariant
            out@ == join(texts(parts@).take(i as int), sep@),
    {
        let ghost list = texts(parts@);
        assert(list.take(i + 1).drop_last() =~= list.take(i as int));
        if i > 0 {
            out.append(sep);
        }
        let ghost so_far = out@;
        out.append(parts[i].as_str());
        assert(list.take(i + 1).last() == parts[i as int]@);
        if i == 0 {
            assert(so_far + parts[0]@ =~= parts[0]@);
        }
    }
    assert(texts(parts@).take(parts.len() as int) =~= texts(parts@));
    out
}

/// Joining pieces that do not hold `c`, by a separator that does not hold it either,
/// gives text without `c`.
pub proof fn lemma_join_avoids(parts: Seq<Seq<char>>, sep: Seq<char>, c: char)
    requires
        !sep.contains(c),
        forall|i: int| 0 <= i < parts.len() ==> !(#[trigger] parts[i]).contains(c),
    ensures
        !join(parts, sep).contains(c),
    decreases parts.len(),
{
    if parts.len() > 1 {
        let init = parts.drop_last();
        assert forall|i: int| 0 <= i < init.len() implies !(#[trigger] init[i]).contains(c) by {
            assert(init[i] == parts[i]);
        }
        lemma_join_avoids(init, sep, c);
        let a = join(init, sep);
        let whole = a + sep + parts.last();
        assert(!parts[parts.len() - 1].contains(c));
        if whole.contains(c) {
            let k = choose|k: int| 0 <= k < whole.len() && whole[k] == c;
            if k < a.len() {
                assert(a[k] == c);
            } else if k < a.len() + sep.len() {
                assert(sep[k - a.len()] == c);
            } else {
                assert(parts.last()[k - a.len() - sep.len()] == c);
            }
        }
    } else if parts.len() == 1 {
        assert(!parts[0].contains(c));
    }
}

// ---------------------------------------------------------------------------
// Replacing
// ---------------------------------------------------------------------------

/// Whether `pattern` stands in `s` at position `at`.
pub open spec fn occurs_at(s: Seq<char>, pattern: Seq<char>, at: int) -> bool {
    0 <= at && at + pattern.len() <= s.len() && s.subrange(at, at + pattern.len()) == pattern
}

/// `s` with every occurrence of `pattern` replaced by `with`. Occurrences are
/// taken from left to right and do not overlap. An empty pattern is replaced nowhere.
pub open spec fn replace_all(s: Seq<char>, pattern: Seq<char>, with: Seq<char>) -> Seq<char>
    decreases s.len(),
{
    if s.len() == 0 || pattern.len() == 0 {
        s
    } else if occurs_at(s, pattern, 0) {
        with + replace_all(s.skip(pattern.len() as int), pattern, with)
    } else {
        seq![s[0]] + replace_all(s.skip(1), pattern, with)
    }
}

fn pattern_occurs_at(s: &Vec<char>, pattern: &Vec<char>, at: usize) -> (r: bool)
    requires
        at <= s.len(),
    ensures
        r == occurs_at(s@, pattern@, at as int),
{
    if s.len() - at < pattern.len() {
        return false;
    }
    for k in 0..pattern.len()
        invariant
            at + pattern.len() <= s.len(),
            forall|j: int| 0 <= j < k ==> s[at + j] == pattern[j],
    {
        if s[at + k] != pattern[k] {
            assert(s@.subrange(at as int, at + pattern.len())[k as int] != pattern@[k as int]);
            return false;
        }
    }
    assert(s@.subrange(at as int, at + pattern.len()) =~= pattern@);
    true
}

/// Replaces every occurrence of `pattern` in `s` by `with`.
pub fn replace_text(s: &str, pattern: &str, with: &str) -> (r: String)
    requires
        pattern@.len() > 0,
    ensures
        r@ == replace_all(s@, pattern@, with@),
{
    let chars = chars_of(s);
    let pat = chars_of(pattern);
    let mut out = String::new();
    let mut at: usize = 0;
    assert(chars@.skip(0) =~= chars@);
    while at < chars.len()
        invariant
            chars@ == s@,
            pat@ == pattern@,
            pat.len() > 0,
            at <= chars.len(),
            out@ + replace_all(chars@.skip(at as int), pat@, with@) == replace_all(
                s@,
                pattern@,
                with@,
            ),
        decreases chars.len() - at,
    {
        let ghost rest = chars@.skip(at as int);
        let ghost so_far = out@;
        assert(occurs_at(chars@, pat@, at as int) == occurs_at(rest, pat@, 0)) by {
            if at + pat.len() <= chars.len() {
                assert(rest.subrange(0, pat.len() as int) =~= chars@.subrange(
                    at as int,
                    at + pat.len(),
                ));
            }
        }
        if pattern_occurs_at(&chars, &pat, at) {
            out.append(with);
            assert(rest.skip(pat.len() as int) =~= chars@.skip(at + pat.len()));
            assert(out@ + replace_all(chars@.skip(at + pat.len()), pat@, with@) =~= so_far + (with@
                + replace_all(rest.skip(pat.len() as int), pat@, with@)));
            at = at + pat.len();
        } else {
            out.push(chars[at]);
            assert(rest.skip(1) =~= chars@.skip(at + 1));
            assert(out@ + replace_all(chars@.skip(at + 1), pat@, with@) =~= so_far + (seq![rest[0]]
                + replace_all(rest.skip(1), pat@, with@)));
            at = at + 1;
        }
    }
    assert(chars@.skip(at as int) =~= Seq::<char>::empty());
    out
}

/// Replacing text by itself changes nothing.
pub proof fn lemma_replace_by_itself(s: Seq<char>, pattern: Seq<char>)
    ensures
        replace_all(s, pattern, pattern) == s,
    decreases s.len(),
{
    if s.len() > 0 && pattern.len() > 0 {
        if occurs_at(s, pattern, 0) {
            lemma_replace_by_itself(s.skip(pattern.len() as int), pattern);
            assert(s =~= s.subrange(0, pattern.len() as int) + s.skip(pattern.len() as int));
        } else {
            lemma_replace_by_itself(s.skip(1), pattern);
            assert(s =~= seq![s[0]] + s.skip(1));
        }
    }
}

/// Where the pattern does not occur nothing is replaced.
pub proof fn lemma_replace_absent(s: Seq<char>, pattern: Seq<char>, with: Seq<char>)
    requires
        forall|i: int| 0 <= i < s.len() ==> !occurs_at(s, pattern, i),
    ensures
        replace_all(s, pattern, with) == s,
    decreases s.len(),
{
    if s.len() > 0 && pattern.len() > 0 {
        let rest = s.skip(1);
        assert(!occurs_at(s, pattern, 0));
        assert forall|i: int| 0 <= i < rest.len() implies !occurs_at(rest, pattern, i) by {
            assert(!occurs_at(s, pattern, i + 1));
            if i + pattern.len() <= rest.len() {
                assert(rest.subrange(i, i + pattern.len()) =~= s.subrange(
                    i + 1,
                    i + 1 + pattern.len(),
                ));
            }
        }
        lemma_replace_absent(rest, pattern, with);
        assert(s =~= seq![s[0]] + rest);
    }
}

/// The first occurrence of the pattern is replaced, what stands before it is kept,
/// and the replacing goes on behind it.
pub proof fn lemma_replace_first(
    before: Seq<char>,
    pattern: Seq<char>,
    after: Seq<char>,
    with: Seq<char>,
)
    requires
        pattern.len() > 0,
        forall|i: int| 0 <= i < before.len() ==> !occurs_at(before + pattern + after, pattern, i),
    ensures
        replace_all(before + pattern + after, pattern, with) == before + with + replace_all(
            after,
            pattern,
            with,
        ),
    decreases before.len(),
{
    let s = before + pattern + after;
    if before.len() == 0 {
        assert(s.subrange(0, pattern.len() as int) =~= pattern);
        assert(occurs_at(s, pattern, 0));
        assert(s.skip(pattern.len() as int) =~= after);
        assert(replace_all(s, pattern, with) =~= before + with + replace_all(after, pattern, with));
    } else {
        let rest = before.skip(1);
        let t = rest + pattern + after;
        assert(s.skip(1) =~= t);
        assert forall|i: int| 0 <= i < rest.len() implies !occurs_at(t, pattern, i) by {
            assert(!occurs_at(s, pattern, i + 1));
            if i + pattern.len() <= t.len() {
                assert(t.subrange(i, i + pattern.len()) =~= s.subrange(
                    i + 1,
                    i + 1 + pattern.len(),
                ));
            }
        }
        lemma_replace_first(rest, pattern, after, with);
        assert(!occurs_at(s, pattern, 0));
        assert(replace_all(s, pattern, with) =~= before + with + replace_all(after, pattern, with));
    }
}

// ---------------------------------------------------------------------------
// What the texts mean
// ---------------------------------------------------------------------------

/// The value of a digit, of the digits 0 to 9 and the letters a to f.
pub open spec fn digit_value(c: char) -> int {
    if '0' <= c <= '9' {
        c as int - '0' as int
    } else if 'a' <= c <= 'f' {
        c as int - 'a' as int + 10
    } else {
        -1
    }
}

/// The number that a text of digits stands for.
pub open spec fn number_of(text: Seq<char>, base: int) -> int
    decreases text.len(),
{
    if text.len() == 0 {
        0
    } else {
        number_of(text.drop_last(), base) * base + digit_value(text.last())
    }
}

/// Whether every character is a digit to this base.
pub open spec fn all_digits(text: Seq<char>, base: int) -> bool {
    forall|i: int| 0 <= i < text.len() ==> 0 <= digit_value(#[trigger] text[i]) < base
}

/// A number written in hexadecimal reads back as itself, in as many digits as were asked for,
/// all of them digits and none of them in upper case.
pub proof fn law_hex_text_reads_back(v: int, width: nat)
    requires
        0 <= v < vstd::arithmetic::power::pow(16, width),
    ensures
        hex_text(v, width).len() == width,
        all_digits(hex_text(v, width), 16),
        number_of(hex_text(v, width), 16) == v,
    decreases width,
{
    reveal(vstd::arithmetic::power::pow);
    let text = hex_text(v, width);
    if width > 0 {
        let w = (width - 1) as nat;
        law_hex_text_reads_back(v / 16, w);
        let init = hex_text(v / 16, w);
        assert(text.drop_last() =~= init);
        assert(digit_value(hex_digit(v % 16)) == v % 16);
        assert forall|i: int| 0 <= i < text.len() implies 0 <= digit_value(#[trigger] text[i])
            < 16 by {
            if i < init.len() {
                assert(text[i] == init[i]);
            }
        }
    }
}

/// A number written in decimal reads back as itself, with digits only, and without a zero in
/// front unless it is zero.
pub proof fn law_decimal_text_reads_back(n: int)
    requires
        0 <= n,
    ensures
        decimal_text(n).len() > 0,
        all_digits(decimal_text(n), 10),
        number_of(decimal_text(n), 10) == n,
        decimal_text(n)[0] == '0' <==> n == 0,
    decreases n,
{
    reveal_with_fuel(number_of, 2);
    let text = decimal_text(n);
    if n < 10 {
        assert(text.drop_last() =~= Seq::empty());
        assert(digit_value(hex_digit(n)) == n);
    } else {
        law_decimal_text_reads_back(n / 10);
        let init = decimal_text(n / 10);
        assert(text.drop_last() =~= init);
        assert(digit_value(hex_digit(n % 10)) == n % 10);
        assert(text[0] == init[0]);
        assert forall|i: int| 0 <= i < text.len() implies 0 <= digit_value(#[trigger] text[i])
            < 10 by {
            if i < init.len() {
                assert(text[i] == init[i]);
            }
        }
    }
}

/// Joining puts the separator between neighbours, and nowhere else.
pub proof fn law_join(parts: Seq<Seq<char>>, part: Seq<char>, sep: Seq<char>)
    ensures
        join(Seq::empty(), sep) == Seq::<char>::empty(),
        join(seq![part], sep) == part,
        parts.len() > 0 ==> join(parts.push(part), sep) == join(parts, sep) + sep + part,
{
    assert(parts.push(part).drop_last() =~= parts);
}

/// Splitting loses nothing: the pieces, joined by the separator, are the text again.
pub proof fn law_split_joins_back(s: Seq<char>, sep: char)
    ensures
        split(s, sep).len() > 0,
        join(split(s, sep), seq![sep]) == s,
    decreases s.len(),
{
    lemma_split_nonempty(s, sep);
    if s.len() > 0 {
        let before = s.drop_last();
        let init = split(before, sep);
        law_split_joins_back(before, sep);
        if s.last() == sep {
            assert(init.push(Seq::empty()).drop_last() =~= init);
            assert(join(split(s, sep), seq![sep]) =~= s);
        } else {
            let last = init.last();
            let longer = init.drop_last().push(last.push(s.last()));
            assert(longer.drop_last() =~= init.drop_last());
            if init.len() == 1 {
                assert(join(init, seq![sep]) == last);
                assert(longer[0] == last.push(s.last()));
            } else {
                let head = join(init.drop_last(), seq![sep]) + seq![sep];
                assert(join(init, seq![sep]) == head + last);
                assert(join(longer, seq![sep]) == head + last.push(s.last()));
                assert(head + last.push(s.last()) =~= (head + last).push(s.last()));
            }
            assert(before.push(s.last()) =~= s);
        }
    }
}

/// Splitting finds the parts of a joined text again, as long as none of them holds the
/// separator; so it finds exactly the pieces between separators.
pub proof fn law_split_finds_parts(parts: Seq<Seq<char>>, sep: char)
    requires
        parts.len() > 0,
        forall|i: int| 0 <= i < parts.len() ==> !(#[trigger] parts[i]).contains(sep),
    ensures
        split(join(parts, seq![sep]), sep) == parts,
    decreases parts.len(),
{
    let last = parts.last();
    assert(!parts[parts.len() - 1].contains(sep));
    lemma_split_whole(last, sep);
    if parts.len() == 1 {
        assert(parts =~= seq![last]);
    } else {
        let init = parts.drop_last();
        assert forall|i: int| 0 <= i < init.len() implies !(#[trigger] init[i]).contains(sep) by {
            assert(init[i] == parts[i]);
        }
        law_split_finds_parts(init, sep);
        let head = join(init, seq![sep]);
        assert(head + seq![sep] + last =~= head.push(sep) + last);
        lemma_split_concat(head, last, sep);
        assert(init + seq![last] =~= parts);
    }
}

/// Text without the separator is one piece.
proof fn lemma_split_whole(s: Seq<char>, sep: char)
    requires
        !s.contains(sep),
    ensures
        split(s, sep) == seq![s],
    decreases s.len(),
{
    if s.len() > 0 {
        let before = s.drop_last();
        if before.contains(sep) {
            let k = choose|k: int| 0 <= k < before.len() && before[k] == sep;
            assert(s[k] == sep);
        }
        assert(s.last() == s[s.len() - 1]);
        lemma_split_whole(before, sep);
        assert(before.push(s.last()) =~= s);
        assert(split(s, sep) =~= seq![s]);
    } else {
        assert(s =~= Seq::empty());
    }
}

/// A pattern stands somewhere exactly if character by character it does.
pub proof fn law_occurs_at(s: Seq<char>, pattern: Seq<char>, at: int)
    ensures
        occurs_at(s, pattern, at) <==> {
            &&& 0 <= at
            &&& at + pattern.len() <= s.len()
            &&& forall|k: int| 0 <= k < pattern.len() ==> s[at + k] == #[trigger] pattern[k]
        },
{
    if 0 <= at && at + pattern.len() <= s.len() {
        let there = s.subrange(at, at + pattern.len());
        if there == pattern {
            assert forall|k: int| 0 <= k < pattern.len() implies s[at + k] == #[trigger] pattern[k] by {
                assert(there[k] == pattern[k]);
            }
        }
        if forall|k: int| 0 <= k < pattern.len() ==> s[at + k] == #[trigger] pattern[k] {
            assert(there =~= pattern);
        }
    }
}

/// Text that nowhere reads like the pattern stays as it is.
pub proof fn law_nothing_to_replace(s: Seq<char>, pattern: Seq<char>, with: Seq<char>)
    requires
        pattern.len() > 0,
        forall|i: int|
            0 <= i && i + pattern.len() <= s.len() ==> #[trigger] s.subrange(i, i + pattern.len())
                != pattern,
    ensures
        replace_all(s, pattern, with) == s,
{
    assert forall|i: int| 0 <= i < s.len() implies !occurs_at(s, pattern, i) by {
        if i + pattern.len() <= s.len() {
            assert(s.subrange(i, i + pattern.len()) != pattern);
        }
    }
    lemma_replace_absent(s, pattern, with);
}

/// The first place that reads like the pattern is replaced, what stands before it is kept, and
/// what stands behind it is treated alike.
pub proof fn law_first_is_replaced(
    before: Seq<char>,
    pattern: Seq<char>,
    after: Seq<char>,
    with: Seq<char>,
)
    requires
        pattern.len() > 0,
        forall|i: int|
            0 <= i < before.len() ==> #[trigger] (before + pattern + after).subrange(
                i,
                i + pattern.len(),
            ) != pattern,
    ensures
        replace_all(before + pattern + after, pattern, with) == before + with + replace_all(
            after,
            pattern,
            with,
        ),
{
    let s = before + pattern + after;
    assert forall|i: int| 0 <= i < before.len() implies !occurs_at(s, pattern, i) by {
        assert(s.subrange(i, i + pattern.len()) != pattern);
    }
    lemma_replace_first(before, pattern, after, with);
}

/// Lowering a letter moves it from the upper case letters to the same letter in lower case, and
/// keeps every other character; so nothing in upper case is left.
pub proof fn law_ascii_lowered(s: Seq<char>, i: int)
    requires
        0 <= i < s.len(),
    ensures
        ascii_lowered(s).len() == s.len(),
        'A' <= s[i] <= 'Z' ==> ascii_lowered(s)[i] as int - 'a' as int == s[i] as int - 'A' as int,
        !('A' <= s[i] <= 'Z') ==> ascii_lowered(s)[i] == s[i],
        !('A' <= ascii_lowered(s)[i] <= 'Z'),
{
}

/// Quotes go round the text, one on each side; and a text needs no escape exactly if it is made
/// of the characters from the space to the tilde, but for the quote and the backslash.
pub proof fn law_quotes(s: Seq<char>)
    ensures
        in_quotes(s).len() == s.len() + 2,
        in_quotes(s)[0] == '"',
        in_quotes(s).last() == '"',
        in_quotes(s).subrange(1, (s.len() + 1) as int) == s,
        is_unescaped(s) <==> forall|i: int|
            0 <= i < s.len() ==> 32 <= (#[trigger] s[i] as int) < 127 && s[i] != '"' && s[i]
                != '\\',
        is_ascii_text(s) <==> forall|i: int| 0 <= i < s.len() ==> (#[trigger] s[i] as int) <= 127,
{
    assert(in_quotes(s).subrange(1, (s.len() + 1) as int) =~= s);
    if is_unescaped(s) {
        assert forall|i: int| 0 <= i < s.len() implies 32 <= (#[trigger] s[i] as int) < 127 && s[i]
            != '"' && s[i] != '\\' by {
            assert(' ' <= s[i] <= '~');
        }
    }
}

/// A text ends with a character exactly if it is that character behind some other text.
pub proof fn law_ends_with_char(s: Seq<char>, c: char, other: char)
    ensures
        ends_with_char(s.push(c), c),
        c != other ==> !ends_with_char(s.push(other), c),
        !ends_with_char(Seq::empty(), c),
{
}

} // verus!
