//! Strings as sequences of characters.

use vstd::prelude::*;
use vstd::string::{StrSliceExecFns, StringExecFns};

verus! {

/// The characters of each string.
pub open spec fn texts(s: Seq<String>) -> Seq<Seq<char>> {
    s.map_values(|x: String| x@)
}

/// The characters of a string that may be missing.
pub open spec fn opt_text(s: Option<String>) -> Option<Seq<char>> {
    match s {
        Some(x) => Some(x@),
        None => None,
    }
}

/// The characters of a borrowed string that may be missing.
pub open spec fn opt_str(s: Option<&str>) -> Option<Seq<char>> {
    match s {
        Some(x) => Some(x@),
        None => None,
    }
}

/// Copies a list of strings.
pub fn clone_strings(v: &Vec<String>) -> (r: Vec<String>)
    ensures
        texts(r@) == texts(v@),
{
    let mut r: Vec<String> = Vec::new();
    let mut i: usize = 0;
    while i < v.len()
        invariant
            i <= v@.len(),
            r@.len() == i,
            forall|j: int| 0 <= j < i ==> (#[trigger] r@[j])@ == v@[j]@,
        decreases v@.len() - i,
    {
        let s = v[i].clone();
        r.push(s);
        i = i + 1;
    }
    assert(texts(r@) =~= texts(v@));
    r
}

/// Copies a string that may be missing.
pub fn clone_opt(s: &Option<String>) -> (r: Option<String>)
    ensures
        opt_text(r) == opt_text(*s),
{
    match s {
        Some(x) => Some(x.clone()),
        None => None,
    }
}

/// The characters that count as white space (the Unicode property
/// `White_Space`).
pub open spec fn white(c: char) -> bool {
    ||| '\u{9}' <= c <= '\u{d}'
    ||| c == ' '
    ||| c == '\u{85}'
    ||| c == '\u{a0}'
    ||| c == '\u{1680}'
    ||| '\u{2000}' <= c <= '\u{200a}'
    ||| c == '\u{2028}'
    ||| c == '\u{2029}'
    ||| c == '\u{202f}'
    ||| c == '\u{205f}'
    ||| c == '\u{3000}'
}

pub fn is_white(c: char) -> (r: bool)
    ensures
        r == white(c),
{
    ('\u{9}' <= c && c <= '\u{d}') || c == ' ' || c == '\u{85}' || c == '\u{a0}' || c
        == '\u{1680}' || ('\u{2000}' <= c && c <= '\u{200a}') || c == '\u{2028}' || c
        == '\u{2029}' || c == '\u{202f}' || c == '\u{205f}' || c == '\u{3000}'
}

/// The text without the white space at its start.
pub open spec fn trim_start(s: Seq<char>) -> Seq<char>
    decreases s.len(),
{
    if s.len() > 0 && white(s[0]) {
        trim_start(s.drop_first())
    } else {
        s
    }
}

/// The text without the white space at its end.
pub open spec fn trim_end(s: Seq<char>) -> Seq<char>
    decreases s.len(),
{
    if s.len() > 0 && white(s.last()) {
        trim_end(s.drop_last())
    } else {
        s
    }
}

/// The text without the white space at its ends.
pub open spec fn trimmed(s: Seq<char>) -> Seq<char> {
    trim_end(trim_start(s))
}

/// The text split at every `sep`, which is left out.
pub open spec fn split(s: Seq<char>, sep: char) -> Seq<Seq<char>>
    decreases s.len(),
{
    if s.len() == 0 {
        seq![s]
    } else if s.last() == sep {
        split(s.drop_last(), sep).push(Seq::empty())
    } else {
        let earlier = split(s.drop_last(), sep);
        earlier.update(earlier.len() - 1, earlier.last().push(s.last()))
    }
}

/// The maximal runs of characters that are not white space.
pub open spec fn words(s: Seq<char>) -> Seq<Seq<char>>
    decreases s.len(),
{
    if s.len() == 0 {
        Seq::empty()
    } else if white(s.last()) {
        words(s.drop_last())
    } else if s.len() >= 2 && !white(s[s.len() - 2]) {
        let earlier = words(s.drop_last());
        earlier.update(earlier.len() - 1, earlier.last().push(s.last()))
    } else {
        words(s.drop_last()).push(seq![s.last()])
    }
}

/// Whether a text is not empty and without white space.
pub open spec fn is_word(s: Seq<char>) -> bool {
    s.len() > 0 && forall|i: int| 0 <= i < s.len() ==> !white(#[trigger] s[i])
}

/// The words of a text are words, and where the text does not end in white
/// space, there is a last one.
pub proof fn lemma_words(s: Seq<char>)
    ensures
        forall|i: int| 0 <= i < words(s).len() ==> is_word(#[trigger] words(s)[i]),
        s.len() > 0 && !white(s.last()) ==> words(s).len() > 0,
    decreases s.len(),
{
    if s.len() > 0 {
        lemma_words(s.drop_last());
        let earlier = words(s.drop_last());
        if !white(s.last()) {
            if s.len() >= 2 && !white(s[s.len() - 2]) {
                assert(s.drop_last().last() == s[s.len() - 2]);
                assert(is_word(earlier[earlier.len() - 1]));
                assert(is_word(earlier.last().push(s.last())));
            } else {
                assert(is_word(seq![s.last()]));
            }
        }
    }
}

/// An ASCII capital turned into its small letter; anything else as it is.
pub open spec fn lower(c: char) -> char {
    if 'A' <= c <= 'Z' {
        (c as u32 + 32) as char
    } else {
        c
    }
}

/// The text with its ASCII capitals turned into small letters.
pub open spec fn lowered(s: Seq<char>) -> Seq<char> {
    s.map_values(|c: char| lower(c))
}

/// The characters of a string.
pub fn chars_of(s: &str) -> (r: Vec<char>)
    ensures
        r@ == s@,
{
    let mut r: Vec<char> = Vec::new();
    let n: usize = s.unicode_len();
    let mut i: usize = 0;
    while i < n
        invariant
            i <= n,
            n == s@.len(),
            r@ == s@.take(i as int),
        decreases n - i,
    {
        r.push(s.get_char(i));
        i = i + 1;
        assert(r@ =~= s@.take(i as int));
    }
    assert(r@ =~= s@);
    r
}

/// A string without the white space at its ends.
pub fn trim(s: &str) -> (r: &str)
    ensures
        r@ == trimmed(s@),
{
    let n: usize = s.unicode_len();
    let mut start: usize = 0;
    assert(s@.skip(0) =~= s@);
    while start < n && is_white(s.get_char(start))
        invariant
            start <= n,
            n == s@.len(),
            trim_start(s@) == trim_start(s@.skip(start as int)),
        decreases n - start,
    {
        assert(s@.skip(start as int).drop_first() =~= s@.skip(start + 1));
        start = start + 1;
    }
    assert(trim_start(s@) == s@.skip(start as int));
    let ghost body = s@.skip(start as int);
    let mut end: usize = n;
    assert(body.take(n - start) =~= body);
    while end > start && is_white(s.get_char(end - 1))
        invariant
            start <= end <= n,
            n == s@.len(),
            body == s@.skip(start as int),
            trim_end(body) == trim_end(body.take(end - start)),
        decreases end,
    {
        assert(body.take(end - start).drop_last() =~= body.take(end - 1 - start));
        end = end - 1;
    }
    assert(trim_end(body) == body.take(end - start));
    assert(s@.subrange(start as int, end as int) =~= body.take(end - start));
    s.substring_char(start, end)
}

/// Whether two strings hold the same characters.
pub fn same(a: &str, b: &str) -> (r: bool)
    ensures
        r == (a@ == b@),
{
    let n: usize = a.unicode_len();
    if n != b.unicode_len() {
        return false;
    }
    let mut i: usize = 0;
    while i < n
        invariant
            i <= n,
            n == a@.len(),
            n == b@.len(),
            forall|j: int| 0 <= j < i ==> a@[j] == b@[j],
        decreases n - i,
    {
        if a.get_char(i) != b.get_char(i) {
            return false;
        }
        i = i + 1;
    }
    assert(a@ =~= b@);
    true
}

pub fn to_lower(c: char) -> (r: char)
    ensures
        r == lower(c),
{
    if 'A' <= c && c <= 'Z' {
        ((c as u8) + 32) as char
    } else {
        c
    }
}

/// Whether `s`, with its ASCII capitals turned into small letters, is `small`.
pub fn same_lowered(s: &str, small: &str) -> (r: bool)
    ensures
        r == (lowered(s@) == small@),
{
    let n: usize = s.unicode_len();
    if n != small.unicode_len() {
        return false;
    }
    let mut i: usize = 0;
    while i < n
        invariant
            i <= n,
            n == s@.len(),
            n == small@.len(),
            forall|j: int| 0 <= j < i ==> lower(s@[j]) == small@[j],
        decreases n - i,
    {
        if to_lower(s.get_char(i)) != small.get_char(i) {
            assert(lowered(s@)[i as int] != small@[i as int]);
            return false;
        }
        i = i + 1;
    }
    assert(lowered(s@) =~= small@);
    true
}

/// Whether `s`, with its ASCII capitals turned into small letters, starts with
/// `small`.
pub fn starts_lowered(s: &str, small: &str) -> (r: bool)
    ensures
        r == small@.is_prefix_of(lowered(s@)),
{
    let n: usize = small.unicode_len();
    if n > s.unicode_len() {
        return false;
    }
    let mut i: usize = 0;
    while i < n
        invariant
            i <= n,
            n <= s@.len(),
            n == small@.len(),
            forall|j: int| 0 <= j < i ==> lower(s@[j]) == small@[j],
        decreases n - i,
    {
        if to_lower(s.get_char(i)) != small.get_char(i) {
            assert(lowered(s@)[i as int] != small@[i as int]);
            return false;
        }
        i = i + 1;
    }
    assert(small@ =~= lowered(s@).subrange(0, n as int));
    true
}

/// Whether `s` starts with `prefix`.
pub fn starts_with(s: &str, prefix: &str) -> (r: bool)
    ensures
        r == prefix@.is_prefix_of(s@),
{
    let n: usize = prefix.unicode_len();
    if n > s.unicode_len() {
        return false;
    }
    let mut i: usize = 0;
    while i < n
        invariant
            i <= n,
            n <= s@.len(),
            n == prefix@.len(),
            forall|j: int| 0 <= j < i ==> s@[j] == prefix@[j],
        decreases n - i,
    {
        if s.get_char(i) != prefix.get_char(i) {
            return false;
        }
        i = i + 1;
    }
    assert(prefix@ =~= s@.subrange(0, n as int));
    true
}

pub open spec fn str_texts(s: Seq<&str>) -> Seq<Seq<char>> {
    s.map_values(|x: &str| x@)
}

/// Splitting gives at least one piece.
pub proof fn lemma_split_nonempty(s: Seq<char>, sep: char)
    ensures
        split(s, sep).len() >= 1,
    decreases s.len(),
{
    if s.len() > 0 {
        lemma_split_nonempty(s.drop_last(), sep);
    }
}

/// A text without `sep` in its last part grows its last piece.
proof fn lemma_split_tail(s: Seq<char>, sep: char, start: int, end: int)
    requires
        0 <= start <= end <= s.len(),
        start > 0 ==> s[start - 1] == sep,
        forall|j: int| start <= j < end ==> s[j] != sep,
    ensures
        split(s.take(end), sep) == (if start == 0 {
            Seq::<Seq<char>>::empty()
        } else {
            split(s.take(start - 1), sep)
        }).push(s.subrange(start, end)),
    decreases end,
{
    let before = if start == 0 {
        Seq::<Seq<char>>::empty()
    } else {
        split(s.take(start - 1), sep)
    };
    if end == start {
        if start == 0 {
            assert(s.take(0) =~= s.subrange(0, 0));
            assert(split(s.take(0), sep) =~= before.push(s.subrange(0, 0)));
        } else {
            assert(s.take(start).drop_last() =~= s.take(start - 1));
            assert(s.subrange(start, start) =~= Seq::empty());
        }
    } else {
        lemma_split_tail(s, sep, start, end - 1);
        assert(s.take(end).drop_last() =~= s.take(end - 1));
        assert(s.subrange(start, end - 1).push(s[end - 1]) =~= s.subrange(start, end));
        assert(split(s.take(end), sep) =~= before.push(s.subrange(start, end)));
    }
}

/// The pieces of `s` between the occurrences of `sep`.
pub fn split_at_char(s: &str, sep: char) -> (r: Vec<&str>)
    ensures
        str_texts(r@) == split(s@, sep),
{
    let n: usize = s.unicode_len();
    let mut r: Vec<&str> = Vec::new();
    let mut start: usize = 0;
    let mut i: usize = 0;
    while i < n
        invariant
            start <= i <= n,
            n == s@.len(),
            start > 0 ==> s@[start - 1] == sep,
            start == 0 ==> str_texts(r@) =~= Seq::<Seq<char>>::empty(),
            start > 0 ==> str_texts(r@) == split(s@.take(start - 1), sep),
            forall|j: int| start <= j < i ==> s@[j] != sep,
        decreases n - i,
    {
        if s.get_char(i) == sep {
            proof {
                lemma_split_tail(s@, sep, start as int, i as int);
            }
            let ghost earlier = str_texts(r@);
            let piece = s.substring_char(start, i);
            r.push(piece);
            assert(str_texts(r@) =~= earlier.push(s@.subrange(start as int, i as int)));
            start = i + 1;
        }
        i = i + 1;
    }
    proof {
        lemma_split_tail(s@, sep, start as int, n as int);
        assert(s@.take(n as int) =~= s@);
    }
    let ghost earlier = str_texts(r@);
    let piece = s.substring_char(start, n);
    r.push(piece);
    assert(str_texts(r@) =~= earlier.push(s@.subrange(start as int, n as int)));
    r
}

/// A run of characters that are not white space is one word.
proof fn lemma_word_tail(s: Seq<char>, start: int, end: int)
    requires
        0 <= start <= end <= s.len(),
        start > 0 ==> white(s[start - 1]),
        forall|j: int| start <= j < end ==> !white(s[j]),
    ensures
        words(s.take(end)) == (if end == start {
            words(s.take(start))
        } else {
            words(s.take(start)).push(s.subrange(start, end))
        }),
    decreases end,
{
    if end > start {
        lemma_word_tail(s, start, end - 1);
        assert(s.take(end).drop_last() =~= s.take(end - 1));
        if end - 1 == start {
            assert(seq![s[end - 1]] =~= s.subrange(start, end));
        } else {
            assert(s.subrange(start, end - 1).push(s[end - 1]) =~= s.subrange(start, end));
            assert(words(s.take(end)) =~= words(s.take(start)).push(s.subrange(start, end)));
        }
    }
}

/// The words of a string.
pub fn split_words(s: &str) -> (r: Vec<String>)
    ensures
        texts(r@) == words(s@),
{
    let n: usize = s.unicode_len();
    let mut r: Vec<String> = Vec::new();
    let mut start: usize = 0;
    let mut i: usize = 0;
    assert(texts(r@) =~= words(s@.take(0)));
    while i < n
        invariant
            start <= i <= n,
            n == s@.len(),
            start > 0 ==> white(s@[start - 1]),
            texts(r@) == words(s@.take(start as int)),
            forall|j: int| start <= j < i ==> !white(s@[j]),
        decreases n - i,
    {
        if is_white(s.get_char(i)) {
            proof {
                lemma_word_tail(s@, start as int, i as int);
                assert(s@.take(i + 1).drop_last() =~= s@.take(i as int));
            }
            if start < i {
                let ghost earlier = texts(r@);
                let piece = s.substring_char(start, i);
                r.push(piece.to_string());
                assert(texts(r@) =~= earlier.push(s@.subrange(start as int, i as int)));
            }
            start = i + 1;
        }
        i = i + 1;
    }
    proof {
        lemma_word_tail(s@, start as int, n as int);
        assert(s@.take(n as int) =~= s@);
    }
    if start < n {
        let ghost earlier = texts(r@);
        let piece = s.substring_char(start, n);
        r.push(piece.to_string());
        assert(texts(r@) =~= earlier.push(s@.subrange(start as int, n as int)));
    }
    r
}

/// The digit for a number below ten.
pub open spec fn digit(d: int) -> Seq<char> {
    "0123456789"@.subrange(d, d + 1)
}

/// A number in decimal, without leading zeros.
pub open spec fn decimal(n: nat) -> Seq<char>
    decreases n,
{
    if n < 10 {
        digit(n as int)
    } else {
        decimal(n / 10) + digit((n % 10) as int)
    }
}

/// Appends a number in decimal
pub fn push_decimal(out: &mut String, n: usize)
    ensures
        final(out)@ == old(out)@ + decimal(n as nat),
    decreases n,
{
    proof {
        reveal_strlit("0123456789");
    }
    if n >= 10 {
        push_decimal(out, n / 10);
    }
    let ghost before = out@;
    let d: usize = n % 10;
    out.append("0123456789".substring_char(d, d + 1));
    assert(out@ =~= old(out)@ + decimal(n as nat));
}

/// White space before and behind a text is what trimming takes away, all of it and nothing else.
pub proof fn law_trimming_takes_the_ends(before: Seq<char>, s: Seq<char>, after: Seq<char>)
    requires
        forall|i: int| 0 <= i < before.len() ==> white(#[trigger] before[i]),
        forall|i: int| 0 <= i < after.len() ==> white(#[trigger] after[i]),
        s.len() > 0,
        !white(s[0]),
        !white(s.last()),
    ensures
        trimmed(before + s + after) == s,
{
    lemma_trim_start(before, s + after);
    assert((s + after)[0] == s[0]);
    assert(before + s + after =~= before + (s + after));
    lemma_trim_end(s, after);
}

proof fn lemma_trim_start(before: Seq<char>, s: Seq<char>)
    requires
        forall|i: int| 0 <= i < before.len() ==> white(#[trigger] before[i]),
        s.len() > 0,
        !white(s[0]),
    ensures
        trim_start(before + s) == s,
    decreases before.len(),
{
    let all = before + s;
    if before.len() > 0 {
        let rest = before.drop_first();
        assert(all.drop_first() =~= rest + s);
        assert(white(before[0]));
        assert(all[0] == before[0]);
        assert forall|i: int| 0 <= i < rest.len() implies white(#[trigger] rest[i]) by {
            assert(rest[i] == before[i + 1]);
        }
        lemma_trim_start(rest, s);
    } else {
        assert(all =~= s);
    }
}

proof fn lemma_trim_end(s: Seq<char>, after: Seq<char>)
    requires
        forall|i: int| 0 <= i < after.len() ==> white(#[trigger] after[i]),
        s.len() > 0,
        !white(s.last()),
    ensures
        trim_end(s + after) == s,
    decreases after.len(),
{
    let all = s + after;
    if after.len() > 0 {
        let rest = after.drop_last();
        assert(all.drop_last() =~= s + rest);
        assert(all.last() == after[after.len() - 1]);
        assert forall|i: int| 0 <= i < rest.len() implies white(#[trigger] rest[i]) by {
            assert(rest[i] == after[i]);
        }
        lemma_trim_end(s, rest);
    } else {
        assert(all =~= s);
    }
}

/// A text with a separator in it splits into the parts of what is before it and then the parts of
/// what is behind it. A text without one is its only part.
pub proof fn law_splitting_parts_at_the_separator(a: Seq<char>, sep: char, b: Seq<char>)
    ensures
        split(a + seq![sep] + b, sep) == split(a, sep) + split(b, sep),
        split(a, sep).len() >= 1,
        !b.contains(sep) ==> split(b, sep) == seq![b],
    decreases b.len(),
{
    lemma_split_not_empty(a, sep);
    lemma_split_not_empty(b, sep);
    let all = a + seq![sep] + b;
    if b.len() > 0 {
        let rest = b.drop_last();
        law_splitting_parts_at_the_separator(a, sep, rest);
        lemma_split_not_empty(rest, sep);
        assert(all.drop_last() =~= a + seq![sep] + rest);
        assert(all.last() == b.last());
        let earlier = split(a, sep) + split(rest, sep);
        if b.last() == sep {
            assert(b[b.len() - 1] == sep);
            assert(earlier.push(Seq::empty()) =~= split(a, sep) + split(rest, sep).push(Seq::empty()));
        } else {
            let p = split(rest, sep);
            assert(earlier.last() == p.last());
            assert(earlier.update(earlier.len() - 1, earlier.last().push(b.last())) =~= split(a, sep)
                + p.update(p.len() - 1, p.last().push(b.last())));
        }
        if !b.contains(sep) {
            assert(!rest.contains(sep)) by {
                if rest.contains(sep) {
                    let i = choose|i: int| 0 <= i < rest.len() && rest[i] == sep;
                    assert(b[i] == sep);
                }
            }
            assert(b[b.len() - 1] != sep);
            assert(rest.push(b.last()) =~= b);
            assert(seq![rest].update(0, b) =~= seq![b]);
        }
    } else {
        assert(all.drop_last() =~= a);
        assert(all.last() == sep);
        assert(b =~= Seq::<char>::empty());
        assert(split(a, sep).push(Seq::empty()) =~= split(a, sep) + seq![b]);
    }
}

proof fn lemma_split_not_empty(s: Seq<char>, sep: char)
    ensures
        split(s, sep).len() >= 1,
    decreases s.len(),
{
    if s.len() > 0 {
        lemma_split_not_empty(s.drop_last(), sep);
    }
}

/// The number that decimal digits stand for.
pub open spec fn number_of(digits: Seq<char>) -> int
    decreases digits.len(),
{
    if digits.len() == 0 {
        0
    } else {
        number_of(digits.drop_last()) * 10 + (digits.last() as int - 48)
    }
}

/// A number in decimal reads as that number, in digits alone and without a leading nought.
pub proof fn law_decimal_reads_as_the_number(n: nat)
    ensures
        number_of(decimal(n)) == n,
        decimal(n).len() > 0,
        n > 0 ==> decimal(n)[0] != '0',
        forall|i: int| 0 <= i < decimal(n).len() ==> '0' <= #[trigger] decimal(n)[i] <= '9',
    decreases n,
{
    reveal_strlit("0123456789");
    reveal_with_fuel(number_of, 2);
    let d = digit((n % 10) as int);
    assert(d.len() == 1);
    assert(d[0] == "0123456789"@[(n % 10) as int]);
    assert(d[0] as int == 48 + n % 10);
    if n >= 10 {
        law_decimal_reads_as_the_number(n / 10);
        let all = decimal(n / 10) + d;
        assert(all.drop_last() =~= decimal(n / 10));
        assert(all.last() == d[0]);
    } else {
        assert(d.drop_last() =~= Seq::<char>::empty());
    }
}

/// Turning capitals into small letters keeps everything else, and doing it twice is doing it once.
pub proof fn law_small_letters_stay_small(s: Seq<char>)
    ensures
        lowered(s).len() == s.len(),
        forall|i: int| #![trigger lowered(s)[i]]
            0 <= i < s.len() ==> !('A' <= lowered(s)[i] <= 'Z') && (!('A' <= s[i] <= 'Z') ==> lowered(
                s,
            )[i] == s[i]) && ('A' <= s[i] <= 'Z' ==> lowered(s)[i] as int == s[i] as int + 32),
        lowered(lowered(s)) == lowered(s),
{
    assert(lowered(lowered(s)) =~= lowered(s));
}

} // verus!
