//! Text widths, from the advances of its characters.

use vstd::prelude::*;
use crate::num::{max_i64, sat, to_i32};

verus! {

/// The font that is used where none is configured.
pub const DEFAULT_FONT_QUERY: &'static str = "sans";

/// Heights of a line above and below its base line.
#[derive(Debug, Clone, Copy, PartialEq, Eq, Structural)]
pub struct LineMetrics {
    pub ascender: i32,
    pub descender: i32,
}

/// A drawn character.
#[derive(Debug)]
pub struct GlyphBitmap {
    pub width: i32,
    pub rows: i32,
    pub pitch: i32,
    pub buffer: Vec<u8>,
    pub left: i32,
    pub top: i32,
    pub advance: i32,
}

/// How many bytes of coverage a drawn character has, or `None` if they cannot
/// be used. A character that covers nothing has none.
pub open spec fn coverage_len(width: i32, rows: i32, pitch: i32, gray: bool, present: bool) -> Option<int> {
    let abs_pitch = if pitch < 0 {
        -pitch
    } else {
        pitch as int
    };
    let len = abs_pitch * if rows > 0 {
        rows as int
    } else {
        0
    };
    if width == 0 || rows == 0 || len == 0 {
        Some(0)
    } else if !gray || !present {
        None
    } else {
        Some(len)
    }
}

/// How many bytes of coverage a drawn character has, or `None` if they cannot
/// be used
pub fn bitmap_len(width: i32, rows: i32, pitch: i32, gray: bool, present: bool) -> (r: Option<u64>)
    ensures
        (match r {
            Some(n) => Some(n as int),
            None => None,
        }) == coverage_len(width, rows, pitch, gray, present),
{
    let abs_pitch: i64 = if pitch < 0 {
        0 - pitch as i64
    } else {
        pitch as i64
    };
    let count: i64 = max_i64(rows as i64, 0);
    assert(0 <= abs_pitch * count <= 0x8000_0000 * 0x7fff_ffff) by (nonlinear_arith)
        requires
            0 <= abs_pitch <= 0x8000_0000,
            0 <= count <= 0x7fff_ffff,
    ;
    let len: i64 = abs_pitch * count;
    if width == 0 || rows == 0 || len == 0 {
        return Some(0);
    }
    if !gray || !present {
        return None;
    }
    Some(len as u64)
}

/// Whether a function gives the advance of every character, always the same.
pub open spec fn is_advance<F: Fn(char) -> Option<i32>>(f: F) -> bool {
    &&& forall|c: char| #[trigger] f.requires((c,))
    &&& forall|c: char, r: Option<i32>, s: Option<i32>| #[trigger]
        f.ensures((c,), r) && #[trigger] f.ensures((c,), s) ==> r == s
}

/// The advances that a function gives. Characters that cannot be drawn have
/// none.
pub open spec fn advance<F: Fn(char) -> Option<i32>>(f: F) -> spec_fn(char) -> int {
    |c: char|
        match choose|r: Option<i32>| f.ensures((c,), r) {
            Some(a) => a as int,
            None => 0,
        }
}

/// The width of a text.
pub open spec fn text_width(text: Seq<char>, advance: spec_fn(char) -> int) -> i32
    decreases text.len(),
{
    if text.len() == 0 {
        0
    } else {
        sat(text_width(text.drop_last(), advance) + advance(text.last()))
    }
}

fn advance_of<F: Fn(char) -> Option<i32>>(f: &F, c: char) -> (r: i32)
    requires
        is_advance(*f),
    ensures
        r == advance(*f)(c),
{
    match f(c) {
        Some(a) => a,
        None => 0,
    }
}

/// The width of the first `n` characters of a text
pub fn measure_prefix<F: Fn(char) -> Option<i32>>(text: &Vec<char>, n: usize, f: &F) -> (r: i32)
    requires
        is_advance(*f),
        n <= text@.len(),
    ensures
        r == text_width(text@.take(n as int), advance(*f)),
{
    let mut width: i32 = 0;
    let mut i: usize = 0;
    assert(text@.take(0) =~= Seq::empty());
    while i < n
        invariant
            i <= n <= text@.len(),
            is_advance(*f),
            width == text_width(text@.take(i as int), advance(*f)),
        decreases n - i,
    {
        assert(text@.take(i as int + 1).drop_last() =~= text@.take(i as int));
        width = to_i32(width as i64 + advance_of(f, text[i]) as i64);
        i = i + 1;
    }
    width
}

/// The width of a text
pub fn measure_text<F: Fn(char) -> Option<i32>>(text: &str, f: &F) -> (r: i32)
    requires
        is_advance(*f),
    ensures
        r == text_width(text@, advance(*f)),
{
    let chars: Vec<char> = crate::text::chars_of(text);
    let n: usize = chars.len();
    assert(chars@.take(n as int) =~= text@);
    measure_prefix(&chars, n, f)
}

/// A longer text is not narrower, as long as no character moves backwards.
pub proof fn law_longer_text_is_wider(text: Seq<char>, advance: spec_fn(char) -> int, m: int, n: int)
    requires
        forall|c: char| #[trigger] advance(c) >= 0,
        0 <= m <= n <= text.len(),
    ensures
        0 <= text_width(text.take(m), advance) <= text_width(text.take(n), advance),
    decreases n,
{
    if m < n {
        assert(text.take(n).drop_last() =~= text.take(n - 1));
        law_longer_text_is_wider(text, advance, m, n - 1);
        assert(advance(text.take(n).last()) >= 0);
    } else if n > 0 {
        assert(text.take(n).drop_last() =~= text.take(n - 1));
        law_longer_text_is_wider(text, advance, n - 1, n - 1);
        assert(advance(text.take(n).last()) >= 0);
    }
}

/// The width of a text is the sum of the widths of its parts, as long as no character moves
/// backwards and the sum can be told; one character is as wide as its advance.
pub proof fn law_text_is_as_wide_as_its_parts(a: Seq<char>, b: Seq<char>, advance: spec_fn(char) -> int)
    requires
        forall|c: char| #[trigger] advance(c) >= 0,
        text_width(a, advance) + text_width(b, advance) < i32::MAX,
    ensures
        text_width(a + b, advance) == text_width(a, advance) + text_width(b, advance),
        forall|c: char|
            #[trigger] advance(c) < i32::MAX ==> text_width(seq![c], advance) == advance(c),
    decreases b.len(),
{
    reveal_with_fuel(text_width, 2);
    assert forall|c: char| #[trigger] advance(c) < i32::MAX implies text_width(seq![c], advance)
        == advance(c) by {
        assert(seq![c].drop_last() =~= Seq::<char>::empty());
        assert(seq![c].last() == c);
        assert(advance(c) >= 0);
    }
    assert(a.take(a.len() as int) =~= a);
    law_longer_text_is_wider(a, advance, 0, a.len() as int);
    if b.len() > 0 {
        let rest = b.drop_last();
        assert((a + b).drop_last() =~= a + rest);
        assert((a + b).last() == b.last());
        assert(advance(b.last()) >= 0);
        assert(b.take(b.len() as int) =~= b);
        assert(b.take(b.len() - 1) =~= rest);
        law_longer_text_is_wider(b, advance, b.len() - 1, b.len() as int);
        law_text_is_as_wide_as_its_parts(a, rest, advance);
    } else {
        assert(a + b =~= a);
    }
}

} // verus!
