//! Character-level helpers shared by the probes and the renderer.
//!
//! Text is modelled as `Seq<char>`. The executable functions work on
//! `Vec<char>` and convert from and to `String` at their edges.

use vstd::prelude::*;
use vstd::string::*;

verus! {

/// `String::push` appends one character.
pub assume_specification[ String::push ](s: &mut String, c: char)
    ensures
        final(s)@ == old(s)@.push(c),
;

/// The lowercase form of a text, as `str::to_lowercase` computes it from
/// the Unicode case tables.
pub uninterp spec fn lowercase(s: Seq<char>) -> Seq<char>;

/// `str::to_lowercase`: the result depends on the characters alone.
#[verifier::external_body]
pub(crate) fn to_lowercase(s: &str) -> (lower: String)
    ensures
        lower@ == lowercase(s@),
{
    s.to_lowercase()
}

/// The views of a list of strings.
pub open spec fn texts(v: Seq<String>) -> Seq<Seq<char>> {
    Seq::new(v.len(), |i: int| v[i]@)
}

/// The views of a list of string slices.
pub open spec fn slices(v: Seq<&'static str>) -> Seq<Seq<char>> {
    Seq::new(v.len(), |i: int| v[i]@)
}

/// The views of a list of character vectors.
pub open spec fn pieces(v: Seq<Vec<char>>) -> Seq<Seq<char>> {
    Seq::new(v.len(), |i: int| v[i]@)
}

/// A set of characters that a scan looks for.
#[derive(Clone, Copy, Debug)]
pub enum CharClass {
    /// The characters with the Unicode property White_Space.
    Whitespace,
    /// One given character.
    Exactly(char),
}

/// The characters with the Unicode property White_Space.
pub open spec fn is_whitespace(c: char) -> bool {
    ||| '\u{0009}' <= c <= '\u{000D}'
    ||| c == ' '
    ||| c == '\u{0085}'
    ||| c == '\u{00A0}'
    ||| c == '\u{1680}'
    ||| '\u{2000}' <= c <= '\u{200A}'
    ||| c == '\u{2028}'
    ||| c == '\u{2029}'
    ||| c == '\u{202F}'
    ||| c == '\u{205F}'
    ||| c == '\u{3000}'
}

/// The ASCII letters.
pub open spec fn is_ascii_alphabetic(c: char) -> bool {
    ('a' <= c <= 'z') || ('A' <= c <= 'Z')
}

/// Whether `c` is an ASCII letter.
pub fn char_is_ascii_alphabetic(c: char) -> (b: bool)
    ensures
        b == is_ascii_alphabetic(c),
{
    (c >= 'a' && c <= 'z') || (c >= 'A' && c <= 'Z')
}

impl CharClass {
    /// Whether `c` belongs to the class.
    pub open spec fn holds(self, c: char) -> bool {
        match self {
            CharClass::Whitespace => is_whitespace(c),
            CharClass::Exactly(x) => c == x,
        }
    }

    /// Whether `c` belongs to the class.
    pub fn test(&self, c: char) -> (b: bool)
        ensures
            b == self.holds(c),
    {
        match self {
            CharClass::Whitespace => {
                (c >= '\u{0009}' && c <= '\u{000D}') || c == ' ' || c == '\u{0085}' || c
                    == '\u{00A0}' || c == '\u{1680}' || (c >= '\u{2000}' && c <= '\u{200A}') || c
                    == '\u{2028}' || c == '\u{2029}' || c == '\u{202F}' || c == '\u{205F}' || c
                    == '\u{3000}'
            },
            CharClass::Exactly(x) => c == *x,
        }
    }
}

/// The characters of `s`, in order.
pub fn chars_of(s: &str) -> (out: Vec<char>)
    ensures
        out@ == s@,
{
    let mut out: Vec<char> = Vec::new();
    for c in it: s.chars()
        invariant
            out@ == it.seq().take(it.index() as int),
    {
        out.push(c);
    }
    out
}

/// Appends the characters `v[from..to]` to `out`.
pub fn push_range(out: &mut String, v: &Vec<char>, from: usize, to: usize)
    requires
        from <= to <= v.len(),
    ensures
        final(out)@ == old(out)@ + v@.subrange(from as int, to as int),
{
    let mut i: usize = from;
    while i < to
        invariant
            from <= i <= to <= v.len(),
            out@ == old(out)@ + v@.subrange(from as int, i as int),
        decreases to - i,
    {
        out.push(v[i]);
        i += 1;
    }
}

/// The string whose characters are those of `v`.
pub fn string_of(v: &Vec<char>) -> (s: String)
    ensures
        s@ == v@,
{
    let mut s = String::new();
    push_range(&mut s, v, 0, v.len());
    assert(v@.subrange(0, v.len() as int) == v@);
    s
}

/// The string whose characters are `v[from..to]`.
pub fn string_of_range(v: &Vec<char>, from: usize, to: usize) -> (s: String)
    requires
        from <= to <= v.len(),
    ensures
        s@ == v@.subrange(from as int, to as int),
{
    let mut s = String::new();
    push_range(&mut s, v, from, to);
    s
}

/// The characters of `v` from place `from` on.
pub fn tail(v: &Vec<char>, from: usize) -> (rest: Vec<char>)
    requires
        from <= v.len(),
    ensures
        rest@ == v@.skip(from as int),
{
    let mut rest: Vec<char> = Vec::new();
    let mut k: usize = from;
    while k < v.len()
        invariant
            from <= k <= v.len(),
            rest@ == v@.subrange(from as int, k as int),
        decreases v.len() - k,
    {
        rest.push(v[k]);
        k += 1;
    }
    rest
}

/// A copy of a string slice.
pub fn owned(s: &str) -> (out: String)
    ensures
        out@ == s@,
{
    String::from_str(s)
}

/// `n` spaces.
pub open spec fn spaces(n: nat) -> Seq<char> {
    Seq::new(n, |i: int| ' ')
}

/// Appends `n` spaces to `out`.
pub fn push_spaces(out: &mut String, n: usize)
    ensures
        final(out)@ == old(out)@ + spaces(n as nat),
{
    let mut i: usize = 0;
    while i < n
        invariant
            i <= n,
            out@ == old(out)@ + spaces(i as nat),
        decreases n - i,
    {
        out.push(' ');
        i += 1;
        assert(spaces(i as nat) == spaces((i - 1) as nat).push(' '));
    }
    assert(spaces(0) == Seq::<char>::empty());
}

/// Appends one line to the output.
pub fn push_line(out: &mut Vec<String>, line: String)
    ensures
        texts(final(out)@) == texts(old(out)@).push(line@),
{
    out.push(line);
    assert(texts(out@) =~= texts(old(out)@).push(line@));
}

/// Appends the lines of a table to the output.
pub fn push_table<const N: usize>(out: &mut Vec<String>, table: &[&'static str; N])
    ensures
        texts(final(out)@) == texts(old(out)@) + slices(table@),
{
    let mut i: usize = 0;
    assert(texts(out@) =~= texts(old(out)@) + slices(table@.take(0)));
    while i < N
        invariant
            i <= N,
            table@.len() == N,
            texts(out@) == texts(old(out)@) + slices(table@.take(i as int)),
        decreases N - i,
    {
        push_line(out, owned(table[i]));
        i += 1;
        assert(texts(out@) =~= texts(old(out)@) + slices(table@.take(i as int)));
    }
    assert(table@.take(N as int) == table@);
}

/// Whether `needle` stands in `hay` at offset `at`.
pub open spec fn occurs_at(hay: Seq<char>, needle: Seq<char>, at: int) -> bool {
    &&& 0 <= at
    &&& at + needle.len() <= hay.len()
    &&& hay.subrange(at, at + needle.len()) == needle
}

/// Whether `needle` stands somewhere in `hay`.
pub open spec fn contains(hay: Seq<char>, needle: Seq<char>) -> bool {
    exists|at: int| occurs_at(hay, needle, at)
}

/// Whether `s` begins with `prefix`.
pub open spec fn starts_with(s: Seq<char>, prefix: Seq<char>) -> bool {
    occurs_at(s, prefix, 0)
}

/// Whether `needle` stands in `hay` at offset `at`.
pub fn occurs_at_exec(hay: &Vec<char>, needle: &Vec<char>, at: usize) -> (b: bool)
    ensures
        b == occurs_at(hay@, needle@, at as int),
{
    if needle.len() > hay.len() || at > hay.len() - needle.len() {
        return false;
    }
    let mut k: usize = 0;
    while k < needle.len()
        invariant
            k <= needle.len(),
            at + needle.len() <= hay.len(),
            forall|j: int| 0 <= j < k ==> hay@[at + j] == needle@[j],
        decreases needle.len() - k,
    {
        if hay[at + k] != needle[k] {
            assert(hay@.subrange(at as int, at + needle.len())[k as int] != needle@[k as int]);
            return false;
        }
        k += 1;
    }
    assert(hay@.subrange(at as int, at + needle.len()) =~= needle@);
    true
}

/// Whether `needle` stands somewhere in `hay`.
pub fn contains_exec(hay: &Vec<char>, needle: &Vec<char>) -> (b: bool)
    ensures
        b == contains(hay@, needle@),
{
    if needle.len() > hay.len() {
        return false;
    }
    let last: usize = hay.len() - needle.len();
    let mut at: usize = 0;
    while at < last
        invariant
            at <= last,
            last == hay.len() - needle.len(),
            forall|j: int| 0 <= j < at ==> !occurs_at(hay@, needle@, j),
        decreases last - at,
    {
        if occurs_at_exec(hay, needle, at) {
            return true;
        }
        at += 1;
    }
    occurs_at_exec(hay, needle, last)
}

/// Whether the text `hay` holds the text `needle`.
pub fn str_contains(hay: &str, needle: &str) -> (b: bool)
    ensures
        b == contains(hay@, needle@),
{
    let h = chars_of(hay);
    let n = chars_of(needle);
    contains_exec(&h, &n)
}

/// Whether `s` begins with `prefix`.
pub fn starts_with_exec(s: &Vec<char>, prefix: &Vec<char>) -> (b: bool)
    ensures
        b == starts_with(s@, prefix@),
{
    occurs_at_exec(s, prefix, 0)
}

/// Whether two texts hold the same characters.
pub fn same_text(a: &Vec<char>, b: &Vec<char>) -> (eq: bool)
    ensures
        eq == (a@ == b@),
{
    if a.len() != b.len() {
        return false;
    }
    let r = occurs_at_exec(a, b, 0);
    proof {
        assert(a@.subrange(0, a@.len() as int) == a@);
    }
    r
}

/// The parts of `s` between the characters of `sep`. There is one part
/// more than there are separators in `s`; a part may be empty.
pub open spec fn split(s: Seq<char>, sep: CharClass) -> Seq<Seq<char>>
    decreases s.len(),
{
    if s.len() == 0 {
        seq![Seq::empty()]
    } else {
        let before = split(s.drop_last(), sep);
        if sep.holds(s.last()) {
            before.push(Seq::empty())
        } else {
            before.drop_last().push(before.last().push(s.last()))
        }
    }
}

/// The parts of `s` between the characters of `sep`.
pub fn split_exec(s: &Vec<char>, sep: CharClass) -> (parts: Vec<Vec<char>>)
    ensures
        pieces(parts@) == split(s@, sep),
        parts@.len() >= 1,
{
    let mut parts: Vec<Vec<char>> = Vec::new();
    let mut current: Vec<char> = Vec::new();
    let mut i: usize = 0;
    assert(s@.take(0) == Seq::<char>::empty());
    assert(pieces(parts@).push(current@) == seq![Seq::<char>::empty()]);
    while i < s.len()
        invariant
            i <= s.len(),
            pieces(parts@).push(current@) == split(s@.take(i as int), sep),
        decreases s.len() - i,
    {
        let c = s[i];
        proof {
            let more = s@.take(i + 1);
            assert(more.drop_last() == s@.take(i as int));
            assert(more.last() == c);
        }
        let ghost before = pieces(parts@).push(current@);
        if sep.test(c) {
            parts.push(current);
            current = Vec::new();
            assert(pieces(parts@) == before);
        } else {
            current.push(c);
            assert(pieces(parts@).push(current@) == before.drop_last().push(before.last().push(c)));
        }
        i += 1;
    }
    assert(s@.take(s.len() as int) == s@);
    let ghost all = pieces(parts@).push(current@);
    parts.push(current);
    assert(pieces(parts@) == all);
    parts
}

/// The parts that are not empty, in order.
pub open spec fn non_empty(parts: Seq<Seq<char>>) -> Seq<Seq<char>>
    decreases parts.len(),
{
    if parts.len() == 0 {
        Seq::empty()
    } else if parts.last().len() > 0 {
        non_empty(parts.drop_last()).push(parts.last())
    } else {
        non_empty(parts.drop_last())
    }
}

/// The words of `s`: its runs of characters that are not whitespace.
pub open spec fn words(s: Seq<char>) -> Seq<Seq<char>> {
    non_empty(split(s, CharClass::Whitespace))
}

/// The words of `s`.
pub fn words_exec(s: &Vec<char>) -> (found: Vec<Vec<char>>)
    ensures
        pieces(found@) == words(s@),
{
    let parts = split_exec(s, CharClass::Whitespace);
    let mut found: Vec<Vec<char>> = Vec::new();
    let mut i: usize = 0;
    assert(pieces(parts@).take(0) == Seq::<Seq<char>>::empty());
    while i < parts.len()
        invariant
            i <= parts.len(),
            pieces(found@) == non_empty(pieces(parts@).take(i as int)),
        decreases parts.len() - i,
    {
        proof {
            let more = pieces(parts@).take(i + 1);
            assert(more.drop_last() == pieces(parts@).take(i as int));
            assert(more.last() == parts@[i as int]@);
        }
        if parts[i].len() > 0 {
            let ghost before = pieces(found@);
            found.push(parts[i].clone());
            assert(pieces(found@) == before.push(parts@[i as int]@));
        }
        i += 1;
    }
    assert(pieces(parts@).take(parts.len() as int) == pieces(parts@));
    found
}

/// `line` without a carriage return at its end.
pub open spec fn strip_cr(line: Seq<char>) -> Seq<char> {
    if line.len() > 0 && line.last() == '\r' {
        line.drop_last()
    } else {
        line
    }
}

/// The lines of `s`. A line ends with a line feed, or a carriage return
/// and a line feed, neither of which belongs to the line; the last line
/// may end with the text instead, and is left out if it is empty.
pub open spec fn lines(s: Seq<char>) -> Seq<Seq<char>> {
    let parts = split(s, CharClass::Exactly('\n'));
    let closed = Seq::new((parts.len() - 1) as nat, |i: int| strip_cr(parts[i]));
    if parts.last().len() == 0 {
        closed
    } else {
        closed.push(parts.last())
    }
}

/// The lines of `s`.
pub fn lines_exec(s: &Vec<char>) -> (found: Vec<Vec<char>>)
    ensures
        pieces(found@) == lines(s@),
{
    let mut parts = split_exec(s, CharClass::Exactly('\n'));
    let ghost all = pieces(parts@);
    let last = parts.pop().unwrap();
    let mut found: Vec<Vec<char>> = Vec::new();
    let mut i: usize = 0;
    while i < parts.len()
        invariant
            i <= parts.len(),
            parts@.len() == all.len() - 1,
            forall|k: int| 0 <= k < parts@.len() ==> (#[trigger] parts@[k])@ == all[k],
            found@.len() == i,
            forall|k: int| 0 <= k < i ==> (#[trigger] found@[k])@ == strip_cr(all[k]),
        decreases parts.len() - i,
    {
        let part = &parts[i];
        let n = part.len();
        let line = if n > 0 && part[n - 1] == '\r' {
            let mut shorter = part.clone();
            shorter.pop();
            shorter
        } else {
            part.clone()
        };
        found.push(line);
        i += 1;
    }
    if last.len() > 0 {
        found.push(last);
    }
    assert(pieces(found@) =~= lines(s@));
    found
}

/// `s` without its leading characters of `class`.
pub open spec fn trim_start(s: Seq<char>, class: CharClass) -> Seq<char>
    decreases s.len(),
{
    if s.len() > 0 && class.holds(s[0]) {
        trim_start(s.skip(1), class)
    } else {
        s
    }
}

/// `s` without its trailing characters of `class`.
pub open spec fn trim_end(s: Seq<char>, class: CharClass) -> Seq<char>
    decreases s.len(),
{
    if s.len() > 0 && class.holds(s.last()) {
        trim_end(s.drop_last(), class)
    } else {
        s
    }
}

/// `s` without its leading and trailing characters of `class`.
pub open spec fn trim_class(s: Seq<char>, class: CharClass) -> Seq<char> {
    trim_end(trim_start(s, class), class)
}

/// `s` without its leading and trailing whitespace.
pub open spec fn trim(s: Seq<char>) -> Seq<char> {
    trim_class(s, CharClass::Whitespace)
}

/// The bounds of `s` without its leading and trailing characters of
/// `class`.
pub fn trim_bounds(s: &Vec<char>, class: CharClass) -> (bounds: (usize, usize))
    ensures
        bounds.0 <= bounds.1 <= s.len(),
        s@.subrange(bounds.0 as int, bounds.1 as int) == trim_class(s@, class),
{
    let mut lo: usize = 0;
    assert(s@.skip(0) == s@);
    while lo < s.len() && class.test(s[lo])
        invariant
            lo <= s.len(),
            trim_start(s@, class) == trim_start(s@.skip(lo as int), class),
        decreases s.len() - lo,
    {
        assert(s@.skip(lo as int).skip(1) == s@.skip(lo + 1));
        lo += 1;
    }
    assert(trim_start(s@, class) == s@.skip(lo as int));
    let mut hi: usize = s.len();
    assert(s@.subrange(lo as int, hi as int) == s@.skip(lo as int));
    while hi > lo && class.test(s[hi - 1])
        invariant
            lo <= hi <= s.len(),
            trim_class(s@, class) == trim_end(s@.subrange(lo as int, hi as int), class),
        decreases hi - lo,
    {
        assert(s@.subrange(lo as int, hi as int).drop_last() == s@.subrange(
            lo as int,
            hi - 1,
        ));
        hi -= 1;
    }
    (lo, hi)
}

/// The text of `s` without its leading and trailing characters of `class`.
pub fn trim_exec(s: &Vec<char>, class: CharClass) -> (out: String)
    ensures
        out@ == trim_class(s@, class),
{
    let (lo, hi) = trim_bounds(s, class);
    string_of_range(s, lo, hi)
}

/// The first result that `f` gives on the items, in order.
pub open spec fn first_some<T, A>(items: Seq<T>, f: spec_fn(T) -> Option<A>) -> Option<A>
    decreases items.len(),
{
    if items.len() == 0 {
        None
    } else {
        match f(items[0]) {
            Some(a) => Some(a),
            None => first_some(items.skip(1), f),
        }
    }
}

/// The first result is that of the first item on which `f` gives one;
/// there is none only if `f` gives none on any item.
pub proof fn lemma_first_some<T, A>(items: Seq<T>, f: spec_fn(T) -> Option<A>)
    ensures
        match first_some(items, f) {
            Some(a) => exists|k: int|
                0 <= k < items.len() && f(#[trigger] items[k]) == Some(a) && forall|j: int|
                    0 <= j < k ==> f(#[trigger] items[j]) is None,
            None => forall|j: int| 0 <= j < items.len() ==> f(#[trigger] items[j]) is None,
        },
    decreases items.len(),
{
    if items.len() > 0 {
        if f(items[0]) is None {
            let rest = items.skip(1);
            lemma_first_some(rest, f);
            match first_some(rest, f) {
                Some(a) => {
                    let k = choose|k: int|
                        0 <= k < rest.len() && f(#[trigger] rest[k]) == Some(a) && forall|j: int|
                            0 <= j < k ==> f(#[trigger] rest[j]) is None;
                    assert(items[k + 1] == rest[k]);
                    assert forall|j: int| 0 <= j < k + 1 implies f(#[trigger] items[j]) is None by {
                        if j > 0 {
                            assert(items[j] == rest[j - 1]);
                        }
                    }
                },
                None => {
                    assert forall|j: int| 0 <= j < items.len() implies f(
                        #[trigger] items[j],
                    ) is None by {
                        if j > 0 {
                            assert(items[j] == rest[j - 1]);
                        }
                    }
                },
            }
        } else {
            assert(f(items[0]) == Some(f(items[0])->0));
        }
    }
}

/// The character of a decimal digit.
pub open spec fn digit(d: nat) -> char {
    if d == 0 {
        '0'
    } else if d == 1 {
        '1'
    } else if d == 2 {
        '2'
    } else if d == 3 {
        '3'
    } else if d == 4 {
        '4'
    } else if d == 5 {
        '5'
    } else if d == 6 {
        '6'
    } else if d == 7 {
        '7'
    } else if d == 8 {
        '8'
    } else {
        '9'
    }
}

/// The decimal numeral of `n`, without leading zeros.
pub open spec fn decimal(n: nat) -> Seq<char>
    decreases n,
{
    if n < 10 {
        seq![digit(n)]
    } else {
        decimal(n / 10).push(digit(n % 10))
    }
}

/// The character of a decimal digit.
pub fn digit_exec(d: u64) -> (c: char)
    requires
        d < 10,
    ensures
        c == digit(d as nat),
{
    if d == 0 {
        '0'
    } else if d == 1 {
        '1'
    } else if d == 2 {
        '2'
    } else if d == 3 {
        '3'
    } else if d == 4 {
        '4'
    } else if d == 5 {
        '5'
    } else if d == 6 {
        '6'
    } else if d == 7 {
        '7'
    } else if d == 8 {
        '8'
    } else {
        '9'
    }
}

/// Appends the decimal numeral of `n` to `out`.
pub fn push_decimal(out: &mut String, n: u64)
    ensures
        final(out)@ == old(out)@ + decimal(n as nat),
{
    push_wide_decimal(out, n as u128);
}

/// Appends the decimal numeral of `n`, which may be beyond 64 bits, to
/// `out`.
pub fn push_wide_decimal(out: &mut String, n: u128)
    ensures
        final(out)@ == old(out)@ + decimal(n as nat),
    decreases n,
{
    if n >= 10 {
        push_wide_decimal(out, n / 10);
    }
    out.push(digit_exec((n % 10) as u64));
    proof {
        if n >= 10 {
            assert(old(out)@ + decimal(n as nat) == (old(out)@ + decimal((n / 10) as nat)).push(
                digit((n % 10) as nat),
            ));
        } else {
            assert(old(out)@ + seq![digit(n as nat)] == old(out)@.push(digit(n as nat)));
        }
    }
}

/// `s` behind as many spaces as bring it to `width` characters; `s` itself
/// if it has that many or more.
pub open spec fn right_justified(s: Seq<char>, width: nat) -> Seq<char> {
    if s.len() >= width {
        s
    } else {
        spaces((width - s.len()) as nat) + s
    }
}

/// Appends `s`, right-justified in `width` characters, to `out`.
pub fn push_right_justified(out: &mut String, s: &str, width: usize)
    ensures
        final(out)@ == old(out)@ + right_justified(s@, width as nat),
{
    let n = s.unicode_len();
    if n < width {
        push_spaces(out, width - n);
    }
    out.append(s);
    proof {
        if n < width {
            assert(old(out)@ + spaces((width - n) as nat) + s@ == old(out)@ + (spaces(
                (width - n) as nat,
            ) + s@));
        }
    }
}

/// The parts, one behind the other, with `sep` between each two.
pub open spec fn joined(parts: Seq<Seq<char>>, sep: char) -> Seq<char>
    decreases parts.len(),
{
    if parts.len() == 0 {
        Seq::empty()
    } else if parts.len() == 1 {
        parts[0]
    } else {
        joined(parts.drop_last(), sep) + seq![sep] + parts.last()
    }
}

/// A split has at least one part, and no part holds a separator.
pub proof fn lemma_split_parts(s: Seq<char>, sep: CharClass)
    ensures
        split(s, sep).len() >= 1,
        forall|i: int, k: int|
            0 <= i < split(s, sep).len() && 0 <= k < split(s, sep)[i].len() ==> !sep.holds(
                #[trigger] split(s, sep)[i][k],
            ),
    decreases s.len(),
{
    if s.len() > 0 {
        lemma_split_parts(s.drop_last(), sep);
    }
}

/// Splitting at a character loses nothing: the parts, joined with that
/// character, are the text.
pub proof fn lemma_split_joins_back(s: Seq<char>, sep: char)
    ensures
        joined(split(s, CharClass::Exactly(sep)), sep) == s,
    decreases s.len(),
{
    let class = CharClass::Exactly(sep);
    if s.len() > 0 {
        let head = s.drop_last();
        let before = split(head, class);
        lemma_split_parts(head, class);
        lemma_split_joins_back(head, sep);
        if s.last() == sep {
            let parts = before.push(Seq::empty());
            assert(parts.drop_last() == before);
            assert(joined(parts, sep) == joined(before, sep) + seq![sep] + Seq::<char>::empty());
            assert(joined(parts, sep) == head.push(sep));
        } else {
            let last = before.last().push(s.last());
            let parts = before.drop_last().push(last);
            assert(parts.drop_last() == before.drop_last());
            if before.len() == 1 {
                assert(joined(parts, sep) == last);
                assert(joined(before, sep) == before.last());
            } else {
                assert(joined(parts, sep) == joined(before.drop_last(), sep) + seq![sep] + last);
                assert(joined(before, sep) == joined(before.drop_last(), sep) + seq![sep]
                    + before.last());
                assert(joined(parts, sep) == joined(before, sep).push(s.last()));
            }
        }
        assert(head.push(s.last()) == s);
    }
}

/// What trimming cuts off at the front is of the class, and what is left
/// does not begin with a character of the class.
pub proof fn lemma_trim_start(s: Seq<char>, class: CharClass)
    ensures
        trim_start(s, class).len() <= s.len(),
        trim_start(s, class) == s.skip(s.len() - trim_start(s, class).len()),
        forall|k: int|
            0 <= k < s.len() - trim_start(s, class).len() ==> class.holds(#[trigger] s[k]),
        trim_start(s, class).len() > 0 ==> !class.holds(trim_start(s, class)[0]),
    decreases s.len(),
{
    if s.len() > 0 && class.holds(s[0]) {
        let rest = s.skip(1);
        lemma_trim_start(rest, class);
        let cut = s.len() - trim_start(s, class).len();
        assert(rest.skip(cut - 1) == s.skip(cut));
        assert forall|k: int| 0 <= k < cut implies class.holds(#[trigger] s[k]) by {
            if k > 0 {
                assert(s[k] == rest[k - 1]);
            }
        }
    } else {
        assert(s.skip(0) == s);
    }
}

/// What trimming cuts off at the end is of the class, and what is left
/// does not end with a character of the class.
pub proof fn lemma_trim_end(s: Seq<char>, class: CharClass)
    ensures
        trim_end(s, class).len() <= s.len(),
        trim_end(s, class) == s.take(trim_end(s, class).len() as int),
        forall|k: int| trim_end(s, class).len() <= k < s.len() ==> class.holds(#[trigger] s[k]),
        trim_end(s, class).len() > 0 ==> !class.holds(trim_end(s, class).last()),
    decreases s.len(),
{
    if s.len() > 0 && class.holds(s.last()) {
        let rest = s.drop_last();
        lemma_trim_end(rest, class);
        let kept = trim_end(s, class).len() as int;
        assert(rest.take(kept) == s.take(kept));
        assert forall|k: int| kept <= k < s.len() implies class.holds(#[trigger] s[k]) by {
            if k < s.len() - 1 {
                assert(s[k] == rest[k]);
            }
        }
    } else {
        assert(s.take(s.len() as int) == s);
    }
}

/// The number that a decimal digit stands for.
pub open spec fn digit_value(c: char) -> nat {
    if c == '1' {
        1
    } else if c == '2' {
        2
    } else if c == '3' {
        3
    } else if c == '4' {
        4
    } else if c == '5' {
        5
    } else if c == '6' {
        6
    } else if c == '7' {
        7
    } else if c == '8' {
        8
    } else if c == '9' {
        9
    } else {
        0
    }
}

/// The number that a decimal numeral stands for.
pub open spec fn numeral_value(digits: Seq<char>) -> nat
    decreases digits.len(),
{
    if digits.len() == 0 {
        0
    } else {
        numeral_value(digits.drop_last()) * 10 + digit_value(digits.last())
    }
}

/// The decimal numeral of a number is made of digits, stands for the
/// number, and begins with a zero only if the number is zero.
pub proof fn lemma_decimal(n: nat)
    ensures
        decimal(n).len() >= 1,
        forall|k: int| 0 <= k < decimal(n).len() ==> '0' <= #[trigger] decimal(n)[k] <= '9',
        numeral_value(decimal(n)) == n,
        n > 0 ==> decimal(n)[0] != '0',
    decreases n,
{
    if n < 10 {
        assert(decimal(n).drop_last() == Seq::<char>::empty());
        assert(numeral_value(decimal(n)) == numeral_value(Seq::<char>::empty()) * 10 + digit_value(
            digit(n),
        ));
    } else {
        lemma_decimal(n / 10);
        assert(decimal(n).drop_last() == decimal(n / 10));
        assert(decimal(n)[0] == decimal(n / 10)[0]);
    }
}

} // verus!
