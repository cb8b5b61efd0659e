//! The visible part of a text that holds color escape sequences.
//!
//! An escape sequence is the escape character, `[`, and then everything up
//! to and including the next ASCII letter. It takes no room on the screen.
//! Every other character takes one column.

use vstd::prelude::*;
use vstd::string::*;
use crate::text::{char_is_ascii_alphabetic, chars_of, is_ascii_alphabetic};

verus! {

/// The escape character.
pub const ESC: char = '\x1b';

/// Where a scan stands between two characters.
#[derive(Clone, Copy, Debug, PartialEq, Eq, Structural)]
pub enum ScanState {
    /// Outside any escape sequence.
    Ground,
    /// Just behind an escape character.
    Escape,
    /// Inside an escape sequence, behind its `[`.
    Sequence,
}

/// The state behind `c`, read in `state`.
pub open spec fn step(state: ScanState, c: char) -> ScanState {
    match state {
        ScanState::Sequence => if is_ascii_alphabetic(c) {
            ScanState::Ground
        } else {
            ScanState::Sequence
        },
        ScanState::Escape => if c == '[' {
            ScanState::Sequence
        } else if c == ESC {
            ScanState::Escape
        } else {
            ScanState::Ground
        },
        ScanState::Ground => if c == ESC {
            ScanState::Escape
        } else {
            ScanState::Ground
        },
    }
}

/// Whether `c`, read in `state`, is shown on the screen.
pub open spec fn shows(state: ScanState, c: char) -> bool {
    match state {
        ScanState::Sequence => false,
        ScanState::Escape => c != '[' && c != ESC,
        ScanState::Ground => c != ESC,
    }
}

/// The state behind `s`, read from `state` on.
pub open spec fn scan_from(state: ScanState, s: Seq<char>) -> ScanState
    decreases s.len(),
{
    if s.len() == 0 {
        state
    } else {
        step(scan_from(state, s.drop_last()), s.last())
    }
}

/// The characters of `s` that are shown, when `s` is read from `state` on.
pub open spec fn visible_from(state: ScanState, s: Seq<char>) -> Seq<char>
    decreases s.len(),
{
    if s.len() == 0 {
        Seq::empty()
    } else if shows(scan_from(state, s.drop_last()), s.last()) {
        visible_from(state, s.drop_last()).push(s.last())
    } else {
        visible_from(state, s.drop_last())
    }
}

/// The state behind a whole text.
pub open spec fn scan(s: Seq<char>) -> ScanState {
    scan_from(ScanState::Ground, s)
}

/// The characters of a text that are shown.
pub open spec fn visible(s: Seq<char>) -> Seq<char> {
    visible_from(ScanState::Ground, s)
}

/// The number of columns that a text takes on the screen.
pub open spec fn visible_width(s: Seq<char>) -> nat {
    visible(s).len()
}

/// The state behind `c`, read in `state`, and whether `c` is shown.
pub fn step_exec(state: ScanState, c: char) -> (next: (ScanState, bool))
    ensures
        next.0 == step(state, c),
        next.1 == shows(state, c),
{
    match state {
        ScanState::Sequence => if char_is_ascii_alphabetic(c) {
            (ScanState::Ground, false)
        } else {
            (ScanState::Sequence, false)
        },
        ScanState::Escape => if c == '[' {
            (ScanState::Sequence, false)
        } else if c == ESC {
            (ScanState::Escape, false)
        } else {
            (ScanState::Ground, true)
        },
        ScanState::Ground => if c == ESC {
            (ScanState::Escape, false)
        } else {
            (ScanState::Ground, true)
        },
    }
}

/// The text without its escape sequences.
pub fn strip(text: &str) -> (shown: String)
    ensures
        shown@ == visible(text@),
{
    let chars = chars_of(text);
    let mut shown = String::new();
    let mut state = ScanState::Ground;
    let mut i: usize = 0;
    while i < chars.len()
        invariant
            i <= chars.len(),
            state == scan(chars@.take(i as int)),
            shown@ == visible(chars@.take(i as int)),
        decreases chars.len() - i,
    {
        proof {
            let more = chars@.take(i + 1);
            assert(more.drop_last() == chars@.take(i as int));
            assert(more.last() == chars@[i as int]);
        }
        let (next, show) = step_exec(state, chars[i]);
        if show {
            shown.push(chars[i]);
        }
        state = next;
        i += 1;
    }
    assert(chars@.take(chars.len() as int) == chars@);
    shown
}

/// The number of columns that the text takes on the screen.
pub fn width(text: &str) -> (columns: usize)
    ensures
        columns == visible_width(text@),
{
    strip(text).as_str().unicode_len()
}

/// Reading `a + b` is reading `a` and then `b` from where `a` ended.
pub proof fn lemma_visible_concat(state: ScanState, a: Seq<char>, b: Seq<char>)
    ensures
        scan_from(state, a + b) == scan_from(scan_from(state, a), b),
        visible_from(state, a + b) == visible_from(state, a) + visible_from(
            scan_from(state, a),
            b,
        ),
    decreases b.len(),
{
    if b.len() == 0 {
        assert(a + b == a);
    } else {
        assert((a + b).drop_last() == a + b.drop_last());
        assert((a + b).last() == b.last());
        lemma_visible_concat(state, a, b.drop_last());
    }
}

/// A text without an escape character is shown whole: its width is its
/// number of characters.
pub proof fn lemma_plain_text_is_visible(s: Seq<char>)
    requires
        !s.contains(ESC),
    ensures
        scan(s) == ScanState::Ground,
        visible(s) == s,
        visible_width(s) == s.len(),
    decreases s.len(),
{
    if s.len() > 0 {
        let head = s.drop_last();
        assert forall|i: int| 0 <= i < head.len() implies head[i] != ESC by {
            assert(s.contains(s[i]));
        }
        assert(s.contains(s.last()));
        lemma_plain_text_is_visible(head);
        assert(head.push(s.last()) == s);
    }
}

/// One part of a text: a character that is shown, or an escape sequence.
pub enum Piece {
    /// A character other than the escape character.
    Visible(char),
    /// The escape character, `[`, the parameters and the closing letter.
    Escape { parameters: Seq<char>, letter: char },
}

impl Piece {
    /// A visible character is not the escape character; the parameters of
    /// an escape sequence hold no ASCII letter, and an ASCII letter closes
    /// it.
    pub open spec fn well_formed(self) -> bool {
        match self {
            Piece::Visible(c) => c != ESC,
            Piece::Escape { parameters, letter } => {
                &&& is_ascii_alphabetic(letter)
                &&& forall|i: int|
                    0 <= i < parameters.len() ==> !is_ascii_alphabetic(#[trigger] parameters[i])
            },
        }
    }

    /// The characters of the piece.
    pub open spec fn text(self) -> Seq<char> {
        match self {
            Piece::Visible(c) => seq![c],
            Piece::Escape { parameters, letter } => seq![ESC, '['] + parameters + seq![letter],
        }
    }
}

/// The text that the pieces make, one behind the other.
pub open spec fn assembled(parts: Seq<Piece>) -> Seq<char>
    decreases parts.len(),
{
    if parts.len() == 0 {
        Seq::empty()
    } else {
        assembled(parts.drop_last()) + parts.last().text()
    }
}

/// The visible characters among the pieces, in order.
pub open spec fn visible_pieces(parts: Seq<Piece>) -> Seq<char>
    decreases parts.len(),
{
    if parts.len() == 0 {
        Seq::empty()
    } else {
        match parts.last() {
            Piece::Visible(c) => visible_pieces(parts.drop_last()).push(c),
            Piece::Escape { .. } => visible_pieces(parts.drop_last()),
        }
    }
}

/// Inside an escape sequence, characters that are no ASCII letters keep
/// the scan inside and show nothing.
proof fn lemma_parameters_are_hidden(parameters: Seq<char>)
    requires
        forall|i: int| 0 <= i < parameters.len() ==> !is_ascii_alphabetic(#[trigger] parameters[i]),
    ensures
        scan_from(ScanState::Sequence, parameters) == ScanState::Sequence,
        visible_from(ScanState::Sequence, parameters) == Seq::<char>::empty(),
    decreases parameters.len(),
{
    if parameters.len() > 0 {
        lemma_parameters_are_hidden(parameters.drop_last());
    }
}

/// A well-formed piece, read outside any escape sequence, ends outside any
/// escape sequence; it shows its character if it is a visible one, and
/// nothing otherwise.
pub proof fn lemma_piece(piece: Piece)
    requires
        piece.well_formed(),
    ensures
        scan(piece.text()) == ScanState::Ground,
        visible(piece.text()) == visible_pieces(seq![piece]),
{
    reveal_with_fuel(scan_from, 3);
    reveal_with_fuel(visible_from, 3);
    reveal_with_fuel(visible_pieces, 2);
    assert(seq![piece].drop_last() == Seq::<Piece>::empty());
    match piece {
        Piece::Visible(c) => {
            assert(seq![c].drop_last() == Seq::<char>::empty());
        },
        Piece::Escape { parameters, letter } => {
            let open = seq![ESC, '['];
            assert(open.drop_last() == seq![ESC]);
            assert(seq![ESC].drop_last() == Seq::<char>::empty());
            assert(scan(open) == ScanState::Sequence);
            assert(visible(open) == Seq::<char>::empty());
            lemma_parameters_are_hidden(parameters);
            lemma_visible_concat(ScanState::Ground, open, parameters);
            assert(seq![letter].drop_last() == Seq::<char>::empty());
            lemma_visible_concat(ScanState::Ground, open + parameters, seq![letter]);
        },
    }
}

/// Whether a text shows nothing and ends outside any escape sequence.
pub open spec fn is_invisible(s: Seq<char>) -> bool {
    scan(s) == ScanState::Ground && visible(s).len() == 0
}

/// A well-formed escape sequence shows nothing and ends outside any escape
/// sequence.
pub proof fn lemma_escape_is_invisible(parameters: Seq<char>, letter: char)
    requires
        (Piece::Escape { parameters, letter }).well_formed(),
    ensures
        is_invisible(seq![ESC, '['] + parameters + seq![letter]),
{
    let piece = Piece::Escape { parameters, letter };
    lemma_piece(piece);
    reveal_with_fuel(visible_pieces, 2);
    assert(seq![piece].drop_last() == Seq::<Piece>::empty());
}

/// Of a text made of visible characters and well-formed escape sequences,
/// exactly the visible characters are shown, and the text ends outside any
/// escape sequence. Its width is the number of its visible characters.
pub proof fn lemma_width_counts_visible_characters(parts: Seq<Piece>)
    requires
        forall|i: int| 0 <= i < parts.len() ==> (#[trigger] parts[i]).well_formed(),
    ensures
        scan(assembled(parts)) == ScanState::Ground,
        visible(assembled(parts)) == visible_pieces(parts),
        visible_width(assembled(parts)) == visible_pieces(parts).len(),
    decreases parts.len(),
{
    if parts.len() > 0 {
        let head = parts.drop_last();
        let last = parts.last();
        lemma_width_counts_visible_characters(head);
        lemma_piece(last);
        lemma_visible_concat(ScanState::Ground, assembled(head), last.text());
        reveal_with_fuel(visible_pieces, 2);
        assert(seq![last].drop_last() == Seq::<Piece>::empty());
    }
}

} // verus!
