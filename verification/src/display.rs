//! The renderer: the logo beside the facts, the facts alone, the short
//! form, and the structured document.
//!
//! Nothing here writes to the terminal. Every function that prints appends
//! its lines, without line ends, to an output that the caller hands in.

use vstd::prelude::*;
use vstd::string::*;
use crate::ansi::{
    is_invisible, lemma_escape_is_invisible, lemma_plain_text_is_visible, lemma_visible_concat,
    scan, scan_from, strip, visible, visible_from, visible_width, width, ScanState, ESC,
};
use crate::art::{CYAN, WHITE};
use crate::ascii::{
    default_model, get_default_logo, get_distro_logo, lemma_default_logo_is_well_formed,
    lemma_logos_are_well_formed, selected, Logo, LogoView,
};
use crate::config::Config;
use crate::json::{document, pretty_json, render_document, JsonError};
use crate::system_info::{
    memory_text, reading, uptime_text, SystemInfo, SystemInfoView,
};
use crate::text::{
    chars_of, first_some, lines, lines_exec, owned, pieces, push_line,
    push_right_justified, push_spaces, right_justified, spaces, starts_with, starts_with_exec,
    string_of_range, tail, texts, trim_bounds, trim_class, CharClass,
};

verus! {

/// The escape sequence that ends a color.
pub const RESET: &'static str = "\x1b[0m";

/// The width of the field in which a label stands.
pub const LABEL_WIDTH: usize = 20;

/// What is shown.
pub struct Display {
    pub show_logo: bool,
    pub show_colors: bool,
}

/// A label, right-justified in its field, and the colon behind it.
pub open spec fn label_field(label: Seq<char>) -> Seq<char> {
    right_justified(label, LABEL_WIDTH as nat) + ": "@
}

/// One labelled fact. With colors, the label stands in cyan and the value
/// in `color`.
pub open spec fn info_line(
    colors: bool,
    label: Seq<char>,
    value: Seq<char>,
    color: Seq<char>,
) -> Seq<char> {
    if colors {
        CYAN@ + label_field(label) + RESET@ + color + value + RESET@
    } else {
        label_field(label) + value
    }
}

/// The labels of the facts, in the order in which they are shown.
pub open spec fn labels() -> Seq<Seq<char>> {
    seq![
        "User"@,
        "Hostname"@,
        "OS"@,
        "Kernel"@,
        "Uptime"@,
        "Shell"@,
        "Terminal"@,
        "Desktop Environment"@,
        "CPU"@,
        "GPU"@,
        "Memory"@,
    ]
}

/// The facts of a snapshot as they are shown, in the order of `labels`.
pub open spec fn values(info: SystemInfoView) -> Seq<Seq<char>> {
    seq![
        info.username,
        info.hostname,
        info.os_name,
        info.kernel_version,
        uptime_text(info.uptime),
        info.shell,
        info.terminal,
        info.desktop_environment,
        info.cpu_info,
        info.gpu_info,
        memory_text(info.memory_used, info.memory_total),
    ]
}

/// The eleven labelled facts of a snapshot.
pub open spec fn info_lines(colors: bool, info: SystemInfoView) -> Seq<Seq<char>> {
    Seq::new(11, |i: int| info_line(colors, labels()[i], values(info)[i], WHITE@))
}

/// The color of line `line` of a logo with `palette` colors: one color
/// paints every line; two take turns; three paint the lines 0 to 2, 3 to 5
/// and the rest; more are taken in turn.
pub open spec fn color_index(palette: nat, line: nat) -> nat
    recommends
        palette > 0,
{
    if palette == 1 {
        0
    } else if palette == 2 {
        line % 2
    } else if palette == 3 {
        if line <= 2 {
            0
        } else if line <= 5 {
            1
        } else {
            2
        }
    } else {
        line % palette
    }
}

/// Line `i` of a logo in its color.
pub open spec fn painted_line(logo: LogoView, i: int) -> Seq<char> {
    logo.colors[color_index(logo.colors.len(), i as nat) as int] + logo.lines[i] + RESET@
}

/// The lines of a logo as they are shown: in their colors, if colors are
/// shown and the logo has any.
pub open spec fn painted(colors: bool, logo: LogoView) -> Seq<Seq<char>> {
    if colors && logo.colors.len() > 0 {
        Seq::new(logo.lines.len(), |i: int| painted_line(logo, i))
    } else {
        logo.lines
    }
}

/// The logo of the system that an identifier names, whatever its case; the
/// default logo where it names none.
pub open spec fn chosen_logo(os_id: Seq<char>) -> LogoView {
    match selected(os_id) {
        Some(distro) => distro.model(),
        None => default_model(),
    }
}

/// The value of an `ID=` line of the release file, without the double
/// quotes around it.
pub open spec fn id_of(line: Seq<char>) -> Option<Seq<char>> {
    if starts_with(line, "ID="@) {
        Some(trim_class(line.skip(3), CharClass::Exactly('"')))
    } else {
        None
    }
}

/// The identifier of the system: the value of the first `ID=` line of the
/// release file. Where the file could not be read, has no such line, or
/// the value is empty, the identifier is `linux`.
pub open spec fn os_id(release_file: Option<Seq<char>>) -> Seq<char> {
    match release_file {
        Some(content) => match first_some(lines(content), |line: Seq<char>| id_of(line)) {
            Some(id) => if id.len() == 0 {
                "linux"@
            } else {
                id
            },
            None => "linux"@,
        },
        None => "linux"@,
    }
}

/// The greatest width among the lines; zero where there is none.
pub open spec fn widest(rows: Seq<Seq<char>>) -> nat
    decreases rows.len(),
{
    if rows.len() == 0 {
        0
    } else if visible_width(rows.last()) > widest(rows.drop_last()) {
        visible_width(rows.last())
    } else {
        widest(rows.drop_last())
    }
}

/// Line `i`, or the empty line where there is none.
pub open spec fn line_or_empty(rows: Seq<Seq<char>>, i: int) -> Seq<char> {
    if 0 <= i < rows.len() {
        rows[i]
    } else {
        Seq::empty()
    }
}

/// The left column of row `i`: the line of the logo, and spaces up to two
/// columns behind the widest line.
pub open spec fn left_column(logo: Seq<Seq<char>>, i: int) -> Seq<char> {
    let line = line_or_empty(logo, i);
    line + spaces((widest(logo) - visible_width(line) + 2) as nat)
}

/// Row `i` of the two columns: the left column, a space, and the fact.
pub open spec fn row(logo: Seq<Seq<char>>, facts: Seq<Seq<char>>, i: int) -> Seq<char> {
    left_column(logo, i) + " "@ + line_or_empty(facts, i)
}

/// The number of rows of the two columns.
pub open spec fn row_count(logo: Seq<Seq<char>>, facts: Seq<Seq<char>>) -> nat {
    if logo.len() >= facts.len() {
        logo.len()
    } else {
        facts.len()
    }
}

/// The rows of the two columns, one for each line of the longer column.
pub open spec fn rows(logo: Seq<Seq<char>>, facts: Seq<Seq<char>>) -> Seq<Seq<char>> {
    Seq::new(row_count(logo, facts), |i: int| row(logo, facts, i))
}

/// A block of lines between two empty lines.
pub open spec fn bracketed(block: Seq<Seq<char>>) -> Seq<Seq<char>> {
    seq![Seq::<char>::empty()] + block + seq![Seq::<char>::empty()]
}

/// The short form: who and where, then six facts.
pub open spec fn minimal_lines(info: SystemInfoView) -> Seq<Seq<char>> {
    seq![
        info.username + "@"@ + info.hostname,
        "OS: "@ + info.os_name,
        "Kernel: "@ + info.kernel_version,
        "Uptime: "@ + uptime_text(info.uptime),
        "CPU: "@ + info.cpu_info,
        "GPU: "@ + info.gpu_info,
        "Memory: "@ + memory_text(info.memory_used, info.memory_total),
    ]
}

/// What the full form shows: the two columns if the logo is shown, the
/// facts alone if not; in either case between two empty lines.
pub open spec fn full_lines(
    show_logo: bool,
    colors: bool,
    logo: LogoView,
    info: SystemInfoView,
) -> Seq<Seq<char>> {
    if show_logo {
        bracketed(rows(painted(colors, logo), info_lines(colors, info)))
    } else {
        bracketed(info_lines(colors, info))
    }
}

/// No line is wider than the widest.
pub proof fn lemma_widest_bounds(rows: Seq<Seq<char>>, i: int)
    requires
        0 <= i < rows.len(),
    ensures
        visible_width(rows[i]) <= widest(rows),
    decreases rows.len(),
{
    if i < rows.len() - 1 {
        lemma_widest_bounds(rows.drop_last(), i);
    }
}

/// The escape sequence that ends a color shows nothing and ends outside
/// any escape sequence.
pub proof fn lemma_reset_is_invisible()
    ensures
        is_invisible(RESET@),
{
    reveal_strlit("\x1b[0m");
    lemma_escape_is_invisible(seq!['0'], 'm');
    assert(RESET@ =~= seq![ESC, '['] + seq!['0'] + seq!['m']);
}

/// A well-formed logo shows its art, in colors or not: every line as it
/// is shown ends outside any escape sequence, and what is seen of it is
/// the line of the art.
pub proof fn lemma_painted_shows_the_art(colors: bool, logo: LogoView, i: int)
    requires
        logo.well_formed(),
        0 <= i < logo.lines.len(),
    ensures
        painted(colors, logo).len() == logo.lines.len(),
        scan(painted(colors, logo)[i]) == ScanState::Ground,
        visible(painted(colors, logo)[i]) == logo.lines[i],
{
    let art = logo.lines[i];
    lemma_plain_text_is_visible(art);
    if colors && logo.colors.len() > 0 {
        let at = color_index(logo.colors.len(), i as nat) as int;
        assert(0 <= at < logo.colors.len()) by (nonlinear_arith)
            requires
                at == color_index(logo.colors.len(), i as nat),
                logo.colors.len() > 0,
                i >= 0,
        {
        }
        let color = logo.colors[at];
        lemma_reset_is_invisible();
        lemma_visible_concat(ScanState::Ground, color, art);
        lemma_visible_concat(ScanState::Ground, color + art, RESET@);
        assert(visible(color) =~= Seq::<char>::empty());
        assert(visible(RESET@) =~= Seq::<char>::empty());
        assert(visible(painted_line(logo, i)) =~= art);
    }
}

/// Beside a well-formed logo the facts stand in one column: the left
/// column of every row, also of a row below the logo, is two columns wider
/// than the widest line of the logo as it is shown.
pub proof fn lemma_rows_align(colors: bool, logo: LogoView, i: int)
    requires
        logo.well_formed(),
    ensures
        visible_width(left_column(painted(colors, logo), i)) == widest(painted(colors, logo)) + 2,
{
    let shown = painted(colors, logo);
    assert forall|k: int| 0 <= k < shown.len() implies scan(#[trigger] shown[k])
        != ScanState::Sequence by {
        lemma_painted_shows_the_art(colors, logo, k);
    }
    lemma_left_columns_align(shown, i);
}

/// The logo that an identifier chooses is well formed, whatever the
/// identifier.
pub proof fn lemma_chosen_logo_is_well_formed(os_id: Seq<char>)
    ensures
        chosen_logo(os_id).well_formed(),
{
    match selected(os_id) {
        Some(distro) => lemma_logos_are_well_formed(distro),
        None => lemma_default_logo_is_well_formed(),
    }
}

/// Beside the logo that an identifier chooses, the left columns of any two
/// rows are of the same width, in colors or not.
pub proof fn lemma_side_by_side_aligns(colors: bool, os_id: Seq<char>, i: int, j: int)
    ensures
        visible_width(left_column(painted(colors, chosen_logo(os_id)), i)) == visible_width(
            left_column(painted(colors, chosen_logo(os_id)), j),
        ),
{
    lemma_chosen_logo_is_well_formed(os_id);
    lemma_rows_align(colors, chosen_logo(os_id), i);
    lemma_rows_align(colors, chosen_logo(os_id), j);
}

/// Spaces that follow a text which does not end inside an escape sequence
/// are all shown.
proof fn lemma_padding_is_shown(state: ScanState, n: nat)
    requires
        state != ScanState::Sequence,
    ensures
        visible_from(state, spaces(n)) == spaces(n),
        scan_from(state, spaces(n)) == (if n == 0 {
            state
        } else {
            ScanState::Ground
        }),
    decreases n,
{
    if n > 0 {
        lemma_padding_is_shown(state, (n - 1) as nat);
        assert(spaces(n).drop_last() == spaces((n - 1) as nat));
        assert(spaces((n - 1) as nat).push(' ') == spaces(n));
    }
}

/// The left columns align: where no line of the logo ends inside an
/// escape sequence, the left column of every row, also of a row below the
/// logo, is two columns wider than the widest line of the logo.
pub proof fn lemma_left_columns_align(logo: Seq<Seq<char>>, i: int)
    requires
        forall|k: int| 0 <= k < logo.len() ==> scan(#[trigger] logo[k]) != ScanState::Sequence,
    ensures
        visible_width(left_column(logo, i)) == widest(logo) + 2,
{
    let line = line_or_empty(logo, i);
    if 0 <= i < logo.len() {
        lemma_widest_bounds(logo, i);
    }
    let n = (widest(logo) - visible_width(line) + 2) as nat;
    lemma_padding_is_shown(scan(line), n);
    lemma_visible_concat(ScanState::Ground, line, spaces(n));
}

/// Appends `text` to `out`.
fn push_text(out: &mut String, text: &str)
    ensures
        final(out)@ == old(out)@ + text@,
{
    out.append(text);
}

/// The greatest width among the lines.
pub fn widest_exec(rows: &Vec<String>) -> (most: usize)
    ensures
        most == widest(texts(rows@)),
{
    let mut most: usize = 0;
    let mut i: usize = 0;
    assert(texts(rows@).take(0) == Seq::<Seq<char>>::empty());
    while i < rows.len()
        invariant
            i <= rows.len(),
            most == widest(texts(rows@).take(i as int)),
        decreases rows.len() - i,
    {
        proof {
            let more = texts(rows@).take(i + 1);
            assert(more.drop_last() == texts(rows@).take(i as int));
            assert(more.last() == rows@[i as int]@);
        }
        let w = width(rows[i].as_str());
        if w > most {
            most = w;
        }
        i += 1;
    }
    assert(texts(rows@).take(rows.len() as int) == texts(rows@));
    most
}

/// Appends the rows of the two columns to the output.
pub fn print_columns(logo: &Vec<String>, facts: &Vec<String>, out: &mut Vec<String>)
    ensures
        texts(final(out)@) == texts(old(out)@) + rows(texts(logo@), texts(facts@)),
{
    let count = if logo.len() >= facts.len() {
        logo.len()
    } else {
        facts.len()
    };
    let most = widest_exec(logo);
    let mut i: usize = 0;
    assert(texts(out@) =~= texts(old(out)@) + rows(texts(logo@), texts(facts@)).take(0));
    while i < count
        invariant
            i <= count,
            count == row_count(texts(logo@), texts(facts@)),
            most == widest(texts(logo@)),
            texts(out@) == texts(old(out)@) + rows(texts(logo@), texts(facts@)).take(i as int),
        decreases count - i,
    {
        let mut line = String::new();
        let shown: usize = if i < logo.len() {
            push_text(&mut line, logo[i].as_str());
            width(logo[i].as_str())
        } else {
            0
        };
        proof {
            assert(line@ =~= line_or_empty(texts(logo@), i as int));
            if i < logo.len() {
                lemma_widest_bounds(texts(logo@), i as int);
            }
        }
        push_spaces(&mut line, most - shown);
        push_spaces(&mut line, 2);
        push_text(&mut line, " ");
        if i < facts.len() {
            push_text(&mut line, facts[i].as_str());
        }
        proof {
            let n = (most - shown) as nat;
            assert(spaces(n) + spaces(2) =~= spaces(n + 2));
            assert(line@ =~= row(texts(logo@), texts(facts@), i as int));
        }
        push_line(out, line);
        i += 1;
        assert(texts(out@) =~= texts(old(out)@) + rows(texts(logo@), texts(facts@)).take(
            i as int,
        ));
    }
    assert(rows(texts(logo@), texts(facts@)).take(count as int) == rows(
        texts(logo@),
        texts(facts@),
    ));
}

/// Appends the lines to the output.
fn push_lines(out: &mut Vec<String>, block: Vec<String>)
    ensures
        texts(final(out)@) == texts(old(out)@) + texts(block@),
{
    let mut block = block;
    let ghost all = texts(block@);
    out.append(&mut block);
    assert(texts(out@) =~= texts(old(out)@) + all);
}

/// The place in the palette of the color of a line.
pub fn color_index_exec(palette: usize, line: usize) -> (index: usize)
    requires
        palette > 0,
    ensures
        index == color_index(palette as nat, line as nat),
        index < palette,
{
    if palette == 1 {
        0
    } else if palette == 2 {
        line % 2
    } else if palette == 3 {
        if line <= 2 {
            0
        } else if line <= 5 {
            1
        } else {
            2
        }
    } else {
        line % palette
    }
}

impl Display {
    /// Logo and colors are shown.
    pub fn new() -> (display: Display)
        ensures
            display.show_logo,
            display.show_colors,
    {
        Display { show_logo: true, show_colors: true }
    }

    /// What the command line asked to show.
    pub fn from_config(config: &Config) -> (display: Display)
        ensures
            display.show_logo == !config.no_logo,
            display.show_colors == !config.no_color,
    {
        Display { show_logo: !config.no_logo, show_colors: !config.no_color }
    }

    /// The text without its escape sequences.
    pub fn strip_ansi_codes(&self, text: &str) -> (shown: String)
        ensures
            shown@ == visible(text@),
            shown@.len() == visible_width(text@),
    {
        strip(text)
    }

    /// One labelled fact.
    pub fn format_info_line(&self, label: &str, value: &str, color: &str) -> (line: String)
        ensures
            line@ == info_line(self.show_colors, label@, value@, color@),
    {
        let mut line = String::new();
        if self.show_colors {
            push_text(&mut line, CYAN);
        }
        push_right_justified(&mut line, label, LABEL_WIDTH);
        push_text(&mut line, ": ");
        if self.show_colors {
            push_text(&mut line, RESET);
            push_text(&mut line, color);
        }
        push_text(&mut line, value);
        if self.show_colors {
            push_text(&mut line, RESET);
        }
        proof {
            let field = label_field(label@);
            assert(right_justified(label@, LABEL_WIDTH as nat) + ": "@ == field);
            if self.show_colors {
                assert(line@ =~= CYAN@ + field + RESET@ + color@ + value@ + RESET@);
            } else {
                assert(line@ =~= field + value@);
            }
        }
        line
    }

    /// The eleven labelled facts of a snapshot.
    pub fn get_info_lines(&self, info: &SystemInfo) -> (facts: Vec<String>)
        ensures
            texts(facts@) == info_lines(self.show_colors, info@),
    {
        let mut facts: Vec<String> = Vec::new();
        facts.push(self.format_info_line("User", info.username.as_str(), WHITE));
        facts.push(self.format_info_line("Hostname", info.hostname.as_str(), WHITE));
        facts.push(self.format_info_line("OS", info.os_name.as_str(), WHITE));
        facts.push(self.format_info_line("Kernel", info.kernel_version.as_str(), WHITE));
        facts.push(self.format_info_line("Uptime", info.format_uptime().as_str(), WHITE));
        facts.push(self.format_info_line("Shell", info.shell.as_str(), WHITE));
        facts.push(self.format_info_line("Terminal", info.terminal.as_str(), WHITE));
        facts.push(
            self.format_info_line("Desktop Environment", info.desktop_environment.as_str(), WHITE),
        );
        facts.push(self.format_info_line("CPU", info.cpu_info.as_str(), WHITE));
        facts.push(self.format_info_line("GPU", info.gpu_info.as_str(), WHITE));
        facts.push(self.format_info_line("Memory", info.format_memory().as_str(), WHITE));
        assert(texts(facts@) =~= info_lines(self.show_colors, info@));
        facts
    }

    /// The identifier of the system, from the content of the release file.
    pub fn get_os_name(release_file: Option<&str>) -> (id: String)
        ensures
            id@ == os_id(reading(release_file)),
            release_file is None ==> id@ == "linux"@,
    {
        let content = match release_file {
            Some(content) => chars_of(content),
            None => {
                return owned("linux");
            },
        };
        let all = lines_exec(&content);
        let prefix = chars_of("ID=");
        let ghost f = |line: Seq<char>| id_of(line);
        let mut i: usize = 0;
        assert(pieces(all@).skip(0) == pieces(all@));
        while i < all.len()
            invariant
                i <= all.len(),
                prefix@ == "ID="@,
                reading(release_file) == Some(content@),
                pieces(all@) == lines(content@),
                f == |line: Seq<char>| id_of(line),
                first_some(pieces(all@), f) == first_some(pieces(all@).skip(i as int), f),
            decreases all.len() - i,
        {
            proof {
                assert(pieces(all@).skip(i as int)[0] == all@[i as int]@);
                assert(pieces(all@).skip(i as int).skip(1) == pieces(all@).skip(i + 1));
            }
            if starts_with_exec(&all[i], &prefix) {
                proof {
                    reveal_strlit("ID=");
                }
                let value = tail(&all[i], 3);
                let (lo, hi) = trim_bounds(&value, CharClass::Exactly('"'));
                if lo == hi {
                    return owned("linux");
                }
                return string_of_range(&value, lo, hi);
            }
            i += 1;
        }
        owned("linux")
    }

    /// The lines of a logo as they are shown.
    pub fn paint(&self, logo: &Logo) -> (shown: Vec<String>)
        ensures
            texts(shown@) == painted(self.show_colors, logo@),
    {
        let mut shown: Vec<String> = Vec::new();
        let colored = self.show_colors && logo.colors.len() > 0;
        let mut i: usize = 0;
        while i < logo.lines.len()
            invariant
                i <= logo.lines.len(),
                colored == (self.show_colors && logo.colors.len() > 0),
                shown@.len() == i,
                forall|k: int|
                    0 <= k < i ==> (#[trigger] shown@[k])@ == painted(self.show_colors, logo@)[k],
            decreases logo.lines.len() - i,
        {
            let mut line = String::new();
            if colored {
                let at = color_index_exec(logo.colors.len(), i);
                push_text(&mut line, logo.colors[at]);
                push_text(&mut line, logo.lines[i]);
                push_text(&mut line, RESET);
                assert(line@ =~= painted_line(logo@, i as int));
            } else {
                push_text(&mut line, logo.lines[i]);
                assert(line@ =~= logo@.lines[i as int]);
            }
            shown.push(line);
            i += 1;
        }
        assert(texts(shown@) =~= painted(self.show_colors, logo@));
        shown
    }

    /// The lines of the logo of the system that `os_id` names, as they are
    /// shown.
    pub fn print_logo(&self, os_id: &str) -> (shown: Vec<String>)
        ensures
            texts(shown@) == painted(self.show_colors, chosen_logo(os_id@)),
    {
        let logo = match get_distro_logo(os_id) {
            Some(logo) => logo,
            None => get_default_logo(),
        };
        self.paint(&logo)
    }

    /// Appends the given logo beside the facts, between two empty lines.
    pub fn print_beside(&self, logo: &Logo, info: &SystemInfo, out: &mut Vec<String>)
        ensures
            texts(final(out)@) == texts(old(out)@) + bracketed(
                rows(painted(self.show_colors, logo@), info_lines(self.show_colors, info@)),
            ),
            texts(final(out)@).len() == texts(old(out)@).len() + (if logo@.lines.len() >= 11 {
                logo@.lines.len()
            } else {
                11
            }) + 2,
    {
        let shown = self.paint(logo);
        let facts = self.get_info_lines(info);
        push_line(out, String::new());
        print_columns(&shown, &facts, out);
        push_line(out, String::new());
        assert(texts(out@) =~= texts(old(out)@) + bracketed(rows(texts(shown@), texts(facts@))));
    }

    /// Appends the logo of the system that `os_id` names beside the facts,
    /// between two empty lines.
    pub fn print_side_by_side_info(&self, info: &SystemInfo, os_id: &str, out: &mut Vec<String>)
        ensures
            texts(final(out)@) == texts(old(out)@) + bracketed(
                rows(
                    painted(self.show_colors, chosen_logo(os_id@)),
                    info_lines(self.show_colors, info@),
                ),
            ),
            texts(final(out)@).len() == texts(old(out)@).len() + (if chosen_logo(
                os_id@,
            ).lines.len() >= 11 {
                chosen_logo(os_id@).lines.len()
            } else {
                11
            }) + 2,
    {
        let logo = match get_distro_logo(os_id) {
            Some(logo) => logo,
            None => get_default_logo(),
        };
        self.print_beside(&logo, info, out);
    }

    /// Appends one labelled fact.
    pub fn print_info_line(&self, label: &str, value: &str, color: &str, out: &mut Vec<String>)
        ensures
            texts(final(out)@) == texts(old(out)@).push(
                info_line(self.show_colors, label@, value@, color@),
            ),
    {
        push_line(out, self.format_info_line(label, value, color));
    }

    /// Appends the facts, between two empty lines.
    pub fn print_info_section(&self, info: &SystemInfo, out: &mut Vec<String>)
        ensures
            texts(final(out)@) == texts(old(out)@) + bracketed(info_lines(self.show_colors, info@)),
            texts(final(out)@).len() == texts(old(out)@).len() + 13,
    {
        push_line(out, String::new());
        push_lines(out, self.get_info_lines(info));
        push_line(out, String::new());
        assert(texts(out@) =~= texts(old(out)@) + bracketed(info_lines(self.show_colors, info@)));
    }

    /// Appends the full form: the logo of the system that `os_id` names
    /// beside the facts, or the facts alone where the logo is not shown.
    pub fn print_system_info(&self, info: &SystemInfo, os_id: &str, out: &mut Vec<String>)
        ensures
            texts(final(out)@) == texts(old(out)@) + full_lines(
                self.show_logo,
                self.show_colors,
                chosen_logo(os_id@),
                info@,
            ),
    {
        if self.show_logo {
            self.print_side_by_side_info(info, os_id, out);
        } else {
            self.print_info_section(info, out);
        }
    }

    /// Appends the short form.
    pub fn print_minimal(&self, info: &SystemInfo, out: &mut Vec<String>)
        ensures
            texts(final(out)@) == texts(old(out)@) + minimal_lines(info@),
    {
        let mut who = info.username.clone();
        push_text(&mut who, "@");
        push_text(&mut who, info.hostname.as_str());
        push_line(out, who);
        push_line(out, labelled("OS: ", info.os_name.as_str()));
        push_line(out, labelled("Kernel: ", info.kernel_version.as_str()));
        push_line(out, labelled("Uptime: ", info.format_uptime().as_str()));
        push_line(out, labelled("CPU: ", info.cpu_info.as_str()));
        push_line(out, labelled("GPU: ", info.gpu_info.as_str()));
        push_line(out, labelled("Memory: ", info.format_memory().as_str()));
        assert(texts(out@) =~= texts(old(out)@) + minimal_lines(info@));
    }

    /// Appends the structured document of the snapshot as JSON text. It
    /// succeeds exactly if the serializer writes that document; where it
    /// fails, the output is left as it was.
    pub fn print_json(&self, info: &SystemInfo, out: &mut Vec<String>) -> (outcome: Result<
        (),
        JsonError,
    >)
        ensures
            match outcome {
                Ok(_) => pretty_json(document(info@)) matches Some(text) && texts(final(out)@)
                    == texts(old(out)@).push(text),
                Err(_) => pretty_json(document(info@)) is None && final(out)@ == old(out)@,
            },
    {
        match render_document(info) {
            Ok(text) => {
                push_line(out, text);
                Ok(())
            },
            Err(error) => Err(error),
        }
    }
}

/// A value behind its label.
fn labelled(label: &str, value: &str) -> (line: String)
    ensures
        line@ == label@ + value@,
{
    let mut line = owned(label);
    push_text(&mut line, value);
    line
}

} // verus!
