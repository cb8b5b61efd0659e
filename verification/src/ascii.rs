//! Logos: the systems that have one, and the rule that picks one by the
//! identifier of the system.

use vstd::prelude::*;
use vstd::string::*;
use crate::ansi::{is_invisible, ESC};
use crate::art::{
    ALMA_ART, ALPINE_ART, ANDROID_ART, ARCH_ART, ARTIX_ART, BLUE, BRIGHT_CYAN, CACHYOS_ART,
    CENTOS_ART, CYAN, DEBIAN_ART, DEFAULT_ART, ELEMENTARY_ART, ENDEAVOUR_ART, FEDORA_ART,
    FREEBSD_ART, GARUDA_ART, GENTOO_ART, GREEN, KALI_ART, LINUX_ART, MACOS_ART, MAGENTA,
    MANJARO_ART, MINT_ART, NIXOS_ART, OPENBSD_ART, OPENSUSE_ART, POP_ART, RED, SOLUS_ART,
    UBUNTU_ART, VOID_ART, WHITE, YELLOW, ZORIN_ART, lemma_alma_is_plain,
    lemma_alpine_is_plain, lemma_android_is_plain, lemma_arch_is_plain, lemma_artix_is_plain,
    lemma_cachyos_is_plain, lemma_centos_is_plain, lemma_colors_are_invisible,
    lemma_debian_is_plain, lemma_default_is_plain, lemma_elementary_is_plain,
    lemma_endeavour_is_plain, lemma_fedora_is_plain, lemma_freebsd_is_plain,
    lemma_garuda_is_plain, lemma_gentoo_is_plain, lemma_kali_is_plain, lemma_linux_is_plain,
    lemma_macos_is_plain, lemma_manjaro_is_plain, lemma_mint_is_plain, lemma_nixos_is_plain,
    lemma_openbsd_is_plain, lemma_opensuse_is_plain, lemma_pop_is_plain, lemma_solus_is_plain,
    lemma_ubuntu_is_plain, lemma_void_is_plain, lemma_zorin_is_plain,
};
use crate::text::{chars_of, contains, contains_exec, lowercase, slices, to_lowercase};

verus! {

/// A piece of art: its lines from top to bottom, and the colors to paint
/// them with. There may be fewer colors than lines.
pub struct Logo {
    pub lines: Vec<&'static str>,
    pub colors: Vec<&'static str>,
}

/// What a logo holds, as plain text.
pub struct LogoView {
    pub lines: Seq<Seq<char>>,
    pub colors: Seq<Seq<char>>,
}

impl LogoView {
    /// No line holds an escape character, and every color shows nothing
    /// and ends outside any escape sequence.
    pub open spec fn well_formed(self) -> bool {
        &&& forall|i: int| 0 <= i < self.lines.len() ==> !(#[trigger] self.lines[i]).contains(ESC)
        &&& forall|k: int| 0 <= k < self.colors.len() ==> is_invisible(#[trigger] self.colors[k])
    }
}

impl View for Logo {
    type V = LogoView;

    open spec fn view(&self) -> LogoView {
        LogoView { lines: slices(self.lines@), colors: slices(self.colors@) }
    }
}

/// The systems that have a logo of their own.
#[derive(Clone, Copy, Debug, PartialEq, Eq, Structural)]
pub enum Distro {
    CachyOs,
    Alma,
    Alpine,
    Arch,
    Ubuntu,
    Debian,
    Fedora,
    Gentoo,
    Manjaro,
    Mint,
    OpenSuse,
    CentOs,
    Void,
    Pop,
    Endeavour,
    Garuda,
    NixOs,
    FreeBsd,
    OpenBsd,
    MacOs,
    Android,
    Elementary,
    Zorin,
    Kali,
    Artix,
    Solus,
    Linux,
}

impl Distro {
    /// The place of a system in the order in which the systems are tried:
    /// a lower rank is tried first. Linux, which many identifiers name
    /// beside a system of their own, is tried last.
    pub open spec fn rank(self) -> nat {
        match self {
            Distro::CachyOs => 0,
            Distro::Alma => 1,
            Distro::Alpine => 2,
            Distro::Arch => 3,
            Distro::Ubuntu => 4,
            Distro::Debian => 5,
            Distro::Fedora => 6,
            Distro::Gentoo => 7,
            Distro::Manjaro => 8,
            Distro::Mint => 9,
            Distro::OpenSuse => 10,
            Distro::CentOs => 11,
            Distro::Void => 12,
            Distro::Pop => 13,
            Distro::Endeavour => 14,
            Distro::Garuda => 15,
            Distro::NixOs => 16,
            Distro::FreeBsd => 17,
            Distro::OpenBsd => 18,
            Distro::MacOs => 19,
            Distro::Android => 20,
            Distro::Elementary => 21,
            Distro::Zorin => 22,
            Distro::Kali => 23,
            Distro::Artix => 24,
            Distro::Solus => 25,
            Distro::Linux => 26,
        }
    }

    /// Whether a lower-cased identifier names this system: one of the
    /// system's patterns occurs in it. The empty identifier, which tells
    /// nothing of the system, names Linux.
    pub open spec fn matches(self, id: Seq<char>) -> bool {
        match self {
            Distro::CachyOs => contains(id, "cachyos"@) || contains(id, "cachy"@),
            Distro::Alma => contains(id, "alma"@),
            Distro::Alpine => contains(id, "alpine"@),
            Distro::Arch => contains(id, "arch"@),
            Distro::Ubuntu => contains(id, "ubuntu"@),
            Distro::Debian => contains(id, "debian"@),
            Distro::Fedora => contains(id, "fedora"@),
            Distro::Gentoo => contains(id, "gentoo"@),
            Distro::Manjaro => contains(id, "manjaro"@),
            Distro::Mint => contains(id, "mint"@) || contains(id, "linuxmint"@),
            Distro::OpenSuse => contains(id, "opensuse"@) || contains(id, "suse"@),
            Distro::CentOs => contains(id, "centos"@),
            Distro::Void => contains(id, "void"@),
            Distro::Pop => contains(id, "pop"@),
            Distro::Endeavour => contains(id, "endeavour"@) || contains(id, "endeavouros"@),
            Distro::Garuda => contains(id, "garuda"@),
            Distro::NixOs => contains(id, "nixos"@) || contains(id, "nix"@),
            Distro::FreeBsd => contains(id, "freebsd"@),
            Distro::OpenBsd => contains(id, "openbsd"@),
            Distro::MacOs => contains(id, "macos"@) || contains(id, "darwin"@),
            Distro::Android => contains(id, "android"@),
            Distro::Elementary => contains(id, "elementary"@),
            Distro::Zorin => contains(id, "zorin"@),
            Distro::Kali => contains(id, "kali"@),
            Distro::Artix => contains(id, "artix"@),
            Distro::Solus => contains(id, "solus"@),
            Distro::Linux => id.len() == 0 || contains(id, "linux"@),
        }
    }

    /// The art of this system, line by line.
    pub open spec fn art(self) -> Seq<&'static str> {
        match self {
            Distro::CachyOs => CACHYOS_ART@,
            Distro::Alma => ALMA_ART@,
            Distro::Alpine => ALPINE_ART@,
            Distro::Arch => ARCH_ART@,
            Distro::Ubuntu => UBUNTU_ART@,
            Distro::Debian => DEBIAN_ART@,
            Distro::Fedora => FEDORA_ART@,
            Distro::Gentoo => GENTOO_ART@,
            Distro::Manjaro => MANJARO_ART@,
            Distro::Mint => MINT_ART@,
            Distro::OpenSuse => OPENSUSE_ART@,
            Distro::CentOs => CENTOS_ART@,
            Distro::Void => VOID_ART@,
            Distro::Pop => POP_ART@,
            Distro::Endeavour => ENDEAVOUR_ART@,
            Distro::Garuda => GARUDA_ART@,
            Distro::NixOs => NIXOS_ART@,
            Distro::FreeBsd => FREEBSD_ART@,
            Distro::OpenBsd => OPENBSD_ART@,
            Distro::MacOs => MACOS_ART@,
            Distro::Android => ANDROID_ART@,
            Distro::Elementary => ELEMENTARY_ART@,
            Distro::Zorin => ZORIN_ART@,
            Distro::Kali => KALI_ART@,
            Distro::Artix => ARTIX_ART@,
            Distro::Solus => SOLUS_ART@,
            Distro::Linux => LINUX_ART@,
        }
    }

    /// The colors of this system's logo.
    pub open spec fn palette(self) -> Seq<&'static str> {
        match self {
            Distro::CachyOs => seq![GREEN, CYAN],
            Distro::Alma => seq![RED, YELLOW, BLUE, GREEN, CYAN],
            Distro::Alpine => seq![BLUE, WHITE],
            Distro::Arch => seq![CYAN, BLUE],
            Distro::Ubuntu => seq![YELLOW],
            Distro::Debian => seq![RED],
            Distro::Fedora => seq![BLUE],
            Distro::Gentoo => seq![MAGENTA, WHITE],
            Distro::Manjaro => seq![GREEN],
            Distro::Mint => seq![GREEN, WHITE],
            Distro::OpenSuse => seq![GREEN],
            Distro::CentOs => seq![GREEN, YELLOW, MAGENTA, BLUE],
            Distro::Void => seq![GREEN],
            Distro::Pop => seq![CYAN, WHITE],
            Distro::Endeavour => seq![RED, MAGENTA, BLUE],
            Distro::Garuda => seq![YELLOW, WHITE, GREEN],
            Distro::NixOs => seq![BLUE],
            Distro::FreeBsd => seq![RED],
            Distro::OpenBsd => seq![YELLOW, WHITE],
            Distro::MacOs => seq![GREEN, CYAN, YELLOW, RED, MAGENTA],
            Distro::Android => seq![GREEN],
            Distro::Elementary => seq![WHITE],
            Distro::Zorin => seq![BLUE],
            Distro::Kali => seq![BLUE],
            Distro::Artix => seq![CYAN],
            Distro::Solus => seq![CYAN],
            Distro::Linux => seq![BLUE, MAGENTA, WHITE],
        }
    }

    /// The logo of this system as plain text.
    pub open spec fn model(self) -> LogoView {
        LogoView { lines: slices(self.art()), colors: slices(self.palette()) }
    }

    /// The logo of this system.
    pub fn logo(self) -> (logo: Logo)
        ensures
            logo.lines@ == self.art(),
            logo.colors@ == self.palette(),
            logo@ == self.model(),
    {
        let logo = match self {
            Distro::CachyOs => Logo {
                lines: art_lines(&CACHYOS_ART),
                colors: vec![GREEN, CYAN],
            },
            Distro::Alma => Logo {
                lines: art_lines(&ALMA_ART),
                colors: vec![RED, YELLOW, BLUE, GREEN, CYAN],
            },
            Distro::Alpine => Logo {
                lines: art_lines(&ALPINE_ART),
                colors: vec![BLUE, WHITE],
            },
            Distro::Arch => Logo {
                lines: art_lines(&ARCH_ART),
                colors: vec![CYAN, BLUE],
            },
            Distro::Ubuntu => Logo {
                lines: art_lines(&UBUNTU_ART),
                colors: vec![YELLOW],
            },
            Distro::Debian => Logo {
                lines: art_lines(&DEBIAN_ART),
                colors: vec![RED],
            },
            Distro::Fedora => Logo {
                lines: art_lines(&FEDORA_ART),
                colors: vec![BLUE],
            },
            Distro::Gentoo => Logo {
                lines: art_lines(&GENTOO_ART),
                colors: vec![MAGENTA, WHITE],
            },
            Distro::Manjaro => Logo {
                lines: art_lines(&MANJARO_ART),
                colors: vec![GREEN],
            },
            Distro::Mint => Logo {
                lines: art_lines(&MINT_ART),
                colors: vec![GREEN, WHITE],
            },
            Distro::OpenSuse => Logo {
                lines: art_lines(&OPENSUSE_ART),
                colors: vec![GREEN],
            },
            Distro::CentOs => Logo {
                lines: art_lines(&CENTOS_ART),
                colors: vec![GREEN, YELLOW, MAGENTA, BLUE],
            },
            Distro::Void => Logo {
                lines: art_lines(&VOID_ART),
                colors: vec![GREEN],
            },
            Distro::Pop => Logo {
                lines: art_lines(&POP_ART),
                colors: vec![CYAN, WHITE],
            },
            Distro::Endeavour => Logo {
                lines: art_lines(&ENDEAVOUR_ART),
                colors: vec![RED, MAGENTA, BLUE],
            },
            Distro::Garuda => Logo {
                lines: art_lines(&GARUDA_ART),
                colors: vec![YELLOW, WHITE, GREEN],
            },
            Distro::NixOs => Logo {
                lines: art_lines(&NIXOS_ART),
                colors: vec![BLUE],
            },
            Distro::FreeBsd => Logo {
                lines: art_lines(&FREEBSD_ART),
                colors: vec![RED],
            },
            Distro::OpenBsd => Logo {
                lines: art_lines(&OPENBSD_ART),
                colors: vec![YELLOW, WHITE],
            },
            Distro::MacOs => Logo {
                lines: art_lines(&MACOS_ART),
                colors: vec![GREEN, CYAN, YELLOW, RED, MAGENTA],
            },
            Distro::Android => Logo {
                lines: art_lines(&ANDROID_ART),
                colors: vec![GREEN],
            },
            Distro::Elementary => Logo {
                lines: art_lines(&ELEMENTARY_ART),
                colors: vec![WHITE],
            },
            Distro::Zorin => Logo {
                lines: art_lines(&ZORIN_ART),
                colors: vec![BLUE],
            },
            Distro::Kali => Logo {
                lines: art_lines(&KALI_ART),
                colors: vec![BLUE],
            },
            Distro::Artix => Logo {
                lines: art_lines(&ARTIX_ART),
                colors: vec![CYAN],
            },
            Distro::Solus => Logo {
                lines: art_lines(&SOLUS_ART),
                colors: vec![CYAN],
            },
            Distro::Linux => Logo {
                lines: art_lines(&LINUX_ART),
                colors: vec![BLUE, MAGENTA, WHITE],
            },
        };
        assert(logo.lines@ =~= self.art());
        assert(logo.colors@ =~= self.palette());
        logo
    }
}

/// The lines of a table of art, as a vector.
fn art_lines<const N: usize>(art: &[&'static str; N]) -> (lines: Vec<&'static str>)
    ensures
        lines@ == art@,
{
    let mut lines: Vec<&'static str> = Vec::new();
    let mut i: usize = 0;
    while i < N
        invariant
            i <= N,
            art@.len() == N,
            lines@ == art@.take(i as int),
        decreases N - i,
    {
        lines.push(art[i]);
        i += 1;
    }
    lines
}

/// The system that a lower-cased identifier selects: the first, in rank
/// order, that the identifier names.
pub open spec fn select(id: Seq<char>) -> Option<Distro> {
    if Distro::CachyOs.matches(id) {
        Some(Distro::CachyOs)
    } else if Distro::Alma.matches(id) {
        Some(Distro::Alma)
    } else if Distro::Alpine.matches(id) {
        Some(Distro::Alpine)
    } else if Distro::Arch.matches(id) {
        Some(Distro::Arch)
    } else if Distro::Ubuntu.matches(id) {
        Some(Distro::Ubuntu)
    } else if Distro::Debian.matches(id) {
        Some(Distro::Debian)
    } else if Distro::Fedora.matches(id) {
        Some(Distro::Fedora)
    } else if Distro::Gentoo.matches(id) {
        Some(Distro::Gentoo)
    } else if Distro::Manjaro.matches(id) {
        Some(Distro::Manjaro)
    } else if Distro::Mint.matches(id) {
        Some(Distro::Mint)
    } else if Distro::OpenSuse.matches(id) {
        Some(Distro::OpenSuse)
    } else if Distro::CentOs.matches(id) {
        Some(Distro::CentOs)
    } else if Distro::Void.matches(id) {
        Some(Distro::Void)
    } else if Distro::Pop.matches(id) {
        Some(Distro::Pop)
    } else if Distro::Endeavour.matches(id) {
        Some(Distro::Endeavour)
    } else if Distro::Garuda.matches(id) {
        Some(Distro::Garuda)
    } else if Distro::NixOs.matches(id) {
        Some(Distro::NixOs)
    } else if Distro::FreeBsd.matches(id) {
        Some(Distro::FreeBsd)
    } else if Distro::OpenBsd.matches(id) {
        Some(Distro::OpenBsd)
    } else if Distro::MacOs.matches(id) {
        Some(Distro::MacOs)
    } else if Distro::Android.matches(id) {
        Some(Distro::Android)
    } else if Distro::Elementary.matches(id) {
        Some(Distro::Elementary)
    } else if Distro::Zorin.matches(id) {
        Some(Distro::Zorin)
    } else if Distro::Kali.matches(id) {
        Some(Distro::Kali)
    } else if Distro::Artix.matches(id) {
        Some(Distro::Artix)
    } else if Distro::Solus.matches(id) {
        Some(Distro::Solus)
    } else if Distro::Linux.matches(id) {
        Some(Distro::Linux)
    } else {
        None
    }
}

/// Picks the system that a lower-cased identifier names.
pub fn select_distro(id: &str) -> (found: Option<Distro>)
    ensures
        found == select(id@),
{
    let name = chars_of(id);
    if holds(&name, "cachyos") || holds(&name, "cachy") {
        Some(Distro::CachyOs)
    } else if holds(&name, "alma") {
        Some(Distro::Alma)
    } else if holds(&name, "alpine") {
        Some(Distro::Alpine)
    } else if holds(&name, "arch") {
        Some(Distro::Arch)
    } else if holds(&name, "ubuntu") {
        Some(Distro::Ubuntu)
    } else if holds(&name, "debian") {
        Some(Distro::Debian)
    } else if holds(&name, "fedora") {
        Some(Distro::Fedora)
    } else if holds(&name, "gentoo") {
        Some(Distro::Gentoo)
    } else if holds(&name, "manjaro") {
        Some(Distro::Manjaro)
    } else if holds(&name, "mint") || holds(&name, "linuxmint") {
        Some(Distro::Mint)
    } else if holds(&name, "opensuse") || holds(&name, "suse") {
        Some(Distro::OpenSuse)
    } else if holds(&name, "centos") {
        Some(Distro::CentOs)
    } else if holds(&name, "void") {
        Some(Distro::Void)
    } else if holds(&name, "pop") {
        Some(Distro::Pop)
    } else if holds(&name, "endeavour") || holds(&name, "endeavouros") {
        Some(Distro::Endeavour)
    } else if holds(&name, "garuda") {
        Some(Distro::Garuda)
    } else if holds(&name, "nixos") || holds(&name, "nix") {
        Some(Distro::NixOs)
    } else if holds(&name, "freebsd") {
        Some(Distro::FreeBsd)
    } else if holds(&name, "openbsd") {
        Some(Distro::OpenBsd)
    } else if holds(&name, "macos") || holds(&name, "darwin") {
        Some(Distro::MacOs)
    } else if holds(&name, "android") {
        Some(Distro::Android)
    } else if holds(&name, "elementary") {
        Some(Distro::Elementary)
    } else if holds(&name, "zorin") {
        Some(Distro::Zorin)
    } else if holds(&name, "kali") {
        Some(Distro::Kali)
    } else if holds(&name, "artix") {
        Some(Distro::Artix)
    } else if holds(&name, "solus") {
        Some(Distro::Solus)
    } else if name.len() == 0 || holds(&name, "linux") {
        Some(Distro::Linux)
    } else {
        None
    }
}

/// Whether `pattern` occurs in `name`.
fn holds(name: &Vec<char>, pattern: &str) -> (b: bool)
    ensures
        b == contains(name@, pattern@),
{
    let p = chars_of(pattern);
    contains_exec(name, &p)
}

/// The first match wins: the selected system matches, no system of lower
/// rank does, and nothing is selected only if no system matches.
pub proof fn lemma_select_first_match(id: Seq<char>)
    ensures
        match select(id) {
            Some(d) => d.matches(id) && forall|e: Distro| e.rank() < d.rank() ==> !e.matches(id),
            None => forall|e: Distro| !e.matches(id),
        },
{
}

/// A specific name wins over the generic one: Linux is selected only if
/// the identifier names no other system.
pub proof fn lemma_specific_names_first(id: Seq<char>)
    ensures
        select(id) == Some(Distro::Linux) ==> forall|e: Distro|
            e != Distro::Linux ==> !e.matches(id),
{
    lemma_select_first_match(id);
    assert forall|e: Distro| e != Distro::Linux implies #[trigger] e.rank()
        < Distro::Linux.rank() by {}
}

/// The system that an identifier selects, whatever its case: the empty
/// identifier selects Linux, and any other the system that its lower-case
/// form selects.
pub open spec fn selected(name: Seq<char>) -> Option<Distro> {
    if name.len() == 0 {
        Some(Distro::Linux)
    } else {
        select(lowercase(name))
    }
}

/// The logo of the system that `distro_name` names, whatever its case, if
/// it names one. The empty name gives the logo of Linux.
pub fn get_distro_logo(distro_name: &str) -> (logo: Option<Logo>)
    ensures
        match selected(distro_name@) {
            Some(d) => logo matches Some(l) && l@ == d.model(),
            None => logo is None,
        },
        distro_name@.len() == 0 ==> (logo matches Some(l) && l@ == Distro::Linux.model()),
{
    if distro_name.unicode_len() == 0 {
        return Some(Distro::Linux.logo());
    }
    let lower = to_lowercase(distro_name);
    match select_distro(lower.as_str()) {
        Some(d) => Some(d.logo()),
        None => None,
    }
}

/// The logo shown for a system that has none of its own.
pub open spec fn default_model() -> LogoView {
    LogoView { lines: slices(DEFAULT_ART@), colors: slices(seq![BRIGHT_CYAN]) }
}

/// The logo shown for a system that has none of its own.
pub fn get_default_logo() -> (logo: Logo)
    ensures
        logo@ == default_model(),
{
    let logo = Logo { lines: art_lines(&DEFAULT_ART), colors: vec![BRIGHT_CYAN] };
    assert(logo.colors@ =~= seq![BRIGHT_CYAN]);
    logo
}

/// The logo of every system is well formed.
pub proof fn lemma_logos_are_well_formed(distro: Distro)
    ensures
        distro.model().well_formed(),
{
    lemma_colors_are_invisible();
    match distro {
        Distro::CachyOs => lemma_cachyos_is_plain(),
        Distro::Alma => lemma_alma_is_plain(),
        Distro::Alpine => lemma_alpine_is_plain(),
        Distro::Arch => lemma_arch_is_plain(),
        Distro::Ubuntu => lemma_ubuntu_is_plain(),
        Distro::Debian => lemma_debian_is_plain(),
        Distro::Fedora => lemma_fedora_is_plain(),
        Distro::Gentoo => lemma_gentoo_is_plain(),
        Distro::Manjaro => lemma_manjaro_is_plain(),
        Distro::Mint => lemma_mint_is_plain(),
        Distro::OpenSuse => lemma_opensuse_is_plain(),
        Distro::CentOs => lemma_centos_is_plain(),
        Distro::Void => lemma_void_is_plain(),
        Distro::Pop => lemma_pop_is_plain(),
        Distro::Endeavour => lemma_endeavour_is_plain(),
        Distro::Garuda => lemma_garuda_is_plain(),
        Distro::NixOs => lemma_nixos_is_plain(),
        Distro::FreeBsd => lemma_freebsd_is_plain(),
        Distro::OpenBsd => lemma_openbsd_is_plain(),
        Distro::MacOs => lemma_macos_is_plain(),
        Distro::Android => lemma_android_is_plain(),
        Distro::Elementary => lemma_elementary_is_plain(),
        Distro::Zorin => lemma_zorin_is_plain(),
        Distro::Kali => lemma_kali_is_plain(),
        Distro::Artix => lemma_artix_is_plain(),
        Distro::Solus => lemma_solus_is_plain(),
        Distro::Linux => lemma_linux_is_plain(),
    }
}

/// The default logo is well formed.
pub proof fn lemma_default_logo_is_well_formed()
    ensures
        default_model().well_formed(),
{
    lemma_colors_are_invisible();
    lemma_default_is_plain();
}

} // verus!
