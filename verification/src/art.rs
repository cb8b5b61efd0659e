//! The colors and the art of the logos.

use vstd::prelude::*;
use vstd::string::*;
use crate::ansi::{is_invisible, lemma_escape_is_invisible, ESC};

verus! {

pub const RED: &'static str = "\x1b[31m";

pub const GREEN: &'static str = "\x1b[32m";

pub const YELLOW: &'static str = "\x1b[33m";

pub const BLUE: &'static str = "\x1b[34m";

pub const MAGENTA: &'static str = "\x1b[35m";

pub const CYAN: &'static str = "\x1b[36m";

pub const WHITE: &'static str = "\x1b[37m";

pub const BRIGHT_CYAN: &'static str = "\x1b[96m";

/// Every color is one escape sequence: it shows nothing and ends outside
/// any escape sequence.
pub proof fn lemma_colors_are_invisible()
    ensures
        is_invisible(RED@),
        is_invisible(GREEN@),
        is_invisible(YELLOW@),
        is_invisible(BLUE@),
        is_invisible(MAGENTA@),
        is_invisible(CYAN@),
        is_invisible(WHITE@),
        is_invisible(BRIGHT_CYAN@),
{
    reveal_strlit("\x1b[31m");
    lemma_escape_is_invisible(seq!['3', '1'], 'm');
    assert(RED@ =~= seq![ESC, '['] + seq!['3', '1'] + seq!['m']);
    reveal_strlit("\x1b[32m");
    lemma_escape_is_invisible(seq!['3', '2'], 'm');
    assert(GREEN@ =~= seq![ESC, '['] + seq!['3', '2'] + seq!['m']);
    reveal_strlit("\x1b[33m");
    lemma_escape_is_invisible(seq!['3', '3'], 'm');
    assert(YELLOW@ =~= seq![ESC, '['] + seq!['3', '3'] + seq!['m']);
    reveal_strlit("\x1b[34m");
    lemma_escape_is_invisible(seq!['3', '4'], 'm');
    assert(BLUE@ =~= seq![ESC, '['] + seq!['3', '4'] + seq!['m']);
    reveal_strlit("\x1b[35m");
    lemma_escape_is_invisible(seq!['3', '5'], 'm');
    assert(MAGENTA@ =~= seq![ESC, '['] + seq!['3', '5'] + seq!['m']);
    reveal_strlit("\x1b[36m");
    lemma_escape_is_invisible(seq!['3', '6'], 'm');
    assert(CYAN@ =~= seq![ESC, '['] + seq!['3', '6'] + seq!['m']);
    reveal_strlit("\x1b[37m");
    lemma_escape_is_invisible(seq!['3', '7'], 'm');
    assert(WHITE@ =~= seq![ESC, '['] + seq!['3', '7'] + seq!['m']);
    reveal_strlit("\x1b[96m");
    lemma_escape_is_invisible(seq!['9', '6'], 'm');
    assert(BRIGHT_CYAN@ =~= seq![ESC, '['] + seq!['9', '6'] + seq!['m']);
}

/// Whether no line of a table of art holds an escape character.
pub open spec fn is_plain(art: Seq<&'static str>) -> bool {
    forall|i: int| 0 <= i < art.len() ==> !(#[trigger] art[i])@.contains(ESC)
}

/// The art of CachyOS.
pub const CACHYOS_ART: [&'static str; 7] = [
    "   .##\\#####+   o",
    " /\\##\"\\###`",
    " /',\\/        +=",
    " -==|         `` _",
    " \\###\\           ###",
    "  \\#|/#####\\##+   `",
    "  `/########`",
];

pub proof fn lemma_cachyos_is_plain()
    ensures
        is_plain(CACHYOS_ART@),
{
    reveal_strlit("   .##\\#####+   o");
    reveal_strlit(" /\\##\"\\###`");
    reveal_strlit(" /',\\/        +=");
    reveal_strlit(" -==|         `` _");
    reveal_strlit(" \\###\\           ###");
    reveal_strlit("  \\#|/#####\\##+   `");
    reveal_strlit("  `/########`");
}

/// The art of AlmaLinux.
pub const ALMA_ART: [&'static str; 10] = [
    "    {#@ .,       ,..<.",
    "    ._`=#  /#=#,\"\"",
    "   \\##  ` |`  '=##",
    "   .`'=.  \\  ,_,.,",
    " ..\"#-   `  `    \\##",
    "\\## #   ./  \\.  .#`,+",
    "   =##='  ,   |,  |# \"\"",
    "      =##=++#|",
    "         ##\\''",
    "         `'`",
];

pub proof fn lemma_alma_is_plain()
    ensures
        is_plain(ALMA_ART@),
{
    reveal_strlit("    {#@ .,       ,..<.");
    reveal_strlit("    ._`=#  /#=#,\"\"");
    reveal_strlit("   \\##  ` |`  '=##");
    reveal_strlit("   .`'=.  \\  ,_,.,");
    reveal_strlit(" ..\"#-   `  `    \\##");
    reveal_strlit("\\## #   ./  \\.  .#`,+");
    reveal_strlit("   =##='  ,   |,  |# \"\"");
    reveal_strlit("      =##=++#|");
    reveal_strlit("         ##\\''");
    reveal_strlit("         `'`");
}

/// The art of Alpine Linux.
pub const ALPINE_ART: [&'static str; 6] = [
    "   /\\ /\\",
    "  /  \\  \\",
    " /    \\  \\",
    "//      \\  \\",
    "//        \\ \\",
    "           \\",
];

pub proof fn lemma_alpine_is_plain()
    ensures
        is_plain(ALPINE_ART@),
{
    reveal_strlit("   /\\ /\\");
    reveal_strlit("  /  \\  \\");
    reveal_strlit(" /    \\  \\");
    reveal_strlit("//      \\  \\");
    reveal_strlit("//        \\ \\");
    reveal_strlit("           \\");
}

/// The art of Arch Linux.
pub const ARCH_ART: [&'static str; 7] = [
    "       /\\",
    "      /  \\",
    "     /\\   \\",
    "    /      \\",
    "   /   ,,   \\",
    "  /   |  |  -\\",
    " /_-''    ''-_\\",
];

pub proof fn lemma_arch_is_plain()
    ensures
        is_plain(ARCH_ART@),
{
    reveal_strlit("       /\\");
    reveal_strlit("      /  \\");
    reveal_strlit("     /\\   \\");
    reveal_strlit("    /      \\");
    reveal_strlit("   /   ,,   \\");
    reveal_strlit("  /   |  |  -\\");
    reveal_strlit(" /_-''    ''-_\\");
}

/// The art of Ubuntu.
pub const UBUNTU_ART: [&'static str; 6] = [
    "         _",
    "     ---(_)",
    " _/  ---  \\",
    "(_) |   |",
    " \\  --- _/",
    "     ---(_)",
];

pub proof fn lemma_ubuntu_is_plain()
    ensures
        is_plain(UBUNTU_ART@),
{
    reveal_strlit("         _");
    reveal_strlit("     ---(_)");
    reveal_strlit(" _/  ---  \\");
    reveal_strlit("(_) |   |");
    reveal_strlit(" \\  --- _/");
}

/// The art of Debian.
pub const DEBIAN_ART: [&'static str; 6] = [
    "  _____",
    " /  __ \\",
    "|  /    |",
    "|  \\___-",
    "-_",
    "  --_",
];

pub proof fn lemma_debian_is_plain()
    ensures
        is_plain(DEBIAN_ART@),
{
    reveal_strlit("  _____");
    reveal_strlit(" /  __ \\");
    reveal_strlit("|  /    |");
    reveal_strlit("|  \\___-");
    reveal_strlit("-_");
    reveal_strlit("  --_");
}

/// The art of Fedora.
pub const FEDORA_ART: [&'static str; 9] = [
    "        ,''''.",
    "       |   ,. |",
    "       |  |  '_'",
    "  ,....|  |..",
    ".'  ,_;|   ..'",
    "|  |   |  |",
    "|  ',_,'  |",
    " '.     ,'",
    "   '''''",
];

pub proof fn lemma_fedora_is_plain()
    ensures
        is_plain(FEDORA_ART@),
{
    reveal_strlit("        ,''''.");
    reveal_strlit("       |   ,. |");
    reveal_strlit("       |  |  '_'");
    reveal_strlit("  ,....|  |..");
    reveal_strlit(".'  ,_;|   ..'");
    reveal_strlit("|  |   |  |");
    reveal_strlit("|  ',_,'  |");
    reveal_strlit(" '.     ,'");
    reveal_strlit("   '''''");
}

/// The art of Gentoo.
pub const GENTOO_ART: [&'static str; 7] = [
    " _-----_",
    "(       \\",
    "\\    0   \\",
    " \\        )",
    " /      _/",
    "(     _-",
    "\\____-",
];

pub proof fn lemma_gentoo_is_plain()
    ensures
        is_plain(GENTOO_ART@),
{
    reveal_strlit(" _-----_");
    reveal_strlit("(       \\");
    reveal_strlit("\\    0   \\");
    reveal_strlit(" \\        )");
    reveal_strlit(" /      _/");
    reveal_strlit("(     _-");
    reveal_strlit("\\____-");
}

/// The art of Manjaro.
pub const MANJARO_ART: [&'static str; 7] = [
    "||||||||| ||||",
    "||||||||| ||||",
    "||||      ||||",
    "|||| |||| ||||",
    "|||| |||| ||||",
    "|||| |||| ||||",
    "|||| |||| ||||",
];

pub proof fn lemma_manjaro_is_plain()
    ensures
        is_plain(MANJARO_ART@),
{
    reveal_strlit("||||||||| ||||");
    reveal_strlit("||||      ||||");
    reveal_strlit("|||| |||| ||||");
}

/// The art of Linux Mint.
pub const MINT_ART: [&'static str; 7] = [
    " ___________",
    "|_          \\",
    "  | | _____ |",
    "  | | | | | |",
    "  | | | | | |",
    "  | \\__\\_/ |",
    " \\_________/",
];

pub proof fn lemma_mint_is_plain()
    ensures
        is_plain(MINT_ART@),
{
    reveal_strlit(" ___________");
    reveal_strlit("|_          \\");
    reveal_strlit("  | | _____ |");
    reveal_strlit("  | | | | | |");
    reveal_strlit("  | \\__\\_/ |");
    reveal_strlit(" \\_________/");
}

/// The art of openSUSE.
pub const OPENSUSE_ART: [&'static str; 7] = [
    "  _______",
    "__|   __ \\",
    "     / .\\ \\",
    "     \\__/ |",
    "   _______|",
    "   \\_______",
    "__________/",
];

pub proof fn lemma_opensuse_is_plain()
    ensures
        is_plain(OPENSUSE_ART@),
{
    reveal_strlit("  _______");
    reveal_strlit("__|   __ \\");
    reveal_strlit("     / .\\ \\");
    reveal_strlit("     \\__/ |");
    reveal_strlit("   _______|");
    reveal_strlit("   \\_______");
    reveal_strlit("__________/");
}

/// The art of CentOS.
pub const CENTOS_ART: [&'static str; 7] = [
    " ____^____",
    " |\\  |  /|",
    " | \\ | / |",
    "<---- ---->",
    " | / | \\ |",
    " |/__| __\\|",
    "     v",
];

pub proof fn lemma_centos_is_plain()
    ensures
        is_plain(CENTOS_ART@),
{
    reveal_strlit(" ____^____");
    reveal_strlit(" |\\  |  /|");
    reveal_strlit(" | \\ | / |");
    reveal_strlit("<---- ---->");
    reveal_strlit(" | / | \\ |");
    reveal_strlit(" |/__| __\\|");
    reveal_strlit("     v");
}

/// The art of Void Linux.
pub const VOID_ART: [&'static str; 7] = [
    "    _______",
    " _ \\______ -",
    "| \\  ___  \\ |",
    "| | /   \\ | |",
    "| | \\___/ | |",
    "| \\______ \\_|",
    " -_______\\",
];

pub proof fn lemma_void_is_plain()
    ensures
        is_plain(VOID_ART@),
{
    reveal_strlit("    _______");
    reveal_strlit(" _ \\______ -");
    reveal_strlit("| \\  ___  \\ |");
    reveal_strlit("| | /   \\ | |");
    reveal_strlit("| | \\___/ | |");
    reveal_strlit("| \\______ \\_|");
    reveal_strlit(" -_______\\");
}

/// The art of Pop!_OS.
pub const POP_ART: [&'static str; 8] = [
    "    .///////,",
    "   //76767//////",
    " //76//76//767//",
    " ////7676'//76////",
    "////76////7/////",
    "  ////76//76////",
    "  //76767676//",
    "     `///////'",
];

pub proof fn lemma_pop_is_plain()
    ensures
        is_plain(POP_ART@),
{
    reveal_strlit("    .///////,");
    reveal_strlit("   //76767//////");
    reveal_strlit(" //76//76//767//");
    reveal_strlit(" ////7676'//76////");
    reveal_strlit("////76////7/////");
    reveal_strlit("  ////76//76////");
    reveal_strlit("  //76767676//");
    reveal_strlit("     `///////'");
}

/// The art of EndeavourOS.
pub const ENDEAVOUR_ART: [&'static str; 7] = [
    "      /\\",
    "    /  \\",
    "   /  /\\  \\",
    "  /  /   \\ \\",
    " /  /     _) )",
    "/_/___-- __-",
    " /____--",
];

pub proof fn lemma_endeavour_is_plain()
    ensures
        is_plain(ENDEAVOUR_ART@),
{
    reveal_strlit("      /\\");
    reveal_strlit("    /  \\");
    reveal_strlit("   /  /\\  \\");
    reveal_strlit("  /  /   \\ \\");
    reveal_strlit(" /  /     _) )");
    reveal_strlit("/_/___-- __-");
    reveal_strlit(" /____--");
}

/// The art of Garuda Linux.
pub const GARUDA_ART: [&'static str; 8] = [
    "         _______",
    "     __/       \\_",
    "    _/     /      \\_",
    "  _/     /_________\\",
    "_/                  |",
    "\\     ____________",
    " \\_           __/",
    "   \\__________/",
];

pub proof fn lemma_garuda_is_plain()
    ensures
        is_plain(GARUDA_ART@),
{
    reveal_strlit("         _______");
    reveal_strlit("     __/       \\_");
    reveal_strlit("    _/     /      \\_");
    reveal_strlit("  _/     /_________\\");
    reveal_strlit("_/                  |");
    reveal_strlit("\\     ____________");
    reveal_strlit(" \\_           __/");
    reveal_strlit("   \\__________/");
}

/// The art of NixOS.
pub const NIXOS_ART: [&'static str; 7] = [
    "  \\\\  \\\\ //",
    " ==\\\\__\\\\/ //",
    "   //   \\\\//",
    "==//     //==",
    " //\\\\___//",
    "// /\\\\ \\\\==",
    "  // \\\\  \\\\",
];

pub proof fn lemma_nixos_is_plain()
    ensures
        is_plain(NIXOS_ART@),
{
    reveal_strlit("  \\\\  \\\\ //");
    reveal_strlit(" ==\\\\__\\\\/ //");
    reveal_strlit("   //   \\\\//");
    reveal_strlit("==//     //==");
    reveal_strlit(" //\\\\___//");
    reveal_strlit("// /\\\\ \\\\==");
    reveal_strlit("  // \\\\  \\\\");
}

/// The art of FreeBSD.
pub const FREEBSD_ART: [&'static str; 6] = [
    "/\\,-'''''-,/\\",
    "\\_)       (_/",
    "|           |",
    "|           |",
    " ;         ;",
    "  '-_____-'",
];

pub proof fn lemma_freebsd_is_plain()
    ensures
        is_plain(FREEBSD_ART@),
{
    reveal_strlit("/\\,-'''''-,/\\");
    reveal_strlit("\\_)       (_/");
    reveal_strlit("|           |");
    reveal_strlit(" ;         ;");
    reveal_strlit("  '-_____-'");
}

/// The art of OpenBSD.
pub const OPENBSD_ART: [&'static str; 7] = [
    "      _____",
    "    \\-     -/",
    " \\_/         \\",
    " |    O   O   |",
    " |_  <   )  3 )",
    " / \\         /",
    "    /-_____-\\",
];

pub proof fn lemma_openbsd_is_plain()
    ensures
        is_plain(OPENBSD_ART@),
{
    reveal_strlit("      _____");
    reveal_strlit("    \\-     -/");
    reveal_strlit(" \\_/         \\");
    reveal_strlit(" |    O   O   |");
    reveal_strlit(" |_  <   )  3 )");
    reveal_strlit(" / \\         /");
    reveal_strlit("    /-_____-\\");
}

/// The art of macOS.
pub const MACOS_ART: [&'static str; 7] = [
    "      .:'",
    "    _ :'_",
    " .'`_`-'_``.",
    ":________.-'",
    ":_______:",
    " :_______`-;",
    "  `._.-._.'",
];

pub proof fn lemma_macos_is_plain()
    ensures
        is_plain(MACOS_ART@),
{
    reveal_strlit("      .:'");
    reveal_strlit("    _ :'_");
    reveal_strlit(" .'`_`-'_``.");
    reveal_strlit(":________.-'");
    reveal_strlit(":_______:");
    reveal_strlit(" :_______`-;");
    reveal_strlit("  `._.-._.'");
}

/// The art of Android.
pub const ANDROID_ART: [&'static str; 6] = [
    "  ;,           ,;",
    "   ';,.-----.,;'",
    "  ,'           ',",
    " /    O     O    \\",
    "|                |",
    "'-----------------'",
];

pub proof fn lemma_android_is_plain()
    ensures
        is_plain(ANDROID_ART@),
{
    reveal_strlit("  ;,           ,;");
    reveal_strlit("   ';,.-----.,;'");
    reveal_strlit("  ,'           ',");
    reveal_strlit(" /    O     O    \\");
    reveal_strlit("|                |");
    reveal_strlit("'-----------------'");
}

/// The art of elementary OS.
pub const ELEMENTARY_ART: [&'static str; 6] = [
    "  _______",
    " / ____  \\",
    "/  |  / /\\",
    "|__\\ /  / |",
    "\\   /__/  /",
    " \\_______/",
];

pub proof fn lemma_elementary_is_plain()
    ensures
        is_plain(ELEMENTARY_ART@),
{
    reveal_strlit("  _______");
    reveal_strlit(" / ____  \\");
    reveal_strlit("/  |  / /\\");
    reveal_strlit("|__\\ /  / |");
    reveal_strlit("\\   /__/  /");
    reveal_strlit(" \\_______/");
}

/// The art of Zorin OS.
pub const ZORIN_ART: [&'static str; 6] = [
    "      \\\\\\\\\\\\\\\\",
    "     \\\\\\\\\\\\\\\\\\\\",
    "    \\\\\\\\\\\\\\\\\\\\\\\\",
    "   ////////////////",
    "  ////////////////",
    " ////////////////",
];

pub proof fn lemma_zorin_is_plain()
    ensures
        is_plain(ZORIN_ART@),
{
    reveal_strlit("      \\\\\\\\\\\\\\\\");
    reveal_strlit("     \\\\\\\\\\\\\\\\\\\\");
    reveal_strlit("    \\\\\\\\\\\\\\\\\\\\\\\\");
    reveal_strlit("   ////////////////");
    reveal_strlit("  ////////////////");
    reveal_strlit(" ////////////////");
}

/// The art of Kali Linux.
pub const KALI_ART: [&'static str; 8] = [
    "      ________",
    "     /  ______\\",
    "    / /        \\",
    "   | |    _____/",
    "   | |   |__",
    "   | |      __|",
    "    \\ \\____/  /",
    "     \\_______/",
];

pub proof fn lemma_kali_is_plain()
    ensures
        is_plain(KALI_ART@),
{
    reveal_strlit("      ________");
    reveal_strlit("     /  ______\\");
    reveal_strlit("    / /        \\");
    reveal_strlit("   | |    _____/");
    reveal_strlit("   | |   |__");
    reveal_strlit("   | |      __|");
    reveal_strlit("    \\ \\____/  /");
    reveal_strlit("     \\_______/");
}

/// The art of Artix Linux.
pub const ARTIX_ART: [&'static str; 7] = [
    "      /\\",
    "     /  \\",
    "    /`'.,\\",
    "   /     ',",
    "  /      ,`\\",
    " / ,.'. ` \\",
    "/.,`     `.\\",
];

pub proof fn lemma_artix_is_plain()
    ensures
        is_plain(ARTIX_ART@),
{
    reveal_strlit("      /\\");
    reveal_strlit("     /  \\");
    reveal_strlit("    /`'.,\\");
    reveal_strlit("   /     ',");
    reveal_strlit("  /      ,`\\");
    reveal_strlit(" / ,.'. ` \\");
    reveal_strlit("/.,`     `.\\");
}

/// The art of Solus.
pub const SOLUS_ART: [&'static str; 7] = [
    "",
    "     /|",
    "    / | \\",
    "   /  |  \\ _",
    "  /___|__\\_\\",
    " \\         /",
    "  `-------Â´",
];

pub proof fn lemma_solus_is_plain()
    ensures
        is_plain(SOLUS_ART@),
{
    reveal_strlit("");
    reveal_strlit("     /|");
    reveal_strlit("    / | \\");
    reveal_strlit("   /  |  \\ _");
    reveal_strlit("  /___|__\\_\\");
    reveal_strlit(" \\         /");
    reveal_strlit("  `-------Â´");
}

/// The art of Linux, where no more is known of the system.
pub const LINUX_ART: [&'static str; 7] = [
    "    ___",
    "   (.. |",
    "   (<> |",
    "  /  __  \\",
    " ( /  \\ /|",
    "_/\\ __)/_)",
    "\\/-____\\/",
];

pub proof fn lemma_linux_is_plain()
    ensures
        is_plain(LINUX_ART@),
{
    reveal_strlit("    ___");
    reveal_strlit("   (.. |");
    reveal_strlit("   (<> |");
    reveal_strlit("  /  __  \\");
    reveal_strlit(" ( /  \\ /|");
    reveal_strlit("_/\\ __)/_)");
    reveal_strlit("\\/-____\\/");
}

/// The art of a system that has no logo of its own.
pub const DEFAULT_ART: [&'static str; 16] = [
    "              a8888b.",
    "             d888888b.",
    "             8P\"YP\"Y88",
    "             8|o||o|88",
    "             8'    .88",
    "             8`._.' Y8.",
    "            d/      `8b.",
    "          .dP   .     Y8b.",
    "         d8:'   \"   `::88b.",
    "        d8\"           `Y88b",
    "       :8P     '       :888",
    "        8a.    :      _a88P",
    "      ._/\"Yaa_ :    .| 88P|",
    "      \\    YP\"      `| 8P  `.",
    "      /     \\._____.d|    .'",
    "      `--..__)888888P`._.'",
];

pub proof fn lemma_default_is_plain()
    ensures
        is_plain(DEFAULT_ART@),
{
    reveal_strlit("              a8888b.");
    reveal_strlit("             d888888b.");
    reveal_strlit("             8P\"YP\"Y88");
    reveal_strlit("             8|o||o|88");
    reveal_strlit("             8'    .88");
    reveal_strlit("             8`._.' Y8.");
    reveal_strlit("            d/      `8b.");
    reveal_strlit("          .dP   .     Y8b.");
    reveal_strlit("         d8:'   \"   `::88b.");
    reveal_strlit("        d8\"           `Y88b");
    reveal_strlit("       :8P     '       :888");
    reveal_strlit("        8a.    :      _a88P");
    reveal_strlit("      ._/\"Yaa_ :    .| 88P|");
    reveal_strlit("      \\    YP\"      `| 8P  `.");
    reveal_strlit("      /     \\._____.d|    .'");
    reveal_strlit("      `--..__)888888P`._.'");
}

} // verus!
