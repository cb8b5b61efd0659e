//! The facts about the host: how each is resolved from what its sources
//! gave, and how the snapshot of all of them is put together.
//!
//! Nothing here reads the machine. A source that could not be read is
//! handed in as `None`, and a fact whose sources all failed takes a fixed
//! default.

use vstd::prelude::*;
use vstd::string::*;
use crate::desktop::DesktopSources;
use crate::gpu::GpuSources;
use crate::text::{
    chars_of, decimal, first_some, lines, lines_exec, owned, pieces, push_decimal,
    push_wide_decimal, split, split_exec, starts_with, starts_with_exec, string_of, trim,
    trim_class, trim_exec, words, words_exec, CharClass,
};

verus! {

/// The number of bytes in a gibibyte.
pub const GIB: u64 = 1_073_741_824;

/// Memory counters, in bytes.
#[derive(Debug, Clone, Copy)]
pub struct MemoryInfo {
    pub total: u64,
    pub used: u64,
    pub available: u64,
}

/// The snapshot of the host: every fact, resolved or at its default.
#[derive(Debug, Clone)]
pub struct SystemInfo {
    pub username: String,
    pub hostname: String,
    pub os_name: String,
    pub kernel_version: String,
    pub uptime: u64,
    pub shell: String,
    pub cpu_info: String,
    pub gpu_info: String,
    pub memory_info: MemoryInfo,
    pub desktop_environment: String,
    pub terminal: String,
}

/// A snapshot as plain text and numbers.
pub struct SystemInfoView {
    pub username: Seq<char>,
    pub hostname: Seq<char>,
    pub os_name: Seq<char>,
    pub kernel_version: Seq<char>,
    pub uptime: nat,
    pub shell: Seq<char>,
    pub cpu_info: Seq<char>,
    pub gpu_info: Seq<char>,
    pub memory_total: nat,
    pub memory_used: nat,
    pub memory_available: nat,
    pub desktop_environment: Seq<char>,
    pub terminal: Seq<char>,
}

impl View for SystemInfo {
    type V = SystemInfoView;

    open spec fn view(&self) -> SystemInfoView {
        SystemInfoView {
            username: self.username@,
            hostname: self.hostname@,
            os_name: self.os_name@,
            kernel_version: self.kernel_version@,
            uptime: self.uptime as nat,
            shell: self.shell@,
            cpu_info: self.cpu_info@,
            gpu_info: self.gpu_info@,
            memory_total: self.memory_info.total as nat,
            memory_used: self.memory_info.used as nat,
            memory_available: self.memory_info.available as nat,
            desktop_environment: self.desktop_environment@,
            terminal: self.terminal@,
        }
    }
}

/// What a source gave, as plain text.
pub open spec fn reading(source: Option<&str>) -> Option<Seq<char>> {
    match source {
        Some(s) => Some(s@),
        None => None,
    }
}

/// What a stored source gave, as plain text.
pub open spec fn stored(source: Option<String>) -> Option<Seq<char>> {
    match source {
        Some(s) => Some(s@),
        None => None,
    }
}

/// The text of a list of strings.
pub open spec fn stored_list(list: Seq<String>) -> Seq<Seq<char>> {
    Seq::new(list.len(), |i: int| list[i]@)
}

/// What a stored source gave, as a borrowed text.
pub fn borrowed(source: &Option<String>) -> (r: Option<&str>)
    ensures
        reading(r) == stored(*source),
{
    match source {
        Some(s) => Some(s.as_str()),
        None => None,
    }
}

/// The reading itself, or `default` where there is none.
pub open spec fn or_default(source: Option<Seq<char>>, default: Seq<char>) -> Seq<char> {
    match source {
        Some(s) => s,
        None => default,
    }
}

/// The host name: the content of the host name file without the
/// whitespace around it.
pub open spec fn hostname(file: Option<Seq<char>>) -> Seq<char> {
    match file {
        Some(content) => trim(content),
        None => "unknown"@,
    }
}

/// The value of a `PRETTY_NAME=` line: what stands between the first `=`
/// and the next, without the double quotes around it.
pub open spec fn pretty_name(line: Seq<char>) -> Option<Seq<char>> {
    if starts_with(line, "PRETTY_NAME="@) {
        let fields = split(line, CharClass::Exactly('='));
        if fields.len() > 1 {
            Some(trim_class(fields[1], CharClass::Exactly('"')))
        } else {
            Some("Unknown"@)
        }
    } else {
        None
    }
}

/// The name of the system: the pretty name of the first `PRETTY_NAME=`
/// line of the release file.
pub open spec fn os_name(release_file: Option<Seq<char>>) -> Seq<char> {
    match release_file {
        Some(content) => or_default(
            first_some(lines(content), |line: Seq<char>| pretty_name(line)),
            "Unknown Linux"@,
        ),
        None => "Unknown Linux"@,
    }
}

/// The kernel version: the third word of the version file.
pub open spec fn kernel_version(version_file: Option<Seq<char>>) -> Seq<char> {
    match version_file {
        Some(content) => if words(content).len() > 2 {
            words(content)[2]
        } else {
            "unknown"@
        },
        None => "unknown"@,
    }
}

/// The shell: the last segment of the shell's path.
pub open spec fn shell(path: Option<Seq<char>>) -> Seq<char> {
    match path {
        Some(p) => split(p, CharClass::Exactly('/')).last(),
        None => "unknown"@,
    }
}

/// The processor: the brand of the first logical processor, without the
/// whitespace around it, and the number of logical processors.
pub open spec fn cpu_info(brands: Seq<Seq<char>>) -> Seq<char> {
    if brands.len() > 0 {
        trim(brands[0]) + " ("@ + decimal(brands.len()) + " cores)"@
    } else {
        "Unknown CPU"@
    }
}

/// The whole days of an uptime.
pub open spec fn days_of(seconds: nat) -> nat {
    seconds / 86400
}

/// The whole hours of an uptime beyond its days.
pub open spec fn hours_of(seconds: nat) -> nat {
    (seconds % 86400) / 3600
}

/// The whole minutes of an uptime beyond its hours.
pub open spec fn minutes_of(seconds: nat) -> nat {
    (seconds % 3600) / 60
}

/// An uptime in days, hours and minutes. Days and hours are left out while
/// they are zero; seconds are not shown.
pub open spec fn uptime_text(seconds: nat) -> Seq<char> {
    if days_of(seconds) > 0 {
        decimal(days_of(seconds)) + " days, "@ + decimal(hours_of(seconds)) + " hours, "@
            + decimal(minutes_of(seconds)) + " minutes"@
    } else if hours_of(seconds) > 0 {
        decimal(hours_of(seconds)) + " hours, "@ + decimal(minutes_of(seconds)) + " minutes"@
    } else {
        decimal(minutes_of(seconds)) + " minutes"@
    }
}

/// Days, hours and minutes make up the uptime but for less than a minute;
/// there are less than 24 hours and less than 60 minutes.
pub proof fn lemma_uptime_parts(seconds: nat)
    ensures
        hours_of(seconds) < 24,
        minutes_of(seconds) < 60,
        days_of(seconds) * 86400 + hours_of(seconds) * 3600 + minutes_of(seconds) * 60 <= seconds,
        seconds < days_of(seconds) * 86400 + hours_of(seconds) * 3600 + minutes_of(seconds) * 60
            + 60,
{
}

/// A number of bytes in tenths of a gibibyte, rounded to the nearest
/// tenth; a number just between two tenths goes to the even one.
pub open spec fn gib_tenths(bytes: nat) -> nat {
    let whole = (bytes * 10) / (GIB as nat);
    let rest = (bytes * 10) % (GIB as nat);
    if rest * 2 > GIB || (rest * 2 == GIB && whole % 2 == 1) {
        whole + 1
    } else {
        whole
    }
}

/// A number of bytes in gibibytes, with one decimal place.
pub open spec fn gib_text(bytes: nat) -> Seq<char> {
    decimal(gib_tenths(bytes) / 10) + "."@ + decimal(gib_tenths(bytes) % 10)
}

/// The share of `used` in `total` in percent, rounded to the nearest whole
/// number, a half upwards. It is beyond 100 where more is used than there
/// is in total.
pub open spec fn percent_used(used: nat, total: nat) -> nat
    recommends
        total > 0,
{
    (used * 200 + total) / (total * 2)
}

/// Used and total memory in gibibytes and the share in use. Where the
/// total is zero there is no share to compute, and the text is `N/A`.
pub open spec fn memory_text(used: nat, total: nat) -> Seq<char> {
    if total == 0 {
        "N/A"@
    } else {
        gib_text(used) + " GB / "@ + gib_text(total) + " GB ("@ + decimal(percent_used(used, total))
            + "%)"@
    }
}

/// The tenths are the nearest to the number of bytes: they are off by no
/// more than half a tenth of a gibibyte, and where two tenths are as near,
/// they are the even one.
pub proof fn lemma_gib_tenths_are_nearest(bytes: nat)
    ensures
        (bytes * 10 - gib_tenths(bytes) * GIB) * 2 <= GIB,
        (gib_tenths(bytes) * GIB - bytes * 10) * 2 <= GIB,
        (bytes * 10 - gib_tenths(bytes) * GIB) * 2 == GIB || (gib_tenths(bytes) * GIB - bytes * 10)
            * 2 == GIB ==> gib_tenths(bytes) % 2 == 0,
{
}

/// The share is the nearest whole percentage: it is off by no more than
/// half a percent, and where two are as near, it is the greater.
pub proof fn lemma_percent_is_nearest(used: nat, total: nat)
    requires
        total > 0,
    ensures
        (used * 100 - percent_used(used, total) * total) * 2 < total,
        (percent_used(used, total) * total - used * 100) * 2 <= total,
{
    let x = (used * 200 + total) as int;
    let d = (total * 2) as int;
    vstd::arithmetic::div_mod::lemma_fundamental_div_mod(x, d);
    vstd::arithmetic::div_mod::lemma_mod_bound(x, d);
    let p = x / d;
    assert(p >= 0) by (nonlinear_arith)
        requires
            x >= 0,
            d > 0,
            p == x / d,
    {
    }
    assert(p == percent_used(used, total));
    assert(d * p == (p * total) * 2) by (nonlinear_arith)
        requires
            d == total * 2,
    {
    }
}

/// Appends a number of bytes in gibibytes, with one decimal place.
fn push_gib(out: &mut String, bytes: u64)
    ensures
        final(out)@ == old(out)@ + gib_text(bytes as nat),
{
    let scaled: u128 = (bytes as u128) * 10;
    let whole: u128 = scaled / (GIB as u128);
    let rest: u128 = scaled % (GIB as u128);
    let half: u128 = (GIB as u128) / 2;
    let tenths: u128 = if rest > half || (rest == half && whole % 2 == 1) {
        whole + 1
    } else {
        whole
    };
    assert(tenths == gib_tenths(bytes as nat));
    assert(tenths <= u64::MAX);
    let tenths: u64 = tenths as u64;
    push_decimal(out, tenths / 10);
    out.push('.');
    push_decimal(out, tenths % 10);
    proof {
        let t = gib_tenths(bytes as nat);
        assert(old(out)@ + gib_text(bytes as nat) == (old(out)@ + decimal(t / 10)).push('.')
            + decimal(t % 10)) by {
            reveal_strlit(".");
            assert("."@ == seq!['.']);
        }
    }
}

/// The share of `used` in `total` in percent.
pub fn percent_used_exec(used: u64, total: u64) -> (share: u128)
    requires
        total > 0,
    ensures
        share == percent_used(used as nat, total as nat),
{
    ((used as u128) * 200 + (total as u128)) / ((total as u128) * 2)
}

/// Everything that was read of the host, before any of it is interpreted.
#[derive(Debug, Clone)]
pub struct Sources {
    /// The user variable of the environment.
    pub user: Option<String>,
    /// The content of the host name file.
    pub hostname_file: Option<String>,
    /// The content of the release file.
    pub release_file: Option<String>,
    /// The content of the kernel version file.
    pub version_file: Option<String>,
    /// The shell variable of the environment.
    pub shell: Option<String>,
    /// The terminal variable of the environment.
    pub terminal: Option<String>,
    /// The brand of each logical processor.
    pub cpu_brands: Vec<String>,
    /// The seconds since boot; zero if they could not be read.
    pub uptime: u64,
    /// The memory counters; zero if they could not be read.
    pub memory: MemoryInfo,
    /// What the sources of the graphics processor gave.
    pub gpu: GpuSources,
    /// What the sources of the desktop environment gave.
    pub desktop: DesktopSources,
}

impl Sources {
    /// The snapshot that these sources give.
    pub open spec fn snapshot(&self) -> SystemInfoView {
        SystemInfoView {
            username: or_default(stored(self.user), "unknown"@),
            hostname: hostname(stored(self.hostname_file)),
            os_name: os_name(stored(self.release_file)),
            kernel_version: kernel_version(stored(self.version_file)),
            uptime: self.uptime as nat,
            shell: shell(stored(self.shell)),
            cpu_info: cpu_info(stored_list(self.cpu_brands@)),
            gpu_info: self.gpu.gpu_info(),
            memory_total: self.memory.total as nat,
            memory_used: self.memory.used as nat,
            memory_available: self.memory.available as nat,
            desktop_environment: self.desktop.desktop_environment(),
            terminal: or_default(stored(self.terminal), "unknown"@),
        }
    }

    /// Whether no source gave anything: no variable is set, no file could
    /// be read, no helper program ran with success, no counter was read.
    pub open spec fn nothing_read(&self) -> bool {
        &&& self.user is None
        &&& self.hostname_file is None
        &&& self.release_file is None
        &&& self.version_file is None
        &&& self.shell is None
        &&& self.terminal is None
        &&& self.cpu_brands@.len() == 0
        &&& self.uptime == 0
        &&& self.memory.total == 0
        &&& self.memory.used == 0
        &&& self.memory.available == 0
        &&& self.gpu.nothing_read()
        &&& self.desktop.nothing_read()
    }

    /// Sources of which none gave anything.
    pub fn unavailable() -> (sources: Sources)
        ensures
            sources.nothing_read(),
    {
        Sources {
            user: None,
            hostname_file: None,
            release_file: None,
            version_file: None,
            shell: None,
            terminal: None,
            cpu_brands: Vec::new(),
            uptime: 0,
            memory: MemoryInfo { total: 0, used: 0, available: 0 },
            gpu: GpuSources::unavailable(),
            desktop: DesktopSources::unavailable(),
        }
    }

    /// Where no source gave anything, every fact is at its default.
    pub proof fn lemma_defaults(&self)
        requires
            self.nothing_read(),
        ensures
            self.snapshot() == (SystemInfoView {
                username: "unknown"@,
                hostname: "unknown"@,
                os_name: "Unknown Linux"@,
                kernel_version: "unknown"@,
                uptime: 0,
                shell: "unknown"@,
                cpu_info: "Unknown CPU"@,
                gpu_info: "Unknown GPU"@,
                memory_total: 0,
                memory_used: 0,
                memory_available: 0,
                desktop_environment: "Unknown"@,
                terminal: "unknown"@,
            }),
    {
    }
}

impl SystemInfo {
    /// The user name: the user variable of the environment.
    pub fn get_username(user: Option<&str>) -> (name: String)
        ensures
            name@ == or_default(reading(user), "unknown"@),
            user is None ==> name@ == "unknown"@,
    {
        match user {
            Some(u) => owned(u),
            None => owned("unknown"),
        }
    }

    /// The host name, from the content of the host name file.
    pub fn get_hostname(file: Option<&str>) -> (name: String)
        ensures
            name@ == hostname(reading(file)),
            file is None ==> name@ == "unknown"@,
    {
        match file {
            Some(content) => trim_exec(&chars_of(content), CharClass::Whitespace),
            None => owned("unknown"),
        }
    }

    /// The name of the system, from the content of the release file.
    pub fn get_os_name(release_file: Option<&str>) -> (name: String)
        ensures
            name@ == os_name(reading(release_file)),
            release_file is None ==> name@ == "Unknown Linux"@,
    {
        let content = match release_file {
            Some(content) => chars_of(content),
            None => {
                return owned("Unknown Linux");
            },
        };
        let all = lines_exec(&content);
        let prefix = chars_of("PRETTY_NAME=");
        let ghost f = |line: Seq<char>| pretty_name(line);
        let mut i: usize = 0;
        assert(pieces(all@).skip(0) == pieces(all@));
        while i < all.len()
            invariant
                i <= all.len(),
                prefix@ == "PRETTY_NAME="@,
                reading(release_file) == Some(content@),
                pieces(all@) == lines(content@),
                f == |line: Seq<char>| pretty_name(line),
                first_some(pieces(all@), f) == first_some(pieces(all@).skip(i as int), f),
            decreases all.len() - i,
        {
            proof {
                assert(pieces(all@).skip(i as int)[0] == all@[i as int]@);
                assert(pieces(all@).skip(i as int).skip(1) == pieces(all@).skip(i + 1));
            }
            if starts_with_exec(&all[i], &prefix) {
                let fields = split_exec(&all[i], CharClass::Exactly('='));
                if fields.len() > 1 {
                    return trim_exec(&fields[1], CharClass::Exactly('"'));
                } else {
                    return owned("Unknown");
                }
            }
            i += 1;
        }
        owned("Unknown Linux")
    }

    /// The kernel version, from the content of the version file.
    pub fn get_kernel_version(version_file: Option<&str>) -> (version: String)
        ensures
            version@ == kernel_version(reading(version_file)),
            version_file is None ==> version@ == "unknown"@,
    {
        match version_file {
            Some(content) => {
                let found = words_exec(&chars_of(content));
                if found.len() > 2 {
                    string_of(&found[2])
                } else {
                    owned("unknown")
                }
            },
            None => owned("unknown"),
        }
    }

    /// The shell, from the path in the shell variable of the environment.
    pub fn get_shell(path: Option<&str>) -> (name: String)
        ensures
            name@ == shell(reading(path)),
            path is None ==> name@ == "unknown"@,
    {
        match path {
            Some(p) => {
                let segments = split_exec(&chars_of(p), CharClass::Exactly('/'));
                string_of(&segments[segments.len() - 1])
            },
            None => owned("unknown"),
        }
    }

    /// The terminal: the terminal variable of the environment.
    pub fn get_terminal(term: Option<&str>) -> (name: String)
        ensures
            name@ == or_default(reading(term), "unknown"@),
            term is None ==> name@ == "unknown"@,
    {
        match term {
            Some(t) => owned(t),
            None => owned("unknown"),
        }
    }

    /// The processor, from the brands of the logical processors.
    pub fn get_cpu_info(brands: &Vec<String>) -> (description: String)
        ensures
            description@ == cpu_info(stored_list(brands@)),
            brands@.len() == 0 ==> description@ == "Unknown CPU"@,
    {
        if brands.len() > 0 {
            let mut out = trim_exec(&chars_of(brands[0].as_str()), CharClass::Whitespace);
            out.append(" (");
            push_decimal(&mut out, brands.len() as u64);
            out.append(" cores)");
            out
        } else {
            owned("Unknown CPU")
        }
    }

    /// The memory counters as they were read.
    pub fn get_memory_info(total: u64, used: u64, available: u64) -> (memory: MemoryInfo)
        ensures
            memory.total == total,
            memory.used == used,
            memory.available == available,
    {
        MemoryInfo { total, used, available }
    }

    /// The uptime in days, hours and minutes.
    pub fn format_uptime(&self) -> (text: String)
        ensures
            text@ == uptime_text(self.uptime as nat),
    {
        let days: u64 = self.uptime / 86400;
        let hours: u64 = (self.uptime % 86400) / 3600;
        let minutes: u64 = (self.uptime % 3600) / 60;
        let mut out = String::new();
        if days > 0 {
            push_decimal(&mut out, days);
            out.append(" days, ");
        }
        if days > 0 || hours > 0 {
            push_decimal(&mut out, hours);
            out.append(" hours, ");
        }
        push_decimal(&mut out, minutes);
        out.append(" minutes");
        out
    }

    /// Used and total memory in gibibytes, and the share in use.
    pub fn format_memory(&self) -> (text: String)
        ensures
            text@ == memory_text(self.memory_info.used as nat, self.memory_info.total as nat),
            self.memory_info.total == 0 ==> text@ == "N/A"@,
    {
        if self.memory_info.total == 0 {
            return owned("N/A");
        }
        let mut out = String::new();
        push_gib(&mut out, self.memory_info.used);
        out.append(" GB / ");
        push_gib(&mut out, self.memory_info.total);
        out.append(" GB (");
        let share = percent_used_exec(self.memory_info.used, self.memory_info.total);
        push_wide_decimal(&mut out, share);
        out.append("%)");
        out
    }

    /// The snapshot that the sources give: every fact resolved once, none
    /// left out.
    pub fn new(sources: &Sources) -> (info: SystemInfo)
        ensures
            info@ == sources.snapshot(),
    {
        SystemInfo {
            username: Self::get_username(borrowed(&sources.user)),
            hostname: Self::get_hostname(borrowed(&sources.hostname_file)),
            os_name: Self::get_os_name(borrowed(&sources.release_file)),
            kernel_version: Self::get_kernel_version(borrowed(&sources.version_file)),
            uptime: sources.uptime,
            shell: Self::get_shell(borrowed(&sources.shell)),
            cpu_info: Self::get_cpu_info(&sources.cpu_brands),
            gpu_info: Self::get_gpu_info(&sources.gpu),
            memory_info: Self::get_memory_info(
                sources.memory.total,
                sources.memory.used,
                sources.memory.available,
            ),
            desktop_environment: Self::get_desktop_environment(&sources.desktop),
            terminal: Self::get_terminal(borrowed(&sources.terminal)),
        }
    }
}

} // verus!
