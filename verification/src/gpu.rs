//! The graphics processor: five sources, asked in a fixed order until one
//! gives an answer.

use vstd::prelude::*;
use vstd::string::*;
use crate::system_info::{reading, stored, SystemInfo};
use crate::text::{
    chars_of, contains, contains_exec, first_some, lines, lines_exec, lowercase, owned, pieces,
    same_text, split, split_exec, starts_with, starts_with_exec, string_of, string_of_range,
    to_lowercase, trim, trim_bounds, trim_exec, CharClass,
};

verus! {

/// One entry of the graphics device directory: its name, and the content
/// of its vendor file if that could be read.
#[derive(Debug, Clone)]
pub struct GraphicsDevice {
    pub name: String,
    pub vendor: Option<String>,
}

/// What became of a helper program that could be started: whether it
/// reported success, and what it wrote to its standard output.
#[derive(Debug, Clone)]
pub struct ToolRun {
    pub success: bool,
    pub output: String,
}

/// What the sources of the graphics processor gave. A tool that could not
/// be started left no run behind.
#[derive(Debug, Clone)]
pub struct GpuSources {
    /// The run of the PCI listing tool, asked for its machine-readable
    /// form.
    pub pci_listing: Option<ToolRun>,
    /// The run of the OpenGL information tool.
    pub gl_info: Option<ToolRun>,
    /// The run of the vendor's query tool.
    pub vendor_query: Option<ToolRun>,
    /// The content of the vendor's driver status file.
    pub driver_status: Option<String>,
    /// The entries of the graphics device directory.
    pub devices: Option<Vec<GraphicsDevice>>,
}

/// The sources of the graphics processor, in the order in which they are
/// asked.
#[derive(Debug, Clone, Copy, PartialEq, Eq, Structural)]
pub enum GpuSource {
    PciListing,
    GlInfo,
    VendorQuery,
    DriverStatus,
    Devices,
}

/// The output of a helper program that may be used: that of a run which
/// reported success.
pub open spec fn usable(run: Option<ToolRun>) -> Option<Seq<char>> {
    match run {
        Some(r) => if r.success {
            Some(r.output@)
        } else {
            None
        },
        None => None,
    }
}

/// Whether a lower-cased line of the PCI listing is about a display
/// controller.
pub open spec fn is_display_class(lower: Seq<char>) -> bool {
    contains(lower, "vga"@) || contains(lower, "3d"@) || contains(lower, "display"@)
}

/// The device that a line of the PCI listing names, given the line in
/// lower case. The line is cut at its double quotes: vendor and device are
/// the fourth and the sixth part; a line with fewer parts gives the
/// second, the class; a line without quotes gives nothing.
pub open spec fn pci_line_name(line: Seq<char>, lower: Seq<char>) -> Option<Seq<char>> {
    let parts = split(line, CharClass::Exactly('"'));
    if !is_display_class(lower) {
        None
    } else if parts.len() >= 6 {
        Some(parts[3] + " "@ + parts[5])
    } else if parts.len() >= 2 {
        Some(parts[1])
    } else {
        None
    }
}

/// The device that the PCI listing names: the first that one of its lines
/// names.
pub open spec fn pci_name(output: Seq<char>) -> Option<Seq<char>> {
    first_some(lines(output), |line: Seq<char>| pci_line_name(line, lowercase(line)))
}

/// The renderer that a line of the OpenGL information names: on a renderer
/// line, what stands between the first colon and the next, without the
/// whitespace around it.
pub open spec fn gl_line_name(line: Seq<char>) -> Option<Seq<char>> {
    let fields = split(line, CharClass::Exactly(':'));
    if contains(line, "OpenGL renderer string:"@) && fields.len() > 1 {
        Some(trim(fields[1]))
    } else {
        None
    }
}

/// The renderer that the OpenGL information names.
pub open spec fn gl_name(output: Seq<char>) -> Option<Seq<char>> {
    first_some(lines(output), |line: Seq<char>| gl_line_name(line))
}

/// The name that the vendor's query tool printed, unless it printed
/// nothing but whitespace.
pub open spec fn vendor_query_name(output: Seq<char>) -> Option<Seq<char>> {
    if trim(output).len() > 0 {
        Some(trim(output))
    } else {
        None
    }
}

/// A driver status file that is not empty shows a processor of that
/// vendor, and no more.
pub open spec fn driver_status_name(content: Seq<char>) -> Option<Seq<char>> {
    if content.len() > 0 {
        Some("NVIDIA GPU (details unavailable)"@)
    } else {
        None
    }
}

/// The vendor with a given PCI vendor number.
pub open spec fn vendor_name(id: Seq<char>) -> Option<Seq<char>> {
    if id == "0x1002"@ {
        Some("AMD GPU"@)
    } else if id == "0x8086"@ {
        Some("Intel GPU"@)
    } else if id == "0x10de"@ {
        Some("NVIDIA GPU"@)
    } else {
        None
    }
}

/// The vendor of a graphics device. Only a card counts, not one of its
/// connectors, which have a hyphen in their names.
pub open spec fn device_name(device: GraphicsDevice) -> Option<Seq<char>> {
    if starts_with(device.name@, "card"@) && !device.name@.contains('-') {
        match device.vendor {
            Some(id) => vendor_name(trim(id@)),
            None => None,
        }
    } else {
        None
    }
}

/// The vendor of the first graphics device that has a known one.
pub open spec fn devices_name(devices: Seq<GraphicsDevice>) -> Option<Seq<char>> {
    first_some(devices, |device: GraphicsDevice| device_name(device))
}

impl GpuSource {
    /// The place of the source in the order of asking.
    pub open spec fn rank(self) -> nat {
        match self {
            GpuSource::PciListing => 0,
            GpuSource::GlInfo => 1,
            GpuSource::VendorQuery => 2,
            GpuSource::DriverStatus => 3,
            GpuSource::Devices => 4,
        }
    }

    /// The source that is asked first.
    pub fn first() -> (source: GpuSource)
        ensures
            source.rank() == 0,
    {
        GpuSource::PciListing
    }

    /// The source that is asked when this one gave no answer, if one is
    /// left.
    pub fn next(self) -> (following: Option<GpuSource>)
        ensures
            match following {
                Some(source) => source.rank() == self.rank() + 1,
                None => self.rank() == 4,
            },
    {
        match self {
            GpuSource::PciListing => Some(GpuSource::GlInfo),
            GpuSource::GlInfo => Some(GpuSource::VendorQuery),
            GpuSource::VendorQuery => Some(GpuSource::DriverStatus),
            GpuSource::DriverStatus => Some(GpuSource::Devices),
            GpuSource::Devices => None,
        }
    }
}

impl GpuSources {
    /// The answer of one source, if it gave one.
    pub open spec fn answer(&self, source: GpuSource) -> Option<Seq<char>> {
        match source {
            GpuSource::PciListing => match usable(self.pci_listing) {
                Some(output) => pci_name(output),
                None => None,
            },
            GpuSource::GlInfo => match usable(self.gl_info) {
                Some(output) => gl_name(output),
                None => None,
            },
            GpuSource::VendorQuery => match usable(self.vendor_query) {
                Some(output) => vendor_query_name(output),
                None => None,
            },
            GpuSource::DriverStatus => match self.driver_status {
                Some(content) => driver_status_name(content@),
                None => None,
            },
            GpuSource::Devices => match self.devices {
                Some(devices) => devices_name(devices@),
                None => None,
            },
        }
    }

    /// The graphics processor: the answer of the first source that gave
    /// one.
    pub open spec fn gpu_info(&self) -> Seq<char> {
        if self.answer(GpuSource::PciListing) is Some {
            self.answer(GpuSource::PciListing)->0
        } else if self.answer(GpuSource::GlInfo) is Some {
            self.answer(GpuSource::GlInfo)->0
        } else if self.answer(GpuSource::VendorQuery) is Some {
            self.answer(GpuSource::VendorQuery)->0
        } else if self.answer(GpuSource::DriverStatus) is Some {
            self.answer(GpuSource::DriverStatus)->0
        } else if self.answer(GpuSource::Devices) is Some {
            self.answer(GpuSource::Devices)->0
        } else {
            "Unknown GPU"@
        }
    }

    /// Whether no source gave anything: no helper program ran with
    /// success, and neither the file nor the directory could be read.
    pub open spec fn nothing_read(&self) -> bool {
        &&& usable(self.pci_listing) is None
        &&& usable(self.gl_info) is None
        &&& usable(self.vendor_query) is None
        &&& self.driver_status is None
        &&& self.devices is None
    }

    /// Sources of which none could be read.
    pub fn unavailable() -> (sources: GpuSources)
        ensures
            sources.nothing_read(),
            sources.pci_listing is None,
            sources.gl_info is None,
            sources.vendor_query is None,
            sources.driver_status is None,
            sources.devices is None,
    {
        GpuSources {
            pci_listing: None,
            gl_info: None,
            vendor_query: None,
            driver_status: None,
            devices: None,
        }
    }

    /// An answer settles the fact whatever the sources behind it hold: if
    /// `source` gave an answer and no source before it did, that answer is
    /// the graphics processor.
    pub proof fn lemma_first_answer_settles(&self, source: GpuSource)
        requires
            self.answer(source) is Some,
            forall|earlier: GpuSource|
                earlier.rank() < source.rank() ==> self.answer(earlier) is None,
        ensures
            self.gpu_info() == self.answer(source)->0,
    {
        assert(GpuSource::PciListing.rank() == 0);
        assert(GpuSource::GlInfo.rank() == 1);
        assert(GpuSource::VendorQuery.rank() == 2);
        assert(GpuSource::DriverStatus.rank() == 3);
    }

    /// Where no source gave an answer, and so where no source gave
    /// anything, the graphics processor is unknown.
    pub proof fn lemma_no_answer_is_unknown(&self)
        ensures
            (forall|source: GpuSource| self.answer(source) is None) ==> self.gpu_info()
                == "Unknown GPU"@,
            self.nothing_read() ==> self.gpu_info() == "Unknown GPU"@,
    {
    }
}

impl SystemInfo {
    /// The device that a line of the PCI listing names, given the line in
    /// lower case.
    pub fn get_pci_line_name(line: &str, lower: &str) -> (name: Option<String>)
        ensures
            stored(name) == pci_line_name(line@, lower@),
    {
        let low = chars_of(lower);
        if !(contains_exec(&low, &chars_of("vga")) || contains_exec(&low, &chars_of("3d"))
            || contains_exec(&low, &chars_of("display"))) {
            return None;
        }
        let parts = split_exec(&chars_of(line), CharClass::Exactly('"'));
        if parts.len() >= 6 {
            let mut out = string_of(&parts[3]);
            out.append(" ");
            out.append(string_of(&parts[5]).as_str());
            Some(out)
        } else if parts.len() >= 2 {
            Some(string_of(&parts[1]))
        } else {
            None
        }
    }

    /// The device that the PCI listing names.
    pub fn get_pci_name(output: &str) -> (name: Option<String>)
        ensures
            stored(name) == pci_name(output@),
    {
        let content = chars_of(output);
        let all = lines_exec(&content);
        let ghost f = |line: Seq<char>| pci_line_name(line, lowercase(line));
        let mut i: usize = 0;
        assert(pieces(all@).skip(0) == pieces(all@));
        while i < all.len()
            invariant
                i <= all.len(),
                content@ == output@,
                pieces(all@) == lines(content@),
                f == |line: Seq<char>| pci_line_name(line, lowercase(line)),
                first_some(pieces(all@), f) == first_some(pieces(all@).skip(i as int), f),
            decreases all.len() - i,
        {
            proof {
                assert(pieces(all@).skip(i as int)[0] == all@[i as int]@);
                assert(pieces(all@).skip(i as int).skip(1) == pieces(all@).skip(i + 1));
            }
            let line = string_of(&all[i]);
            let lower = to_lowercase(line.as_str());
            let name = Self::get_pci_line_name(line.as_str(), lower.as_str());
            if name.is_some() {
                return name;
            }
            i += 1;
        }
        None
    }

    /// The renderer that the OpenGL information names.
    pub fn get_gl_name(output: &str) -> (name: Option<String>)
        ensures
            stored(name) == gl_name(output@),
    {
        let content = chars_of(output);
        let all = lines_exec(&content);
        let marker = chars_of("OpenGL renderer string:");
        let ghost f = |line: Seq<char>| gl_line_name(line);
        let mut i: usize = 0;
        assert(pieces(all@).skip(0) == pieces(all@));
        while i < all.len()
            invariant
                i <= all.len(),
                content@ == output@,
                marker@ == "OpenGL renderer string:"@,
                pieces(all@) == lines(content@),
                f == |line: Seq<char>| gl_line_name(line),
                first_some(pieces(all@), f) == first_some(pieces(all@).skip(i as int), f),
            decreases all.len() - i,
        {
            proof {
                assert(pieces(all@).skip(i as int)[0] == all@[i as int]@);
                assert(pieces(all@).skip(i as int).skip(1) == pieces(all@).skip(i + 1));
            }
            if contains_exec(&all[i], &marker) {
                let fields = split_exec(&all[i], CharClass::Exactly(':'));
                if fields.len() > 1 {
                    return Some(trim_exec(&fields[1], CharClass::Whitespace));
                }
            }
            i += 1;
        }
        None
    }

    /// The name that the vendor's query tool printed.
    pub fn get_vendor_query_name(output: &str) -> (name: Option<String>)
        ensures
            stored(name) == vendor_query_name(output@),
    {
        let content = chars_of(output);
        let (lo, hi) = trim_bounds(&content, CharClass::Whitespace);
        if lo < hi {
            Some(string_of_range(&content, lo, hi))
        } else {
            None
        }
    }

    /// What a driver status file shows.
    pub fn get_driver_status_name(content: &str) -> (name: Option<String>)
        ensures
            stored(name) == driver_status_name(content@),
    {
        if content.unicode_len() > 0 {
            Some(owned("NVIDIA GPU (details unavailable)"))
        } else {
            None
        }
    }

    /// The vendor of a graphics device.
    pub fn get_device_name(device: &GraphicsDevice) -> (name: Option<String>)
        ensures
            stored(name) == device_name(*device),
    {
        let entry = chars_of(device.name.as_str());
        if !starts_with_exec(&entry, &chars_of("card")) || has_char(&entry, '-') {
            return None;
        }
        match &device.vendor {
            Some(id) => {
                let trimmed = trim_exec(&chars_of(id.as_str()), CharClass::Whitespace);
                let number = chars_of(trimmed.as_str());
                if same_text(&number, &chars_of("0x1002")) {
                    Some(owned("AMD GPU"))
                } else if same_text(&number, &chars_of("0x8086")) {
                    Some(owned("Intel GPU"))
                } else if same_text(&number, &chars_of("0x10de")) {
                    Some(owned("NVIDIA GPU"))
                } else {
                    None
                }
            },
            None => None,
        }
    }

    /// The vendor of the first graphics device that has a known one.
    pub fn get_devices_name(devices: &Vec<GraphicsDevice>) -> (name: Option<String>)
        ensures
            stored(name) == devices_name(devices@),
    {
        let ghost f = |device: GraphicsDevice| device_name(device);
        let mut i: usize = 0;
        assert(devices@.skip(0) == devices@);
        while i < devices.len()
            invariant
                i <= devices.len(),
                f == |device: GraphicsDevice| device_name(device),
                first_some(devices@, f) == first_some(devices@.skip(i as int), f),
            decreases devices.len() - i,
        {
            proof {
                assert(devices@.skip(i as int)[0] == devices@[i as int]);
                assert(devices@.skip(i as int).skip(1) == devices@.skip(i + 1));
            }
            let name = Self::get_device_name(&devices[i]);
            if name.is_some() {
                return name;
            }
            i += 1;
        }
        None
    }

    /// The answer of one source of the graphics processor, if it gave one.
    pub fn gpu_answer(source: GpuSource, sources: &GpuSources) -> (name: Option<String>)
        ensures
            stored(name) == sources.answer(source),
    {
        match source {
            GpuSource::PciListing => match usable_output(&sources.pci_listing) {
                Some(output) => Self::get_pci_name(output),
                None => None,
            },
            GpuSource::GlInfo => match usable_output(&sources.gl_info) {
                Some(output) => Self::get_gl_name(output),
                None => None,
            },
            GpuSource::VendorQuery => match usable_output(&sources.vendor_query) {
                Some(output) => Self::get_vendor_query_name(output),
                None => None,
            },
            GpuSource::DriverStatus => match &sources.driver_status {
                Some(content) => Self::get_driver_status_name(content.as_str()),
                None => None,
            },
            GpuSource::Devices => match &sources.devices {
                Some(devices) => Self::get_devices_name(devices),
                None => None,
            },
        }
    }

    /// The graphics processor: the answer of the first source that gave
    /// one, in the order of asking.
    pub fn get_gpu_info(sources: &GpuSources) -> (name: String)
        ensures
            name@ == sources.gpu_info(),
            sources.nothing_read() ==> name@ == "Unknown GPU"@,
    {
        let mut source = GpuSource::first();
        loop
            invariant
                forall|earlier: GpuSource|
                    earlier.rank() < source.rank() ==> sources.answer(earlier) is None,
            decreases 4 - source.rank(),
        {
            match Self::gpu_answer(source, sources) {
                Some(name) => {
                    proof {
                        sources.lemma_first_answer_settles(source);
                    }
                    return name;
                },
                None => {},
            }
            match source.next() {
                Some(following) => {
                    source = following;
                },
                None => {
                    assert forall|any: GpuSource| sources.answer(any) is None by {
                        assert(any.rank() <= 4);
                    }
                    return owned("Unknown GPU");
                },
            }
        }
    }
}

/// The output of a helper program that may be used.
fn usable_output(run: &Option<ToolRun>) -> (output: Option<&str>)
    ensures
        reading(output) == usable(*run),
{
    match run {
        Some(r) => if r.success {
            Some(r.output.as_str())
        } else {
            None
        },
        None => None,
    }
}

/// Whether `c` stands in `s`.
fn has_char(s: &Vec<char>, c: char) -> (b: bool)
    ensures
        b == s@.contains(c),
{
    let mut i: usize = 0;
    while i < s.len()
        invariant
            i <= s.len(),
            forall|k: int| 0 <= k < i ==> s@[k] != c,
        decreases s.len() - i,
    {
        if s[i] == c {
            return true;
        }
        i += 1;
    }
    false
}

} // verus!
