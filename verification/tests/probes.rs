use zfetch::display::Display;
use zfetch::desktop::{DesktopSource, DesktopSources};
use zfetch::gpu::{GpuSource, GpuSources, GraphicsDevice, ToolRun};
use zfetch::system_info::{MemoryInfo, Sources, SystemInfo};

fn text(s: &str) -> Option<String> {
    Some(s.to_string())
}

fn run(output: &str) -> Option<ToolRun> {
    Some(ToolRun { success: true, output: output.to_string() })
}

fn failed(output: &str) -> Option<ToolRun> {
    Some(ToolRun { success: false, output: output.to_string() })
}

fn device(name: &str, vendor: Option<&str>) -> GraphicsDevice {
    GraphicsDevice { name: name.to_string(), vendor: vendor.map(|v| v.to_string()) }
}

const PCI_LISTING: &str = "00:00.0 \"Host bridge\" \"Intel Corporation\" \"Xeon E3-1200 v6\" -r08 \"Lenovo\" \"ThinkPad\"\n00:02.0 \"VGA compatible controller\" \"Intel Corporation\" \"UHD Graphics 620\" -r07 \"Lenovo\" \"ThinkPad T480\"\n01:00.0 \"3D controller\" \"NVIDIA Corporation\" \"GP108M [GeForce MX150]\" -ra1 \"Lenovo\" \"ThinkPad T480\"\n";

#[test]
fn every_fact_has_its_default() {
    let info = SystemInfo::new(&Sources::unavailable());
    assert_eq!(info.username, "unknown");
    assert_eq!(info.hostname, "unknown");
    assert_eq!(info.os_name, "Unknown Linux");
    assert_eq!(info.kernel_version, "unknown");
    assert_eq!(info.uptime, 0);
    assert_eq!(info.shell, "unknown");
    assert_eq!(info.terminal, "unknown");
    assert_eq!(info.desktop_environment, "Unknown");
    assert_eq!(info.cpu_info, "Unknown CPU");
    assert_eq!(info.gpu_info, "Unknown GPU");
    assert_eq!(info.memory_info.total, 0);
    assert_eq!(info.memory_info.used, 0);
    assert_eq!(info.memory_info.available, 0);
}

#[test]
fn each_probe_has_its_default() {
    assert_eq!(SystemInfo::get_username(None), "unknown");
    assert_eq!(SystemInfo::get_hostname(None), "unknown");
    assert_eq!(SystemInfo::get_os_name(None), "Unknown Linux");
    assert_eq!(SystemInfo::get_kernel_version(None), "unknown");
    assert_eq!(SystemInfo::get_shell(None), "unknown");
    assert_eq!(SystemInfo::get_terminal(None), "unknown");
    assert_eq!(SystemInfo::get_cpu_info(&vec![]), "Unknown CPU");
    assert_eq!(SystemInfo::get_gpu_info(&GpuSources::unavailable()), "Unknown GPU");
    assert_eq!(SystemInfo::get_desktop_environment(&DesktopSources::unavailable()), "Unknown");
    assert_eq!(Display::get_os_name(None), "linux");
}

#[test]
fn snapshot_takes_every_source() {
    let sources = Sources {
        user: text("alice"),
        hostname_file: text("wonderland\n"),
        release_file: text("NAME=\"Arch Linux\"\nPRETTY_NAME=\"Arch Linux\"\nID=arch\n"),
        version_file: text("Linux version 6.6.8-arch1-1 (linux@archlinux) (gcc 13.2.1) #1 SMP\n"),
        shell: text("/usr/bin/zsh"),
        terminal: text("xterm-256color"),
        cpu_brands: vec!["AMD Ryzen 7 5800X 8-Core Processor".to_string(); 16],
        uptime: 3661,
        memory: MemoryInfo { total: 100, used: 40, available: 60 },
        gpu: GpuSources {
            pci_listing: run(PCI_LISTING),
            gl_info: None,
            vendor_query: None,
            driver_status: None,
            devices: None,
        },
        desktop: DesktopSources {
            current_desktop: text("KDE"),
            desktop_session: None,
            gdm_session: None,
            gnome_shell: None,
            kwin: None,
        },
    };
    let info = SystemInfo::new(&sources);
    assert_eq!(info.username, "alice");
    assert_eq!(info.hostname, "wonderland");
    assert_eq!(info.os_name, "Arch Linux");
    assert_eq!(info.kernel_version, "6.6.8-arch1-1");
    assert_eq!(info.uptime, 3661);
    assert_eq!(info.shell, "zsh");
    assert_eq!(info.terminal, "xterm-256color");
    assert_eq!(info.cpu_info, "AMD Ryzen 7 5800X 8-Core Processor (16 cores)");
    assert_eq!(info.gpu_info, "Intel Corporation UHD Graphics 620");
    assert_eq!(info.memory_info.total, 100);
    assert_eq!(info.memory_info.used, 40);
    assert_eq!(info.memory_info.available, 60);
    assert_eq!(info.desktop_environment, "KDE");
}

#[test]
fn username_is_the_variable() {
    assert_eq!(SystemInfo::get_username(Some("root")), "root");
    assert_eq!(SystemInfo::get_username(Some("")), "");
}

#[test]
fn hostname_is_trimmed() {
    assert_eq!(SystemInfo::get_hostname(Some("myhost\n")), "myhost");
    assert_eq!(SystemInfo::get_hostname(Some("  spaced \t\r\n")), "spaced");
    assert_eq!(SystemInfo::get_hostname(Some("two words\n")), "two words");
    assert_eq!(SystemInfo::get_hostname(Some("\n")), "");
    assert_eq!(SystemInfo::get_hostname(Some("\u{a0}nbsp\u{3000}")), "nbsp");
}

#[test]
fn os_name_is_the_pretty_name() {
    assert_eq!(
        SystemInfo::get_os_name(Some("NAME=Fedora\nPRETTY_NAME=\"Fedora Linux 39\"\n")),
        "Fedora Linux 39"
    );
    assert_eq!(SystemInfo::get_os_name(Some("PRETTY_NAME=Void")), "Void");
    assert_eq!(SystemInfo::get_os_name(Some("PRETTY_NAME=\"First\"\nPRETTY_NAME=\"Second\"")), "First");
    assert_eq!(SystemInfo::get_os_name(Some("PRETTY_NAME=\"Windows line\"\r\nID=x\r\n")), "Windows line");
}

#[test]
fn os_name_stops_at_a_second_equals_sign() {
    assert_eq!(SystemInfo::get_os_name(Some("PRETTY_NAME=\"A=B\"\n")), "A");
    assert_eq!(SystemInfo::get_os_name(Some("PRETTY_NAME=\n")), "");
}

#[test]
fn os_name_without_pretty_name_is_unknown() {
    assert_eq!(SystemInfo::get_os_name(Some("NAME=Fedora\nID=fedora\n")), "Unknown Linux");
    assert_eq!(SystemInfo::get_os_name(Some("")), "Unknown Linux");
    assert_eq!(SystemInfo::get_os_name(Some(" PRETTY_NAME=\"Indented\"")), "Unknown Linux");
}

#[test]
fn kernel_version_is_the_third_word() {
    assert_eq!(
        SystemInfo::get_kernel_version(Some(
            "Linux version 6.1.0-13-amd64 (debian-kernel@lists.debian.org) (gcc-12)\n"
        )),
        "6.1.0-13-amd64"
    );
    assert_eq!(SystemInfo::get_kernel_version(Some("  a \t b\n\nc  d")), "c");
}

#[test]
fn kernel_version_needs_three_words() {
    assert_eq!(SystemInfo::get_kernel_version(Some("Linux version")), "unknown");
    assert_eq!(SystemInfo::get_kernel_version(Some("")), "unknown");
    assert_eq!(SystemInfo::get_kernel_version(Some("   \n ")), "unknown");
}

#[test]
fn shell_is_the_last_segment() {
    assert_eq!(SystemInfo::get_shell(Some("/bin/bash")), "bash");
    assert_eq!(SystemInfo::get_shell(Some("fish")), "fish");
    assert_eq!(SystemInfo::get_shell(Some("/usr/bin/")), "");
    assert_eq!(SystemInfo::get_shell(Some("")), "");
}

#[test]
fn terminal_is_the_variable() {
    assert_eq!(SystemInfo::get_terminal(Some("alacritty")), "alacritty");
}

#[test]
fn cpu_is_first_brand_and_count() {
    let brands = vec!["  Intel(R) Core(TM) i7-8550U CPU @ 1.80GHz ".to_string(); 8];
    assert_eq!(SystemInfo::get_cpu_info(&brands), "Intel(R) Core(TM) i7-8550U CPU @ 1.80GHz (8 cores)");
    let mixed = vec!["first".to_string(), "second".to_string()];
    assert_eq!(SystemInfo::get_cpu_info(&mixed), "first (2 cores)");
    assert_eq!(SystemInfo::get_cpu_info(&vec![String::new()]), " (1 cores)");
}

#[test]
fn memory_counters_pass_through() {
    let memory = SystemInfo::get_memory_info(3, 2, 1);
    assert_eq!(memory.total, 3);
    assert_eq!(memory.used, 2);
    assert_eq!(memory.available, 1);
}

#[test]
fn pci_listing_names_vendor_and_device() {
    assert_eq!(
        SystemInfo::get_pci_name(PCI_LISTING),
        Some("Intel Corporation UHD Graphics 620".to_string())
    );
}

#[test]
fn pci_listing_finds_3d_and_display_controllers() {
    let listing = "00:00.0 \"Host bridge\" \"Intel\" \"X\"\n01:00.0 \"3D controller\" \"NVIDIA Corporation\" \"GP108M\" -ra1\n";
    assert_eq!(SystemInfo::get_pci_name(listing), Some("NVIDIA Corporation GP108M".to_string()));
    let listing = "05:00.0 \"Display controller\" \"AMD\" \"Navi 23\"";
    assert_eq!(SystemInfo::get_pci_name(listing), Some("AMD Navi 23".to_string()));
}

#[test]
fn pci_line_with_few_fields_gives_the_second() {
    assert_eq!(SystemInfo::get_pci_name("vga \"only class\""), Some("only class".to_string()));
    assert_eq!(SystemInfo::get_pci_name("vga \"a\" b \"c"), Some("a".to_string()));
    assert_eq!(SystemInfo::get_pci_name("vga \"a\" b \"c\" d"), Some("a".to_string()));
    assert_eq!(SystemInfo::get_pci_name("vga \"a\" b \"c\" d \"e"), Some("c e".to_string()));
}

#[test]
fn pci_line_without_quotes_is_passed_over() {
    assert_eq!(SystemInfo::get_pci_name("VGA without fields\n"), None);
    assert_eq!(
        SystemInfo::get_pci_name("VGA without fields\n00:02.0 \"VGA\" \"V\" \"D\"\n"),
        Some("V D".to_string())
    );
    assert_eq!(SystemInfo::get_pci_name(""), None);
}

#[test]
fn pci_line_is_judged_by_its_lower_case() {
    assert_eq!(
        SystemInfo::get_pci_line_name("00:02.0 \"Vga\" \"V\" \"D\"", "00:02.0 \"vga\" \"v\" \"d\""),
        Some("V D".to_string())
    );
    assert_eq!(SystemInfo::get_pci_line_name("00:02.0 \"VGA\" \"V\" \"D\"", "no class here"), None);
    assert_eq!(
        SystemInfo::get_pci_name("00:02.0 \"DISPLAY Controller\" \"V\" \"D\""),
        Some("V D".to_string())
    );
}

#[test]
fn gl_info_names_the_renderer() {
    let output = "name of display: :0\nOpenGL vendor string: Intel\nOpenGL renderer string: Mesa Intel(R) UHD Graphics 620 (KBL GT2)\nOpenGL version string: 4.6\n";
    assert_eq!(
        SystemInfo::get_gl_name(output),
        Some("Mesa Intel(R) UHD Graphics 620 (KBL GT2)".to_string())
    );
    assert_eq!(SystemInfo::get_gl_name("OpenGL renderer string: A: B"), Some("A".to_string()));
    assert_eq!(SystemInfo::get_gl_name("x: OpenGL renderer string: A"), Some("OpenGL renderer string".to_string()));
    assert_eq!(SystemInfo::get_gl_name("OpenGL vendor string: Intel\n"), None);
}

#[test]
fn vendor_query_names_the_processor() {
    assert_eq!(
        SystemInfo::get_vendor_query_name("NVIDIA GeForce RTX 3080\n"),
        Some("NVIDIA GeForce RTX 3080".to_string())
    );
    assert_eq!(SystemInfo::get_vendor_query_name("  \n"), None);
    assert_eq!(SystemInfo::get_vendor_query_name(""), None);
}

#[test]
fn driver_status_shows_the_vendor() {
    assert_eq!(
        SystemInfo::get_driver_status_name("0000:01:00.0"),
        Some("NVIDIA GPU (details unavailable)".to_string())
    );
    assert_eq!(SystemInfo::get_driver_status_name(""), None);
}

#[test]
fn devices_map_vendor_numbers() {
    assert_eq!(
        SystemInfo::get_device_name(&device("card0", Some("0x1002\n"))),
        Some("AMD GPU".to_string())
    );
    assert_eq!(
        SystemInfo::get_device_name(&device("card1", Some("0x8086"))),
        Some("Intel GPU".to_string())
    );
    assert_eq!(
        SystemInfo::get_device_name(&device("card2", Some(" 0x10de "))),
        Some("NVIDIA GPU".to_string())
    );
    assert_eq!(SystemInfo::get_device_name(&device("card3", Some("0x1234"))), None);
    assert_eq!(SystemInfo::get_device_name(&device("card3", Some("0X1002"))), None);
    assert_eq!(SystemInfo::get_device_name(&device("card4", None)), None);
}

#[test]
fn devices_skip_connectors_and_render_nodes() {
    assert_eq!(SystemInfo::get_device_name(&device("card0-HDMI-A-1", Some("0x8086"))), None);
    assert_eq!(SystemInfo::get_device_name(&device("renderD128", Some("0x8086"))), None);
    assert_eq!(SystemInfo::get_device_name(&device("car", Some("0x8086"))), None);
    let devices = vec![
        device("card0-eDP-1", Some("0x1002")),
        device("renderD128", Some("0x1002")),
        device("card0", Some("0x9999")),
        device("card1", Some("0x10de\n")),
        device("card2", Some("0x8086\n")),
    ];
    assert_eq!(SystemInfo::get_devices_name(&devices), Some("NVIDIA GPU".to_string()));
    assert_eq!(SystemInfo::get_devices_name(&vec![]), None);
}

#[test]
fn gpu_sources_are_asked_in_order() {
    let mut sources = GpuSources {
        pci_listing: run(PCI_LISTING),
        gl_info: run("OpenGL renderer string: Renderer\n"),
        vendor_query: run("Queried\n"),
        driver_status: text("status"),
        devices: Some(vec![device("card0", Some("0x1002"))]),
    };
    assert_eq!(SystemInfo::get_gpu_info(&sources), "Intel Corporation UHD Graphics 620");
    sources.pci_listing = run("00:00.0 \"Host bridge\" \"Intel\" \"X\"\n");
    assert_eq!(SystemInfo::get_gpu_info(&sources), "Renderer");
    sources.gl_info = None;
    assert_eq!(SystemInfo::get_gpu_info(&sources), "Queried");
    sources.vendor_query = run("\n");
    assert_eq!(SystemInfo::get_gpu_info(&sources), "NVIDIA GPU (details unavailable)");
    sources.driver_status = text("");
    assert_eq!(SystemInfo::get_gpu_info(&sources), "AMD GPU");
    sources.devices = Some(vec![]);
    assert_eq!(SystemInfo::get_gpu_info(&sources), "Unknown GPU");
}

#[test]
fn gpu_source_order() {
    assert_eq!(GpuSource::first(), GpuSource::PciListing);
    assert_eq!(GpuSource::PciListing.next(), Some(GpuSource::GlInfo));
    assert_eq!(GpuSource::GlInfo.next(), Some(GpuSource::VendorQuery));
    assert_eq!(GpuSource::VendorQuery.next(), Some(GpuSource::DriverStatus));
    assert_eq!(GpuSource::DriverStatus.next(), Some(GpuSource::Devices));
    assert_eq!(GpuSource::Devices.next(), None);
}

#[test]
fn gpu_answer_of_one_source() {
    let mut sources = GpuSources::unavailable();
    sources.vendor_query = run("Queried\n");
    assert_eq!(SystemInfo::gpu_answer(GpuSource::PciListing, &sources), None);
    assert_eq!(SystemInfo::gpu_answer(GpuSource::VendorQuery, &sources), Some("Queried".to_string()));
    assert_eq!(SystemInfo::gpu_answer(GpuSource::Devices, &sources), None);
}

#[test]
fn desktop_is_first_session_variable_that_is_set() {
    let mut sources = DesktopSources::unavailable();
    sources.current_desktop = text("");
    sources.desktop_session = text("plasma");
    sources.gdm_session = text("gnome");
    sources.gnome_shell = Some(true);
    assert_eq!(SystemInfo::get_desktop_environment(&sources), "plasma");
    sources.current_desktop = text("sway");
    assert_eq!(SystemInfo::get_desktop_environment(&sources), "sway");
    sources.current_desktop = None;
    sources.desktop_session = None;
    assert_eq!(SystemInfo::get_desktop_environment(&sources), "gnome");
}

#[test]
fn desktop_falls_back_to_known_shells() {
    let mut sources = DesktopSources::unavailable();
    sources.gdm_session = text("");
    sources.gnome_shell = Some(true);
    sources.kwin = Some(true);
    assert_eq!(SystemInfo::get_desktop_environment(&sources), "GNOME");
    sources.gnome_shell = Some(false);
    assert_eq!(SystemInfo::get_desktop_environment(&sources), "KDE");
    sources.gnome_shell = None;
    assert_eq!(SystemInfo::get_desktop_environment(&sources), "KDE");
    sources.kwin = Some(false);
    assert_eq!(SystemInfo::get_desktop_environment(&sources), "Unknown");
}

#[test]
fn desktop_source_order() {
    assert_eq!(DesktopSource::first(), DesktopSource::SessionVariables);
    assert_eq!(DesktopSource::SessionVariables.next(), Some(DesktopSource::GnomeShell));
    assert_eq!(DesktopSource::GnomeShell.next(), Some(DesktopSource::Kwin));
    assert_eq!(DesktopSource::Kwin.next(), None);
    let mut sources = DesktopSources::unavailable();
    sources.kwin = Some(true);
    assert_eq!(SystemInfo::desktop_answer(DesktopSource::SessionVariables, &sources), None);
    assert_eq!(SystemInfo::desktop_answer(DesktopSource::GnomeShell, &sources), None);
    assert_eq!(SystemInfo::desktop_answer(DesktopSource::Kwin, &sources), Some("KDE".to_string()));
}

#[test]
fn os_id_is_the_id_line() {
    assert_eq!(Display::get_os_name(Some("NAME=\"Arch Linux\"\nID=arch\n")), "arch");
    assert_eq!(Display::get_os_name(Some("ID=\"opensuse-leap\"\n")), "opensuse-leap");
    assert_eq!(Display::get_os_name(Some("ID_LIKE=debian\nID=ubuntu\n")), "ubuntu");
    assert_eq!(Display::get_os_name(Some("ID=x\nID=later\n")), "x");
    assert_eq!(Display::get_os_name(Some("ID=a=b\n")), "a=b");
}

#[test]
fn os_id_with_empty_value_is_linux() {
    assert_eq!(Display::get_os_name(Some("ID=\n")), "linux");
    assert_eq!(Display::get_os_name(Some("ID=")), "linux");
    assert_eq!(Display::get_os_name(Some("ID=\"\"\n")), "linux");
    assert_eq!(Display::get_os_name(Some("NAME=x\nID=\nID=later\n")), "linux");
    assert_eq!(Display::get_os_name(Some("ID= \n")), " ");
}

#[test]
fn os_id_without_id_line_is_linux() {
    assert_eq!(Display::get_os_name(Some("NAME=Something\nVERSION_ID=12\n")), "linux");
    assert_eq!(Display::get_os_name(Some("")), "linux");
}

#[test]
fn failed_tool_gives_no_information() {
    let mut sources = GpuSources::unavailable();
    sources.pci_listing = failed(PCI_LISTING);
    sources.gl_info = failed("OpenGL renderer string: Renderer\n");
    sources.vendor_query = failed("Queried\n");
    assert_eq!(SystemInfo::gpu_answer(GpuSource::PciListing, &sources), None);
    assert_eq!(SystemInfo::gpu_answer(GpuSource::GlInfo, &sources), None);
    assert_eq!(SystemInfo::gpu_answer(GpuSource::VendorQuery, &sources), None);
    assert_eq!(SystemInfo::get_gpu_info(&sources), "Unknown GPU");
    sources.vendor_query = run("Queried\n");
    assert_eq!(SystemInfo::get_gpu_info(&sources), "Queried");
}
