use zfetch::display::Display;
use zfetch::json::{render_document, written};
use zfetch::system_info::{MemoryInfo, Sources, SystemInfo};

fn sample() -> SystemInfo {
    SystemInfo {
        username: "alice".to_string(),
        hostname: "wonderland".to_string(),
        os_name: "Arch \"Linux\"".to_string(),
        kernel_version: "6.6.8-arch1-1".to_string(),
        uptime: 90000,
        shell: "zsh".to_string(),
        cpu_info: "CPU X (8 cores)".to_string(),
        gpu_info: "GPU Y".to_string(),
        memory_info: MemoryInfo {
            total: 8 * 1_073_741_824,
            used: 4 * 1_073_741_824,
            available: 3 * 1_073_741_824,
        },
        desktop_environment: "KDE".to_string(),
        terminal: "xterm".to_string(),
    }
}

#[test]
fn document_holds_every_fact() {
    let text = render_document(&sample()).unwrap();
    let doc: serde_json::Value = serde_json::from_str(&text).unwrap();
    let object = doc.as_object().unwrap();
    assert_eq!(object.len(), 12);
    assert_eq!(doc["username"], "alice");
    assert_eq!(doc["hostname"], "wonderland");
    assert_eq!(doc["os_name"], "Arch \"Linux\"");
    assert_eq!(doc["kernel_version"], "6.6.8-arch1-1");
    assert_eq!(doc["uptime"], 90000u64);
    assert_eq!(doc["uptime_formatted"], "1 days, 1 hours, 0 minutes");
    assert_eq!(doc["shell"], "zsh");
    assert_eq!(doc["terminal"], "xterm");
    assert_eq!(doc["desktop_environment"], "KDE");
    assert_eq!(doc["cpu_info"], "CPU X (8 cores)");
    assert_eq!(doc["gpu_info"], "GPU Y");
    let memory = doc["memory"].as_object().unwrap();
    assert_eq!(memory.len(), 4);
    assert_eq!(memory["total"], 8589934592u64);
    assert_eq!(memory["used"], 4294967296u64);
    assert_eq!(memory["available"], 3221225472u64);
    assert_eq!(memory["formatted"], "4.0 GB / 8.0 GB (50%)");
}

#[test]
fn document_uptime_is_the_raw_uptime() {
    for seconds in [0u64, 59, 3661, 90000, u64::MAX] {
        let mut info = sample();
        info.uptime = seconds;
        let text = render_document(&info).unwrap();
        let doc: serde_json::Value = serde_json::from_str(&text).unwrap();
        assert_eq!(doc["uptime"].as_u64(), Some(seconds));
        assert_eq!(doc["uptime_formatted"].as_str().unwrap(), info.format_uptime());
    }
}

#[test]
fn document_is_pretty_printed_with_sorted_keys() {
    let info = SystemInfo::new(&Sources::unavailable());
    let text = render_document(&info).unwrap();
    let expected = "{\n  \"cpu_info\": \"Unknown CPU\",\n  \"desktop_environment\": \"Unknown\",\n  \"gpu_info\": \"Unknown GPU\",\n  \"hostname\": \"unknown\",\n  \"kernel_version\": \"unknown\",\n  \"memory\": {\n    \"available\": 0,\n    \"formatted\": \"N/A\",\n    \"total\": 0,\n    \"used\": 0\n  },\n  \"os_name\": \"Unknown Linux\",\n  \"shell\": \"unknown\",\n  \"terminal\": \"unknown\",\n  \"uptime\": 0,\n  \"uptime_formatted\": \"0 minutes\",\n  \"username\": \"unknown\"\n}";
    assert_eq!(text, expected);
}

#[test]
fn print_json_appends_one_text() {
    let mut out = vec!["kept".to_string()];
    let outcome = Display::new().print_json(&sample(), &mut out);
    assert!(outcome.is_ok());
    assert_eq!(out.len(), 2);
    assert_eq!(out[0], "kept");
    assert_eq!(out[1], render_document(&sample()).unwrap());
}

#[test]
fn written_text_is_handed_on() {
    let outcome = written(Ok("{}".to_string()));
    assert_eq!(outcome.unwrap(), "{}");
}

#[test]
fn serializer_failure_keeps_its_message() {
    let error = serde_json::from_str::<serde_json::Value>("{").unwrap_err();
    let message = error.to_string();
    assert!(!message.is_empty());
    let outcome = written(Err(error));
    assert_eq!(outcome.unwrap_err().message, message);
}
