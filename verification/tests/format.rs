use zfetch::system_info::{percent_used_exec, MemoryInfo, Sources, SystemInfo};

fn with_uptime(seconds: u64) -> SystemInfo {
    let mut info = SystemInfo::new(&Sources::unavailable());
    info.uptime = seconds;
    info
}

fn with_memory(used: u64, total: u64) -> SystemInfo {
    let mut info = SystemInfo::new(&Sources::unavailable());
    info.memory_info = MemoryInfo { total, used, available: total.saturating_sub(used) };
    info
}

const GIB: u64 = 1_073_741_824;

#[test]
fn uptime_of_zero_seconds() {
    assert_eq!(with_uptime(0).format_uptime(), "0 minutes");
}

#[test]
fn uptime_of_an_hour_and_a_minute() {
    assert_eq!(with_uptime(3661).format_uptime(), "1 hours, 1 minutes");
}

#[test]
fn uptime_of_a_day_and_an_hour() {
    assert_eq!(with_uptime(90000).format_uptime(), "1 days, 1 hours, 0 minutes");
}

#[test]
fn uptime_drops_seconds() {
    assert_eq!(with_uptime(59).format_uptime(), "0 minutes");
    assert_eq!(with_uptime(60).format_uptime(), "1 minutes");
    assert_eq!(with_uptime(3599).format_uptime(), "59 minutes");
}

#[test]
fn uptime_at_the_borders() {
    assert_eq!(with_uptime(3600).format_uptime(), "1 hours, 0 minutes");
    assert_eq!(with_uptime(86399).format_uptime(), "23 hours, 59 minutes");
    assert_eq!(with_uptime(86400).format_uptime(), "1 days, 0 hours, 0 minutes");
    assert_eq!(with_uptime(86400 + 59 * 60).format_uptime(), "1 days, 0 hours, 59 minutes");
}

#[test]
fn uptime_of_the_largest_number() {
    assert_eq!(
        with_uptime(u64::MAX).format_uptime(),
        "213503982334601 days, 7 hours, 0 minutes"
    );
}

#[test]
fn memory_half_used() {
    assert_eq!(with_memory(4 * GIB, 8 * GIB).format_memory(), "4.0 GB / 8.0 GB (50%)");
}

#[test]
fn memory_with_a_fraction() {
    assert_eq!(with_memory(GIB + GIB / 2, 16 * GIB).format_memory(), "1.5 GB / 16.0 GB (9%)");
}

#[test]
fn memory_tenths_round_to_nearest() {
    assert_eq!(with_memory(GIB / 10 * 26, 4 * GIB).format_memory(), "2.6 GB / 4.0 GB (65%)");
    assert_eq!(with_memory(GIB - 1, GIB).format_memory(), "1.0 GB / 1.0 GB (100%)");
    assert_eq!(with_memory(1, GIB).format_memory(), "0.0 GB / 1.0 GB (0%)");
}

#[test]
fn memory_tenths_halfway_go_to_even() {
    assert_eq!(with_memory(GIB / 4, GIB).format_memory(), "0.2 GB / 1.0 GB (25%)");
    assert_eq!(with_memory(3 * (GIB / 4), GIB).format_memory(), "0.8 GB / 1.0 GB (75%)");
}

#[test]
fn memory_percentage_rounds_to_nearest() {
    assert_eq!(with_memory(GIB, 3 * GIB).format_memory(), "1.0 GB / 3.0 GB (33%)");
    assert_eq!(with_memory(2 * GIB, 3 * GIB).format_memory(), "2.0 GB / 3.0 GB (67%)");
    assert_eq!(with_memory(GIB, 8 * GIB).format_memory(), "1.0 GB / 8.0 GB (13%)");
}

#[test]
fn memory_percentage_is_not_cut() {
    assert_eq!(with_memory(3 * GIB, GIB).format_memory(), "3.0 GB / 1.0 GB (300%)");
    assert_eq!(with_memory(256 * GIB, 100 * GIB).format_memory(), "256.0 GB / 100.0 GB (256%)");
    assert_eq!(percent_used_exec(u64::MAX, 1), 1_844_674_407_370_955_161_500);
    assert_eq!(percent_used_exec(5, 2), 250);
    assert_eq!(percent_used_exec(0, 7), 0);
    assert_eq!(
        with_memory(u64::MAX, 1).format_memory(),
        "17179869184.0 GB / 0.0 GB (1844674407370955161500%)"
    );
}

#[test]
fn memory_without_total_is_not_available() {
    assert_eq!(with_memory(0, 0).format_memory(), "N/A");
    assert_eq!(with_memory(5, 0).format_memory(), "N/A");
}

#[test]
fn memory_of_the_largest_numbers() {
    assert_eq!(
        with_memory(u64::MAX, u64::MAX).format_memory(),
        "17179869184.0 GB / 17179869184.0 GB (100%)"
    );
}
