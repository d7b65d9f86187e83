// Host-facing helpers: the port search over probe outcomes, the memory
// report scan, string helpers, and the probes that lean on outside crates.

use slquickemu::hostprobe::{get_xdg_config_dir, get_xdg_runtime_dir, probe_physical_cores};
use slquickemu::strutil::{str_contains, str_eq, str_starts_with, u64_to_string};
use slquickemu::utils::{find_open_socket, mem_total_from_meminfo};
use slquickemu::ERRORCODES;

#[test]
fn port_search_picks_first_free() {
    assert_eq!(find_open_socket(5900, &vec![false, false, false, false, false]), Ok(5901));
    assert_eq!(find_open_socket(5900, &vec![true, true, false, true, false]), Ok(5903));
    assert_eq!(find_open_socket(5900, &vec![true, true, true, true, false]), Ok(5905));
}

#[test]
fn port_search_exhausted() {
    assert_eq!(
        find_open_socket(5900, &vec![true, true, true, true, true]),
        Err(ERRORCODES::NoOpenPorts)
    );
}

#[test]
fn mem_total_scan_finds_value() {
    let text = "MemFree:         1234 kB\nMemTotal:       16315052 kB\nBuffers: 1 kB\n";
    assert_eq!(mem_total_from_meminfo(text), 16315052);
}

#[test]
fn mem_total_scan_skips_lines_without_colon() {
    let text = "garbage line\nMemTotal: 42 kB\n";
    assert_eq!(mem_total_from_meminfo(text), 42);
}

#[test]
fn mem_total_scan_stops_on_unparsable_value() {
    // A value field that fails to parse stops the whole scan empty-handed,
    // even when a good line follows.
    let text = "SomeKey: abc\nMemTotal: 42 kB\n";
    assert_eq!(mem_total_from_meminfo(text), 0);
    assert_eq!(mem_total_from_meminfo(""), 0);
    assert_eq!(mem_total_from_meminfo("MemFree: 1 kB\n"), 0);
}

#[test]
fn mem_total_scan_trims_key_and_value() {
    let text = " MemTotal :   99  kB\n";
    assert_eq!(mem_total_from_meminfo(text), 99);
}

#[test]
fn string_helpers() {
    assert!(str_contains("isa-cirrus-vga", "cirrus"));
    assert!(str_contains("anything", ""));
    assert!(!str_contains("ide", "scsi"));
    assert!(str_starts_with("-cpu host", "-cpu"));
    assert!(!str_starts_with("cpu host", "-cpu"));
    assert!(str_eq("same", "same"));
    assert!(!str_eq("same", "sane"));
    assert_eq!(u64_to_string(0), "0");
    assert_eq!(u64_to_string(5905), "5905");
    assert_eq!(u64_to_string(18446744073709551615), "18446744073709551615");
}

#[test]
fn physical_core_probe_is_at_least_one() {
    assert!(probe_physical_cores() >= 1);
}

#[test]
fn directory_probes_fail_only_with_their_own_errors() {
    match get_xdg_config_dir() {
        Ok(_) => {},
        Err(e) => assert_eq!(e, ERRORCODES::MissingXdgConfig),
    }
    match get_xdg_runtime_dir() {
        Ok(_) => {},
        Err(e) => {
            assert!(e == ERRORCODES::MissingXdgConfig || e == ERRORCODES::MissingXdgRuntime);
        },
    }
}
