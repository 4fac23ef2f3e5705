//! Tests for the host telemetry library: node parsing, the CPU
//! sampler, the GPU and battery probes, and the rendered report.

use host_telemetry::battery::read_battery_percentage;
use host_telemetry::cpu::CpuSampler;
use host_telemetry::gpu::{gpu_reading, mhz, read_freedreno_gpu};
use host_telemetry::node::read_u64;
use host_telemetry::report::{build_status_text, cpu_text, gather_status_text, memory_text};
use host_telemetry::text::{parse_u64_str, trim_str, u64_to_string};

fn s(t: &str) -> Option<String> {
    Some(String::from(t))
}

#[test]
fn read_u64_absent_node_is_none() {
    assert_eq!(read_u64(&None), None);
}

#[test]
fn read_u64_non_numeric_is_none() {
    assert_eq!(read_u64(&s("cpu0\n")), None);
    assert_eq!(read_u64(&s("   ")), None);
    assert_eq!(read_u64(&s("12a")), None);
    assert_eq!(read_u64(&s("-3")), None);
}

#[test]
fn read_u64_trims_and_parses() {
    assert_eq!(read_u64(&s("  42\n")), Some(42));
    assert_eq!(read_u64(&s("0")), Some(0));
    assert_eq!(read_u64(&s("+7\n")), Some(7));
}

#[test]
fn parse_u64_handles_limits() {
    assert_eq!(parse_u64_str("18446744073709551615"), Some(u64::MAX));
    assert_eq!(parse_u64_str("18446744073709551616"), None);
    assert_eq!(parse_u64_str(""), None);
    assert_eq!(parse_u64_str("+"), None);
}

#[test]
fn trim_removes_surrounding_whitespace_only() {
    assert_eq!(trim_str(" \t a b \n"), "a b");
    assert_eq!(trim_str("  \n"), "");
    assert_eq!(trim_str("x"), "x");
}

#[test]
fn u64_renders_in_decimal() {
    assert_eq!(u64_to_string(0), "0");
    assert_eq!(u64_to_string(800), "800");
    assert_eq!(u64_to_string(18446744073709551615), "18446744073709551615");
}

#[test]
fn cpu_mean_ignores_warm_up() {
    let readings_a = [9999, 1000, 2000, 3000, 4000, 5000];
    let readings_b = [0, 1000, 2000, 3000, 4000, 5000];
    let mut first = CpuSampler::new();
    let mut second = CpuSampler::new();
    for v in readings_a {
        first.record(v);
    }
    for v in readings_b {
        second.record(v);
    }
    assert!(first.is_complete());
    assert!(second.is_complete());
    assert_eq!(first.mean(), 3000);
    assert_eq!(second.mean(), 3000);
}

#[test]
fn cpu_sampler_completes_only_after_full_round() {
    let mut sampler = CpuSampler::new();
    assert!(!sampler.is_complete());
    for v in [10, 20, 30, 40, 50] {
        sampler.record(v);
        assert!(!sampler.is_complete());
    }
    sampler.record(60);
    assert!(sampler.is_complete());
}

#[test]
fn gpu_primary_falls_back_to_load_node() {
    let r = read_freedreno_gpu(&None, &s("37"), &s("800000000"), &s("850000000"));
    assert_eq!(r, Some(String::from("37% | 800/850 MHz")));
}

#[test]
fn gpu_busy_node_wins_over_load_node() {
    let r = read_freedreno_gpu(&s("12\n"), &s("37"), &s("800000000"), &s("800000000"));
    assert_eq!(r, Some(String::from("12% | 800/800 MHz")));
}

#[test]
fn gpu_degrades_to_zero_when_all_nodes_absent() {
    let r = read_freedreno_gpu(&None, &None, &None, &None);
    assert_eq!(r, Some(String::from("0% | 0/0 MHz")));
}

#[test]
fn gpu_reading_records_availability_per_field() {
    let g = gpu_reading(&None, &None, &s("800000000"), &None);
    assert!(!g.load_available);
    assert_eq!(g.load_percent, 0);
    assert!(g.cur_freq_available);
    assert_eq!(g.cur_freq_hz, 800000000);
    assert!(!g.max_freq_available);
    assert_eq!(g.max_freq_hz, 0);
}

#[test]
fn mhz_rounds_to_nearest_whole() {
    assert_eq!(mhz(800000000), 800);
    assert_eq!(mhz(799499999), 799);
    assert_eq!(mhz(1500000), 2);
    assert_eq!(mhz(2500000), 2);
}

#[test]
fn battery_takes_first_readable_capacity() {
    let entries = vec![None, s("85\n")];
    assert_eq!(read_battery_percentage(&entries), "85%");
}

#[test]
fn battery_without_entries_is_unavailable() {
    assert_eq!(read_battery_percentage(&vec![]), "N/A");
    assert_eq!(read_battery_percentage(&vec![None, None]), "N/A");
}

#[test]
fn cpu_text_has_one_decimal_place() {
    assert_eq!(cpu_text(0), "0.0");
    assert_eq!(cpu_text(1230), "12.3");
    assert_eq!(cpu_text(9999), "100.0");
    assert_eq!(cpu_text(57), "0.6");
}

#[test]
fn memory_line_converts_bytes_to_mib() {
    assert_eq!(memory_text(8589934592, 4294967296), "4096 / 8192 MiB");
}

#[test]
fn report_renders_fixed_layout() {
    let text = build_status_text(
        1230,
        8589934592,
        4294967296,
        &None,
        &s("37"),
        &s("800000000"),
        &s("850000000"),
        &vec![None, s("85\n")],
        s("6.1.0"),
    );
    let expected = "\u{1f5a5} <b>System Status</b>\n\
        ─────────────────\n\
        <b>CPU:</b> 12.3%\n\
        <b>Memory:</b> 4096 / 8192 MiB\n\
        <b>GPU (Adreno 640):</b> 37% | 800/850 MHz\n\
        <b>Battery:</b> 85%\n\
        <b>Kernel:</b> 6.1.0";
    assert_eq!(text, expected);
}

#[test]
fn report_substitutes_unknown_kernel() {
    let text = build_status_text(0, 0, 0, &None, &None, &None, &None, &vec![], None);
    assert!(text.ends_with("<b>Kernel:</b> unknown"));
}

#[test]
fn repeated_reports_stable_up_to_cpu_field() {
    let gpu_nodes = (s("12"), s("37"), s("800000000"), s("850000000"));
    let batteries = vec![s("85\n")];
    let first = build_status_text(
        100,
        8589934592,
        4294967296,
        &gpu_nodes.0,
        &gpu_nodes.1,
        &gpu_nodes.2,
        &gpu_nodes.3,
        &batteries,
        s("6.1.0"),
    );
    let second = build_status_text(
        9950,
        8589934592,
        4294967296,
        &gpu_nodes.0,
        &gpu_nodes.1,
        &gpu_nodes.2,
        &gpu_nodes.3,
        &batteries,
        s("6.1.0"),
    );
    let tail_of = |t: &str| {
        let at = t.find("\n<b>Memory:</b>").unwrap();
        t[at..].to_string()
    };
    assert_ne!(first, second);
    assert_eq!(tail_of(&first), tail_of(&second));
}

#[test]
fn gather_produces_a_report_from_a_live_snapshot() {
    let sys = sysinfo::System::new_all();
    let text = gather_status_text(&sys, 500, &None, &None, &None, &None, &vec![]);
    assert!(text.starts_with("\u{1f5a5} <b>System Status</b>\n"));
    assert!(text.contains("<b>Memory:</b> "));
    assert!(text.contains(" MiB\n<b>GPU (Adreno 640):</b> 0% | 0/0 MHz"));
    assert!(text.contains("<b>Battery:</b> N/A"));
    assert!(text.contains("<b>CPU:</b> 5.0%"));
}
