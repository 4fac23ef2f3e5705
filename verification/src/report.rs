//! Report assembler: gathers memory totals and kernel identity from a
//! refreshed system-info snapshot, sequences the probes' summaries,
//! and renders the one fixed-layout report string.

use crate::battery::{read_battery_percentage, spec_battery_summary};
use crate::gpu::{read_freedreno_gpu, spec_gpu_reading, spec_gpu_summary};
use crate::node::node_view;
use crate::text::{digit_str, spec_dec, spec_digit_char, u64_to_string};
use vstd::prelude::*;

verus! {

/// Bytes per mebibyte; memory is rendered in MiB by integer division.
pub const BYTES_PER_MIB: u64 = 1048576;

/// The system-info snapshot type of the sysinfo crate, declared so a
/// refreshed snapshot can pass through verified signatures. Its
/// contents are opaque here; only the trusted readers below look
/// inside.
#[verifier::external_type_specification]
#[verifier::external_body]
pub struct ExSystem(sysinfo::System);

/// Relies on sysinfo::System::total_memory: the total RAM in bytes,
/// whatever the platform reports.
#[verifier::external_body]
fn sys_total_memory(sys: &sysinfo::System) -> u64 {
    sys.total_memory()
}

/// Relies on sysinfo::System::used_memory: the used RAM in bytes,
/// whatever the platform reports.
#[verifier::external_body]
fn sys_used_memory(sys: &sysinfo::System) -> u64 {
    sys.used_memory()
}

/// Relies on sysinfo::System::kernel_version: the kernel version
/// string, if the platform exposes one.
#[verifier::external_body]
fn sys_kernel_version() -> Option<String> {
    sysinfo::System::kernel_version()
}

/// The immutable, fully rendered report fields — the only value the
/// external collaborator is handed. Created once per invocation and
/// never mutated.
pub struct StatusReport {
    /// Utilization percentage with one decimal place, no unit.
    pub cpu: String,
    /// Used and total memory, in MiB.
    pub memory: String,
    /// The GPU summary line.
    pub gpu: String,
    /// The battery summary, or its unavailable sentinel.
    pub battery: String,
    /// The kernel version, or "unknown".
    pub kernel: String,
}

/// The CPU utilization text: hundredths of a percent rendered with
/// one decimal place, rounded half up to tenths.
pub open spec fn spec_cpu_text(centi_percent: u64) -> Seq<char> {
    let t = (centi_percent + 5) / 10;
    spec_dec(t / 10) + "."@ + seq![spec_digit_char(t % 10)]
}

/// Renders the CPU utilization, exactly as `spec_cpu_text` describes.
pub fn cpu_text(centi_percent: u64) -> (r: String)
    ensures
        r@ == spec_cpu_text(centi_percent),
{
    let t128: u128 = (centi_percent as u128 + 5) / 10;
    proof {
        assert((centi_percent as int + 5) / 10 <= u64::MAX) by (nonlinear_arith)
            requires
                centi_percent <= u64::MAX,
        ;
    }
    let t: u64 = t128 as u64;
    let mut s = u64_to_string(t / 10);
    s.append(".");
    s.append(digit_str(t % 10));
    proof {
        assert(s@ =~= spec_cpu_text(centi_percent));
    }
    s
}

/// The memory text: used, then total, in mebibytes by integer
/// division.
pub open spec fn spec_memory_text(total_bytes: u64, used_bytes: u64) -> Seq<char> {
    spec_dec((used_bytes / BYTES_PER_MIB) as int) + " / "@ + spec_dec(
        (total_bytes / BYTES_PER_MIB) as int,
    ) + " MiB"@
}

/// Renders the memory line, exactly as `spec_memory_text` describes.
pub fn memory_text(total_bytes: u64, used_bytes: u64) -> (r: String)
    ensures
        r@ == spec_memory_text(total_bytes, used_bytes),
{
    let mut s = u64_to_string(used_bytes / BYTES_PER_MIB);
    s.append(" / ");
    let t = u64_to_string(total_bytes / BYTES_PER_MIB);
    s.append(t.as_str());
    s.append(" MiB");
    proof {
        assert(s@ =~= spec_memory_text(total_bytes, used_bytes));
    }
    s
}

/// The kernel identity text: the version string, or "unknown" when
/// the platform exposes none.
pub open spec fn spec_kernel_text(kernel_version: Option<String>) -> Seq<char> {
    match kernel_version {
        Some(k) => k@,
        None => "unknown"@,
    }
}

/// The fixed-layout report text: title, separator, then the five
/// metric lines in fixed order.
pub open spec fn spec_report_text(
    cpu: Seq<char>,
    memory: Seq<char>,
    gpu: Seq<char>,
    battery: Seq<char>,
    kernel: Seq<char>,
) -> Seq<char> {
    "🖥 <b>System Status</b>\n─────────────────\n<b>CPU:</b> "@ + cpu + "%\n<b>Memory:</b> "@
        + memory + "\n<b>GPU (Adreno 640):</b> "@ + gpu + "\n<b>Battery:</b> "@ + battery
        + "\n<b>Kernel:</b> "@ + kernel
}

impl StatusReport {
    /// Renders the report into its one multi-line markup string,
    /// exactly as `spec_report_text` describes.
    pub fn render(&self) -> (r: String)
        ensures
            r@ == spec_report_text(self.cpu@, self.memory@, self.gpu@, self.battery@, self.kernel@),
    {
        let mut s = String::from_str("🖥 <b>System Status</b>\n─────────────────\n<b>CPU:</b> ");
        s.append(self.cpu.as_str());
        s.append("%\n<b>Memory:</b> ");
        s.append(self.memory.as_str());
        s.append("\n<b>GPU (Adreno 640):</b> ");
        s.append(self.gpu.as_str());
        s.append("\n<b>Battery:</b> ");
        s.append(self.battery.as_str());
        s.append("\n<b>Kernel:</b> ");
        s.append(self.kernel.as_str());
        proof {
            assert(s@ =~= spec_report_text(
                self.cpu@,
                self.memory@,
                self.gpu@,
                self.battery@,
                self.kernel@,
            ));
        }
        s
    }
}

/// Builds the report value: CPU in hundredths of a percent, memory in
/// bytes, the two probes' rendered summaries, and the optional kernel
/// version.
pub fn assemble_report(
    cpu_centi_percent: u64,
    total_mem_bytes: u64,
    used_mem_bytes: u64,
    gpu_summary: String,
    battery_summary: String,
    kernel_version: Option<String>,
) -> (r: StatusReport)
    ensures
        r.cpu@ == spec_cpu_text(cpu_centi_percent),
        r.memory@ == spec_memory_text(total_mem_bytes, used_mem_bytes),
        r.gpu@ == gpu_summary@,
        r.battery@ == battery_summary@,
        r.kernel@ == spec_kernel_text(kernel_version),
{
    let kernel = match kernel_version {
        Some(k) => k,
        None => String::from_str("unknown"),
    };
    StatusReport {
        cpu: cpu_text(cpu_centi_percent),
        memory: memory_text(total_mem_bytes, used_mem_bytes),
        gpu: gpu_summary,
        battery: battery_summary,
        kernel,
    }
}

/// The complete rendered report for the raw inputs: CPU in hundredths
/// of a percent, memory in bytes, the four GPU node texts, the
/// ordered battery capacity texts, and the optional kernel version.
pub open spec fn spec_status_text(
    cpu_centi_percent: u64,
    total_mem_bytes: u64,
    used_mem_bytes: u64,
    gpu_busy: Option<String>,
    gpu_load: Option<String>,
    cur_freq: Option<String>,
    max_freq: Option<String>,
    battery_capacities: Seq<Option<String>>,
    kernel_version: Option<String>,
) -> Seq<char> {
    spec_report_text(
        spec_cpu_text(cpu_centi_percent),
        spec_memory_text(total_mem_bytes, used_mem_bytes),
        spec_gpu_summary(
            spec_gpu_reading(
                node_view(gpu_busy),
                node_view(gpu_load),
                node_view(cur_freq),
                node_view(max_freq),
            ),
        ),
        spec_battery_summary(battery_capacities),
        spec_kernel_text(kernel_version),
    )
}

/// Assembles and renders the whole report from plain values, exactly
/// as `spec_status_text` describes.
pub fn build_status_text(
    cpu_centi_percent: u64,
    total_mem_bytes: u64,
    used_mem_bytes: u64,
    gpu_busy: &Option<String>,
    gpu_load: &Option<String>,
    cur_freq: &Option<String>,
    max_freq: &Option<String>,
    battery_capacities: &Vec<Option<String>>,
    kernel_version: Option<String>,
) -> (r: String)
    ensures
        r@ == spec_status_text(
            cpu_centi_percent,
            total_mem_bytes,
            used_mem_bytes,
            *gpu_busy,
            *gpu_load,
            *cur_freq,
            *max_freq,
            battery_capacities@,
            kernel_version,
        ),
{
    let gpu = match read_freedreno_gpu(gpu_busy, gpu_load, cur_freq, max_freq) {
        Some(g) => g,
        None => String::from_str("N/A"),
    };
    let battery = read_battery_percentage(battery_capacities);
    let report = assemble_report(
        cpu_centi_percent,
        total_mem_bytes,
        used_mem_bytes,
        gpu,
        battery,
        kernel_version,
    );
    report.render()
}

/// Gathers memory totals and kernel identity from the refreshed
/// system-info snapshot, then renders the report. Whatever the
/// platform reported, the result is the fixed-layout text for some
/// memory totals and kernel identity — never a failure.
pub fn gather_status_text(
    sys: &sysinfo::System,
    cpu_centi_percent: u64,
    gpu_busy: &Option<String>,
    gpu_load: &Option<String>,
    cur_freq: &Option<String>,
    max_freq: &Option<String>,
    battery_capacities: &Vec<Option<String>>,
) -> (r: String)
    ensures
        exists|total: u64, used: u64, kernel: Option<String>|
            r@ == spec_status_text(
                cpu_centi_percent,
                total,
                used,
                *gpu_busy,
                *gpu_load,
                *cur_freq,
                *max_freq,
                battery_capacities@,
                kernel,
            ),
{
    let total = sys_total_memory(sys);
    let used = sys_used_memory(sys);
    let kernel = sys_kernel_version();
    let ghost gk = kernel;
    let r = build_status_text(
        cpu_centi_percent,
        total,
        used,
        gpu_busy,
        gpu_load,
        cur_freq,
        max_freq,
        battery_capacities,
        kernel,
    );
    proof {
        assert(r@ == spec_status_text(
            cpu_centi_percent,
            total,
            used,
            *gpu_busy,
            *gpu_load,
            *cur_freq,
            *max_freq,
            battery_capacities@,
            gk,
        ));
    }
    r
}

/// Law: repeated invocation over unchanged underlying nodes yields a
/// report that is stable up to the CPU field. Any two reports
/// assembled from the same memory totals, probe summaries and kernel
/// identity agree on every field but the CPU one, however their
/// utilization samples differed.
pub proof fn lemma_report_stable_up_to_cpu(
    r1: StatusReport,
    r2: StatusReport,
    cpu1: u64,
    cpu2: u64,
    total_mem_bytes: u64,
    used_mem_bytes: u64,
    gpu_summary: String,
    battery_summary: String,
    kernel_version: Option<String>,
)
    requires
        r1.cpu@ == spec_cpu_text(cpu1),
        r1.memory@ == spec_memory_text(total_mem_bytes, used_mem_bytes),
        r1.gpu@ == gpu_summary@,
        r1.battery@ == battery_summary@,
        r1.kernel@ == spec_kernel_text(kernel_version),
        r2.cpu@ == spec_cpu_text(cpu2),
        r2.memory@ == spec_memory_text(total_mem_bytes, used_mem_bytes),
        r2.gpu@ == gpu_summary@,
        r2.battery@ == battery_summary@,
        r2.kernel@ == spec_kernel_text(kernel_version),
    ensures
        r2.gpu@ == r1.gpu@,
        r2.battery@ == r1.battery@,
        r2.memory@ == r1.memory@,
        r2.kernel@ == r1.kernel@,
{
}

} // verus!
