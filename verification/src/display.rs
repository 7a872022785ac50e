//! What the status bar shows of a monitor: two coloured labels and a detail
//! text.
use crate::fraction::{clamped_ratio, fraction, Fraction, Percent};
use crate::monitor::{MetricsSnapshot, PerformanceMonitor};
use crate::severity::{
    severity_of, Color, Thresholds, CRITICAL_CPU_PERCENT, CRITICAL_MEMORY_PERCENT,
    WARN_CPU_PERCENT, WARN_MEMORY_PERCENT,
};
use crate::text::{
    decimal_text, format_bytes, format_percent, is_bytes_text, percent_text, push_decimal,
    scales_nonzero,
};
use vstd::prelude::*;

verus! {

/// The byte counts of a snapshot and the peak, each as text.
#[derive(Debug)]
pub struct MemoryTexts {
    pub process_rss: String,
    pub peak_rss: String,
    pub process_virtual: String,
    pub system_used: String,
    pub system_total: String,
}

impl MemoryTexts {
    /// Each text shows the byte count that it is named after.
    pub open spec fn describes<F: Fn(u64) -> String>(
        self,
        scale: &F,
        snapshot: MetricsSnapshot,
        peak_rss: u64,
    ) -> bool {
        &&& is_bytes_text(scale, snapshot.process_rss, self.process_rss@)
        &&& is_bytes_text(scale, peak_rss, self.peak_rss@)
        &&& is_bytes_text(scale, snapshot.process_virtual, self.process_virtual@)
        &&& is_bytes_text(scale, snapshot.system_used_memory, self.system_used@)
        &&& is_bytes_text(scale, snapshot.system_total_memory, self.system_total@)
    }

    /// Formats the byte counts of a snapshot and the peak.
    pub fn scaled<F: Fn(u64) -> String>(
        snapshot: &MetricsSnapshot,
        peak_rss: u64,
        scale: &F,
    ) -> (texts: MemoryTexts)
        requires
            scales_nonzero(scale),
        ensures
            texts.describes(scale, *snapshot, peak_rss),
    {
        MemoryTexts {
            process_rss: format_bytes(snapshot.process_rss, scale),
            peak_rss: format_bytes(peak_rss, scale),
            process_virtual: format_bytes(snapshot.process_virtual, scale),
            system_used: format_bytes(snapshot.system_used_memory, scale),
            system_total: format_bytes(snapshot.system_total_memory, scale),
        }
    }
}

/// The share of the machine's memory that the process holds: resident over
/// total, and zero on a machine that reports no memory.
pub open spec fn memory_share(snapshot: MetricsSnapshot) -> Fraction {
    clamped_ratio(snapshot.process_rss, snapshot.system_total_memory)
}

/// The share of the machine's CPU capacity that the process uses: the
/// percentage divided by one hundred, limited to the range from zero to one.
pub open spec fn cpu_share(snapshot: MetricsSnapshot) -> Fraction {
    clamped_ratio(
        snapshot.process_cpu_percent.share.num,
        snapshot.process_cpu_percent.share.den,
    )
}

/// A line of the detail text followed by the two thresholds of its usage, as
/// whole percentages.
pub open spec fn with_thresholds(line: Seq<char>, warn_percent: u64, critical_percent: u64) -> Seq<
    char,
> {
    line + " (阈值 "@ + decimal_text(warn_percent as nat) + "%/"@ + decimal_text(
        critical_percent as nat,
    ) + "%)"@
}

/// The detail text: resident memory, the peak unless it is zero, virtual
/// memory, the machine's memory, and both usages with their thresholds.
pub open spec fn tooltip_text(snapshot: MetricsSnapshot, peak_rss: u64, texts: MemoryTexts) -> Seq<
    char,
> {
    let resident = "进程物理内存: "@ + texts.process_rss@ + "\n"@;
    let peak = if peak_rss > 0 {
        resident + "峰值物理内存: "@ + texts.peak_rss@ + "\n"@
    } else {
        resident
    };
    let process = peak + "进程虚拟内存: "@ + texts.process_virtual@ + "\n"@;
    let machine = process + "系统内存: "@ + texts.system_used@ + " / "@ + texts.system_total@
        + "\n"@;
    let cpu = with_thresholds(
        machine + "CPU 占用: "@ + percent_text(snapshot.process_cpu_percent.share),
        WARN_CPU_PERCENT,
        CRITICAL_CPU_PERCENT,
    );
    with_thresholds(
        cpu + "\nRAM 占用: "@ + percent_text(memory_share(snapshot)),
        WARN_MEMORY_PERCENT,
        CRITICAL_MEMORY_PERCENT,
    )
}

/// `text` is a detail text of the snapshot and the peak, with its byte counts
/// shown as `scale` renders them.
pub open spec fn is_tooltip<F: Fn(u64) -> String>(
    scale: &F,
    snapshot: MetricsSnapshot,
    peak_rss: u64,
    text: Seq<char>,
) -> bool {
    exists|texts: MemoryTexts| #[trigger]
        texts.describes(scale, snapshot, peak_rss) && text == tooltip_text(
            snapshot,
            peak_rss,
            texts,
        )
}

/// Appends the two thresholds of a usage to a line of the detail text.
fn push_thresholds(line: &mut String, warn_percent: u64, critical_percent: u64)
    ensures
        final(line)@ == with_thresholds(old(line)@, warn_percent, critical_percent),
{
    line.append(" (阈值 ");
    push_decimal(line, warn_percent);
    line.append("%/");
    push_decimal(line, critical_percent);
    line.append("%)");
}

/// Puts the detail text together from a snapshot, the peak and the texts of
/// their byte counts.
pub fn compose_tooltip(
    snapshot: &MetricsSnapshot,
    peak_rss: u64,
    texts: &MemoryTexts,
) -> (tooltip: String)
    ensures
        tooltip@ == tooltip_text(*snapshot, peak_rss, *texts),
{
    let memory_fraction = fraction(snapshot.process_rss, snapshot.system_total_memory);
    let cpu_text = format_percent(snapshot.process_cpu_percent);
    let memory_text = format_percent(Percent::from_fraction(memory_fraction));

    let mut tooltip = String::from_str("进程物理内存: ");
    tooltip.append(texts.process_rss.as_str());
    tooltip.append("\n");
    if peak_rss > 0 {
        tooltip.append("峰值物理内存: ");
        tooltip.append(texts.peak_rss.as_str());
        tooltip.append("\n");
    }
    tooltip.append("进程虚拟内存: ");
    tooltip.append(texts.process_virtual.as_str());
    tooltip.append("\n");
    tooltip.append("系统内存: ");
    tooltip.append(texts.system_used.as_str());
    tooltip.append(" / ");
    tooltip.append(texts.system_total.as_str());
    tooltip.append("\n");
    tooltip.append("CPU 占用: ");
    tooltip.append(cpu_text.as_str());
    push_thresholds(&mut tooltip, WARN_CPU_PERCENT, CRITICAL_CPU_PERCENT);
    tooltip.append("\nRAM 占用: ");
    tooltip.append(memory_text.as_str());
    push_thresholds(&mut tooltip, WARN_MEMORY_PERCENT, CRITICAL_MEMORY_PERCENT);
    tooltip
}

/// Builds the detail text of a snapshot and the peak, with the byte counts
/// rendered by `scale`.
pub fn build_tooltip<F: Fn(u64) -> String>(
    snapshot: &MetricsSnapshot,
    peak_rss: u64,
    scale: &F,
) -> (tooltip: String)
    requires
        scales_nonzero(scale),
    ensures
        is_tooltip(scale, *snapshot, peak_rss, tooltip@),
{
    let texts = MemoryTexts::scaled(snapshot, peak_rss, scale);
    compose_tooltip(snapshot, peak_rss, &texts)
}

/// What the status bar shows.
#[derive(Debug)]
pub enum StatusDisplay {
    /// No snapshot yet: a single label.
    Initializing { label: String, color: Color },
    /// The latest snapshot: a label for memory and one for CPU, each in the
    /// colour of its severity, and the detail text.
    Usage {
        memory_label: String,
        memory_color: Color,
        cpu_label: String,
        cpu_color: Color,
        tooltip: String,
    },
}

/// The label for memory: resident memory and its share of the machine's.
pub open spec fn memory_label_text(snapshot: MetricsSnapshot, resident: Seq<char>) -> Seq<char> {
    "RAM "@ + resident + " ("@ + percent_text(memory_share(snapshot)) + ")"@
}

/// The label for CPU: the share of the machine's capacity.
pub open spec fn cpu_label_text(snapshot: MetricsSnapshot) -> Seq<char> {
    "CPU "@ + percent_text(snapshot.process_cpu_percent.share)
}

/// The colour of the memory label: the severity of the memory share against
/// the thresholds for memory.
pub open spec fn memory_color_of(snapshot: MetricsSnapshot) -> Color {
    severity_of(
        memory_share(snapshot),
        Fraction { num: WARN_MEMORY_PERCENT, den: 100 },
        Fraction { num: CRITICAL_MEMORY_PERCENT, den: 100 },
    ).spec_color()
}

/// The colour of the CPU label: the severity of the CPU share against the
/// thresholds for CPU.
pub open spec fn cpu_color_of(snapshot: MetricsSnapshot) -> Color {
    severity_of(
        cpu_share(snapshot),
        Fraction { num: WARN_CPU_PERCENT, den: 100 },
        Fraction { num: CRITICAL_CPU_PERCENT, den: 100 },
    ).spec_color()
}

/// `display` shows a monitor that holds `latest` and `peak_rss`: a muted
/// note while there is no snapshot, and the two labels with the detail text
/// once there is one.
pub open spec fn shows<F: Fn(u64) -> String>(
    display: StatusDisplay,
    scale: &F,
    latest: Option<MetricsSnapshot>,
    peak_rss: u64,
) -> bool {
    match latest {
        None => {
            &&& display matches StatusDisplay::Initializing { label, color }
            &&& label@ == "监控初始化中…"@
            &&& color == Color::Muted
        },
        Some(snapshot) => {
            &&& display matches StatusDisplay::Usage {
                memory_label,
                memory_color,
                cpu_label,
                cpu_color,
                tooltip,
            }
            &&& exists|resident: Seq<char>| #[trigger]
                is_bytes_text(scale, snapshot.process_rss, resident) && memory_label@
                    == memory_label_text(snapshot, resident)
            &&& memory_color == memory_color_of(snapshot)
            &&& cpu_label@ == cpu_label_text(snapshot)
            &&& cpu_color == cpu_color_of(snapshot)
            &&& is_tooltip(scale, snapshot, peak_rss, tooltip@)
        },
    }
}

impl PerformanceMonitor {
    /// What the status bar shows of this monitor. Memory and CPU are
    /// classified separately, each against its own thresholds.
    pub fn render<F: Fn(u64) -> String>(&self, scale: &F) -> (display: StatusDisplay)
        requires
            scales_nonzero(scale),
        ensures
            shows(display, scale, self@.latest, self@.peak_resident_bytes),
    {
        let snapshot = match self.snapshot() {
            Some(snapshot) => snapshot,
            None => {
                return StatusDisplay::Initializing {
                    label: String::from_str("监控初始化中…"),
                    color: Color::Muted,
                };
            },
        };
        let memory_fraction = fraction(snapshot.process_rss, snapshot.system_total_memory);
        let cpu_fraction = snapshot.process_cpu_percent.to_fraction();
        let memory_color = Thresholds::memory().classify(memory_fraction).color();
        let cpu_color = Thresholds::cpu().classify(cpu_fraction).color();

        let resident = format_bytes(snapshot.process_rss, scale);
        let mut memory_label = String::from_str("RAM ");
        memory_label.append(resident.as_str());
        memory_label.append(" (");
        memory_label.append(format_percent(Percent::from_fraction(memory_fraction)).as_str());
        memory_label.append(")");
        let mut cpu_label = String::from_str("CPU ");
        cpu_label.append(format_percent(snapshot.process_cpu_percent).as_str());

        let tooltip = build_tooltip(&snapshot, self.peak_rss(), scale);
        assert(is_bytes_text(scale, snapshot.process_rss, resident@));
        StatusDisplay::Usage { memory_label, memory_color, cpu_label, cpu_color, tooltip }
    }
}

} // verus!
