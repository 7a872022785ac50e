//! A background resource-usage sampler with threshold-classified presentation
//! state, and the interface-language lookup that labels it.
//!
//! The library decides and computes; it neither reads the machine nor waits.
//! A caller feeds [`sampler::Sampler`] the outcome of each query, publishes
//! the snapshots that it asks for into a [`monitor::PerformanceMonitor`], and
//! shows what [`monitor::PerformanceMonitor::render`] returns.
//!
//! All quantities are exact. A share of a whole is a [`fraction::Fraction`] of
//! two integers, a raw CPU reading enters as the bit pattern of the number
//! that the metrics source hands out, and every rounding rule is stated over
//! integers.
pub mod display;
pub mod fraction;
pub mod localization;
pub mod monitor;
pub mod raw_cpu;
pub mod sampler;
pub mod severity;
pub mod text;
pub mod zh_cn;

pub use display::{build_tooltip, compose_tooltip, MemoryTexts, StatusDisplay};
pub use fraction::{effective_cpu_count, fraction, normalize_process_cpu, Fraction, Percent};
pub use localization::{
    apply_settings, current_language, init, set_language, translate_owned, translate_static,
    zh_cn_translations, Language, Localization, LocalizationSettings, TranslationMap,
    UiLanguagePreference,
};
pub use monitor::{
    take_snapshot, Lookup, MetricsSnapshot, MonitorState, PerformanceMonitor, ProcessReading,
};
pub use raw_cpu::millipercent_from_bits;
pub use sampler::{
    Command, Decision, Sampler, SamplerEvent, SamplerState, Warning, REFRESH_INTERVAL_SECS,
};
pub use severity::{color_for_usage, Color, Severity, Thresholds};
pub use text::{format_bytes, format_percent};
