//! Display settings shared by the sensors.
use vstd::prelude::*;

verus! {

/// The icon drawn for each kind of sensor.
#[derive(Debug, Clone, PartialEq, Eq)]
pub struct IconConfig {
    pub cpu: String,
    pub memory: String,
    pub disk: String,
    pub network_download: String,
    pub network_upload: String,
    pub network_wifi: String,
    pub network_ethernet: String,
    pub battery_full: String,
    pub battery_three_quarters: String,
    pub battery_half: String,
    pub battery_quarter: String,
    pub battery_empty: String,
    pub battery_charging: String,
    pub thermal_low: String,
    pub thermal_medium: String,
    pub thermal_high: String,
    pub gpu: String,
}

impl IconConfig {
    /// Whether every icon is the default Nerd Font glyph.
    pub open spec fn is_default(&self) -> bool {
        &&& self.cpu@ == "\u{f4bc}"@
        &&& self.memory@ == "\u{efc5}"@
        &&& self.disk@ == "\u{f0a0}"@
        &&& self.network_download@ == "\u{f019}"@
        &&& self.network_upload@ == "\u{f093}"@
        &&& self.network_wifi@ == "\u{f05a9}"@
        &&& self.network_ethernet@ == "\u{ef44}"@
        &&& self.battery_full@ == "\u{f0079}"@
        &&& self.battery_three_quarters@ == "\u{f12a3}"@
        &&& self.battery_half@ == "\u{f12a2}"@
        &&& self.battery_quarter@ == "\u{f12a1}"@
        &&& self.battery_empty@ == "\u{f008e}"@
        &&& self.battery_charging@ == "\u{f0084}"@
        &&& self.thermal_low@ == "\u{f2ca}"@
        &&& self.thermal_medium@ == "\u{f2c9}"@
        &&& self.thermal_high@ == "\u{fc27}"@
        &&& self.gpu@ == "\u{f08ae}"@
    }
}

impl Default for IconConfig {
    fn default() -> (r: Self)
        ensures
            r.is_default(),
    {
        IconConfig {
            cpu: String::from_str("\u{f4bc}"),
            memory: String::from_str("\u{efc5}"),
            disk: String::from_str("\u{f0a0}"),
            network_download: String::from_str("\u{f019}"),
            network_upload: String::from_str("\u{f093}"),
            network_wifi: String::from_str("\u{f05a9}"),
            network_ethernet: String::from_str("\u{ef44}"),
            battery_full: String::from_str("\u{f0079}"),
            battery_three_quarters: String::from_str("\u{f12a3}"),
            battery_half: String::from_str("\u{f12a2}"),
            battery_quarter: String::from_str("\u{f12a1}"),
            battery_empty: String::from_str("\u{f008e}"),
            battery_charging: String::from_str("\u{f0084}"),
            thermal_low: String::from_str("\u{f2ca}"),
            thermal_medium: String::from_str("\u{f2c9}"),
            thermal_high: String::from_str("\u{fc27}"),
            gpu: String::from_str("\u{f08ae}"),
        }
    }
}

/// Colours of the status indicators; `None` leaves the bar's own colour.
#[derive(Debug, Clone, PartialEq, Eq)]
pub struct StatusColorConfig {
    pub excellent: Option<String>,
    pub good: Option<String>,
    pub warning: Option<String>,
    pub critical: Option<String>,
    pub unknown: Option<String>,
}

impl Default for StatusColorConfig {
    fn default() -> (r: Self)
        ensures
            r.excellent is None,
            r.good is None,
            r.warning is None,
            r.critical is None,
            r.unknown is None,
    {
        StatusColorConfig { excellent: None, good: None, warning: None, critical: None, unknown: None }
    }
}

/// Colours of the parts of the output, as hex text such as `#7aa2f7`.
#[derive(Debug, Clone, PartialEq, Eq)]
pub struct ColorConfig {
    pub icon_color: Option<String>,
    pub text_color: Option<String>,
    pub tooltip_label_color: Option<String>,
    pub tooltip_value_color: Option<String>,
    pub sparkline_color: Option<String>,
    pub status_colors: StatusColorConfig,
}

impl Default for ColorConfig {
    fn default() -> (r: Self)
        ensures
            r.icon_color is None,
            r.text_color is None,
            r.tooltip_label_color is None,
            r.tooltip_value_color is None,
            r.sparkline_color is None,
            r.status_colors.excellent is None,
            r.status_colors.good is None,
            r.status_colors.warning is None,
            r.status_colors.critical is None,
            r.status_colors.unknown is None,
    {
        ColorConfig {
            icon_color: None,
            text_color: None,
            tooltip_label_color: None,
            tooltip_value_color: None,
            sparkline_color: None,
            status_colors: StatusColorConfig::default(),
        }
    }
}

/// How sparklines are drawn.
#[derive(Debug, Clone, Copy, PartialEq, Eq, Structural)]
pub enum SparklineStyle {
    /// Unicode block characters.
    Blocks,
    /// Braille patterns.
    Braille,
    /// Dots and dashes.
    Dots,
    /// No sparkline.
    Disabled,
}

impl Default for SparklineStyle {
    fn default() -> (r: Self)
        ensures
            r == SparklineStyle::Blocks,
    {
        SparklineStyle::Blocks
    }
}

/// How gauge bars are drawn.
#[derive(Debug, Clone, Copy, PartialEq, Eq, Structural)]
pub enum GaugeStyle {
    Blocks,
    Ascii,
    Dots,
    Equals,
    Custom,
}

impl Default for GaugeStyle {
    fn default() -> (r: Self)
        ensures
            r == GaugeStyle::Blocks,
    {
        GaugeStyle::Blocks
    }
}

/// How much a tooltip tells.
#[derive(Debug, Clone, Copy, PartialEq, Eq, Structural)]
pub enum TooltipDetail {
    Basic,
    Detailed,
    Expert,
}

impl Default for TooltipDetail {
    fn default() -> (r: Self)
        ensures
            r == TooltipDetail::Detailed,
    {
        TooltipDetail::Detailed
    }
}

/// Visual extras of the output.
#[derive(Debug, Clone, Copy, PartialEq, Eq, Structural)]
pub struct VisualConfig {
    pub sparklines: bool,
    pub sparkline_length: usize,
    pub sparkline_style: SparklineStyle,
    pub sparklines_in_text: bool,
    pub status_indicators: bool,
    pub extended_metadata: bool,
    pub tooltip_detail: TooltipDetail,
    pub tooltip_gauges: bool,
    pub gauge_width: usize,
    pub gauge_style: GaugeStyle,
    pub show_top_processes: bool,
    /// Between 1 and 20.
    pub top_processes_count: u8,
    pub process_name_max_length: u8,
}

impl Default for VisualConfig {
    fn default() -> (r: Self)
        ensures
            r == (VisualConfig {
                sparklines: true,
                sparkline_length: 8,
                sparkline_style: SparklineStyle::Blocks,
                sparklines_in_text: true,
                status_indicators: true,
                extended_metadata: true,
                tooltip_detail: TooltipDetail::Detailed,
                tooltip_gauges: true,
                gauge_width: 12,
                gauge_style: GaugeStyle::Blocks,
                show_top_processes: true,
                top_processes_count: 10,
                process_name_max_length: 20,
            }),
    {
        VisualConfig {
            sparklines: true,
            sparkline_length: 8,
            sparkline_style: SparklineStyle::default(),
            sparklines_in_text: true,
            status_indicators: true,
            extended_metadata: true,
            tooltip_detail: TooltipDetail::default(),
            tooltip_gauges: true,
            gauge_width: 12,
            gauge_style: GaugeStyle::default(),
            show_top_processes: true,
            top_processes_count: 10,
            process_name_max_length: 20,
        }
    }
}

} // verus!
