//! The AMD GPU sensor's own types: its errors, its display selection and the text it
//! shows for a reading.
use vstd::prelude::*;
use crate::error::SensorError;
use crate::facade::{fan_percent, pwm_percent};
use crate::metrics::GpuMetrics;
use crate::words::views;
use crate::text::{decimal, join_spaced, join_with_spaces, padded, push_char, push_decimal, push_padded, text_eq};

verus! {

/// Failures of AMD GPU monitoring.
#[derive(Debug, Clone)]
pub enum GpuError {
    MetricsFileError { path: String, reason: String },
    MetricsParsingError { reason: String },
    DiscoveryError { reason: String },
    ThermalError { reason: String },
    PerformanceError { reason: String },
    HardwareError { reason: String },
}

impl GpuError {
    /// The common sensor error that this failure maps to: missing files and failed
    /// discovery are unavailability, parse and analytics failures are parse errors,
    /// thermal and hardware anomalies are invalid data.
    pub open spec fn spec_to_sensor_error(self) -> SensorError {
        match self {
            GpuError::MetricsFileError { reason, .. } => SensorError::Unavailable { reason, is_temporary: false },
            GpuError::MetricsParsingError { reason } => SensorError::Parse { message: reason, source: None },
            GpuError::DiscoveryError { reason } => SensorError::Unavailable { reason, is_temporary: false },
            GpuError::ThermalError { reason } => SensorError::InvalidData { message: reason, data: None },
            GpuError::PerformanceError { reason } => SensorError::Parse { message: reason, source: None },
            GpuError::HardwareError { reason } => SensorError::InvalidData { message: reason, data: None },
        }
    }

    /// Maps the failure to the common sensor error.
    pub fn to_sensor_error(self) -> (r: SensorError)
        ensures
            r == self.spec_to_sensor_error(),
    {
        match self {
            GpuError::MetricsFileError { reason, .. } => SensorError::Unavailable { reason, is_temporary: false },
            GpuError::MetricsParsingError { reason } => SensorError::Parse { message: reason, source: None },
            GpuError::DiscoveryError { reason } => SensorError::Unavailable { reason, is_temporary: false },
            GpuError::ThermalError { reason } => SensorError::InvalidData { message: reason, data: None },
            GpuError::PerformanceError { reason } => SensorError::Parse { message: reason, source: None },
            GpuError::HardwareError { reason } => SensorError::InvalidData { message: reason, data: None },
        }
    }
}

impl From<GpuError> for SensorError {
    fn from(e: GpuError) -> (r: SensorError)
        ensures
            r == e.spec_to_sensor_error(),
    {
        e.to_sensor_error()
    }
}

impl vstd::std_specs::convert::FromSpecImpl<GpuError> for SensorError {
    open spec fn obeys_from_spec() -> bool {
        true
    }

    open spec fn from_spec(e: GpuError) -> SensorError {
        e.spec_to_sensor_error()
    }
}

/// What the bar text shows.
#[derive(Debug, Clone, PartialEq, Eq)]
pub enum OutputFormat {
    /// The readings that the display flags select.
    Compact,
    /// Temperature, power, activity, clock and fan.
    Detailed,
    /// Temperature only.
    Minimal,
    /// Power only.
    Power,
    /// Activity only.
    Activity,
    /// Temperature, with a percentage of the critical temperature.
    Thermal,
    /// Clock and power.
    Performance,
    /// The named fields, in order: `temp`, `power`, `activity`, `frequency`, `fan`.
    Custom(Vec<String>),
}

impl Default for OutputFormat {
    fn default() -> (r: Self)
        ensures
            r == OutputFormat::Compact,
    {
        OutputFormat::Compact
    }
}

/// Thermal alert levels, from the least to the most severe.
#[derive(Debug, Clone, Copy, PartialEq, Eq, PartialOrd, Ord, Structural)]
pub enum ThermalAlert {
    Normal,
    Elevated,
    Warning,
    Critical,
    Emergency,
}

impl ThermalAlert {
    /// The level's rank, 0 for `Normal` up to 4 for `Emergency`.
    pub open spec fn spec_rank(self) -> nat {
        match self {
            ThermalAlert::Normal => 0,
            ThermalAlert::Elevated => 1,
            ThermalAlert::Warning => 2,
            ThermalAlert::Critical => 3,
            ThermalAlert::Emergency => 4,
        }
    }

    /// The level's rank, 0 for `Normal` up to 4 for `Emergency`.
    pub fn rank(&self) -> (r: u8)
        ensures
            r == self.spec_rank(),
    {
        match self {
            ThermalAlert::Normal => 0,
            ThermalAlert::Elevated => 1,
            ThermalAlert::Warning => 2,
            ThermalAlert::Critical => 3,
            ThermalAlert::Emergency => 4,
        }
    }

    /// Whether this level is more severe than `other`.
    pub fn is_above(&self, other: &ThermalAlert) -> (r: bool)
        ensures
            r == (self.spec_rank() > other.spec_rank()),
    {
        self.rank() > other.rank()
    }
}

/// What is known of the GPU device.
#[derive(Debug, Clone, PartialEq, Eq)]
pub struct GpuDeviceInfo {
    pub card_name: String,
    pub device_id: String,
    pub vendor_id: String,
    pub driver_version: Option<String>,
    pub memory_size: Option<u64>,
    pub pci_slot: Option<String>,
    pub supported_features: Vec<String>,
}

/// Which readings the compact text shows.
#[derive(Debug, Clone, Copy, PartialEq, Eq, Structural)]
pub struct DisplayFlags {
    pub show_temperature: bool,
    pub show_power: bool,
    pub show_utilization: bool,
    pub show_memory: bool,
    pub show_frequency: bool,
}

/// Whether `order` names the field `name`.
pub open spec fn names(order: Seq<String>, name: Seq<char>) -> bool {
    exists|i: int| 0 <= i < order.len() && order[i]@ == name
}

/// `setting` where given, else `current`.
pub open spec fn chosen(setting: Option<bool>, current: bool) -> bool {
    match setting {
        Some(b) => b,
        None => current,
    }
}

impl DisplayFlags {
    /// Temperature, power and activity shown; memory and clock hidden.
    pub fn new() -> (r: Self)
        ensures
            r == (DisplayFlags {
                show_temperature: true,
                show_power: true,
                show_utilization: true,
                show_memory: false,
                show_frequency: false,
            }),
    {
        DisplayFlags {
            show_temperature: true,
            show_power: true,
            show_utilization: true,
            show_memory: false,
            show_frequency: false,
        }
    }

    /// Applies configured flags. A display order, where given, overrides them all:
    /// exactly the fields it names (`temperature`, `power`, `utilization`, `memory`,
    /// `frequency`) are shown, and unknown names are ignored.
    pub fn apply(
        &mut self,
        show_temperature: Option<bool>,
        show_power: Option<bool>,
        show_utilization: Option<bool>,
        show_memory: Option<bool>,
        show_frequency: Option<bool>,
        display_order: Option<&Vec<String>>,
    )
        ensures
            display_order is None ==> *final(self) == (DisplayFlags {
                show_temperature: chosen(show_temperature, old(self).show_temperature),
                show_power: chosen(show_power, old(self).show_power),
                show_utilization: chosen(show_utilization, old(self).show_utilization),
                show_memory: chosen(show_memory, old(self).show_memory),
                show_frequency: chosen(show_frequency, old(self).show_frequency),
            }),
            display_order matches Some(order) ==> *final(self) == (DisplayFlags {
                show_temperature: names(order@, "temperature"@),
                show_power: names(order@, "power"@),
                show_utilization: names(order@, "utilization"@),
                show_memory: names(order@, "memory"@),
                show_frequency: names(order@, "frequency"@),
            }),
    {
        if let Some(b) = show_temperature {
            self.show_temperature = b;
        }
        if let Some(b) = show_power {
            self.show_power = b;
        }
        if let Some(b) = show_utilization {
            self.show_utilization = b;
        }
        if let Some(b) = show_memory {
            self.show_memory = b;
        }
        if let Some(b) = show_frequency {
            self.show_frequency = b;
        }
        if let Some(order) = display_order {
            *self = flags_from_order(order);
        }
    }
}

/// The field names are pairwise distinct.
proof fn lemma_field_names_distinct()
    ensures
        "temperature"@ != "utilization"@,
        "temperature"@ != "power"@,
        "temperature"@ != "memory"@,
        "temperature"@ != "frequency"@,
        "power"@ != "utilization"@,
        "power"@ != "memory"@,
        "power"@ != "frequency"@,
        "utilization"@ != "memory"@,
        "utilization"@ != "frequency"@,
        "memory"@ != "frequency"@,
{
    reveal_strlit("temperature");
    reveal_strlit("power");
    reveal_strlit("utilization");
    reveal_strlit("memory");
    reveal_strlit("frequency");
    assert("temperature"@[0] != "utilization"@[0]);
    assert("power"@[0] != "memory"@[0]);
    assert("power"@[0] != "frequency"@[0]);
}

/// A prefix one longer names what the shorter one names, and its last element.
proof fn lemma_names_extend(order: Seq<String>, i: int, name: Seq<char>)
    requires
        0 <= i < order.len(),
    ensures
        names(order.subrange(0, i + 1), name) == (names(order.subrange(0, i), name) || order[i]@
            == name),
{
    let prev = order.subrange(0, i);
    let next = order.subrange(0, i + 1);
    if names(next, name) {
        let j = choose|j: int| 0 <= j < next.len() && next[j]@ == name;
        if j < i {
            assert(prev[j] == next[j]);
        }
    }
    if names(prev, name) {
        let j = choose|j: int| 0 <= j < prev.len() && prev[j]@ == name;
        assert(next[j] == prev[j]);
    }
    if order[i]@ == name {
        assert(next[i] == order[i]);
    }
}

/// The flags of the fields that `order` names.
fn flags_from_order(order: &Vec<String>) -> (r: DisplayFlags)
    ensures
        r == (DisplayFlags {
            show_temperature: names(order@, "temperature"@),
            show_power: names(order@, "power"@),
            show_utilization: names(order@, "utilization"@),
            show_memory: names(order@, "memory"@),
            show_frequency: names(order@, "frequency"@),
        }),
{
    let mut flags = DisplayFlags {
        show_temperature: false,
        show_power: false,
        show_utilization: false,
        show_memory: false,
        show_frequency: false,
    };
    proof {
        lemma_field_names_distinct();
    }
    let mut i: usize = 0;
    while i < order.len()
        invariant
            i <= order@.len(),
            flags.show_temperature == names(order@.subrange(0, i as int), "temperature"@),
            flags.show_power == names(order@.subrange(0, i as int), "power"@),
            flags.show_utilization == names(order@.subrange(0, i as int), "utilization"@),
            flags.show_memory == names(order@.subrange(0, i as int), "memory"@),
            flags.show_frequency == names(order@.subrange(0, i as int), "frequency"@),
            "temperature"@ != "utilization"@,
            "temperature"@ != "power"@,
            "temperature"@ != "memory"@,
            "temperature"@ != "frequency"@,
            "power"@ != "utilization"@,
            "power"@ != "memory"@,
            "power"@ != "frequency"@,
            "utilization"@ != "memory"@,
            "utilization"@ != "frequency"@,
            "memory"@ != "frequency"@,
        decreases order@.len() - i,
    {
        let field = order[i].as_str();
        proof {
            lemma_names_extend(order@, i as int, "temperature"@);
            lemma_names_extend(order@, i as int, "power"@);
            lemma_names_extend(order@, i as int, "utilization"@);
            lemma_names_extend(order@, i as int, "memory"@);
            lemma_names_extend(order@, i as int, "frequency"@);
        }
        if text_eq(field, "temperature") {
            flags.show_temperature = true;
        } else if text_eq(field, "power") {
            flags.show_power = true;
        } else if text_eq(field, "utilization") {
            flags.show_utilization = true;
        } else if text_eq(field, "memory") {
            flags.show_memory = true;
        } else if text_eq(field, "frequency") {
            flags.show_frequency = true;
        }
        i = i + 1;
    }
    assert(order@.subrange(0, order@.len() as int) =~= order@);
    flags
}

/// The temperature as shown: padded to three characters, then `°C`.
pub open spec fn temp_text(t: u16) -> Seq<char> {
    padded(t as nat, 3) + "\u{b0}C"@
}

/// The power as shown: the watts, then `W`.
pub open spec fn power_text(p: u16) -> Seq<char> {
    decimal(p as nat) + "W"@
}

/// A percentage as shown: padded to three characters, then `%`.
pub open spec fn percent_text(a: u16) -> Seq<char> {
    padded(a as nat, 3) + "%"@
}

/// A clock as shown: the megahertz, then `MHz`.
pub open spec fn clock_text(f: u16) -> Seq<char> {
    decimal(f as nat) + "MHz"@
}

/// The fan speed in percent and whether a fan reports, for a reading.
pub open spec fn fan_of(m: GpuMetrics) -> (u16, bool) {
    match m {
        GpuMetrics::V1(v) => (fan_percent(v.current_fan_speed), v.current_fan_speed > 0),
        GpuMetrics::V2(v) => (pwm_percent(v.fan_pwm), v.fan_pwm > 0),
    }
}

/// The parts that the compact text shows under `flags`. Memory use is never among
/// them: no layout reports the VRAM total that it is a share of.
pub open spec fn compact_parts(m: GpuMetrics, flags: DisplayFlags) -> Seq<Seq<char>> {
    let p1 = if flags.show_temperature { seq![temp_text(m.spec_temperature())] } else { Seq::empty() };
    let p2 = if flags.show_power { p1.push(power_text(m.spec_power())) } else { p1 };
    let p3 = if flags.show_utilization { p2.push(percent_text(m.spec_activity())) } else { p2 };
    if flags.show_frequency { p3.push(clock_text(m.spec_frequency())) } else { p3 }
}

/// The parts of a custom text for the first `n` fields.
pub open spec fn custom_parts(m: GpuMetrics, fields: Seq<String>, n: int) -> Seq<Seq<char>>
    decreases n,
{
    if n <= 0 {
        Seq::empty()
    } else {
        let prev = custom_parts(m, fields, n - 1);
        let f = fields[n - 1]@;
        if f == "temp"@ {
            prev.push(temp_text(m.spec_temperature()))
        } else if f == "power"@ {
            prev.push(power_text(m.spec_power()))
        } else if f == "activity"@ {
            prev.push(percent_text(m.spec_activity()))
        } else if f == "frequency"@ {
            prev.push(clock_text(m.spec_frequency()))
        } else if f == "fan"@ && fan_of(m).1 {
            prev.push(percent_text(fan_of(m).0))
        } else {
            prev
        }
    }
}

/// The bar text of a reading under an output format and display flags.
pub open spec fn display_text(m: GpuMetrics, format: OutputFormat, flags: DisplayFlags) -> Seq<char> {
    match format {
        OutputFormat::Compact => {
            let parts = compact_parts(m, flags);
            if parts.len() == 0 { percent_text(m.spec_activity()) } else { join_spaced(parts) }
        },
        OutputFormat::Detailed => {
            let base = seq![temp_text(m.spec_temperature()), power_text(m.spec_power()),
                percent_text(m.spec_activity()), clock_text(m.spec_frequency())];
            let (fan, has_fan) = fan_of(m);
            join_spaced(if has_fan && fan > 0 { base.push(percent_text(fan)) } else { base })
        },
        OutputFormat::Minimal => temp_text(m.spec_temperature()),
        OutputFormat::Power => power_text(m.spec_power()),
        OutputFormat::Activity => percent_text(m.spec_activity()),
        OutputFormat::Thermal => temp_text(m.spec_temperature()),
        OutputFormat::Performance => clock_text(m.spec_frequency()) + seq![' '] + power_text(m.spec_power()),
        OutputFormat::Custom(fields) => {
            let parts = custom_parts(m, fields@, fields@.len() as int);
            if parts.len() == 0 { temp_text(m.spec_temperature()) } else { join_spaced(parts) }
        },
    }
}

fn temp_string(t: u16) -> (r: String)
    ensures
        r@ == temp_text(t),
{
    let mut s = String::new();
    push_padded(&mut s, t as u64, 3);
    s.append("\u{b0}C");
    assert(s@ =~= temp_text(t));
    s
}

fn power_string(p: u16) -> (r: String)
    ensures
        r@ == power_text(p),
{
    let mut s = String::new();
    push_decimal(&mut s, p as u64);
    s.append("W");
    assert(s@ =~= power_text(p));
    s
}

fn percent_string(a: u16) -> (r: String)
    ensures
        r@ == percent_text(a),
{
    let mut s = String::new();
    push_padded(&mut s, a as u64, 3);
    s.append("%");
    assert(s@ =~= percent_text(a));
    s
}

fn clock_string(f: u16) -> (r: String)
    ensures
        r@ == clock_text(f),
{
    let mut s = String::new();
    push_decimal(&mut s, f as u64);
    s.append("MHz");
    assert(s@ =~= clock_text(f));
    s
}

/// Appends a string, keeping track of the views.
fn push_part(parts: &mut Vec<String>, s: String)
    ensures
        views(final(parts)@) == views(old(parts)@).push(s@),
{
    parts.push(s);
    assert(views(parts@) =~= views(old(parts)@).push(s@));
}

/// The bar text of a reading under an output format and display flags.
pub fn format_text(m: &GpuMetrics, format: &OutputFormat, flags: &DisplayFlags) -> (r: String)
    ensures
        r@ == display_text(*m, *format, *flags),
{
    let (temp, _) = m.get_temperature();
    let power = m.get_power();
    let activity = m.get_activity();
    let frequency = m.get_frequency();
    match format {
        OutputFormat::Compact => {
            let mut parts: Vec<String> = Vec::new();
            if flags.show_temperature {
                push_part(&mut parts, temp_string(temp));
            }
            if flags.show_power {
                push_part(&mut parts, power_string(power));
            }
            if flags.show_utilization {
                push_part(&mut parts, percent_string(activity));
            }
            if flags.show_frequency {
                push_part(&mut parts, clock_string(frequency));
            }
            assert(views(parts@) =~= compact_parts(*m, *flags));
            if parts.len() == 0 {
                percent_string(activity)
            } else {
                join_with_spaces(&parts)
            }
        },
        OutputFormat::Detailed => {
            let (fan, has_fan) = m.get_fan_speed();
            let mut parts: Vec<String> = Vec::new();
            push_part(&mut parts, temp_string(temp));
            push_part(&mut parts, power_string(power));
            push_part(&mut parts, percent_string(activity));
            push_part(&mut parts, clock_string(frequency));
            if has_fan && fan > 0 {
                push_part(&mut parts, percent_string(fan));
            }
            let ghost base = seq![temp_text(m.spec_temperature()), power_text(m.spec_power()),
                percent_text(m.spec_activity()), clock_text(m.spec_frequency())];
            assert(views(parts@) =~= if has_fan && fan > 0 { base.push(percent_text(fan)) } else { base });
            join_with_spaces(&parts)
        },
        OutputFormat::Minimal => temp_string(temp),
        OutputFormat::Power => power_string(power),
        OutputFormat::Activity => percent_string(activity),
        OutputFormat::Thermal => temp_string(temp),
        OutputFormat::Performance => {
            let mut s = clock_string(frequency);
            s.append(" ");
            s.append(power_string(power).as_str());
            proof {
                reveal_strlit(" ");
            }
            assert(s@ =~= display_text(*m, *format, *flags));
            s
        },
        OutputFormat::Custom(fields) => {
            let (fan, has_fan) = m.get_fan_speed();
            let mut parts: Vec<String> = Vec::new();
            let mut i: usize = 0;
            while i < fields.len()
                invariant
                    i <= fields@.len(),
                    (fan, has_fan) == fan_of(*m),
                    temp == m.spec_temperature(),
                    power == m.spec_power(),
                    activity == m.spec_activity(),
                    frequency == m.spec_frequency(),
                    views(parts@) == custom_parts(*m, fields@, i as int),
                decreases fields@.len() - i,
            {
                let f = fields[i].as_str();
                if text_eq(f, "temp") {
                    push_part(&mut parts, temp_string(temp));
                } else if text_eq(f, "power") {
                    push_part(&mut parts, power_string(power));
                } else if text_eq(f, "activity") {
                    push_part(&mut parts, percent_string(activity));
                } else if text_eq(f, "frequency") {
                    push_part(&mut parts, clock_string(frequency));
                } else if text_eq(f, "fan") {
                    if has_fan {
                        push_part(&mut parts, percent_string(fan));
                    }
                }
                i = i + 1;
            }
            if parts.len() == 0 {
                temp_string(temp)
            } else {
                join_with_spaces(&parts)
            }
        },
    }
}

/// The line separator of tooltips: a backslash and `n`, which the bar turns into a
/// line break.
pub open spec fn nl() -> Seq<char> {
    seq!['\\', 'n']
}

/// The device lines of a tooltip.
pub open spec fn device_text(info: GpuDeviceInfo) -> Seq<char> {
    "GPU: "@ + info.card_name@ + nl() + "Device: "@ + info.device_id@ + " ("@ + info.vendor_id@
        + ")"@ + nl()
}

/// The label of the primary temperature of a reading.
pub open spec fn temp_label(m: GpuMetrics) -> Seq<char> {
    match m {
        GpuMetrics::V1(_) => "Edge"@,
        GpuMetrics::V2(_) => "GFX"@,
    }
}

/// `label`, the decimal `n`, `unit` and a line separator.
pub open spec fn reading_line(label: Seq<char>, n: nat, unit: Seq<char>) -> Seq<char> {
    label + decimal(n) + unit + nl()
}

/// The reading lines of a tooltip.
pub open spec fn readings_text(m: GpuMetrics) -> Seq<char> {
    "Temperature ("@ + temp_label(m) + reading_line("): "@, m.spec_temperature() as nat, "\u{b0}C"@)
        + reading_line("Power: "@, m.spec_power() as nat, "W"@) + reading_line(
        "Activity: "@,
        m.spec_activity() as nat,
        "%"@,
    ) + reading_line("Frequency: "@, m.spec_frequency() as nat, "MHz"@)
}

/// The fan line of a tooltip, where a fan turns.
pub open spec fn fan_text(m: GpuMetrics) -> Seq<char> {
    let (fan, has_fan) = fan_of(m);
    if has_fan && fan > 0 { reading_line("Fan Speed: "@, fan as nat, "%"@) } else { Seq::empty() }
}

/// The throttling notice of a tooltip, where a throttle flag is set.
pub open spec fn throttle_text(m: GpuMetrics) -> Seq<char> {
    if m.spec_throttle_status() != 0 {
        nl() + "\u{26a0}\u{fe0f} Throttling Active"@ + nl()
    } else {
        Seq::empty()
    }
}

/// The error notice of a tooltip, where reads failed.
pub open spec fn errors_text(consecutive_errors: usize) -> Seq<char> {
    if consecutive_errors > 0 {
        nl() + reading_line("\u{26a0}\u{fe0f} Recent errors: "@, consecutive_errors as nat, ""@)
    } else {
        Seq::empty()
    }
}

/// The tooltip of a reading: the device, the main readings, the fan where one turns,
/// a throttling notice where a flag is set, and the count of recent errors where there
/// are any.
pub open spec fn tooltip_text(info: GpuDeviceInfo, m: GpuMetrics, consecutive_errors: usize) -> Seq<char> {
    device_text(info) + readings_text(m) + fan_text(m) + throttle_text(m) + errors_text(
        consecutive_errors,
    )
}

/// Appends the tooltip line separator.
fn push_nl(s: &mut String)
    ensures
        final(s)@ == old(s)@ + nl(),
{
    push_char(s, '\\');
    push_char(s, 'n');
    assert(final(s)@ =~= old(s)@ + nl());
}

/// Appends `label`, the decimal `n`, `unit` and a line separator.
fn push_reading(s: &mut String, label: &str, n: u64, unit: &str)
    ensures
        final(s)@ == old(s)@ + reading_line(label@, n as nat, unit@),
{
    s.append(label);
    push_decimal(s, n);
    s.append(unit);
    push_nl(s);
    assert(final(s)@ =~= old(s)@ + reading_line(label@, n as nat, unit@));
}

fn push_device(s: &mut String, info: &GpuDeviceInfo)
    ensures
        final(s)@ == old(s)@ + device_text(*info),
{
    s.append("GPU: ");
    s.append(info.card_name.as_str());
    push_nl(s);
    s.append("Device: ");
    s.append(info.device_id.as_str());
    s.append(" (");
    s.append(info.vendor_id.as_str());
    s.append(")");
    push_nl(s);
    assert(final(s)@ =~= old(s)@ + device_text(*info));
}

fn push_readings(s: &mut String, m: &GpuMetrics)
    ensures
        final(s)@ == old(s)@ + readings_text(*m),
{
    let (temp, label) = m.get_temperature();
    s.append("Temperature (");
    s.append(label.as_str());
    push_reading(s, "): ", temp as u64, "\u{b0}C");
    push_reading(s, "Power: ", m.get_power() as u64, "W");
    push_reading(s, "Activity: ", m.get_activity() as u64, "%");
    push_reading(s, "Frequency: ", m.get_frequency() as u64, "MHz");
    assert(final(s)@ =~= old(s)@ + readings_text(*m));
}

fn push_notices(s: &mut String, m: &GpuMetrics, consecutive_errors: usize)
    ensures
        final(s)@ == old(s)@ + fan_text(*m) + throttle_text(*m) + errors_text(consecutive_errors),
{
    let (fan, has_fan) = m.get_fan_speed();
    if has_fan && fan > 0 {
        push_reading(s, "Fan Speed: ", fan as u64, "%");
    }
    assert(s@ =~= old(s)@ + fan_text(*m));
    let ghost with_fan = s@;
    if m.get_throttle_status() != 0 {
        push_nl(s);
        s.append("\u{26a0}\u{fe0f} Throttling Active");
        push_nl(s);
    }
    assert(s@ =~= with_fan + throttle_text(*m));
    let ghost with_throttle = s@;
    if consecutive_errors > 0 {
        push_nl(s);
        push_reading(s, "\u{26a0}\u{fe0f} Recent errors: ", consecutive_errors as u64, "");
    }
    assert(s@ =~= with_throttle + errors_text(consecutive_errors));
    assert(final(s)@ =~= old(s)@ + fan_text(*m) + throttle_text(*m) + errors_text(consecutive_errors));
}

/// The tooltip of a reading, with the device it comes from and the number of
/// consecutive failed reads.
pub fn build_tooltip(info: &GpuDeviceInfo, m: &GpuMetrics, consecutive_errors: usize) -> (r: String)
    ensures
        r@ == tooltip_text(*info, *m, consecutive_errors),
{
    let mut s = String::new();
    push_device(&mut s, info);
    push_readings(&mut s, m);
    push_notices(&mut s, m, consecutive_errors);
    assert(s@ =~= tooltip_text(*info, *m, consecutive_errors));
    s
}

} // verus!
