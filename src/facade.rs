//! Version-agnostic accessors over the metrics of each layout.
use vstd::prelude::*;
use crate::metrics::{GpuMetrics, GpuMetricsV1, GpuMetricsV2, Header};
use crate::text::{decimal, label_with_index};

verus! {

/// A labelled reading as plain values.
pub open spec fn entry_view(p: (String, u16)) -> (Seq<char>, u16) {
    (p.0@, p.1)
}

/// The labels and values of a list of labelled readings.
pub open spec fn labelled(v: Seq<(String, u16)>) -> Seq<(Seq<char>, u16)> {
    v.map_values(|p: (String, u16)| entry_view(p))
}

/// One entry per domain: `prefix` + domain number + `suffix`, with that domain's value.
pub open spec fn indexed(prefix: Seq<char>, suffix: Seq<char>, values: Seq<u16>) -> Seq<
    (Seq<char>, u16),
> {
    Seq::new(values.len(), |i: int| (prefix + decimal(i as nat) + suffix, values[i]))
}

/// Memory figures of a reading; absent where the layout does not report them.
#[derive(Debug, Clone, Copy, PartialEq, Eq, Structural)]
pub struct MemoryInfo {
    pub total_vram: Option<u64>,
    pub used_vram: Option<u64>,
    pub memory_frequency: Option<u16>,
    pub memory_utilization: Option<u16>,
}

/// Voltages of a reading; absent where the revision does not report them.
#[derive(Debug, Clone, Copy, PartialEq, Eq, Structural)]
pub struct VoltageInfo {
    pub core_voltage: Option<u16>,
    pub soc_voltage: Option<u16>,
    pub memory_voltage: Option<u16>,
}

/// Fan speed as a percentage: values above 100 are PWM duty (0..=255) and are scaled,
/// rounding down.
pub open spec fn fan_percent(raw: u16) -> u16 {
    if raw > 100 { (raw as int * 100 / 255) as u16 } else { raw }
}

/// PWM duty (0..=255) as a percentage, rounding down.
pub open spec fn pwm_percent(raw: u16) -> u16 {
    (raw as int * 100 / 255) as u16
}

fn entry(label: &str, value: u16) -> (r: (String, u16))
    ensures
        entry_view(r) == (label@, value),
{
    (String::from_str(label), value)
}

/// Appends one labelled reading.
fn push_entry(v: &mut Vec<(String, u16)>, label: &str, value: u16)
    ensures
        labelled(final(v)@) == labelled(old(v)@).push((label@, value)),
{
    v.push(entry(label, value));
    assert(labelled(v@) =~= labelled(old(v)@).push((label@, value)));
}

/// Appends one labelled reading per domain, labelled `prefix` + number + `suffix`.
fn push_indexed(v: &mut Vec<(String, u16)>, prefix: &str, suffix: &str, values: &[u16])
    ensures
        labelled(final(v)@) == labelled(old(v)@) + indexed(prefix@, suffix@, values@),
{
    let n = values.len();
    let mut i: usize = 0;
    while i < n
        invariant
            n == values@.len(),
            i <= n,
            labelled(v@) == labelled(old(v)@) + indexed(prefix@, suffix@, values@.subrange(0, i as int)),
        decreases n - i,
    {
        let mut label = label_with_index(prefix, i as u64);
        label.append(suffix);
        let ghost before = v@;
        let ghost item = (prefix@ + decimal(i as nat) + suffix@, values@[i as int]);
        v.push((label, values[i]));
        assert(labelled(v@) =~= labelled(before).push(item));
        assert(indexed(prefix@, suffix@, values@.subrange(0, i + 1)) =~= indexed(
            prefix@,
            suffix@,
            values@.subrange(0, i as int),
        ).push(item));
        assert(labelled(v@) =~= labelled(old(v)@) + indexed(prefix@, suffix@, values@.subrange(0, i + 1)));
        i = i + 1;
    }
    assert(values@.subrange(0, n as int) =~= values@);
}

impl GpuMetricsV1 {
    /// Temperatures in reporting order.
    pub open spec fn spec_all_temperatures(&self) -> Seq<(Seq<char>, u16)> {
        seq![("Edge"@, self.temperature_edge), ("Hotspot"@, self.temperature_hotspot),
            ("Memory"@, self.temperature_mem), ("VR GFX"@, self.temperature_vrgfx),
            ("VR SOC"@, self.temperature_vrsoc), ("VR Mem"@, self.temperature_vrmem)]
    }

    /// Power: the current socket power where reported, else the average.
    pub open spec fn spec_power(&self) -> u16 {
        match self.current_socket_power {
            Some(p) => p,
            None => self.average_socket_power,
        }
    }

    /// Power per source, in reporting order.
    pub open spec fn spec_power_breakdown(&self) -> Seq<(Seq<char>, u16)> {
        match self.current_socket_power {
            Some(p) => seq![("Socket"@, self.average_socket_power), ("Current Socket"@, p)],
            None => seq![("Socket"@, self.average_socket_power)],
        }
    }

    /// Activity per engine, in reporting order.
    pub open spec fn spec_activity_breakdown(&self) -> Seq<(Seq<char>, u16)> {
        let base = seq![("GFX"@, self.average_gfx_activity), ("UMC"@, self.average_umc_activity),
            ("MM"@, self.average_mm_activity)];
        match self.vcn_activity {
            Some(a) => base + indexed("VCN"@, Seq::empty(), a@),
            None => base,
        }
    }

    /// Clock of every domain, in reporting order.
    pub open spec fn spec_all_frequencies(&self) -> Seq<(Seq<char>, u16)> {
        seq![("GFX Current"@, self.current_gfxclk), ("GFX Average"@, self.average_gfxclk_frequency),
            ("SOC Current"@, self.current_socclk), ("SOC Average"@, self.average_socclk_frequency),
            ("UCLK Current"@, self.current_uclk), ("UCLK Average"@, self.average_uclk_frequency),
            ("VCLK0 Current"@, self.current_vclk0), ("VCLK0 Average"@, self.average_vclk0_frequency),
            ("DCLK0 Current"@, self.current_dclk0), ("DCLK0 Average"@, self.average_dclk0_frequency),
            ("VCLK1 Current"@, self.current_vclk1), ("VCLK1 Average"@, self.average_vclk1_frequency),
            ("DCLK1 Current"@, self.current_dclk1), ("DCLK1 Average"@, self.average_dclk1_frequency)]
    }

    /// The primary temperature (edge) and its label.
    pub fn get_temperature(&self) -> (r: (u16, String))
        ensures
            r.0 == self.temperature_edge,
            r.1@ == "Edge"@,
    {
        (self.temperature_edge, String::from_str("Edge"))
    }

    /// All temperatures with their labels.
    pub fn get_all_temperatures(&self) -> (r: Vec<(String, u16)>)
        ensures
            labelled(r@) == self.spec_all_temperatures(),
    {
        let mut v: Vec<(String, u16)> = Vec::new();
        push_entry(&mut v, "Edge", self.temperature_edge);
        push_entry(&mut v, "Hotspot", self.temperature_hotspot);
        push_entry(&mut v, "Memory", self.temperature_mem);
        push_entry(&mut v, "VR GFX", self.temperature_vrgfx);
        push_entry(&mut v, "VR SOC", self.temperature_vrsoc);
        push_entry(&mut v, "VR Mem", self.temperature_vrmem);
        assert(labelled(v@) =~= self.spec_all_temperatures());
        v
    }

    /// Power in watts.
    pub fn get_power(&self) -> (r: u16)
        ensures
            r == self.spec_power(),
    {
        match self.current_socket_power {
            Some(p) => p,
            None => self.average_socket_power,
        }
    }

    /// Power per source.
    pub fn get_power_breakdown(&self) -> (r: Vec<(String, u16)>)
        ensures
            labelled(r@) == self.spec_power_breakdown(),
    {
        let mut v: Vec<(String, u16)> = Vec::new();
        push_entry(&mut v, "Socket", self.average_socket_power);
        if let Some(current) = self.current_socket_power {
            push_entry(&mut v, "Current Socket", current);
        }
        assert(labelled(v@) =~= self.spec_power_breakdown());
        v
    }

    /// GFX activity in percent.
    pub fn get_activity(&self) -> (r: u16)
        ensures
            r == self.average_gfx_activity,
    {
        self.average_gfx_activity
    }

    /// Activity per engine.
    pub fn get_activity_breakdown(&self) -> (r: Vec<(String, u16)>)
        ensures
            labelled(r@) == self.spec_activity_breakdown(),
    {
        let mut v: Vec<(String, u16)> = Vec::new();
        push_entry(&mut v, "GFX", self.average_gfx_activity);
        push_entry(&mut v, "UMC", self.average_umc_activity);
        push_entry(&mut v, "MM", self.average_mm_activity);
        if let Some(vcn) = &self.vcn_activity {
            push_indexed(&mut v, "VCN", "", vcn.as_slice());
            proof {
                reveal_strlit("");
            }
        }
        assert(labelled(v@) =~= self.spec_activity_breakdown());
        v
    }

    /// Current GFX clock in MHz.
    pub fn get_frequency(&self) -> (r: u16)
        ensures
            r == self.current_gfxclk,
    {
        self.current_gfxclk
    }

    /// Current and average clock of every domain.
    pub fn get_all_frequencies(&self) -> (r: Vec<(String, u16)>)
        ensures
            labelled(r@) == self.spec_all_frequencies(),
    {
        let mut v: Vec<(String, u16)> = Vec::new();
        push_entry(&mut v, "GFX Current", self.current_gfxclk);
        push_entry(&mut v, "GFX Average", self.average_gfxclk_frequency);
        push_entry(&mut v, "SOC Current", self.current_socclk);
        push_entry(&mut v, "SOC Average", self.average_socclk_frequency);
        push_entry(&mut v, "UCLK Current", self.current_uclk);
        push_entry(&mut v, "UCLK Average", self.average_uclk_frequency);
        push_entry(&mut v, "VCLK0 Current", self.current_vclk0);
        push_entry(&mut v, "VCLK0 Average", self.average_vclk0_frequency);
        push_entry(&mut v, "DCLK0 Current", self.current_dclk0);
        push_entry(&mut v, "DCLK0 Average", self.average_dclk0_frequency);
        push_entry(&mut v, "VCLK1 Current", self.current_vclk1);
        push_entry(&mut v, "VCLK1 Average", self.average_vclk1_frequency);
        push_entry(&mut v, "DCLK1 Current", self.current_dclk1);
        push_entry(&mut v, "DCLK1 Average", self.average_dclk1_frequency);
        assert(labelled(v@) =~= self.spec_all_frequencies());
        v
    }

    /// The throttle flag word.
    pub fn get_throttle_status(&self) -> (r: u64)
        ensures
            r == self.throttle_status,
    {
        self.throttle_status
    }

    /// Fan speed in percent, and whether a fan reports at all.
    pub fn get_fan_speed(&self) -> (r: (u16, bool))
        ensures
            r == (fan_percent(self.current_fan_speed), self.current_fan_speed > 0),
    {
        let speed = if self.current_fan_speed > 100 {
            ((self.current_fan_speed as u32 * 100) / 255) as u16
        } else {
            self.current_fan_speed
        };
        (speed, self.current_fan_speed > 0)
    }

    /// The header the metrics were decoded under.
    pub fn get_header(&self) -> (r: Header)
        ensures
            r == self.header,
    {
        self.header
    }

    /// Memory clock and utilization; VRAM sizes are not reported.
    pub fn get_memory_info(&self) -> (r: Option<MemoryInfo>)
        ensures
            r == Some(MemoryInfo {
                total_vram: None,
                used_vram: None,
                memory_frequency: Some(self.current_uclk),
                memory_utilization: Some(self.average_umc_activity),
            }),
    {
        Some(MemoryInfo {
            total_vram: None,
            used_vram: None,
            memory_frequency: Some(self.current_uclk),
            memory_utilization: Some(self.average_umc_activity),
        })
    }

    /// Voltages, each present only from the revision that adds it.
    pub fn get_voltage_info(&self) -> (r: Option<VoltageInfo>)
        ensures
            r == Some(VoltageInfo {
                core_voltage: self.gfx_voltage,
                soc_voltage: self.soc_voltage,
                memory_voltage: self.mem_voltage,
            }),
    {
        Some(VoltageInfo {
            core_voltage: self.gfx_voltage,
            soc_voltage: self.soc_voltage,
            memory_voltage: self.mem_voltage,
        })
    }

    /// The system clock counter.
    pub fn get_system_clock_counter(&self) -> (r: u64)
        ensures
            r == self.system_clock_counter,
    {
        self.system_clock_counter
    }
}

impl GpuMetricsV2 {
    /// Temperatures in reporting order.
    pub open spec fn spec_all_temperatures(&self) -> Seq<(Seq<char>, u16)> {
        seq![("GFX"@, self.temperature_gfx), ("SOC"@, self.temperature_soc)]
            + indexed("Core"@, Seq::empty(), self.temperature_core@)
            + indexed("L3_"@, Seq::empty(), self.temperature_l3@)
    }

    /// Power per source, in reporting order.
    pub open spec fn spec_power_breakdown(&self) -> Seq<(Seq<char>, u16)> {
        seq![("Socket"@, self.average_socket_power), ("CPU"@, self.average_cpu_power),
            ("SOC"@, self.average_soc_power), ("GFX"@, self.average_gfx_power)]
            + indexed("Core"@, Seq::empty(), self.average_core_power@)
    }

    /// Activity per engine, in reporting order.
    pub open spec fn spec_activity_breakdown(&self) -> Seq<(Seq<char>, u16)> {
        seq![("GFX"@, self.average_gfx_activity), ("MM"@, self.average_mm_activity)]
    }

    /// Clock of every domain, in reporting order.
    pub open spec fn spec_all_frequencies(&self) -> Seq<(Seq<char>, u16)> {
        seq![("GFX Current"@, self.current_gfxclk), ("GFX Average"@, self.average_gfxclk_frequency),
            ("SOC Current"@, self.current_socclk), ("SOC Average"@, self.average_socclk_frequency),
            ("UCLK Current"@, self.current_uclk), ("UCLK Average"@, self.average_uclk_frequency),
            ("FCLK Current"@, self.current_fclk), ("FCLK Average"@, self.average_fclk_frequency),
            ("VCLK Current"@, self.current_vclk), ("VCLK Average"@, self.average_vclk_frequency),
            ("DCLK Current"@, self.current_dclk), ("DCLK Average"@, self.average_dclk_frequency)]
            + indexed("Core"@, "_CLK"@, self.current_coreclk@)
            + indexed("L3_"@, "_CLK"@, self.current_l3clk@)
    }

    /// The primary temperature (GFX) and its label.
    pub fn get_temperature(&self) -> (r: (u16, String))
        ensures
            r.0 == self.temperature_gfx,
            r.1@ == "GFX"@,
    {
        (self.temperature_gfx, String::from_str("GFX"))
    }

    /// All temperatures: GFX, SOC, then one per core and one per L3 cache.
    pub fn get_all_temperatures(&self) -> (r: Vec<(String, u16)>)
        ensures
            labelled(r@) == self.spec_all_temperatures(),
    {
        let mut v: Vec<(String, u16)> = Vec::new();
        push_entry(&mut v, "GFX", self.temperature_gfx);
        push_entry(&mut v, "SOC", self.temperature_soc);
        push_indexed(&mut v, "Core", "", self.temperature_core.as_slice());
        push_indexed(&mut v, "L3_", "", self.temperature_l3.as_slice());
        proof {
            reveal_strlit("");
        }
        assert(labelled(v@) =~= self.spec_all_temperatures());
        v
    }

    /// Power in watts: the average socket power.
    pub fn get_power(&self) -> (r: u16)
        ensures
            r == self.average_socket_power,
    {
        self.average_socket_power
    }

    /// Power per source, then one entry per core.
    pub fn get_power_breakdown(&self) -> (r: Vec<(String, u16)>)
        ensures
            labelled(r@) == self.spec_power_breakdown(),
    {
        let mut v: Vec<(String, u16)> = Vec::new();
        push_entry(&mut v, "Socket", self.average_socket_power);
        push_entry(&mut v, "CPU", self.average_cpu_power);
        push_entry(&mut v, "SOC", self.average_soc_power);
        push_entry(&mut v, "GFX", self.average_gfx_power);
        push_indexed(&mut v, "Core", "", self.average_core_power.as_slice());
        proof {
            reveal_strlit("");
        }
        assert(labelled(v@) =~= self.spec_power_breakdown());
        v
    }

    /// GFX activity in percent.
    pub fn get_activity(&self) -> (r: u16)
        ensures
            r == self.average_gfx_activity,
    {
        self.average_gfx_activity
    }

    /// Activity per engine.
    pub fn get_activity_breakdown(&self) -> (r: Vec<(String, u16)>)
        ensures
            labelled(r@) == self.spec_activity_breakdown(),
    {
        let mut v: Vec<(String, u16)> = Vec::new();
        push_entry(&mut v, "GFX", self.average_gfx_activity);
        push_entry(&mut v, "MM", self.average_mm_activity);
        assert(labelled(v@) =~= self.spec_activity_breakdown());
        v
    }

    /// Current GFX clock in MHz.
    pub fn get_frequency(&self) -> (r: u16)
        ensures
            r == self.current_gfxclk,
    {
        self.current_gfxclk
    }

    /// Current and average clock of every domain, then one per core and per L3 cache.
    pub fn get_all_frequencies(&self) -> (r: Vec<(String, u16)>)
        ensures
            labelled(r@) == self.spec_all_frequencies(),
    {
        let mut v: Vec<(String, u16)> = Vec::new();
        push_entry(&mut v, "GFX Current", self.current_gfxclk);
        push_entry(&mut v, "GFX Average", self.average_gfxclk_frequency);
        push_entry(&mut v, "SOC Current", self.current_socclk);
        push_entry(&mut v, "SOC Average", self.average_socclk_frequency);
        push_entry(&mut v, "UCLK Current", self.current_uclk);
        push_entry(&mut v, "UCLK Average", self.average_uclk_frequency);
        push_entry(&mut v, "FCLK Current", self.current_fclk);
        push_entry(&mut v, "FCLK Average", self.average_fclk_frequency);
        push_entry(&mut v, "VCLK Current", self.current_vclk);
        push_entry(&mut v, "VCLK Average", self.average_vclk_frequency);
        push_entry(&mut v, "DCLK Current", self.current_dclk);
        push_entry(&mut v, "DCLK Average", self.average_dclk_frequency);
        push_indexed(&mut v, "Core", "_CLK", self.current_coreclk.as_slice());
        push_indexed(&mut v, "L3_", "_CLK", self.current_l3clk.as_slice());
        assert(labelled(v@) =~= self.spec_all_frequencies());
        v
    }

    /// The throttle flag word.
    pub fn get_throttle_status(&self) -> (r: u64)
        ensures
            r == self.throttle_status,
    {
        self.throttle_status
    }

    /// Fan speed in percent of full PWM duty, and whether a fan reports at all.
    pub fn get_fan_speed(&self) -> (r: (u16, bool))
        ensures
            r == (pwm_percent(self.fan_pwm), self.fan_pwm > 0),
    {
        (((self.fan_pwm as u32 * 100) / 255) as u16, self.fan_pwm > 0)
    }

    /// The header the metrics were decoded under.
    pub fn get_header(&self) -> (r: Header)
        ensures
            r == self.header,
    {
        self.header
    }

    /// Memory clock; VRAM sizes and utilization are not reported.
    pub fn get_memory_info(&self) -> (r: Option<MemoryInfo>)
        ensures
            r == Some(MemoryInfo {
                total_vram: None,
                used_vram: None,
                memory_frequency: Some(self.current_uclk),
                memory_utilization: None,
            }),
    {
        Some(MemoryInfo {
            total_vram: None,
            used_vram: None,
            memory_frequency: Some(self.current_uclk),
            memory_utilization: None,
        })
    }

    /// Voltages, present from content revision 1.
    pub fn get_voltage_info(&self) -> (r: Option<VoltageInfo>)
        ensures
            r == Some(VoltageInfo {
                core_voltage: self.voltage_gfx,
                soc_voltage: self.voltage_soc,
                memory_voltage: self.voltage_mem,
            }),
    {
        Some(VoltageInfo {
            core_voltage: self.voltage_gfx,
            soc_voltage: self.voltage_soc,
            memory_voltage: self.voltage_mem,
        })
    }

    /// The system clock counter.
    pub fn get_system_clock_counter(&self) -> (r: u64)
        ensures
            r == self.system_clock_counter,
    {
        self.system_clock_counter
    }
}

impl GpuMetrics {
    /// The primary temperature.
    pub open spec fn spec_temperature(&self) -> u16 {
        match self {
            GpuMetrics::V1(m) => m.temperature_edge,
            GpuMetrics::V2(m) => m.temperature_gfx,
        }
    }

    /// The power in watts.
    pub open spec fn spec_power(&self) -> u16 {
        match self {
            GpuMetrics::V1(m) => m.spec_power(),
            GpuMetrics::V2(m) => m.average_socket_power,
        }
    }

    /// The GFX activity in percent.
    pub open spec fn spec_activity(&self) -> u16 {
        match self {
            GpuMetrics::V1(m) => m.average_gfx_activity,
            GpuMetrics::V2(m) => m.average_gfx_activity,
        }
    }

    /// The current GFX clock in MHz.
    pub open spec fn spec_frequency(&self) -> u16 {
        match self {
            GpuMetrics::V1(m) => m.current_gfxclk,
            GpuMetrics::V2(m) => m.current_gfxclk,
        }
    }

    /// The throttle flag word.
    pub open spec fn spec_throttle_status(&self) -> u64 {
        match self {
            GpuMetrics::V1(m) => m.throttle_status,
            GpuMetrics::V2(m) => m.throttle_status,
        }
    }

    /// The header the metrics were decoded under.
    pub open spec fn spec_header(&self) -> Header {
        match self {
            GpuMetrics::V1(m) => m.header,
            GpuMetrics::V2(m) => m.header,
        }
    }

    /// The primary temperature and its label.
    pub fn get_temperature(&self) -> (r: (u16, String))
        ensures
            r.0 == self.spec_temperature(),
            r.1@ == (match self {
                GpuMetrics::V1(_) => "Edge"@,
                GpuMetrics::V2(_) => "GFX"@,
            }),
    {
        match self {
            GpuMetrics::V1(m) => m.get_temperature(),
            GpuMetrics::V2(m) => m.get_temperature(),
        }
    }

    /// All temperatures with their labels.
    pub fn get_all_temperatures(&self) -> (r: Vec<(String, u16)>)
        ensures
            labelled(r@) == (match self {
                GpuMetrics::V1(m) => m.spec_all_temperatures(),
                GpuMetrics::V2(m) => m.spec_all_temperatures(),
            }),
    {
        match self {
            GpuMetrics::V1(m) => m.get_all_temperatures(),
            GpuMetrics::V2(m) => m.get_all_temperatures(),
        }
    }

    /// Power in watts.
    pub fn get_power(&self) -> (r: u16)
        ensures
            r == self.spec_power(),
    {
        match self {
            GpuMetrics::V1(m) => m.get_power(),
            GpuMetrics::V2(m) => m.get_power(),
        }
    }

    /// Power per source.
    pub fn get_power_breakdown(&self) -> (r: Vec<(String, u16)>)
        ensures
            labelled(r@) == (match self {
                GpuMetrics::V1(m) => m.spec_power_breakdown(),
                GpuMetrics::V2(m) => m.spec_power_breakdown(),
            }),
    {
        match self {
            GpuMetrics::V1(m) => m.get_power_breakdown(),
            GpuMetrics::V2(m) => m.get_power_breakdown(),
        }
    }

    /// GFX activity in percent.
    pub fn get_activity(&self) -> (r: u16)
        ensures
            r == self.spec_activity(),
    {
        match self {
            GpuMetrics::V1(m) => m.get_activity(),
            GpuMetrics::V2(m) => m.get_activity(),
        }
    }

    /// Activity per engine.
    pub fn get_activity_breakdown(&self) -> (r: Vec<(String, u16)>)
        ensures
            labelled(r@) == (match self {
                GpuMetrics::V1(m) => m.spec_activity_breakdown(),
                GpuMetrics::V2(m) => m.spec_activity_breakdown(),
            }),
    {
        match self {
            GpuMetrics::V1(m) => m.get_activity_breakdown(),
            GpuMetrics::V2(m) => m.get_activity_breakdown(),
        }
    }

    /// Current GFX clock in MHz.
    pub fn get_frequency(&self) -> (r: u16)
        ensures
            r == self.spec_frequency(),
    {
        match self {
            GpuMetrics::V1(m) => m.get_frequency(),
            GpuMetrics::V2(m) => m.get_frequency(),
        }
    }

    /// Clock of every domain.
    pub fn get_all_frequencies(&self) -> (r: Vec<(String, u16)>)
        ensures
            labelled(r@) == (match self {
                GpuMetrics::V1(m) => m.spec_all_frequencies(),
                GpuMetrics::V2(m) => m.spec_all_frequencies(),
            }),
    {
        match self {
            GpuMetrics::V1(m) => m.get_all_frequencies(),
            GpuMetrics::V2(m) => m.get_all_frequencies(),
        }
    }

    /// The throttle flag word.
    pub fn get_throttle_status(&self) -> (r: u64)
        ensures
            r == self.spec_throttle_status(),
    {
        match self {
            GpuMetrics::V1(m) => m.get_throttle_status(),
            GpuMetrics::V2(m) => m.get_throttle_status(),
        }
    }

    /// Fan speed in percent, and whether a fan reports at all.
    pub fn get_fan_speed(&self) -> (r: (u16, bool))
        ensures
            r == (match self {
                GpuMetrics::V1(m) => (fan_percent(m.current_fan_speed), m.current_fan_speed > 0),
                GpuMetrics::V2(m) => (pwm_percent(m.fan_pwm), m.fan_pwm > 0),
            }),
    {
        match self {
            GpuMetrics::V1(m) => m.get_fan_speed(),
            GpuMetrics::V2(m) => m.get_fan_speed(),
        }
    }

    /// The header the metrics were decoded under.
    pub fn get_header(&self) -> (r: Header)
        ensures
            r == self.spec_header(),
    {
        match self {
            GpuMetrics::V1(m) => m.get_header(),
            GpuMetrics::V2(m) => m.get_header(),
        }
    }

    /// Memory figures.
    pub fn get_memory_info(&self) -> (r: Option<MemoryInfo>)
        ensures
            r == Some(MemoryInfo {
                total_vram: None,
                used_vram: None,
                memory_frequency: Some(self.spec_memory_clock()),
                memory_utilization: match self {
                    GpuMetrics::V1(m) => Some(m.average_umc_activity),
                    GpuMetrics::V2(_) => None,
                },
            }),
    {
        match self {
            GpuMetrics::V1(m) => m.get_memory_info(),
            GpuMetrics::V2(m) => m.get_memory_info(),
        }
    }

    /// The current memory clock in MHz.
    pub open spec fn spec_memory_clock(&self) -> u16 {
        match self {
            GpuMetrics::V1(m) => m.current_uclk,
            GpuMetrics::V2(m) => m.current_uclk,
        }
    }

    /// Voltages.
    pub fn get_voltage_info(&self) -> (r: Option<VoltageInfo>)
        ensures
            r == Some(match self {
                GpuMetrics::V1(m) => VoltageInfo {
                    core_voltage: m.gfx_voltage,
                    soc_voltage: m.soc_voltage,
                    memory_voltage: m.mem_voltage,
                },
                GpuMetrics::V2(m) => VoltageInfo {
                    core_voltage: m.voltage_gfx,
                    soc_voltage: m.voltage_soc,
                    memory_voltage: m.voltage_mem,
                },
            }),
    {
        match self {
            GpuMetrics::V1(m) => m.get_voltage_info(),
            GpuMetrics::V2(m) => m.get_voltage_info(),
        }
    }

    /// The system clock counter.
    pub fn get_system_clock_counter(&self) -> (r: u64)
        ensures
            r == (match self {
                GpuMetrics::V1(m) => m.system_clock_counter,
                GpuMetrics::V2(m) => m.system_clock_counter,
            }),
    {
        match self {
            GpuMetrics::V1(m) => m.get_system_clock_counter(),
            GpuMetrics::V2(m) => m.get_system_clock_counter(),
        }
    }

    /// The operands of the power efficiency `activity / power`: `None` when the power
    /// is zero, whose efficiency is zero.
    pub fn power_efficiency_ratio(&self) -> (r: Option<(u16, u16)>)
        ensures
            self.spec_power() == 0 ==> r is None,
            self.spec_power() != 0 ==> r == Some((self.spec_activity(), self.spec_power())),
    {
        let power = self.get_power();
        if power == 0 {
            None
        } else {
            Some((self.get_activity(), power))
        }
    }

    /// The operands of the thermal efficiency `activity / temperature`: `None` when the
    /// temperature is zero, whose efficiency is zero.
    pub fn thermal_efficiency_ratio(&self) -> (r: Option<(u16, u16)>)
        ensures
            self.spec_temperature() == 0 ==> r is None,
            self.spec_temperature() != 0 ==> r == Some(
                (self.spec_activity(), self.spec_temperature()),
            ),
    {
        let (temp, _) = self.get_temperature();
        if temp == 0 {
            None
        } else {
            Some((self.get_activity(), temp))
        }
    }
}

} // verus!
