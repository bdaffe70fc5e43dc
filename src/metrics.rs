//! The `gpu_metrics` blob: header, throttle flags, per-revision layouts and the
//! version-agnostic accessors over them.
use vstd::prelude::*;
use crate::bytes::{le_u16, le_u64, read_u16_le, read_u64_le};
use crate::error::{fails_with, SensorError};
use crate::text::{decimal, push_char, push_decimal};
use crate::words::views;

verus! {

/// Largest `structure_size` a header may announce.
pub const MAX_STRUCTURE_SIZE: u16 = 1024;

/// Number of bytes of the header.
pub const HEADER_LEN: usize = 4;

/// Header of the metrics blob: its size and its layout version.
#[derive(Debug, Clone, Copy, PartialEq, Eq, Structural)]
pub struct Header {
    pub structure_size: u16,
    pub format_revision: u8,
    pub content_revision: u8,
}

/// The text `"vF.C"` of a layout version.
pub open spec fn version_text(format_revision: u8, content_revision: u8) -> Seq<char> {
    seq!['v'] + decimal(format_revision as nat) + seq!['.'] + decimal(content_revision as nat)
}

/// The `(format_revision, content_revision)` pairs that have a layout parser.
pub open spec fn supported_version(format_revision: u8, content_revision: u8) -> bool {
    (format_revision == 1 && content_revision <= 3) || (format_revision == 2 && content_revision
        <= 1)
}

/// The structure size that the vendor documents for a layout version.
pub open spec fn documented_size(format_revision: u8, content_revision: u8) -> Option<usize> {
    if format_revision == 1 && content_revision == 0 {
        Some(96)
    } else if format_revision == 1 && content_revision == 1 {
        Some(100)
    } else if format_revision == 1 && content_revision == 2 {
        Some(104)
    } else if format_revision == 1 && content_revision == 3 {
        Some(108)
    } else if format_revision == 2 && content_revision == 0 {
        Some(120)
    } else if format_revision == 2 && content_revision == 1 {
        Some(124)
    } else {
        None
    }
}

/// A structure size that the header decoder accepts.
pub open spec fn valid_structure_size(size: u16) -> bool {
    0 < size <= MAX_STRUCTURE_SIZE
}

/// The header read from the first four bytes, before any check.
pub open spec fn header_of(d: Seq<u8>) -> Header
    recommends
        d.len() >= 4,
{
    Header {
        structure_size: le_u16(d, 0) as u16,
        format_revision: d[2],
        content_revision: d[3],
    }
}

/// The four bytes that encode a header.
pub open spec fn header_bytes(h: Header) -> Seq<u8> {
    seq![(h.structure_size % 256) as u8, (h.structure_size / 256) as u8, h.format_revision,
        h.content_revision]
}

/// What the header decoder returns on `d`: the header, or `None` where it fails.
pub open spec fn decoded_header(d: Seq<u8>) -> Option<Header> {
    if d.len() < 4 || !valid_structure_size(header_of(d).structure_size) {
        None
    } else {
        Some(header_of(d))
    }
}

/// Message of the header decoder when fewer than four bytes are given.
pub open spec fn short_header_message() -> Seq<char> {
    "Insufficient data for header"@
}

/// Message of the header decoder on an out-of-range structure size.
pub open spec fn invalid_size_message(size: u16) -> Seq<char> {
    "Invalid structure size: "@ + decimal(size as nat)
}

/// Message of the dispatcher on a version without a layout.
pub open spec fn unsupported_message(h: Header) -> Seq<char> {
    "Unsupported format version: "@ + version_text(h.format_revision, h.content_revision)
}

impl Header {
    /// The version as `"vF.C"`.
    pub fn version(&self) -> (r: String)
        ensures
            r@ == version_text(self.format_revision, self.content_revision),
    {
        let mut s = String::new();
        push_char(&mut s, 'v');
        push_decimal(&mut s, self.format_revision as u64);
        push_char(&mut s, '.');
        push_decimal(&mut s, self.content_revision as u64);
        proof {
            assert(s@ =~= version_text(self.format_revision, self.content_revision));
        }
        s
    }

    /// Whether a layout parser exists for this version.
    pub fn is_supported(&self) -> (r: bool)
        ensures
            r == supported_version(self.format_revision, self.content_revision),
    {
        (self.format_revision == 1 && self.content_revision <= 3) || (self.format_revision == 2
            && self.content_revision <= 1)
    }

    /// The documented structure size of this version, if it is a known one.
    pub fn expected_size(&self) -> (r: Option<usize>)
        ensures
            r == documented_size(self.format_revision, self.content_revision),
    {
        match (self.format_revision, self.content_revision) {
            (1, 0) => Some(96),
            (1, 1) => Some(100),
            (1, 2) => Some(104),
            (1, 3) => Some(108),
            (2, 0) => Some(120),
            (2, 1) => Some(124),
            _ => None,
        }
    }

    /// Decodes the header from the first four bytes of `data` (little-endian size,
    /// then the two revisions) and checks its structure size.
    pub fn decode(data: &[u8]) -> (r: Result<Header, SensorError>)
        ensures
            data@.len() < 4 ==> fails_with(r, short_header_message()),
            data@.len() >= 4 && !valid_structure_size(header_of(data@).structure_size)
                ==> fails_with(r, invalid_size_message(header_of(data@).structure_size)),
            r is Ok <==> decoded_header(data@) is Some,
            r matches Ok(h) ==> decoded_header(data@) == Some(h),
    {
        if data.len() < HEADER_LEN {
            return Err(SensorError::parse("Insufficient data for header"));
        }
        let h = Header {
            structure_size: read_u16_le(data, 0),
            format_revision: data[2],
            content_revision: data[3],
        };
        if h.structure_size == 0 || h.structure_size > MAX_STRUCTURE_SIZE {
            let mut msg = String::from_str("Invalid structure size: ");
            push_decimal(&mut msg, h.structure_size as u64);
            return Err(SensorError::Parse { message: msg, source: None });
        }
        Ok(h)
    }

    /// The four bytes that encode this header.
    pub fn encode(&self) -> (r: [u8; 4])
        ensures
            r@ == header_bytes(*self),
    {
        let r = [(self.structure_size % 256) as u8, (self.structure_size / 256) as u8,
            self.format_revision, self.content_revision];
        assert(r@ =~= header_bytes(*self));
        r
    }
}

/// Decoding the encoding of a header with a valid structure size gives that header
/// back, and decoding four bytes that pass the decoder then encoding the result gives
/// the same four bytes.
pub proof fn lemma_header_round_trip(h: Header, d: Seq<u8>)
    ensures
        valid_structure_size(h.structure_size) ==> decoded_header(header_bytes(h)) == Some(h),
        d.len() == 4 && decoded_header(d) is Some ==> header_bytes(decoded_header(d)->Some_0)
            == d,
{
    let b = header_bytes(h);
    assert(le_u16(b, 0) == h.structure_size as int);
    if d.len() == 4 && decoded_header(d) is Some {
        let g = header_of(d);
        assert(g.structure_size == d[0] as int + 256 * d[1] as int);
        assert(header_bytes(g) =~= d);
    }
}

/// Names and bits of the throttle flags, in table order.
pub open spec fn flag_name(i: int) -> Seq<char> {
    if i == 0 { "PROCHOT_CPU"@ }
    else if i == 1 { "PROCHOT_GFX"@ }
    else if i == 2 { "PPT0"@ }
    else if i == 3 { "PPT1"@ }
    else if i == 4 { "PPT2"@ }
    else if i == 5 { "PPT3"@ }
    else if i == 6 { "SPL"@ }
    else if i == 7 { "FPPT"@ }
    else if i == 8 { "SPPT"@ }
    else if i == 9 { "SPPT_APU"@ }
    else if i == 10 { "THM_CORE"@ }
    else if i == 11 { "THM_GFX"@ }
    else { "THM_SOC"@ }
}

/// The single-bit mask of flag `i` of the table.
pub open spec fn flag_mask(i: int) -> u64 {
    if i == 0 { 0x1 }
    else if i == 1 { 0x2 }
    else if i == 2 { 0x1_0000 }
    else if i == 3 { 0x2_0000 }
    else if i == 4 { 0x4_0000 }
    else if i == 5 { 0x8_0000 }
    else if i == 6 { 0x10_0000 }
    else if i == 7 { 0x20_0000 }
    else if i == 8 { 0x40_0000 }
    else if i == 9 { 0x80_0000 }
    else if i == 10 { 0x1_0000_0000 }
    else if i == 11 { 0x2_0000_0000 }
    else { 0x4_0000_0000 }
}

/// Number of named throttle flags.
pub const THROTTLE_FLAG_COUNT: usize = 13;

/// Bits of the thermal throttle flags (`THM_CORE`, `THM_GFX`, `THM_SOC`).
pub const THERMAL_FLAGS: u64 = 0x7_0000_0000;

/// Bits of the power throttle flags (`PPT0`..`PPT3`, `SPL`, `FPPT`, `SPPT`, `SPPT_APU`).
pub const POWER_FLAGS: u64 = 0xFF_0000;

/// Bits of all named throttle flags.
pub const NAMED_FLAGS: u64 = 0x7_00FF_0003;

/// Names of the flags among the first `n` of the table that are set in `bits`.
pub open spec fn active_prefix(bits: u64, n: int) -> Seq<Seq<char>>
    decreases n,
{
    if n <= 0 {
        Seq::empty()
    } else if bits & flag_mask(n - 1) != 0 {
        active_prefix(bits, n - 1).push(flag_name(n - 1))
    } else {
        active_prefix(bits, n - 1)
    }
}

/// Names of all set flags that the table knows, in table order.
pub open spec fn active_names(bits: u64) -> Seq<Seq<char>> {
    active_prefix(bits, 13)
}

/// A 64-bit word of throttle flags.
#[derive(Debug, Clone, Copy, PartialEq, Eq, Structural)]
pub struct ThrottleStatus(pub u64);

impl ThrottleStatus {
    /// Whether any bit is set, named or not.
    pub fn is_throttling(&self) -> (r: bool)
        ensures
            r == (self.0 != 0),
    {
        self.0 != 0
    }

    /// The name of flag `i` of the table.
    fn flag_name_at(i: usize) -> (r: &'static str)
        requires
            i < 13,
        ensures
            r@ == flag_name(i as int),
    {
        match i {
            0 => "PROCHOT_CPU",
            1 => "PROCHOT_GFX",
            2 => "PPT0",
            3 => "PPT1",
            4 => "PPT2",
            5 => "PPT3",
            6 => "SPL",
            7 => "FPPT",
            8 => "SPPT",
            9 => "SPPT_APU",
            10 => "THM_CORE",
            11 => "THM_GFX",
            _ => "THM_SOC",
        }
    }

    /// The mask of flag `i` of the table.
    fn flag_mask_at(i: usize) -> (r: u64)
        requires
            i < 13,
        ensures
            r == flag_mask(i as int),
    {
        match i {
            0 => 0x1,
            1 => 0x2,
            2 => 0x1_0000,
            3 => 0x2_0000,
            4 => 0x4_0000,
            5 => 0x8_0000,
            6 => 0x10_0000,
            7 => 0x20_0000,
            8 => 0x40_0000,
            9 => 0x80_0000,
            10 => 0x1_0000_0000,
            11 => 0x2_0000_0000,
            _ => 0x4_0000_0000,
        }
    }

    /// Names of the set flags that the table knows, in table order; unknown bits
    /// are not named.
    pub fn active_flags(&self) -> (r: Vec<String>)
        ensures
            views(r@) == active_names(self.0),
    {
        let mut flags: Vec<String> = Vec::new();
        let mut i: usize = 0;
        while i < THROTTLE_FLAG_COUNT
            invariant
                i <= 13,
                views(flags@) == active_prefix(self.0, i as int),
            decreases 13 - i,
        {
            if self.0 & Self::flag_mask_at(i) != 0 {
                flags.push(String::from_str(Self::flag_name_at(i)));
                assert(views(flags@) =~= active_prefix(self.0, i + 1));
            }
            i = i + 1;
        }
        flags
    }

    /// Number of set flags that the table knows.
    pub fn active_count(&self) -> (r: usize)
        ensures
            r == active_names(self.0).len(),
    {
        let flags = self.active_flags();
        proof {
            assert(views(flags@).len() == flags@.len());
        }
        flags.len()
    }

    /// Whether one of the thermal flags is set.
    pub fn is_thermal_throttling(&self) -> (r: bool)
        ensures
            r == (self.0 & THERMAL_FLAGS != 0),
    {
        self.0 & THERMAL_FLAGS != 0
    }

    /// Whether one of the power flags is set.
    pub fn is_power_throttling(&self) -> (r: bool)
        ensures
            r == (self.0 & POWER_FLAGS != 0),
    {
        self.0 & POWER_FLAGS != 0
    }
}

/// `n` little-endian `u16` values at consecutive two-byte offsets from `off`.
pub open spec fn u16s(d: Seq<u8>, off: int, n: nat) -> Seq<u16> {
    Seq::new(n, |i: int| le_u16(d, off + 2 * i) as u16)
}

/// Reads two consecutive little-endian `u16` values.
fn read_u16x2(data: &[u8], off: usize) -> (r: [u16; 2])
    requires
        off + 4 <= data@.len(),
    ensures
        r@ == u16s(data@, off as int, 2),
{
    let _n = data.len();
    let r = [read_u16_le(data, off), read_u16_le(data, off + 2)];
    assert(r@ =~= u16s(data@, off as int, 2));
    r
}

/// Reads four consecutive little-endian `u16` values.
fn read_u16x4(data: &[u8], off: usize) -> (r: [u16; 4])
    requires
        off + 8 <= data@.len(),
    ensures
        r@ == u16s(data@, off as int, 4),
{
    let _n = data.len();
    let r = [read_u16_le(data, off), read_u16_le(data, off + 2), read_u16_le(data, off + 4),
        read_u16_le(data, off + 6)];
    assert(r@ =~= u16s(data@, off as int, 4));
    r
}

/// Reads eight consecutive little-endian `u16` values, one per domain.
fn read_u16x8(data: &[u8], off: usize) -> (r: [u16; 8])
    requires
        off + 16 <= data@.len(),
    ensures
        r@ == u16s(data@, off as int, 8),
{
    let _n = data.len();
    let r = [read_u16_le(data, off), read_u16_le(data, off + 2), read_u16_le(data, off + 4),
        read_u16_le(data, off + 6), read_u16_le(data, off + 8), read_u16_le(data, off + 10),
        read_u16_le(data, off + 12), read_u16_le(data, off + 14)];
    assert(r@ =~= u16s(data@, off as int, 8));
    r
}

/// Base length of a v1 body (the blob without its header).
pub const V1_BASE_LEN: usize = 92;

/// Base length of a v2 body.
pub const V2_BASE_LEN: usize = 116;

/// Metrics of the v1 family (content revisions 0 to 3).
#[derive(Debug, Clone, Copy)]
pub struct GpuMetricsV1 {
    pub header: Header,
    pub system_clock_counter: u64,
    pub temperature_edge: u16,
    pub temperature_hotspot: u16,
    pub temperature_mem: u16,
    pub temperature_vrgfx: u16,
    pub temperature_vrsoc: u16,
    pub temperature_vrmem: u16,
    pub average_gfx_activity: u16,
    pub average_umc_activity: u16,
    pub average_mm_activity: u16,
    pub average_socket_power: u16,
    pub energy_accumulator: u64,
    pub average_gfxclk_frequency: u16,
    pub average_socclk_frequency: u16,
    pub average_uclk_frequency: u16,
    pub average_vclk0_frequency: u16,
    pub average_dclk0_frequency: u16,
    pub average_vclk1_frequency: u16,
    pub average_dclk1_frequency: u16,
    pub current_gfxclk: u16,
    pub current_socclk: u16,
    pub current_uclk: u16,
    pub current_vclk0: u16,
    pub current_dclk0: u16,
    pub current_vclk1: u16,
    pub current_dclk1: u16,
    pub throttle_status: u64,
    pub current_fan_speed: u16,
    pub pcie_link_width: u16,
    pub pcie_link_speed: u16,
    /// From content revision 1.
    pub gfx_voltage: Option<u16>,
    /// From content revision 1.
    pub soc_voltage: Option<u16>,
    /// From content revision 2.
    pub mem_voltage: Option<u16>,
    /// From content revision 2.
    pub indep_throttle_status: Option<u64>,
    /// From content revision 3.
    pub current_socket_power: Option<u16>,
    /// From content revision 3, one value per VCN engine.
    pub vcn_activity: Option<[u16; 4]>,
}

/// `o` holds the `u16` at `off` of `d` when `present`, and nothing otherwise.
pub open spec fn opt_u16(o: Option<u16>, present: bool, d: Seq<u8>, off: int) -> bool {
    if present { o == Some(le_u16(d, off) as u16) } else { o is None }
}

/// Whether the v1 body `d` (the blob after its header) decodes to `m` under header `h`:
/// base fields at their fixed offsets, and each optional group present exactly when
/// the content revision has it and the body is long enough for it.
pub open spec fn v1_decoded(m: GpuMetricsV1, h: Header, d: Seq<u8>) -> bool {
    let rev = h.content_revision;
    &&& m.header == h
    &&& m.system_clock_counter as int == le_u64(d, 0)
    &&& m.temperature_edge as int == le_u16(d, 8)
    &&& m.temperature_hotspot as int == le_u16(d, 10)
    &&& m.temperature_mem as int == le_u16(d, 12)
    &&& m.temperature_vrgfx as int == le_u16(d, 14)
    &&& m.temperature_vrsoc as int == le_u16(d, 16)
    &&& m.temperature_vrmem as int == le_u16(d, 18)
    &&& m.average_gfx_activity as int == le_u16(d, 20)
    &&& m.average_umc_activity as int == le_u16(d, 22)
    &&& m.average_mm_activity as int == le_u16(d, 24)
    &&& m.average_socket_power as int == le_u16(d, 26)
    &&& m.energy_accumulator as int == le_u64(d, 28)
    &&& m.average_gfxclk_frequency as int == le_u16(d, 36)
    &&& m.average_socclk_frequency as int == le_u16(d, 38)
    &&& m.average_uclk_frequency as int == le_u16(d, 40)
    &&& m.average_vclk0_frequency as int == le_u16(d, 42)
    &&& m.average_dclk0_frequency as int == le_u16(d, 44)
    &&& m.average_vclk1_frequency as int == le_u16(d, 46)
    &&& m.average_dclk1_frequency as int == le_u16(d, 48)
    &&& m.current_gfxclk as int == le_u16(d, 50)
    &&& m.current_socclk as int == le_u16(d, 52)
    &&& m.current_uclk as int == le_u16(d, 54)
    &&& m.current_vclk0 as int == le_u16(d, 56)
    &&& m.current_dclk0 as int == le_u16(d, 58)
    &&& m.current_vclk1 as int == le_u16(d, 60)
    &&& m.current_dclk1 as int == le_u16(d, 62)
    &&& m.throttle_status as int == le_u64(d, 64)
    &&& m.current_fan_speed as int == le_u16(d, 72)
    &&& m.pcie_link_width as int == le_u16(d, 74)
    &&& m.pcie_link_speed as int == le_u16(d, 76)
    &&& opt_u16(m.gfx_voltage, rev >= 1 && d.len() >= 82, d, 78)
    &&& opt_u16(m.soc_voltage, rev >= 1 && d.len() >= 82, d, 80)
    &&& opt_u16(m.mem_voltage, rev >= 2 && d.len() >= 90, d, 82)
    &&& if rev >= 2 && d.len() >= 90 {
        m.indep_throttle_status == Some(le_u64(d, 84) as u64)
    } else {
        m.indep_throttle_status is None
    }
    &&& opt_u16(m.current_socket_power, rev >= 3 && d.len() >= 102, d, 92)
    &&& if rev >= 3 && d.len() >= 102 {
        m.vcn_activity matches Some(a) && a@ == u16s(d, 94, 4)
    } else {
        m.vcn_activity is None
    }
}

/// Message of the v1 parser on a short body.
pub open spec fn v1_short_message() -> Seq<char> {
    "Insufficient data for v1.x metrics"@
}

/// Message of the v2 parser on a short body.
pub open spec fn v2_short_message() -> Seq<char> {
    "Insufficient data for v2.x metrics"@
}

/// Decodes a v1 body (the blob after its header).
pub fn parse_v1_metrics(header: Header, data: &[u8]) -> (r: Result<GpuMetricsV1, SensorError>)
    ensures
        data@.len() < V1_BASE_LEN ==> fails_with(r, v1_short_message()),
        data@.len() >= V1_BASE_LEN ==> (r matches Ok(m) && v1_decoded(m, header, data@)),
{
    if data.len() < V1_BASE_LEN {
        return Err(SensorError::parse("Insufficient data for v1.x metrics"));
    }
    let mut m = GpuMetricsV1 {
        header,
        system_clock_counter: read_u64_le(data, 0),
        temperature_edge: read_u16_le(data, 8),
        temperature_hotspot: read_u16_le(data, 10),
        temperature_mem: read_u16_le(data, 12),
        temperature_vrgfx: read_u16_le(data, 14),
        temperature_vrsoc: read_u16_le(data, 16),
        temperature_vrmem: read_u16_le(data, 18),
        average_gfx_activity: read_u16_le(data, 20),
        average_umc_activity: read_u16_le(data, 22),
        average_mm_activity: read_u16_le(data, 24),
        average_socket_power: read_u16_le(data, 26),
        energy_accumulator: read_u64_le(data, 28),
        average_gfxclk_frequency: read_u16_le(data, 36),
        average_socclk_frequency: read_u16_le(data, 38),
        average_uclk_frequency: read_u16_le(data, 40),
        average_vclk0_frequency: read_u16_le(data, 42),
        average_dclk0_frequency: read_u16_le(data, 44),
        average_vclk1_frequency: read_u16_le(data, 46),
        average_dclk1_frequency: read_u16_le(data, 48),
        current_gfxclk: read_u16_le(data, 50),
        current_socclk: read_u16_le(data, 52),
        current_uclk: read_u16_le(data, 54),
        current_vclk0: read_u16_le(data, 56),
        current_dclk0: read_u16_le(data, 58),
        current_vclk1: read_u16_le(data, 60),
        current_dclk1: read_u16_le(data, 62),
        throttle_status: read_u64_le(data, 64),
        current_fan_speed: read_u16_le(data, 72),
        pcie_link_width: read_u16_le(data, 74),
        pcie_link_speed: read_u16_le(data, 76),
        gfx_voltage: None,
        soc_voltage: None,
        mem_voltage: None,
        indep_throttle_status: None,
        current_socket_power: None,
        vcn_activity: None,
    };
    if header.content_revision >= 1 && data.len() >= 82 {
        m.gfx_voltage = Some(read_u16_le(data, 78));
        m.soc_voltage = Some(read_u16_le(data, 80));
    }
    if header.content_revision >= 2 && data.len() >= 90 {
        m.mem_voltage = Some(read_u16_le(data, 82));
        m.indep_throttle_status = Some(read_u64_le(data, 84));
    }
    if header.content_revision >= 3 && data.len() >= 102 {
        m.current_socket_power = Some(read_u16_le(data, 92));
        m.vcn_activity = Some(read_u16x4(data, 94));
    }
    Ok(m)
}

/// Metrics of the v2 family (content revisions 0 and 1).
#[derive(Debug, Clone, Copy)]
pub struct GpuMetricsV2 {
    pub header: Header,
    pub system_clock_counter: u64,
    pub temperature_gfx: u16,
    pub temperature_soc: u16,
    /// One value per CPU core.
    pub temperature_core: [u16; 8],
    /// One value per L3 cache.
    pub temperature_l3: [u16; 2],
    pub average_gfx_activity: u16,
    pub average_mm_activity: u16,
    pub average_socket_power: u16,
    pub average_cpu_power: u16,
    pub average_soc_power: u16,
    pub average_gfx_power: u16,
    /// One value per CPU core.
    pub average_core_power: [u16; 8],
    pub average_gfxclk_frequency: u16,
    pub average_socclk_frequency: u16,
    pub average_uclk_frequency: u16,
    pub average_fclk_frequency: u16,
    pub average_vclk_frequency: u16,
    pub average_dclk_frequency: u16,
    pub current_gfxclk: u16,
    pub current_socclk: u16,
    pub current_uclk: u16,
    pub current_fclk: u16,
    pub current_vclk: u16,
    pub current_dclk: u16,
    /// One value per CPU core.
    pub current_coreclk: [u16; 8],
    /// One value per L3 cache.
    pub current_l3clk: [u16; 2],
    pub throttle_status: u64,
    pub fan_pwm: u16,
    /// From content revision 1.
    pub voltage_soc: Option<u16>,
    /// From content revision 1.
    pub voltage_gfx: Option<u16>,
    /// From content revision 1.
    pub voltage_mem: Option<u16>,
}

/// Whether the v2 body `d` decodes to `m` under header `h`.
pub open spec fn v2_decoded(m: GpuMetricsV2, h: Header, d: Seq<u8>) -> bool {
    let extra = h.content_revision >= 1 && d.len() >= 122;
    &&& m.header == h
    &&& m.system_clock_counter as int == le_u64(d, 0)
    &&& m.temperature_gfx as int == le_u16(d, 8)
    &&& m.temperature_soc as int == le_u16(d, 10)
    &&& m.temperature_core@ == u16s(d, 16, 8)
    &&& m.temperature_l3@ == u16s(d, 32, 2)
    &&& m.average_gfx_activity as int == le_u16(d, 36)
    &&& m.average_mm_activity as int == le_u16(d, 38)
    &&& m.average_socket_power as int == le_u16(d, 40)
    &&& m.average_cpu_power as int == le_u16(d, 42)
    &&& m.average_soc_power as int == le_u16(d, 44)
    &&& m.average_gfx_power as int == le_u16(d, 46)
    &&& m.average_core_power@ == u16s(d, 54, 8)
    &&& m.average_gfxclk_frequency as int == le_u16(d, 70)
    &&& m.average_socclk_frequency as int == le_u16(d, 72)
    &&& m.average_uclk_frequency as int == le_u16(d, 74)
    &&& m.average_fclk_frequency as int == le_u16(d, 76)
    &&& m.average_vclk_frequency as int == le_u16(d, 78)
    &&& m.average_dclk_frequency as int == le_u16(d, 80)
    &&& m.current_gfxclk as int == le_u16(d, 82)
    &&& m.current_socclk as int == le_u16(d, 84)
    &&& m.current_uclk as int == le_u16(d, 86)
    &&& m.current_fclk as int == le_u16(d, 88)
    &&& m.current_vclk as int == le_u16(d, 90)
    &&& m.current_dclk as int == le_u16(d, 92)
    &&& m.current_coreclk@ == u16s(d, 84, 8)
    &&& m.current_l3clk@ == u16s(d, 100, 2)
    &&& m.throttle_status as int == le_u64(d, 104)
    &&& m.fan_pwm as int == le_u16(d, 112)
    &&& opt_u16(m.voltage_soc, extra, d, 114)
    &&& opt_u16(m.voltage_gfx, extra, d, 116)
    &&& opt_u16(m.voltage_mem, extra, d, 118)
}

/// Decodes a v2 body (the blob after its header).
pub fn parse_v2_metrics(header: Header, data: &[u8]) -> (r: Result<GpuMetricsV2, SensorError>)
    ensures
        data@.len() < V2_BASE_LEN ==> fails_with(r, v2_short_message()),
        data@.len() >= V2_BASE_LEN ==> (r matches Ok(m) && v2_decoded(m, header, data@)),
{
    if data.len() < V2_BASE_LEN {
        return Err(SensorError::parse("Insufficient data for v2.x metrics"));
    }
    let temperature_core = read_u16x8(data, 16);
    let temperature_l3 = read_u16x2(data, 32);
    let average_core_power = read_u16x8(data, 54);
    let current_coreclk = read_u16x8(data, 84);
    let current_l3clk = read_u16x2(data, 100);
    let mut m = GpuMetricsV2 {
        header,
        system_clock_counter: read_u64_le(data, 0),
        temperature_gfx: read_u16_le(data, 8),
        temperature_soc: read_u16_le(data, 10),
        temperature_core,
        temperature_l3,
        average_gfx_activity: read_u16_le(data, 36),
        average_mm_activity: read_u16_le(data, 38),
        average_socket_power: read_u16_le(data, 40),
        average_cpu_power: read_u16_le(data, 42),
        average_soc_power: read_u16_le(data, 44),
        average_gfx_power: read_u16_le(data, 46),
        average_core_power,
        average_gfxclk_frequency: read_u16_le(data, 70),
        average_socclk_frequency: read_u16_le(data, 72),
        average_uclk_frequency: read_u16_le(data, 74),
        average_fclk_frequency: read_u16_le(data, 76),
        average_vclk_frequency: read_u16_le(data, 78),
        average_dclk_frequency: read_u16_le(data, 80),
        current_gfxclk: read_u16_le(data, 82),
        current_socclk: read_u16_le(data, 84),
        current_uclk: read_u16_le(data, 86),
        current_fclk: read_u16_le(data, 88),
        current_vclk: read_u16_le(data, 90),
        current_dclk: read_u16_le(data, 92),
        current_coreclk,
        current_l3clk,
        throttle_status: read_u64_le(data, 104),
        fan_pwm: read_u16_le(data, 112),
        voltage_soc: None,
        voltage_gfx: None,
        voltage_mem: None,
    };
    if header.content_revision >= 1 && data.len() >= 122 {
        m.voltage_soc = Some(read_u16_le(data, 114));
        m.voltage_gfx = Some(read_u16_le(data, 116));
        m.voltage_mem = Some(read_u16_le(data, 118));
    }
    Ok(m)
}

/// The metrics of one reading, whichever layout produced them.
#[derive(Debug, Clone, Copy)]
pub enum GpuMetrics {
    V1(GpuMetricsV1),
    V2(GpuMetricsV2),
}

/// Whether `r` is what the version dispatcher owes for header `h` and body `body`: the
/// unsupported-version error, or the outcome of the family's parser.
pub open spec fn dispatched(r: Result<GpuMetrics, SensorError>, h: Header, body: Seq<u8>) -> bool {
    if !supported_version(h.format_revision, h.content_revision) {
        fails_with(r, unsupported_message(h))
    } else if h.format_revision == 1 {
        if body.len() < V1_BASE_LEN {
            fails_with(r, v1_short_message())
        } else {
            r matches Ok(GpuMetrics::V1(m)) && v1_decoded(m, h, body)
        }
    } else {
        if body.len() < V2_BASE_LEN {
            fails_with(r, v2_short_message())
        } else {
            r matches Ok(GpuMetrics::V2(m)) && v2_decoded(m, h, body)
        }
    }
}

/// Selects the layout parser strictly by `(format_revision, content_revision)`; a
/// version outside the table fails without reaching any parser.
pub fn dispatch(header: Header, body: &[u8]) -> (r: Result<GpuMetrics, SensorError>)
    ensures
        dispatched(r, header, body@),
        !supported_version(header.format_revision, header.content_revision) ==> fails_with(
            r,
            unsupported_message(header),
        ),
{
    if !header.is_supported() {
        let mut msg = String::from_str("Unsupported format version: ");
        let v = header.version();
        msg.append(v.as_str());
        return Err(SensorError::Parse { message: msg, source: None });
    }
    if header.format_revision == 1 {
        match parse_v1_metrics(header, body) {
            Ok(m) => Ok(GpuMetrics::V1(m)),
            Err(e) => Err(e),
        }
    } else {
        match parse_v2_metrics(header, body) {
            Ok(m) => Ok(GpuMetrics::V2(m)),
            Err(e) => Err(e),
        }
    }
}

/// Message when the blob is shorter than its header announces.
pub open spec fn truncated_message(size: u16) -> Seq<char> {
    "Insufficient data for structure size "@ + decimal(size as nat)
}

/// Where the body of a structure of `size` bytes ends.
pub open spec fn body_end(size: u16) -> int {
    if size < 4 { 4 } else { size as int }
}

/// Whether `r` is what decoding the whole blob `d` owes: the header checks first (its
/// length, its structure size, its version), which depend on the four header bytes
/// alone; then the length that the structure size announces; then the layout parser.
pub open spec fn blob_decoded(r: Result<GpuMetrics, SensorError>, d: Seq<u8>) -> bool {
    let h = header_of(d);
    if d.len() < 4 {
        fails_with(r, short_header_message())
    } else if !valid_structure_size(h.structure_size) {
        fails_with(r, invalid_size_message(h.structure_size))
    } else if !supported_version(h.format_revision, h.content_revision) {
        fails_with(r, unsupported_message(h))
    } else if d.len() < h.structure_size {
        fails_with(r, truncated_message(h.structure_size))
    } else {
        dispatched(r, h, d.subrange(4, body_end(h.structure_size)))
    }
}

/// Decodes a whole metrics blob: the header, then the body that its structure size
/// delimits, by the layout that its version selects.
pub fn parse_metrics_from_bytes(data: &[u8]) -> (r: Result<GpuMetrics, SensorError>)
    ensures
        blob_decoded(r, data@),
{
    let header = match Header::decode(data) {
        Ok(h) => h,
        Err(e) => return Err(e),
    };
    if !header.is_supported() {
        let mut msg = String::from_str("Unsupported format version: ");
        let v = header.version();
        msg.append(v.as_str());
        return Err(SensorError::Parse { message: msg, source: None });
    }
    let size = header.structure_size as usize;
    if data.len() < size {
        let mut msg = String::from_str("Insufficient data for structure size ");
        push_decimal(&mut msg, header.structure_size as u64);
        return Err(SensorError::Parse { message: msg, source: None });
    }
    let end = if size < HEADER_LEN { HEADER_LEN } else { size };
    dispatch(header, &data[HEADER_LEN..end])
}

/// `r` is a parse error, whatever its message.
pub open spec fn is_parse_failure(r: Result<GpuMetrics, SensorError>) -> bool {
    r matches Err(SensorError::Parse { .. })
}

/// A successful decode carries the blob's header, and encoding that header again gives
/// the blob's first four bytes.
pub proof fn lemma_decoded_header_round_trip(m: GpuMetrics, d: Seq<u8>)
    requires
        blob_decoded(Ok(m), d),
    ensures
        m.spec_header() == header_of(d),
        header_bytes(m.spec_header()) == d.subrange(0, 4),
{
    let h = header_of(d);
    assert(h.structure_size == d[0] as int + 256 * d[1] as int);
    assert(header_bytes(h) =~= d.subrange(0, 4));
}

/// A blob of four or more bytes whose header announces a structure size of zero or
/// above 1024 fails with a parse error naming that size, whatever its version bytes and
/// trailing bytes. A valid size with a supported version still fails with a parse error
/// when the blob is shorter than that size, or the body shorter than the base layout.
pub proof fn lemma_bad_size_fails(r: Result<GpuMetrics, SensorError>, d: Seq<u8>)
    requires
        blob_decoded(r, d),
        d.len() >= 4,
    ensures
        !valid_structure_size(header_of(d).structure_size) ==> fails_with(
            r,
            invalid_size_message(header_of(d).structure_size),
        ),
        valid_structure_size(header_of(d).structure_size) && d.len() < header_of(d).structure_size
            ==> is_parse_failure(r),
        ({
            let h = header_of(d);
            let body_len = body_end(h.structure_size) - 4;
            valid_structure_size(h.structure_size) && supported_version(
                h.format_revision,
                h.content_revision,
            ) && ((h.format_revision == 1 && body_len < V1_BASE_LEN) || (h.format_revision == 2
                && body_len < V2_BASE_LEN)) ==> is_parse_failure(r)
        }),
{
}

/// A blob of four or more bytes with a valid structure size and a version outside the
/// table fails with the unsupported-version error, whatever its trailing bytes: no
/// layout parser is reached.
pub proof fn lemma_unsupported_fails(r: Result<GpuMetrics, SensorError>, d: Seq<u8>)
    requires
        blob_decoded(r, d),
        d.len() >= 4,
        valid_structure_size(header_of(d).structure_size),
        !supported_version(header_of(d).format_revision, header_of(d).content_revision),
    ensures
        fails_with(r, unsupported_message(header_of(d))),
{
}

/// `msg` begins with "Insufficient data".
pub open spec fn reports_insufficient_data(msg: Seq<char>) -> bool {
    msg.len() >= 17 && msg.subrange(0, 17) == "Insufficient data"@
}

/// A blob of the header alone, with a valid structure size and a supported version,
/// fails with a parse error that reports insufficient data. (Headers that fail the size
/// or version check get those errors instead.)
pub proof fn lemma_header_only_fails(r: Result<GpuMetrics, SensorError>, d: Seq<u8>)
    requires
        blob_decoded(r, d),
        d.len() == 4,
        valid_structure_size(header_of(d).structure_size),
        supported_version(header_of(d).format_revision, header_of(d).content_revision),
    ensures
        r matches Err(SensorError::Parse { message, .. }) && reports_insufficient_data(message@),
{
    reveal_strlit("Insufficient data");
    reveal_strlit("Insufficient data for structure size ");
    reveal_strlit("Insufficient data for v1.x metrics");
    reveal_strlit("Insufficient data for v2.x metrics");
    let h = header_of(d);
    if d.len() < h.structure_size {
        assert(truncated_message(h.structure_size).subrange(0, 17) =~= "Insufficient data"@);
    } else {
        assert(d.subrange(4, body_end(h.structure_size)).len() == 0);
        assert(v1_short_message().subrange(0, 17) =~= "Insufficient data"@);
        assert(v2_short_message().subrange(0, 17) =~= "Insufficient data"@);
    }
}

/// A v1 reading of content revision 0 has none of the optional fields; one of revision
/// 3 decoded from a body long enough for them has all of them.
pub proof fn lemma_v1_optional_fields(m: GpuMetricsV1, h: Header, d: Seq<u8>)
    requires
        v1_decoded(m, h, d),
    ensures
        h.content_revision == 0 ==> {
            &&& m.gfx_voltage is None
            &&& m.soc_voltage is None
            &&& m.mem_voltage is None
            &&& m.indep_throttle_status is None
            &&& m.current_socket_power is None
            &&& m.vcn_activity is None
        },
        h.content_revision == 3 && d.len() >= 102 ==> {
            &&& m.gfx_voltage is Some
            &&& m.soc_voltage is Some
            &&& m.mem_voltage is Some
            &&& m.indep_throttle_status is Some
            &&& m.current_socket_power is Some
            &&& m.vcn_activity is Some
        },
{
}

/// Bits outside the table make a word throttling without naming any flag: a word with
/// only such bits set is throttling and has no active flag names.
pub proof fn lemma_unknown_bits_unnamed(bits: u64)
    requires
        bits & NAMED_FLAGS == 0,
    ensures
        active_names(bits) == Seq::<Seq<char>>::empty(),
{
    assert(bits & 0x1 == 0) by (bit_vector)
        requires bits & 0x7_00FF_0003 == 0;
    assert(bits & 0x2 == 0) by (bit_vector)
        requires bits & 0x7_00FF_0003 == 0;
    assert(bits & 0x1_0000 == 0) by (bit_vector)
        requires bits & 0x7_00FF_0003 == 0;
    assert(bits & 0x2_0000 == 0) by (bit_vector)
        requires bits & 0x7_00FF_0003 == 0;
    assert(bits & 0x4_0000 == 0) by (bit_vector)
        requires bits & 0x7_00FF_0003 == 0;
    assert(bits & 0x8_0000 == 0) by (bit_vector)
        requires bits & 0x7_00FF_0003 == 0;
    assert(bits & 0x10_0000 == 0) by (bit_vector)
        requires bits & 0x7_00FF_0003 == 0;
    assert(bits & 0x20_0000 == 0) by (bit_vector)
        requires bits & 0x7_00FF_0003 == 0;
    assert(bits & 0x40_0000 == 0) by (bit_vector)
        requires bits & 0x7_00FF_0003 == 0;
    assert(bits & 0x80_0000 == 0) by (bit_vector)
        requires bits & 0x7_00FF_0003 == 0;
    assert(bits & 0x1_0000_0000 == 0) by (bit_vector)
        requires bits & 0x7_00FF_0003 == 0;
    assert(bits & 0x2_0000_0000 == 0) by (bit_vector)
        requires bits & 0x7_00FF_0003 == 0;
    assert(bits & 0x4_0000_0000 == 0) by (bit_vector)
        requires bits & 0x7_00FF_0003 == 0;
    reveal_with_fuel(active_prefix, 14);
}

} // verus!
