//! GPU usage explanation: detection across vendors, utilization, memory, temperature.

use crate::framework::float_bits::{
    FloatBits, Reading, BITS_5, BITS_75, BITS_80, BITS_85, BITS_90, BITS_95,
};
use crate::framework::report::{
    assembled, extends, has_category, has_severity_from, lemma_extends_none,
    lemma_extends_twice, opt_text, DiagnosticReport, Finding, FindingView, Metric, MetricValue,
    MetricValueView, MetricView, Recommendation, RecommendationView, ReportView, Threshold,
    Timestamp,
};
use crate::framework::severity::Severity;
use crate::framework::traits::{
    DiagnosticModule, ExecutionError, ExecutionErrorView, ModuleConfig, ModuleConfigView,
};
use crate::utils::format::{decimal_text, i64_to_string, signed_text, u64_to_string};
use crate::utils::math::{as_signed, to_signed};
use crate::utils::files::{first_line, first_line_text};
use crate::utils::parse::{i64_of, plain_i64, plain_u64, u64_of};
use crate::utils::split::{fields_of, lines, lines_of, split, texts};
use crate::utils::text::{
    cat2, cat3, cat4, cat5, chars_of, contains_text, lowercase_of, starts_with, str_contains, str_eq,
    str_starts_with, to_lowercase, trim, trimmed,
};
use vstd::prelude::*;

verus! {

/// GPU vendor identification.
#[derive(Debug, Clone)]
pub enum GpuVendor {
    Nvidia,
    Amd,
    Intel,
    /// A vendor that is none of the three, with the vendor id as it was read.
    Unknown(String),
}

/// Mathematical content of a [`GpuVendor`].
pub ghost enum GpuVendorView {
    Nvidia,
    Amd,
    Intel,
    Unknown(Seq<char>),
}

impl View for GpuVendor {
    type V = GpuVendorView;

    open spec fn view(&self) -> GpuVendorView {
        match *self {
            GpuVendor::Nvidia => GpuVendorView::Nvidia,
            GpuVendor::Amd => GpuVendorView::Amd,
            GpuVendor::Intel => GpuVendorView::Intel,
            GpuVendor::Unknown(id) => GpuVendorView::Unknown(id@),
        }
    }
}

/// The vendor that a lower-cased PCI vendor id stands for: NVIDIA for `10de`,
/// AMD for `1002`, Intel for `8086`, looked for in this order.
pub open spec fn vendor_of(id_lower: Seq<char>, id: Seq<char>) -> GpuVendorView {
    if contains_text(id_lower, "10de"@) {
        GpuVendorView::Nvidia
    } else if contains_text(id_lower, "1002"@) {
        GpuVendorView::Amd
    } else if contains_text(id_lower, "8086"@) {
        GpuVendorView::Intel
    } else {
        GpuVendorView::Unknown(id)
    }
}

impl GpuVendorView {
    /// The display name of the vendor.
    pub open spec fn name(self) -> Seq<char> {
        match self {
            GpuVendorView::Nvidia => "NVIDIA"@,
            GpuVendorView::Amd => "AMD"@,
            GpuVendorView::Intel => "Intel"@,
            GpuVendorView::Unknown(_) => "Unknown"@,
        }
    }
}

impl GpuVendor {
    /// The vendor that a lower-cased vendor id stands for.
    pub fn classify(id_lower: &str, id: &str) -> (r: GpuVendor)
        ensures
            r@ == vendor_of(id_lower@, id@),
    {
        if str_contains(id_lower, "10de") {
            GpuVendor::Nvidia
        } else if str_contains(id_lower, "1002") {
            GpuVendor::Amd
        } else if str_contains(id_lower, "8086") {
            GpuVendor::Intel
        } else {
            GpuVendor::Unknown(id.to_owned())
        }
    }

    /// Detect vendor from PCI vendor ID.
    pub fn from_vendor_id(vendor_id: &str) -> (r: GpuVendor)
        ensures
            r@ == vendor_of(lowercase_of(trimmed(vendor_id@)), vendor_id@),
    {
        let id = to_lowercase(trim(vendor_id).as_str());
        GpuVendor::classify(id.as_str(), vendor_id)
    }

    /// The display name of the vendor.
    pub fn name(&self) -> (r: &'static str)
        ensures
            r@ == self@.name(),
    {
        match self {
            GpuVendor::Nvidia => "NVIDIA",
            GpuVendor::Amd => "AMD",
            GpuVendor::Intel => "Intel",
            GpuVendor::Unknown(_) => "Unknown",
        }
    }
}

/// GPU statistics collected from various sources.
#[derive(Debug, Clone)]
pub struct GpuStats {
    pub name: Option<String>,
    /// Utilization in percent, rendered with one decimal.
    pub utilization: Option<Reading>,
    /// Memory in use, in MiB.
    pub memory_used: Option<u64>,
    /// Memory in all, in MiB.
    pub memory_total: Option<u64>,
    /// Memory in use as a percentage of all memory, rendered with one decimal.
    pub memory_percent: Option<Reading>,
    /// Temperature in degrees Celsius.
    pub temperature: Option<i64>,
    /// Power draw in watts.
    pub power_usage: Option<Reading>,
    /// Fan speed.
    pub fan_speed: Option<i64>,
    /// Clock speed in MHz.
    pub clock_speed: Option<u64>,
}

/// One entry of `/sys/class/drm` as it was read.
#[derive(Debug, Clone)]
pub struct DrmEntry {
    /// The entry's file name.
    pub name: String,
    /// The entry has a `device` directory.
    pub has_device: bool,
    /// Content of `device/vendor`, `None` where it is missing or unreadable.
    pub vendor: Option<String>,
    /// File name of the resolved `device` path, `None` where it does not resolve.
    pub pci_id: Option<String>,
}

/// A GPU that was found among the entries of `/sys/class/drm`.
#[derive(Debug, Clone)]
pub struct FoundGpu {
    pub card_name: String,
    pub vendor: GpuVendor,
    pub pci_id: String,
}

/// Whether `s` holds no `c`.
pub open spec fn lacks(s: Seq<char>, c: char) -> bool {
    forall|i: int| 0 <= i < s.len() ==> s[i] != c
}

/// Whether a DRM entry is a card: its name begins with `card` and holds no
/// `-`, as the names of connectors and render nodes do, and it has a device.
pub open spec fn is_card(e: DrmEntry) -> bool {
    starts_with(e.name@, "card"@) && lacks(e.name@, '-') && e.has_device
}

/// The vendor id of an entry: the first line of its vendor file, or `unknown`.
pub open spec fn vendor_id_of(e: DrmEntry) -> Seq<char> {
    match first_line_text(e.vendor) {
        Some(line) => line,
        None => "unknown"@,
    }
}

/// What is known of the GPU behind a card entry.
pub ghost struct FoundGpuView {
    pub card_name: Seq<char>,
    pub vendor: GpuVendorView,
    pub pci_id: Seq<char>,
}

impl View for FoundGpu {
    type V = FoundGpuView;

    open spec fn view(&self) -> FoundGpuView {
        FoundGpuView { card_name: self.card_name@, vendor: self.vendor@, pci_id: self.pci_id@ }
    }
}

/// The GPU behind a card entry.
pub open spec fn found_in(e: DrmEntry) -> FoundGpuView {
    FoundGpuView {
        card_name: e.name@,
        vendor: vendor_of(lowercase_of(trimmed(vendor_id_of(e))), vendor_id_of(e)),
        pci_id: match e.pci_id {
            Some(id) => id@,
            None => "unknown"@,
        },
    }
}

/// The GPUs among the first `n` entries, in order.
pub open spec fn gpus_upto(entries: Seq<DrmEntry>, n: int) -> Seq<FoundGpuView>
    decreases n,
{
    if n <= 0 {
        Seq::empty()
    } else if is_card(entries[n - 1]) {
        gpus_upto(entries, n - 1).push(found_in(entries[n - 1]))
    } else {
        gpus_upto(entries, n - 1)
    }
}

/// Whether `s` holds no `c`.
pub fn str_lacks(s: &str, c: char) -> (r: bool)
    ensures
        r == lacks(s@, c),
{
    let chars = chars_of(s);
    let at = crate::utils::text::seek_from(chars.as_slice(), c, 0);
    proof {
        crate::utils::text::lemma_scan_bounds(chars@, c, 0);
    }
    at == chars.len()
}

/// Discover all GPU devices among the entries of `/sys/class/drm`.
pub fn discover_gpus(entries: &Vec<DrmEntry>) -> (r: Vec<FoundGpu>)
    ensures
        r@.map_values(|g: FoundGpu| g@) == gpus_upto(entries@, entries.len() as int),
{
    let mut devices: Vec<FoundGpu> = Vec::new();
    let mut i: usize = 0;
    while i < entries.len()
        invariant
            i <= entries.len(),
            devices@.map_values(|g: FoundGpu| g@) == gpus_upto(entries@, i as int),
        decreases entries.len() - i,
    {
        let e = &entries[i];
        let ghost before = devices@.map_values(|g: FoundGpu| g@);
        if str_starts_with(e.name.as_str(), "card") && str_lacks(e.name.as_str(), '-')
            && e.has_device {
            let vendor_id = match first_line(&e.vendor) {
                Some(line) => line,
                None => "unknown".to_owned(),
            };
            let vendor = GpuVendor::from_vendor_id(vendor_id.as_str());
            let pci_id = match &e.pci_id {
                Some(id) => id.clone(),
                None => "unknown".to_owned(),
            };
            let found = FoundGpu { card_name: e.name.clone(), vendor, pci_id };
            devices.push(found);
            assert(devices@.map_values(|g: FoundGpu| g@) =~= before.push(found@));
        }
        i += 1;
    }
    devices
}

/// The name that one of the lines from index `i` on gives to a device: the
/// text after the first `=` of the first line that begins with `DEVNAME=` or
/// `PCI_SLOT_NAME=`.
pub open spec fn uevent_name_from(ls: Seq<Seq<char>>, i: int) -> Option<Seq<char>>
    decreases ls.len() - i,
{
    if 0 <= i < ls.len() {
        if starts_with(ls[i], "DEVNAME="@) || starts_with(ls[i], "PCI_SLOT_NAME="@) {
            if fields_of(ls[i], '=').len() > 1 {
                Some(fields_of(ls[i], '=')[1])
            } else {
                None
            }
        } else {
            uevent_name_from(ls, i + 1)
        }
    } else {
        None
    }
}

/// Whether one of the lines from index `i` on names a device.
pub open spec fn uevent_names_from(ls: Seq<Seq<char>>, i: int) -> bool
    decreases ls.len() - i,
{
    if 0 <= i < ls.len() {
        starts_with(ls[i], "DEVNAME="@) || starts_with(ls[i], "PCI_SLOT_NAME="@)
            || uevent_names_from(ls, i + 1)
    } else {
        false
    }
}

/// The name that `lspci` prints for a device: the third of the pieces of its
/// first output line that colons separate, trimmed.
pub open spec fn lspci_name_of(line: Option<String>) -> Option<Seq<char>> {
    match line {
        Some(l) => if fields_of(l@, ':').len() > 2 {
            Some(trimmed(fields_of(l@, ':')[2]))
        } else {
            None
        },
        None => None,
    }
}

/// The name of a GPU from sysfs: what its `uevent` file names first, else
/// `GPU Device` with its device id, else what `lspci` prints.
pub open spec fn gpu_name_of(
    uevent: Option<String>,
    device_id: Option<String>,
    lspci_line: Option<String>,
) -> Option<Seq<char>> {
    if uevent is Some && uevent_names_from(lines_of(uevent->0@), 0) {
        uevent_name_from(lines_of(uevent->0@), 0)
    } else {
        match device_id {
            Some(id) => Some("GPU Device "@ + id@),
            None => lspci_name_of(lspci_line),
        }
    }
}

/// Read GPU name from sysfs, where `uevent` is the content of the device's
/// `uevent` file, `device_id` the first line of its `device` file, and
/// `lspci_line` the first line that `lspci` printed for it.
pub fn read_sysfs_gpu_name(
    uevent: &Option<String>,
    device_id: &Option<String>,
    lspci_line: &Option<String>,
) -> (r: Option<String>)
    ensures
        opt_text(r) == gpu_name_of(*uevent, *device_id, *lspci_line),
{
    if let Some(content) = uevent {
        let ls = lines(content.as_str());
        let mut i: usize = 0;
        while i < ls.len()
            invariant
                i <= ls.len(),
                *uevent == Some(*content),
                texts(ls@) == lines_of(content@),
                uevent_names_from(texts(ls@), 0) == uevent_names_from(texts(ls@), i as int),
                uevent_name_from(texts(ls@), 0) == uevent_name_from(texts(ls@), i as int),
            decreases ls.len() - i,
        {
            let line = ls[i].as_str();
            assert(texts(ls@)[i as int] == line@);
            if str_starts_with(line, "DEVNAME=") || str_starts_with(line, "PCI_SLOT_NAME=") {
                assert(uevent_names_from(texts(ls@), i as int));
                assert(uevent_name_from(texts(ls@), i as int) == if fields_of(line@, '=').len()
                    > 1 {
                    Some(fields_of(line@, '=')[1])
                } else {
                    None
                });
                let mut parts = split(line, '=');
                if parts.len() > 1 {
                    let ghost all = texts(parts@);
                    let name = parts.swap_remove(1);
                    assert(name@ == all[1]);
                    return Some(name);
                } else {
                    return None;
                }
            }
            i += 1;
        }
    }
    if let Some(id) = device_id {
        return Some(cat2("GPU Device ", id.as_str()));
    }
    if let Some(line) = lspci_line {
        let mut parts = split(line.as_str(), ':');
        if parts.len() > 2 {
            return Some(trim(parts[2].as_str()));
        }
    }
    None
}

/// The first of the directory's entries whose name begins with `hwmon`.
pub open spec fn hwmon_from(names: Seq<String>, i: int) -> Option<int>
    decreases names.len() - i,
{
    if 0 <= i < names.len() {
        if starts_with(names[i]@, "hwmon"@) {
            Some(i)
        } else {
            hwmon_from(names, i + 1)
        }
    } else {
        None
    }
}

/// Find hwmon directory for a device: the index of the first entry of its
/// `hwmon` directory whose name begins with `hwmon`.
pub fn find_hwmon_for_device(names: &Vec<String>) -> (r: Option<usize>)
    ensures
        match hwmon_from(names@, 0) {
            Some(k) => r == Some(k as usize) && k < names.len(),
            None => r is None,
        },
{
    let mut i: usize = 0;
    while i < names.len()
        invariant
            i <= names.len(),
            hwmon_from(names@, 0) == hwmon_from(names@, i as int),
        decreases names.len() - i,
    {
        if str_starts_with(names[i].as_str(), "hwmon") {
            return Some(i);
        }
        i += 1;
    }
    None
}

/// The fields of one line of `nvidia-smi` CSV output, each trimmed.
pub open spec fn smi_fields(smi: Option<String>) -> Seq<Seq<char>> {
    match smi {
        Some(out) => fields_of(trimmed(out@), ',').map_values(|p: Seq<char>| trimmed(p)),
        None => Seq::empty(),
    }
}

/// The unsigned number in field `k`, where there is such a field and number.
pub open spec fn field_u64(parts: Seq<Seq<char>>, k: int) -> Option<u64> {
    if 0 <= k < parts.len() {
        u64_of(parts[k])
    } else {
        None
    }
}

/// The signed number in field `k`, where there is such a field and number.
pub open spec fn field_i64(parts: Seq<Seq<char>>, k: int) -> Option<i64> {
    if 0 <= k < parts.len() {
        i64_of(parts[k])
    } else {
        None
    }
}

/// The name in the first field, unless it is missing or says `[N/A]`.
pub open spec fn smi_name(parts: Seq<Seq<char>>) -> Option<Seq<char>> {
    if parts.len() > 0 && parts[0] != "[N/A]"@ {
        Some(parts[0])
    } else {
        None
    }
}

/// The fields of `nvidia-smi` output, each trimmed.
pub fn nvidia_fields(smi: &Option<String>) -> (r: Vec<String>)
    ensures
        texts(r@) == smi_fields(*smi),
{
    match smi {
        Some(out) => {
            let raw = split(trim(out.as_str()).as_str(), ',');
            let mut parts: Vec<String> = Vec::new();
            let mut i: usize = 0;
            while i < raw.len()
                invariant
                    i <= raw.len(),
                    texts(parts@) == texts(raw@).take(i as int).map_values(
                        |p: Seq<char>| trimmed(p),
                    ),
                decreases raw.len() - i,
            {
                let ghost before = texts(parts@);
                let piece = trim(raw[i].as_str());
                parts.push(piece);
                assert(texts(parts@) =~= before.push(piece@));
                assert(texts(parts@) =~= texts(raw@).take(i + 1).map_values(
                    |p: Seq<char>| trimmed(p),
                ));
                i += 1;
            }
            assert(texts(raw@).take(raw.len() as int) =~= texts(raw@));
            parts
        },
        None => {
            let parts: Vec<String> = Vec::new();
            assert(texts(parts@) =~= Seq::<Seq<char>>::empty());
            parts
        },
    }
}

/// Get GPU stats using NVIDIA tools, where `smi` is the CSV line that
/// `nvidia-smi` printed for the device (name, utilization, memory used and
/// total, temperature, power, fan, clock), `utilization` and `power` are its
/// second and sixth fields as numbers, and `fallback_name` is the name from sysfs.
pub fn get_nvidia_stats(
    smi: &Option<String>,
    utilization: Option<Reading>,
    power: Option<Reading>,
    fallback_name: Option<String>,
) -> (r: GpuStats)
    ensures
        ({
            let parts = smi_fields(*smi);
            &&& opt_text(r.name) == match smi_name(parts) {
                Some(name) => Some(name),
                None => opt_text(fallback_name),
            }
            &&& r.utilization == if parts.len() > 1 {
                utilization
            } else {
                None
            }
            &&& r.memory_used == field_u64(parts, 2)
            &&& r.memory_total == field_u64(parts, 3)
            &&& r.memory_percent == None::<Reading>
            &&& r.temperature == field_i64(parts, 4)
            &&& r.power_usage == if parts.len() > 5 {
                power
            } else {
                None
            }
            &&& r.fan_speed == field_i64(parts, 6)
            &&& r.clock_speed == field_u64(parts, 7)
        }),
{
    let parts = nvidia_fields(smi);
    let n = parts.len();
    let mut name: Option<String> = None;
    if n > 0 && !str_eq(parts[0].as_str(), "[N/A]") {
        name = Some(parts[0].clone());
    }
    if name.is_none() {
        name = fallback_name;
    }
    GpuStats {
        name,
        utilization: if n > 1 {
            utilization
        } else {
            None
        },
        memory_used: if n > 2 {
            plain_u64(parts[2].as_str())
        } else {
            None
        },
        memory_total: if n > 3 {
            plain_u64(parts[3].as_str())
        } else {
            None
        },
        memory_percent: None,
        temperature: if n > 4 {
            plain_i64(parts[4].as_str())
        } else {
            None
        },
        power_usage: if n > 5 {
            power
        } else {
            None
        },
        fan_speed: if n > 6 {
            plain_i64(parts[6].as_str())
        } else {
            None
        },
        clock_speed: if n > 7 {
            plain_u64(parts[7].as_str())
        } else {
            None
        },
    }
}

/// The files of a device's hwmon directory that hold integers, as they were
/// read: their first lines, `None` where a file is missing or unreadable.
#[derive(Debug, Clone)]
pub struct HwmonFiles {
    pub temp1_input: Option<String>,
    pub fan1_input: Option<String>,
}

/// The temperature in degrees Celsius that a hwmon directory states in
/// millidegrees, else `otherwise`.
pub open spec fn hwmon_temperature(hwmon: Option<HwmonFiles>, otherwise: Option<i64>) -> Option<
    i64,
> {
    match hwmon {
        Some(files) => match files.temp1_input {
            Some(line) => match i64_of(line@) {
                Some(m) => Some(
                    crate::utils::math::quotient_toward_zero(m as int, 1000) as i64,
                ),
                None => otherwise,
            },
            None => otherwise,
        },
        None => otherwise,
    }
}

/// The fan speed that a hwmon directory states.
pub open spec fn hwmon_fan(hwmon: Option<HwmonFiles>) -> Option<i64> {
    match hwmon {
        Some(files) => match files.fan1_input {
            Some(line) => i64_of(line@),
            None => None,
        },
        None => None,
    }
}

/// The MiB that a file states in bytes, unless `known` already holds a number.
pub open spec fn vram_mib(known: Option<u64>, file: Option<String>) -> Option<u64> {
    match known {
        Some(n) => Some(n),
        None => match file {
            Some(line) => match u64_of(line@) {
                Some(bytes) => Some(bytes / 1_048_576),
                None => None,
            },
            None => None,
        },
    }
}

/// The temperature that a hwmon directory states, else `otherwise`.
pub fn temperature_from(hwmon: &Option<HwmonFiles>, otherwise: Option<i64>) -> (r: Option<i64>)
    ensures
        r == hwmon_temperature(*hwmon, otherwise),
{
    if let Some(files) = hwmon {
        if let Some(line) = &files.temp1_input {
            if let Some(m) = plain_i64(line.as_str()) {
                return Some(crate::utils::math::div_toward_zero(m, 1000));
            }
        }
    }
    otherwise
}

/// The fan speed that a hwmon directory states.
pub fn fan_from(hwmon: &Option<HwmonFiles>) -> (r: Option<i64>)
    ensures
        r == hwmon_fan(*hwmon),
{
    if let Some(files) = hwmon {
        if let Some(line) = &files.fan1_input {
            return plain_i64(line.as_str());
        }
    }
    None
}

/// The MiB that a file states in bytes, unless `known` already holds a number.
pub fn vram_from(known: Option<u64>, file: &Option<String>) -> (r: Option<u64>)
    ensures
        r == vram_mib(known, *file),
{
    if known.is_some() {
        return known;
    }
    if let Some(line) = file {
        if let Some(bytes) = plain_u64(line.as_str()) {
            return Some(bytes / 1_048_576);
        }
    }
    None
}

/// Get GPU stats using AMD tools, where `tools` holds what `rocm-smi` and
/// `radeontop` reported (utilization, temperature, memory), `hwmon` the
/// device's hwmon files, `power` its average power, `vram_total` and
/// `vram_used` the first lines of its `mem_info_vram_*` files, and `name`
/// its name from sysfs. Sysfs overrides the tools' temperature and fills in
/// the memory that they did not report.
pub fn get_amd_stats(
    tools: GpuStats,
    hwmon: &Option<HwmonFiles>,
    power: Option<Reading>,
    vram_total: &Option<String>,
    vram_used: &Option<String>,
    name: Option<String>,
) -> (r: GpuStats)
    ensures
        r.name == name,
        r.utilization == tools.utilization,
        r.memory_total == vram_mib(tools.memory_total, *vram_total),
        r.memory_used == vram_mib(tools.memory_used, *vram_used),
        r.memory_percent == None::<Reading>,
        r.temperature == hwmon_temperature(*hwmon, tools.temperature),
        r.power_usage == if hwmon is Some {
            power
        } else {
            None
        },
        r.fan_speed == hwmon_fan(*hwmon),
        r.clock_speed == None::<u64>,
{
    GpuStats {
        name,
        utilization: tools.utilization,
        memory_used: vram_from(tools.memory_used, vram_used),
        memory_total: vram_from(tools.memory_total, vram_total),
        memory_percent: None,
        temperature: temperature_from(hwmon, tools.temperature),
        power_usage: if hwmon.is_some() {
            power
        } else {
            None
        },
        fan_speed: fan_from(hwmon),
        clock_speed: None,
    }
}

/// The unsigned integer that the JSON text `text` holds at member `inner` of
/// member `outer` of its top-level object, as `serde_json` reads it.
pub uninterp spec fn json_u64_of(text: Seq<char>, outer: Seq<char>, inner: Seq<char>) -> Option<
    u64,
>;

/// `serde_json::from_str` into a `Value`, then `Value::get` twice and
/// `Value::as_u64`: the non-negative integer at `outer.inner`, or `None` where
/// the text is no JSON, a member is missing or the value is no such integer.
/// A function of the three texts alone.
#[verifier::external_body]
fn json_u64_at(text: &str, outer: &str, inner: &str) -> (r: Option<u64>)
    ensures
        r == json_u64_of(text@, outer@, inner@),
{
    match serde_json::from_str::<serde_json::Value>(text) {
        Ok(json) => json.get(outer).and_then(|v| v.get(inner)).and_then(|v| v.as_u64()),
        Err(_) => None,
    }
}

/// The actual frequency that `intel_gpu_top` reports in its JSON output.
pub open spec fn intel_clock_of(top: Option<String>) -> Option<u64> {
    match top {
        Some(json) => json_u64_of(json@, "frequency"@, "actual"@),
        None => None,
    }
}

/// Get GPU stats using Intel tools, where `top` is the JSON output of
/// `intel_gpu_top`, `utilization` the busy share of its render engine,
/// `hwmon` the device's hwmon files, `power` its average power, and `name`
/// its name from sysfs.
pub fn get_intel_stats(
    top: &Option<String>,
    utilization: Option<Reading>,
    hwmon: &Option<HwmonFiles>,
    power: Option<Reading>,
    name: Option<String>,
) -> (r: GpuStats)
    ensures
        r.name == name,
        r.utilization == if top is Some {
            utilization
        } else {
            None
        },
        r.memory_total == None::<u64>,
        r.memory_used == None::<u64>,
        r.memory_percent == None::<Reading>,
        r.temperature == hwmon_temperature(*hwmon, None),
        r.power_usage == if hwmon is Some {
            power
        } else {
            None
        },
        r.fan_speed == None::<i64>,
        r.clock_speed == intel_clock_of(*top),
{
    GpuStats {
        name,
        utilization: if top.is_some() {
            utilization
        } else {
            None
        },
        memory_used: None,
        memory_total: None,
        memory_percent: None,
        temperature: temperature_from(hwmon, None),
        power_usage: if hwmon.is_some() {
            power
        } else {
            None
        },
        fan_speed: None,
        clock_speed: match top {
            Some(json) => json_u64_at(json.as_str(), "frequency", "actual"),
            None => None,
        },
    }
}

/// The statistics of a GPU, or why they could not be collected.
#[derive(Debug, Clone)]
pub enum Collected {
    Stats(GpuStats),
    Failed(String),
}

/// A GPU with what was collected about it.
#[derive(Debug, Clone)]
pub struct GpuDevice {
    pub card_name: String,
    pub vendor: GpuVendor,
    pub pci_id: String,
    pub stats: Collected,
}

/// What the GPU module reads from the host.
#[derive(Debug, Clone)]
pub struct GpuProbe {
    /// `/sys/class/drm` exists.
    pub drm_present: bool,
    /// The GPUs that were discovered, in order.
    pub devices: Vec<GpuDevice>,
    /// The monitoring tool of the first GPU's vendor is installed.
    pub monitor_tool_found: bool,
}

/// The GPU module, on what it read.
#[derive(Debug, Clone)]
pub struct GpuModule {
    pub probe: GpuProbe,
}

/// The real number with the bit pattern `n`.
pub open spec fn bits(n: u64) -> FloatBits {
    FloatBits { bits: n }
}

/// How a device is called in its metrics and findings: vendor and position.
pub open spec fn label_of(d: GpuDevice, idx: nat) -> Seq<char> {
    d.vendor@.name() + " GPU "@ + decimal_text(idx)
}

/// The metric of the device's name.
pub open spec fn name_metrics(s: GpuStats, label: Seq<char>) -> Seq<MetricView> {
    match s.name {
        Some(name) => seq![
            MetricView {
                name: label + " - Name"@,
                value: MetricValueView::Text(name@),
                unit: None,
                threshold: None,
            },
        ],
        None => Seq::empty(),
    }
}

/// The metric of the device's utilization, with thresholds at 80 and 95 percent.
pub open spec fn utilization_metrics(s: GpuStats, label: Seq<char>) -> Seq<MetricView> {
    match s.utilization {
        Some(u) => seq![
            MetricView {
                name: label + " - Utilization"@,
                value: MetricValueView::Float(u.value),
                unit: Some("%"@),
                threshold: Some(Threshold { warning: bits(BITS_80), critical: bits(BITS_95) }),
            },
        ],
        None => Seq::empty(),
    }
}

/// The finding on the device's utilization: a warning above 90 percent, and
/// in verbose runs a note below 5 percent.
pub open spec fn utilization_findings(s: GpuStats, label: Seq<char>, verbose: bool) -> Seq<
    FindingView,
> {
    match s.utilization {
        Some(u) => if u.value.spec_gt(bits(BITS_90)) {
            seq![
                FindingView {
                    severity: Severity::Warning,
                    category: "utilization"@,
                    message: label + " is under high load ("@ + u.text@ + "%)"@,
                    details: Some(
                        "GPU is near maximum utilization. This may cause performance bottlenecks."@,
                    ),
                },
            ]
        } else if u.value.spec_lt(bits(BITS_5)) && verbose {
            seq![
                FindingView {
                    severity: Severity::Info,
                    category: "utilization"@,
                    message: label + " is idle ("@ + u.text@ + "%)"@,
                    details: None,
                },
            ]
        } else {
            Seq::empty()
        },
        None => Seq::empty(),
    }
}

/// Whether the device's memory in use, memory in all and their ratio are known.
pub open spec fn memory_known(s: GpuStats) -> bool {
    s.memory_used is Some && s.memory_total is Some && s.memory_percent is Some
}

/// The metric of the device's memory.
pub open spec fn memory_metrics(s: GpuStats, label: Seq<char>) -> Seq<MetricView> {
    if memory_known(s) {
        seq![
            MetricView {
                name: label + " - Memory Used"@,
                value: MetricValueView::Text(
                    decimal_text(s.memory_used->0 as nat) + " MiB / "@ + decimal_text(
                        s.memory_total->0 as nat,
                    ) + " MiB ("@ + s.memory_percent->0.text@ + "%)"@,
                ),
                unit: None,
                threshold: None,
            },
        ]
    } else {
        Seq::empty()
    }
}

/// The warning of a device whose memory is more than 90 percent full.
pub open spec fn memory_findings(s: GpuStats, label: Seq<char>) -> Seq<FindingView> {
    if memory_known(s) && s.memory_percent->0.value.spec_gt(bits(BITS_90)) {
        seq![
            FindingView {
                severity: Severity::Warning,
                category: "memory"@,
                message: label + " memory is nearly full ("@ + s.memory_percent->0.text@ + "%)"@,
                details: Some(
                    decimal_text(s.memory_used->0 as nat) + " MiB of "@ + decimal_text(
                        s.memory_total->0 as nat,
                    ) + " MiB used"@,
                ),
            },
        ]
    } else {
        Seq::empty()
    }
}

/// The metric of the device's temperature, with thresholds at 75 and 85 degrees.
pub open spec fn temperature_metrics(s: GpuStats, label: Seq<char>) -> Seq<MetricView> {
    match s.temperature {
        Some(temp) => seq![
            MetricView {
                name: label + " - Temperature"@,
                value: MetricValueView::Integer(temp),
                unit: Some("°C"@),
                threshold: Some(Threshold { warning: bits(BITS_75), critical: bits(BITS_85) }),
            },
        ],
        None => Seq::empty(),
    }
}

/// The finding on the device's temperature: critical from 85 degrees, a
/// warning from 75 degrees.
pub open spec fn temperature_findings(s: GpuStats, label: Seq<char>) -> Seq<FindingView> {
    match s.temperature {
        Some(temp) => if temp >= 85 {
            seq![
                FindingView {
                    severity: Severity::Critical,
                    category: "temperature"@,
                    message: label + " is running very hot ("@ + signed_text(temp as int)
                        + "°C)"@,
                    details: Some(
                        "GPU may throttle performance or shut down. Check cooling and airflow."@,
                    ),
                },
            ]
        } else if temp >= 75 {
            seq![
                FindingView {
                    severity: Severity::Warning,
                    category: "temperature"@,
                    message: label + " temperature is elevated ("@ + signed_text(temp as int)
                        + "°C)"@,
                    details: Some("Consider improving case airflow or cleaning dust filters."@),
                },
            ]
        } else {
            Seq::empty()
        },
        None => Seq::empty(),
    }
}

/// The metric of the device's power draw.
pub open spec fn power_metrics(s: GpuStats, label: Seq<char>) -> Seq<MetricView> {
    match s.power_usage {
        Some(p) => seq![
            MetricView {
                name: label + " - Power Draw"@,
                value: MetricValueView::Float(p.value),
                unit: Some("W"@),
                threshold: None,
            },
        ],
        None => Seq::empty(),
    }
}

/// The metric of the device's fan speed.
pub open spec fn fan_metrics(s: GpuStats, label: Seq<char>) -> Seq<MetricView> {
    match s.fan_speed {
        Some(fan) => seq![
            MetricView {
                name: label + " - Fan Speed"@,
                value: MetricValueView::Integer(fan),
                unit: Some("RPM"@),
                threshold: None,
            },
        ],
        None => Seq::empty(),
    }
}

/// The metric of the device's clock speed.
pub open spec fn clock_metrics(s: GpuStats, label: Seq<char>) -> Seq<MetricView> {
    match s.clock_speed {
        Some(clock) => seq![
            MetricView {
                name: label + " - Clock Speed"@,
                value: MetricValueView::Integer(as_signed(clock)),
                unit: Some("MHz"@),
                threshold: None,
            },
        ],
        None => Seq::empty(),
    }
}

/// The metrics of a device whose statistics were collected.
pub open spec fn stats_metrics(s: GpuStats, label: Seq<char>) -> Seq<MetricView> {
    name_metrics(s, label) + utilization_metrics(s, label) + memory_metrics(s, label)
        + temperature_metrics(s, label) + power_metrics(s, label) + fan_metrics(s, label)
        + clock_metrics(s, label)
}

/// The findings of a device whose statistics were collected.
pub open spec fn stats_findings(s: GpuStats, label: Seq<char>, verbose: bool) -> Seq<FindingView> {
    utilization_findings(s, label, verbose) + memory_findings(s, label) + temperature_findings(
        s,
        label,
    )
}

/// The metrics of the device at position `idx`.
pub open spec fn device_metrics(d: GpuDevice, idx: nat) -> Seq<MetricView> {
    match (d.vendor, d.stats) {
        (GpuVendor::Unknown(_), _) => Seq::empty(),
        (_, Collected::Failed(_)) => Seq::empty(),
        (_, Collected::Stats(s)) => stats_metrics(s, label_of(d, idx)),
    }
}

/// The findings of the device at position `idx`: a note for an unknown
/// vendor, a warning where the statistics could not be collected, else what
/// the statistics show.
pub open spec fn device_findings(d: GpuDevice, idx: nat, verbose: bool) -> Seq<FindingView> {
    match (d.vendor, d.stats) {
        (GpuVendor::Unknown(_), _) => seq![
            FindingView {
                severity: Severity::Info,
                category: "detection"@,
                message: "Unknown GPU vendor for "@ + d.card_name@,
                details: Some("PCI ID: "@ + d.pci_id@),
            },
        ],
        (_, Collected::Failed(e)) => seq![
            FindingView {
                severity: Severity::Warning,
                category: "stats"@,
                message: "Failed to get stats for "@ + label_of(d, idx),
                details: Some("Error: "@ + e@),
            },
        ],
        (_, Collected::Stats(s)) => stats_findings(s, label_of(d, idx), verbose),
    }
}

/// The metrics of the first `n` devices.
pub open spec fn gpu_metrics_upto(devices: Seq<GpuDevice>, n: int) -> Seq<MetricView>
    decreases n,
{
    if n <= 0 {
        Seq::empty()
    } else {
        gpu_metrics_upto(devices, n - 1) + device_metrics(devices[n - 1], (n - 1) as nat)
    }
}

/// The findings of the first `n` devices.
pub open spec fn gpu_findings_upto(devices: Seq<GpuDevice>, verbose: bool, n: int) -> Seq<
    FindingView,
>
    decreases n,
{
    if n <= 0 {
        Seq::empty()
    } else {
        gpu_findings_upto(devices, verbose, n - 1) + device_findings(
            devices[n - 1],
            (n - 1) as nat,
            verbose,
        )
    }
}

/// The command that shows which processes use a GPU of the vendor.
pub open spec fn process_command(v: GpuVendorView) -> Option<Seq<char>> {
    match v {
        GpuVendorView::Nvidia => Some("nvidia-smi pmon -c 1"@),
        GpuVendorView::Amd => Some("radeontop -d 1 -l 1"@),
        GpuVendorView::Intel => Some("intel_gpu_top -s 1000"@),
        GpuVendorView::Unknown(_) => None,
    }
}

/// The command that monitors a GPU of the vendor live.
pub open spec fn monitor_command(v: GpuVendorView) -> Seq<char> {
    match v {
        GpuVendorView::Nvidia => "watch -n 1 nvidia-smi"@,
        GpuVendorView::Amd => "radeontop"@,
        GpuVendorView::Intel => "intel_gpu_top"@,
        GpuVendorView::Unknown(_) => "watch -n 1 lspci -v"@,
    }
}

/// The command that installs the vendor's monitoring tool.
pub open spec fn install_command(v: GpuVendorView) -> Option<Seq<char>> {
    match v {
        GpuVendorView::Nvidia => Some("# Install: apt-get install nvidia-utils"@),
        GpuVendorView::Amd => Some("# Install: apt-get install radeontop"@),
        GpuVendorView::Intel => Some("# Install: apt-get install intel-gpu-tools"@),
        GpuVendorView::Unknown(_) => None,
    }
}

/// The recommendations that follow findings of severity `Warning` or above:
/// one for each of the categories utilization, temperature and memory that
/// occurs among the findings.
pub open spec fn issue_recommendations(first: GpuVendorView, findings: Seq<FindingView>) -> Seq<
    RecommendationView,
> {
    (if has_category(findings, "utilization"@) {
        seq![
            RecommendationView {
                priority: 2,
                action: "Identify GPU-intensive processes"@,
                command: process_command(first),
                explanation: "Monitor which processes are using the GPU."@,
            },
        ]
    } else {
        Seq::empty()
    }) + (if has_category(findings, "temperature"@) {
        seq![
            RecommendationView {
                priority: 1,
                action: "Improve GPU cooling immediately"@,
                command: None,
                explanation: "High GPU temperatures can cause throttling or hardware damage. Check fans, clean dust, improve airflow."@,
            },
        ]
    } else {
        Seq::empty()
    }) + (if has_category(findings, "memory"@) {
        seq![
            RecommendationView {
                priority: 2,
                action: "Reduce GPU memory usage"@,
                command: None,
                explanation: "Close GPU-intensive applications, reduce graphics settings, or upgrade GPU if consistently maxed out."@,
            },
        ]
    } else {
        Seq::empty()
    })
}

/// The recommendation of a report without issues: to monitor the GPU with
/// the vendor's tool where it is installed, or where the vendor is unknown
/// and has no id, else to install the tool.
pub open spec fn monitor_recommendations(first: GpuVendorView, tool_found: bool) -> Seq<
    RecommendationView,
> {
    if tool_found || first == GpuVendorView::Unknown(Seq::empty()) {
        seq![
            RecommendationView {
                priority: 3,
                action: "Monitor "@ + first.name() + " GPU in real-time"@,
                command: Some(monitor_command(first)),
                explanation: "Use vendor-specific tools for detailed live monitoring."@,
            },
        ]
    } else {
        seq![
            RecommendationView {
                priority: 3,
                action: "Install "@ + first.name() + " GPU monitoring tools"@,
                command: install_command(first),
                explanation: "Vendor tools provide the most detailed GPU metrics."@,
            },
        ]
    }
}

/// The metric that counts the devices.
pub open spec fn count_metric(n: nat) -> MetricView {
    MetricView {
        name: "GPU Devices Detected"@,
        value: MetricValueView::Integer(as_signed(n as u64)),
        unit: None,
        threshold: None,
    }
}

/// The finding that explains a host without GPU devices.
pub open spec fn no_gpu_finding() -> FindingView {
    FindingView {
        severity: Severity::Info,
        category: "detection"@,
        message: "No GPU devices detected"@,
        details: Some(
            "No devices found in /sys/class/drm. This system may not have a dedicated GPU."@,
        ),
    }
}

/// The GPU report for what was read, generated at `at`.
pub open spec fn gpu_report(probe: GpuProbe, config: ModuleConfigView, at: Timestamp) -> ReportView {
    let n = probe.devices.len() as int;
    if n == 0 {
        assembled("gpu"@, "GPU diagnostics"@, at, seq![no_gpu_finding()], Seq::empty(), Seq::empty())
    } else {
        let findings = gpu_findings_upto(probe.devices@, config.verbose, n);
        let issues = has_severity_from(findings, Severity::Warning);
        assembled(
            "gpu"@,
            decimal_text(n as nat) + if issues {
                " GPU(s) detected with issues"@
            } else {
                " GPU(s) detected and operating normally"@
            },
            at,
            findings,
            seq![count_metric(n as nat)] + gpu_metrics_upto(probe.devices@, n),
            if issues {
                issue_recommendations(probe.devices[0].vendor@, findings)
            } else {
                monitor_recommendations(probe.devices[0].vendor@, probe.monitor_tool_found)
            },
        )
    }
}

/// Appends the name and utilization of a device.
fn add_usage(report: &mut DiagnosticReport, s: &GpuStats, label: &str, verbose: bool)
    ensures
        extends(
            old(report)@,
            final(report)@,
            utilization_findings(*s, label@, verbose),
            name_metrics(*s, label@) + utilization_metrics(*s, label@),
        ),
{
    proof {
        lemma_extends_none(report@);
    }
    let ghost start = report@;
    if let Some(name) = &s.name {
        report.push_metric(Metric::text(cat2(label, " - Name"), name.clone()));
    }
    assert(extends(start, report@, Seq::empty(), name_metrics(*s, label@)));
    let ghost named = report@;
    if let Some(u) = &s.utilization {
        report.push_metric(
            Metric::new(
                cat2(label, " - Utilization"),
                MetricValue::Float(u.value),
                Some("%".to_owned()),
                Some(Threshold::of_bits(BITS_80, BITS_95)),
            ),
        );
        let ghost measured = report@;
        if u.value.gt(FloatBits::new(BITS_90)) {
            report.push_finding(
                Finding::new(
                    Severity::Warning,
                    "utilization",
                    cat4(label, " is under high load (", u.text.as_str(), "%)"),
                    Some(
                        "GPU is near maximum utilization. This may cause performance bottlenecks.".to_owned(),
                    ),
                ),
            );
        } else if u.value.lt(FloatBits::new(BITS_5)) && verbose {
            report.push_finding(
                Finding::new(
                    Severity::Info,
                    "utilization",
                    cat4(label, " is idle (", u.text.as_str(), "%)"),
                    None,
                ),
            );
        }
        proof {
            lemma_extends_none(measured);
            assert(extends(
                measured,
                report@,
                utilization_findings(*s, label@, verbose),
                Seq::empty(),
            ));
            lemma_extends_twice(
                named,
                measured,
                report@,
                Seq::empty(),
                utilization_metrics(*s, label@),
                utilization_findings(*s, label@, verbose),
                Seq::empty(),
            );
        }
    }
    proof {
        lemma_extends_none(named);
        assert(Seq::<FindingView>::empty() + utilization_findings(*s, label@, verbose)
            =~= utilization_findings(*s, label@, verbose));
        assert(utilization_metrics(*s, label@) + Seq::<MetricView>::empty()
            =~= utilization_metrics(*s, label@));
        assert(extends(
            named,
            report@,
            utilization_findings(*s, label@, verbose),
            utilization_metrics(*s, label@),
        ));
        lemma_extends_twice(
            start,
            named,
            report@,
            Seq::empty(),
            name_metrics(*s, label@),
            utilization_findings(*s, label@, verbose),
            utilization_metrics(*s, label@),
        );
        assert(Seq::<FindingView>::empty() + utilization_findings(*s, label@, verbose)
            =~= utilization_findings(*s, label@, verbose));
    }
}

/// Appends the memory of a device.
fn add_memory(report: &mut DiagnosticReport, s: &GpuStats, label: &str)
    ensures
        extends(
            old(report)@,
            final(report)@,
            memory_findings(*s, label@),
            memory_metrics(*s, label@),
        ),
{
    proof {
        lemma_extends_none(report@);
    }
    let ghost start = report@;
    if let (Some(used), Some(total)) = (s.memory_used, s.memory_total) {
        if let Some(pct) = &s.memory_percent {
            let used_text = u64_to_string(used);
            let total_text = u64_to_string(total);
            report.push_metric(
                Metric::text(
                    cat2(label, " - Memory Used"),
                    cat5(
                        cat2(used_text.as_str(), " MiB / ").as_str(),
                        total_text.as_str(),
                        " MiB (",
                        pct.text.as_str(),
                        "%)",
                    ),
                ),
            );
            let ghost measured = report@;
            proof {
                lemma_extends_none(measured);
            }
            if pct.value.gt(FloatBits::new(BITS_90)) {
                report.push_finding(
                    Finding::new(
                        Severity::Warning,
                        "memory",
                        cat4(label, " memory is nearly full (", pct.text.as_str(), "%)"),
                        Some(
                            cat4(
                                used_text.as_str(),
                                " MiB of ",
                                total_text.as_str(),
                                " MiB used",
                            ),
                        ),
                    ),
                );
            }
            proof {
                assert(extends(measured, report@, memory_findings(*s, label@), Seq::empty()));
                lemma_extends_twice(
                    start,
                    measured,
                    report@,
                    Seq::empty(),
                    memory_metrics(*s, label@),
                    memory_findings(*s, label@),
                    Seq::empty(),
                );
                assert(Seq::<FindingView>::empty() + memory_findings(*s, label@)
                    =~= memory_findings(*s, label@));
                assert(memory_metrics(*s, label@) + Seq::<MetricView>::empty() =~= memory_metrics(
                    *s,
                    label@,
                ));
            }
        }
    }
}

/// Appends the temperature of a device.
fn add_temperature(report: &mut DiagnosticReport, s: &GpuStats, label: &str)
    ensures
        extends(
            old(report)@,
            final(report)@,
            temperature_findings(*s, label@),
            temperature_metrics(*s, label@),
        ),
{
    proof {
        lemma_extends_none(report@);
    }
    let ghost start = report@;
    if let Some(temp) = s.temperature {
        report.push_metric(
            Metric::new(
                cat2(label, " - Temperature"),
                MetricValue::Integer(temp),
                Some("°C".to_owned()),
                Some(Threshold::of_bits(BITS_75, BITS_85)),
            ),
        );
        let ghost measured = report@;
        proof {
            lemma_extends_none(measured);
        }
        if temp >= 85 {
            report.push_finding(
                Finding::new(
                    Severity::Critical,
                    "temperature",
                    cat4(label, " is running very hot (", i64_to_string(temp).as_str(), "°C)"),
                    Some(
                        "GPU may throttle performance or shut down. Check cooling and airflow.".to_owned(),
                    ),
                ),
            );
        } else if temp >= 75 {
            report.push_finding(
                Finding::new(
                    Severity::Warning,
                    "temperature",
                    cat4(
                        label,
                        " temperature is elevated (",
                        i64_to_string(temp).as_str(),
                        "°C)",
                    ),
                    Some("Consider improving case airflow or cleaning dust filters.".to_owned()),
                ),
            );
        }
        proof {
            assert(extends(measured, report@, temperature_findings(*s, label@), Seq::empty()));
            lemma_extends_twice(
                start,
                measured,
                report@,
                Seq::empty(),
                temperature_metrics(*s, label@),
                temperature_findings(*s, label@),
                Seq::empty(),
            );
            assert(Seq::<FindingView>::empty() + temperature_findings(*s, label@)
                =~= temperature_findings(*s, label@));
            assert(temperature_metrics(*s, label@) + Seq::<MetricView>::empty()
                =~= temperature_metrics(*s, label@));
        }
    }
}

/// Appends the power draw, fan speed and clock speed of a device.
fn add_rates(report: &mut DiagnosticReport, s: &GpuStats, label: &str)
    ensures
        extends(
            old(report)@,
            final(report)@,
            Seq::empty(),
            power_metrics(*s, label@) + fan_metrics(*s, label@) + clock_metrics(*s, label@),
        ),
{
    proof {
        lemma_extends_none(report@);
    }
    let ghost start = report@;
    if let Some(power) = &s.power_usage {
        report.push_metric(
            Metric::new(
                cat2(label, " - Power Draw"),
                MetricValue::Float(power.value),
                Some("W".to_owned()),
                None,
            ),
        );
    }
    let ghost powered = report@;
    proof {
        lemma_extends_none(powered);
    }
    if let Some(fan) = s.fan_speed {
        report.push_metric(
            Metric::integer(cat2(label, " - Fan Speed"), fan, Some("RPM".to_owned())),
        );
    }
    let ghost fanned = report@;
    proof {
        lemma_extends_none(fanned);
        lemma_extends_twice(
            start,
            powered,
            fanned,
            Seq::empty(),
            power_metrics(*s, label@),
            Seq::empty(),
            fan_metrics(*s, label@),
        );
    }
    if let Some(clock) = s.clock_speed {
        report.push_metric(
            Metric::integer(
                cat2(label, " - Clock Speed"),
                to_signed(clock),
                Some("MHz".to_owned()),
            ),
        );
    }
    proof {
        lemma_extends_twice(
            start,
            fanned,
            report@,
            Seq::empty() + Seq::empty(),
            power_metrics(*s, label@) + fan_metrics(*s, label@),
            Seq::empty(),
            clock_metrics(*s, label@),
        );
        assert(Seq::<FindingView>::empty() + Seq::<FindingView>::empty() + Seq::<
            FindingView,
        >::empty() =~= Seq::<FindingView>::empty());
    }
}

/// Appends what the statistics of a device show.
fn add_stats(report: &mut DiagnosticReport, s: &GpuStats, label: &str, verbose: bool)
    ensures
        extends(
            old(report)@,
            final(report)@,
            stats_findings(*s, label@, verbose),
            stats_metrics(*s, label@),
        ),
{
    let ghost r0 = report@;
    add_usage(report, s, label, verbose);
    let ghost r1 = report@;
    add_memory(report, s, label);
    let ghost r2 = report@;
    add_temperature(report, s, label);
    let ghost r3 = report@;
    add_rates(report, s, label);
    proof {
        let l = label@;
        lemma_extends_twice(
            r0,
            r1,
            r2,
            utilization_findings(*s, l, verbose),
            name_metrics(*s, l) + utilization_metrics(*s, l),
            memory_findings(*s, l),
            memory_metrics(*s, l),
        );
        lemma_extends_twice(
            r0,
            r2,
            r3,
            utilization_findings(*s, l, verbose) + memory_findings(*s, l),
            name_metrics(*s, l) + utilization_metrics(*s, l) + memory_metrics(*s, l),
            temperature_findings(*s, l),
            temperature_metrics(*s, l),
        );
        lemma_extends_twice(
            r0,
            r3,
            report@,
            stats_findings(*s, l, verbose),
            name_metrics(*s, l) + utilization_metrics(*s, l) + memory_metrics(*s, l)
                + temperature_metrics(*s, l),
            Seq::empty(),
            power_metrics(*s, l) + fan_metrics(*s, l) + clock_metrics(*s, l),
        );
        assert(stats_findings(*s, l, verbose) + Seq::<FindingView>::empty() =~= stats_findings(
            *s,
            l,
            verbose,
        ));
        assert(name_metrics(*s, l) + utilization_metrics(*s, l) + memory_metrics(*s, l)
            + temperature_metrics(*s, l) + (power_metrics(*s, l) + fan_metrics(*s, l)
            + clock_metrics(*s, l)) =~= stats_metrics(*s, l));
    }
}

/// Appends the metrics and findings of the device at position `idx`.
fn add_device(report: &mut DiagnosticReport, d: &GpuDevice, idx: usize, verbose: bool)
    ensures
        extends(
            old(report)@,
            final(report)@,
            device_findings(*d, idx as nat, verbose),
            device_metrics(*d, idx as nat),
        ),
{
    let label = cat3(d.vendor.name(), " GPU ", u64_to_string(idx as u64).as_str());
    assert(label@ == label_of(*d, idx as nat));
    if let GpuVendor::Unknown(_) = &d.vendor {
        report.push_finding(
            Finding::new(
                Severity::Info,
                "detection",
                cat2("Unknown GPU vendor for ", d.card_name.as_str()),
                Some(cat2("PCI ID: ", d.pci_id.as_str())),
            ),
        );
        return ;
    }
    match &d.stats {
        Collected::Failed(e) => {
            report.push_finding(
                Finding::new(
                    Severity::Warning,
                    "stats",
                    cat2("Failed to get stats for ", label.as_str()),
                    Some(cat2("Error: ", e.as_str())),
                ),
            );
        },
        Collected::Stats(s) => {
            add_stats(report, s, label.as_str(), verbose);
        },
    }
}

/// The command that shows which processes use a GPU of the vendor.
fn process_command_for(v: &GpuVendor) -> (r: Option<String>)
    ensures
        opt_text(r) == process_command(v@),
{
    match v {
        GpuVendor::Nvidia => Some("nvidia-smi pmon -c 1".to_owned()),
        GpuVendor::Amd => Some("radeontop -d 1 -l 1".to_owned()),
        GpuVendor::Intel => Some("intel_gpu_top -s 1000".to_owned()),
        GpuVendor::Unknown(_) => None,
    }
}

/// Appends the recommendations that follow findings of severity `Warning` or above.
fn add_issue_recommendations(report: &mut DiagnosticReport, first: &GpuVendor)
    ensures
        final(report)@ == (ReportView {
            recommendations: old(report)@.recommendations + issue_recommendations(
                first@,
                old(report)@.findings,
            ),
            ..old(report)@
        }),
{
    let ghost start = report@;
    if report.any_category("utilization") {
        report.add_recommendation(
            Recommendation::new(
                2,
                "Identify GPU-intensive processes".to_owned(),
                process_command_for(first),
                "Monitor which processes are using the GPU.",
            ),
        );
    }
    if report.any_category("temperature") {
        report.add_recommendation(
            Recommendation::new(
                1,
                "Improve GPU cooling immediately".to_owned(),
                None,
                "High GPU temperatures can cause throttling or hardware damage. Check fans, clean dust, improve airflow.",
            ),
        );
    }
    if report.any_category("memory") {
        report.add_recommendation(
            Recommendation::new(
                2,
                "Reduce GPU memory usage".to_owned(),
                None,
                "Close GPU-intensive applications, reduce graphics settings, or upgrade GPU if consistently maxed out.",
            ),
        );
    }
    assert(report@.recommendations =~= start.recommendations + issue_recommendations(
        first@,
        start.findings,
    ));
}

/// Whether the vendor is unknown and has no id.
fn is_nameless(v: &GpuVendor) -> (r: bool)
    ensures
        r == (v@ == GpuVendorView::Unknown(Seq::empty())),
{
    match v {
        GpuVendor::Unknown(id) => {
            let r = str_eq(id.as_str(), "");
            proof {
                reveal_strlit("");
                assert(""@ =~= Seq::<char>::empty());
            }
            r
        },
        _ => false,
    }
}

/// Appends the recommendation of a report without issues.
fn add_monitor_recommendation(report: &mut DiagnosticReport, first: &GpuVendor, tool_found: bool)
    ensures
        final(report)@ == (ReportView {
            recommendations: old(report)@.recommendations + monitor_recommendations(
                first@,
                tool_found,
            ),
            ..old(report)@
        }),
{
    let ghost start = report@;
    if tool_found || is_nameless(first) {
        let command = match first {
            GpuVendor::Nvidia => "watch -n 1 nvidia-smi",
            GpuVendor::Amd => "radeontop",
            GpuVendor::Intel => "intel_gpu_top",
            GpuVendor::Unknown(_) => "watch -n 1 lspci -v",
        };
        report.add_recommendation(
            Recommendation::new(
                3,
                cat3("Monitor ", first.name(), " GPU in real-time"),
                Some(command.to_owned()),
                "Use vendor-specific tools for detailed live monitoring.",
            ),
        );
    } else {
        let command = match first {
            GpuVendor::Nvidia => Some("# Install: apt-get install nvidia-utils".to_owned()),
            GpuVendor::Amd => Some("# Install: apt-get install radeontop".to_owned()),
            GpuVendor::Intel => Some("# Install: apt-get install intel-gpu-tools".to_owned()),
            GpuVendor::Unknown(_) => None,
        };
        report.add_recommendation(
            Recommendation::new(
                3,
                cat3("Install ", first.name(), " GPU monitoring tools"),
                command,
                "Vendor tools provide the most detailed GPU metrics.",
            ),
        );
    }
    assert(report@.recommendations =~= start.recommendations + monitor_recommendations(
        first@,
        tool_found,
    ));
}

/// The GPU report for what was read: an `Info` finding where no device was
/// detected, else each device's metrics and findings, the recommendations
/// that the findings call for, and a summary that counts the devices.
pub fn report(probe: &GpuProbe, config: &ModuleConfig) -> (r: DiagnosticReport)
    ensures
        r@ == gpu_report(*probe, config@, r@.timestamp),
        r@.severity_current(),
{
    let mut report = DiagnosticReport::new("gpu", "GPU diagnostics");
    let n = probe.devices.len();
    if n == 0 {
        report.add_finding(
            Finding::new(
                Severity::Info,
                "detection",
                "No GPU devices detected".to_owned(),
                Some(
                    "No devices found in /sys/class/drm. This system may not have a dedicated GPU.".to_owned(),
                ),
            ),
        );
        assert(report@.findings =~= seq![no_gpu_finding()]);
        return report;
    }
    report.add_metric(Metric::integer("GPU Devices Detected".to_owned(), to_signed(n as u64), None));
    assert(report@.metrics =~= seq![count_metric(n as nat)] + gpu_metrics_upto(probe.devices@, 0));
    let verbose = config.verbose;
    let mut i: usize = 0;
    while i < n
        invariant
            i <= n,
            n == probe.devices.len(),
            verbose == config@.verbose,
            report@ == assembled(
                "gpu"@,
                "GPU diagnostics"@,
                report@.timestamp,
                gpu_findings_upto(probe.devices@, verbose, i as int),
                seq![count_metric(n as nat)] + gpu_metrics_upto(probe.devices@, i as int),
                Seq::empty(),
            ),
        decreases n - i,
    {
        add_device(&mut report, &probe.devices[i], i, verbose);
        proof {
            assert(report@.metrics =~= seq![count_metric(n as nat)] + gpu_metrics_upto(
                probe.devices@,
                i + 1,
            ));
            assert(report@.findings =~= gpu_findings_upto(probe.devices@, verbose, i + 1));
        }
        i += 1;
    }
    let issues = report.any_severity_from(Severity::Warning);
    if issues {
        add_issue_recommendations(&mut report, &probe.devices[0].vendor);
    } else {
        add_monitor_recommendation(
            &mut report,
            &probe.devices[0].vendor,
            probe.monitor_tool_found,
        );
    }
    let count = u64_to_string(n as u64);
    report.summary = if issues {
        cat2(count.as_str(), " GPU(s) detected with issues")
    } else {
        cat2(count.as_str(), " GPU(s) detected and operating normally")
    };
    report.compute_overall_severity();
    proof {
        let findings = gpu_findings_upto(probe.devices@, verbose, n as int);
        assert(report@.recommendations =~= if issues {
            issue_recommendations(probe.devices[0].vendor@, findings)
        } else {
            monitor_recommendations(probe.devices[0].vendor@, probe.monitor_tool_found)
        });
    }
    report
}

impl DiagnosticModule for GpuModule {
    open spec fn name_text(&self) -> Seq<char> {
        "gpu"@
    }

    open spec fn description_text(&self) -> Seq<char> {
        "Analyze GPU utilization and memory across all vendors (NVIDIA/AMD/Intel)"@
    }

    open spec fn available(&self) -> bool {
        self.probe.drm_present
    }

    open spec fn run_allows(
        &self,
        config: ModuleConfigView,
        outcome: Result<ReportView, ExecutionErrorView>,
    ) -> bool {
        outcome matches Ok(r) && r == gpu_report(self.probe, config, r.timestamp)
    }

    fn name(&self) -> (r: &'static str) {
        "gpu"
    }

    fn description(&self) -> (r: &'static str) {
        "Analyze GPU utilization and memory across all vendors (NVIDIA/AMD/Intel)"
    }

    fn is_available(&self) -> (b: bool) {
        self.probe.drm_present
    }

    fn run(&self, config: &ModuleConfig) -> (r: Result<DiagnosticReport, ExecutionError>) {
        Ok(report(&self.probe, config))
    }
}

/// The GPU module on what was read from the host.
pub fn module(probe: GpuProbe) -> (m: GpuModule)
    ensures
        m.probe == probe,
{
    GpuModule { probe }
}

/// On a host without GPU devices, the report holds exactly one finding, of
/// severity `Info`, and its overall severity is `Info`.
pub proof fn lemma_absent_gpu_is_reported(probe: GpuProbe, config: ModuleConfigView, at: Timestamp)
    requires
        probe.devices.len() == 0,
    ensures
        gpu_report(probe, config, at).findings == seq![no_gpu_finding()],
        gpu_report(probe, config, at).overall_severity == Severity::Info,
{
    crate::framework::report::lemma_single_finding(no_gpu_finding());
}

} // verus!
