use vstd::prelude::*;
use crate::error::GraphicsDeviceError;
use crate::graphics::Graphics;
use crate::text::{before_dot, first_dot_piece, is_word, trim, trimmed};

verus! {

/// One chip of the NVIDIA driver's database of supported GPUs.
#[derive(Debug, Clone, PartialEq, Eq)]
pub struct NvidiaDevice {
    pub devid: String,
    pub subdeviceid: Option<String>,
    pub subvendorid: Option<String>,
    pub name: String,
    pub legacybranch: Option<String>,
    pub features: Vec<String>,
}

/// The value of one digit in the given radix (at most 16).
pub open spec fn digit_value(c: char, radix: u32) -> Option<nat> {
    let v: int = if '0' <= c && c <= '9' {
        c as int - '0' as int
    } else if 'a' <= c && c <= 'z' {
        c as int - 'a' as int + 10
    } else if 'A' <= c && c <= 'Z' {
        c as int - 'A' as int + 10
    } else {
        radix as int
    };
    if 0 <= v < radix {
        Some(v as nat)
    } else {
        None
    }
}

/// The number a run of digits spells, if every character is a digit.
pub open spec fn digits_value(s: Seq<char>, radix: u32) -> Option<nat>
    decreases s.len(),
{
    if s.len() == 0 {
        Some(0)
    } else {
        match (digits_value(s.drop_last(), radix), digit_value(s.last(), radix)) {
            (Some(v), Some(d)) => Some((v * radix + d) as nat),
            _ => None,
        }
    }
}

/// What `u32::from_str_radix` accepts: an optional `+`, then at least one
/// digit, spelling a number that fits in 32 bits.
pub open spec fn parse_unsigned(s: Seq<char>, radix: u32) -> Option<u32> {
    let digits = if s.len() > 0 && s[0] == '+' {
        s.drop_first()
    } else {
        s
    };
    if digits.len() == 0 {
        None
    } else {
        match digits_value(digits, radix) {
            Some(v) => if v <= u32::MAX {
                Some(v as u32)
            } else {
                None
            },
            None => None,
        }
    }
}

/// `s` with every leading `0x` stripped.
pub open spec fn without_hex_prefix(s: Seq<char>) -> Seq<char>
    decreases s.len(),
{
    if s.len() >= 2 && s[0] == '0' && s[1] == 'x' {
        without_hex_prefix(s.subrange(2, s.len() as int))
    } else {
        s
    }
}

/// Relies on `u32::from_str_radix`, for radix 10 or 16.
#[verifier::external_body]
fn from_str_radix(s: &str, radix: u32) -> (r: Option<u32>)
    requires
        radix == 10 || radix == 16,
    ensures
        r == parse_unsigned(s@, radix),
{
    u32::from_str_radix(s, radix).ok()
}

/// Relies on `str::trim_start_matches("0x")`: it strips the prefix as often
/// as it repeats.
#[verifier::external_body]
fn strip_hex_prefix(s: &str) -> (r: String)
    ensures
        r@ == without_hex_prefix(s@),
{
    s.trim_start_matches("0x").to_string()
}

/// The major version in a driver version string such as `"535.113.01\n"`;
/// 0 when it does not start with a number.
pub fn nvidia_major(version: &str) -> (r: u32)
    ensures
        r == match parse_unsigned(before_dot(trimmed(version@)), 10) {
            Some(v) => v,
            None => 0,
        },
{
    let version = trim(version);
    let major = first_dot_piece(version.as_str());
    match from_str_radix(major.as_str(), 10) {
        Some(v) => v,
        None => 0,
    }
}

/// The device id written in hex, with or without `0x`, in a sysfs `device`
/// file.
pub open spec fn device_id_of(content: Seq<char>) -> Option<u32> {
    parse_unsigned(trimmed(without_hex_prefix(content)), 16)
}

/// Reads the PCI device id from the content of a sysfs `device` file.
pub fn parse_device_id(content: &str) -> (r: Result<u32, GraphicsDeviceError>)
    ensures
        match device_id_of(content@) {
            Some(v) => r == Ok::<u32, GraphicsDeviceError>(v),
            None => r is Err && r matches Err(GraphicsDeviceError::SysFs(_)),
        },
{
    let stripped = strip_hex_prefix(content);
    let digits = trim(stripped.as_str());
    match from_str_radix(digits.as_str(), 16) {
        Some(v) => Ok(v),
        None => Err(GraphicsDeviceError::SysFs("invalid PCI device id".to_owned())),
    }
}

/// The device id a database entry stands for; an unreadable one counts as 0.
pub open spec fn chip_id(d: NvidiaDevice) -> u32 {
    match device_id_of(d.devid@) {
        Some(v) => v,
        None => 0,
    }
}

/// Whether `features` lists runtime power management.
pub open spec fn lists_runtimepm(features: Seq<String>) -> bool {
    exists|i: int| 0 <= i < features.len() && features[i]@ == "runtimepm"@
}

/// Finds the first database entry for the device `id`. Several entries may
/// share an id; the first in database order wins.
pub fn find_nvidia_device(chips: &Vec<NvidiaDevice>, id: u32) -> (r: Result<usize, GraphicsDeviceError>)
    ensures
        match r {
            Ok(k) => k < chips.len() && chip_id(chips[k as int]) == id && forall|j: int|
                0 <= j < k ==> chip_id(#[trigger] chips[j]) != id,
            Err(e) => e is Json && forall|j: int| 0 <= j < chips.len() ==> chip_id(#[trigger] chips[j]) != id,
        },
{
    let mut k: usize = 0;
    while k < chips.len()
        invariant
            k <= chips.len(),
            forall|j: int| 0 <= j < k ==> chip_id(#[trigger] chips[j]) != id,
        decreases chips.len() - k,
    {
        let did = match parse_device_id(chips[k].devid.as_str()) {
            Ok(v) => v,
            Err(_) => 0,
        };
        if did == id {
            return Ok(k);
        }
        k = k + 1;
    }
    Err(GraphicsDeviceError::Json("GPU device not found".to_owned()))
}

/// Whether the device `id` supports runtime power management, by the first
/// database entry for it.
pub fn gpu_supports_runtimepm(chips: &Vec<NvidiaDevice>, id: u32) -> (r: Result<bool, GraphicsDeviceError>)
    ensures
        match r {
            Ok(b) => exists|k: int|
                0 <= k < chips.len() && chip_id(chips[k]) == id && (forall|j: int|
                    0 <= j < k ==> chip_id(#[trigger] chips[j]) != id) && b == lists_runtimepm(
                    chips[k].features@,
                ),
            Err(e) => e is Json && forall|j: int| 0 <= j < chips.len() ==> chip_id(#[trigger] chips[j]) != id,
        },
{
    let k = find_nvidia_device(chips, id)?;
    let features = &chips[k].features;
    let mut i: usize = 0;
    while i < features.len()
        invariant
            i <= features.len(),
            k < chips.len(),
            chip_id(chips[k as int]) == id,
            forall|j: int| 0 <= j < k ==> chip_id(#[trigger] chips[j]) != id,
            features@ == chips[k as int].features@,
            forall|j: int| 0 <= j < i ==> features[j]@ != "runtimepm"@,
        decreases features.len() - i,
    {
        if is_word(features[i].as_str(), "runtimepm") {
            assert(lists_runtimepm(chips[k as int].features@));
            return Ok(true);
        }
        i = i + 1;
    }
    assert(!lists_runtimepm(chips[k as int].features@));
    Ok(false)
}

/// The recommended vendor mode given the trimmed machine vendor string and
/// whether the discrete GPU supports runtime power management. No model is
/// currently excluded from the hybrid default.
pub open spec fn default_graphics_for(sys_vendor: Seq<char>, runtimepm: bool) -> Seq<char> {
    if sys_vendor != "System76"@ {
        "nvidia"@
    } else if runtimepm {
        "hybrid"@
    } else {
        "integrated"@
    }
}

impl Graphics {
    /// The recommended vendor mode for this machine, from its vendor string
    /// (as read from sysfs) and whether its discrete GPU supports runtime
    /// power management.
    pub fn get_default_graphics(&self, sys_vendor: &str, runtimepm: bool) -> (r: Result<String, GraphicsDeviceError>)
        ensures
            !self.spec_can_switch() <==> r == Err::<String, GraphicsDeviceError>(
                GraphicsDeviceError::NotSwitchable,
            ),
            r is Ok <==> self.spec_can_switch(),
            r matches Ok(s) ==> s@ == default_graphics_for(trimmed(sys_vendor@), runtimepm),
    {
        if !self.can_switch() {
            return Err(GraphicsDeviceError::NotSwitchable);
        }
        let vendor = trim(sys_vendor);
        if !is_word(vendor.as_str(), "System76") {
            Ok("nvidia".to_owned())
        } else if runtimepm {
            Ok("hybrid".to_owned())
        } else {
            Ok("integrated".to_owned())
        }
    }

    /// Whether external displays need the discrete GPU on this machine: true
    /// iff its model string (as read from sysfs) is one of `requires_nvidia`.
    pub fn get_external_displays_require_dgpu(&self, model: &str, requires_nvidia: &Vec<String>) -> (r: Result<
        bool,
        GraphicsDeviceError,
    >)
        ensures
            !self.spec_can_switch() <==> r == Err::<bool, GraphicsDeviceError>(GraphicsDeviceError::NotSwitchable),
            r is Ok <==> self.spec_can_switch(),
            r matches Ok(b) ==> b == exists|i: int|
                0 <= i < requires_nvidia.len() && requires_nvidia[i]@ == trimmed(model@),
    {
        if !self.can_switch() {
            return Err(GraphicsDeviceError::NotSwitchable);
        }
        let trimmed_model = trim(model);
        let mut i: usize = 0;
        while i < requires_nvidia.len()
            invariant
                i <= requires_nvidia.len(),
                self.spec_can_switch(),
                trimmed_model@ == trimmed(model@),
                forall|j: int| 0 <= j < i ==> requires_nvidia[j]@ != trimmed_model@,
            decreases requires_nvidia.len() - i,
        {
            if requires_nvidia[i] == trimmed_model {
                assert(requires_nvidia[i as int]@ == trimmed(model@));
                return Ok(true);
            }
            i = i + 1;
        }
        Ok(false)
    }
}

} // verus!
