use vstd::prelude::*;
use crate::device::GraphicsDevice;
use crate::error::GraphicsDeviceError;
use crate::power::PowerOff;
use crate::text::{before_dot, first_dot_piece, is_word, trim, trimmed};

verus! {

pub const AMD_VENDOR: u16 = 0x1002;
pub const NVIDIA_VENDOR: u16 = 0x10DE;
pub const INTEL_VENDOR: u16 = 0x8086;

pub const MODPROBE_NVIDIA: &'static str = "# Automatically generated by system76-power
options nvidia-drm modeset=1
";

pub const MODPROBE_HYBRID: &'static str = "# Automatically generated by system76-power
blacklist i2c_nvidia_gpu
alias i2c_nvidia_gpu off
options nvidia NVreg_DynamicPowerManagement=0x02
options nvidia-drm modeset=1
";

pub const MODPROBE_COMPUTE: &'static str = "# Automatically generated by system76-power
blacklist i2c_nvidia_gpu
blacklist nvidia-drm
blacklist nvidia-modeset
alias i2c_nvidia_gpu off
alias nvidia-drm off
alias nvidia-modeset off
options nvidia NVreg_DynamicPowerManagement=0x02
";

pub const MODPROBE_INTEGRATED: &'static str = "# Automatically generated by system76-power
blacklist i2c_nvidia_gpu
blacklist nouveau
blacklist nvidia
blacklist nvidia-drm
blacklist nvidia-modeset
alias i2c_nvidia_gpu off
alias nouveau off
alias nvidia off
alias nvidia-drm off
alias nvidia-modeset off
";

/// What a vendor switch writes and toggles, in the order it must happen:
/// the PRIME mode file, the modprobe configuration, then the fallback
/// service (enabled or disabled), before the initramfs is rebuilt.
#[derive(Debug, Clone, PartialEq, Eq)]
pub struct VendorSwitch {
    pub prime_mode: &'static str,
    pub modprobe: &'static str,
    pub enable_fallback: bool,
}

/// The PRIME file content for a requested vendor.
pub open spec fn prime_mode_for(vendor: Seq<char>) -> Seq<char> {
    if vendor == "hybrid"@ {
        "on-demand\n"@
    } else if vendor == "nvidia"@ {
        "on\n"@
    } else {
        "off\n"@
    }
}

/// The modprobe configuration for a requested vendor.
pub open spec fn modprobe_for(vendor: Seq<char>) -> Seq<char> {
    if vendor == "hybrid"@ {
        MODPROBE_HYBRID@
    } else if vendor == "compute"@ {
        MODPROBE_COMPUTE@
    } else if vendor == "nvidia"@ {
        MODPROBE_NVIDIA@
    } else {
        MODPROBE_INTEGRATED@
    }
}

/// The initramfs tool to run and its argument: `dracut --force` where dracut
/// is installed, else `update-initramfs -u`.
pub fn initramfs_command(dracut_installed: bool) -> (r: (&'static str, &'static str))
    ensures
        dracut_installed ==> r.0@ == "dracut"@ && r.1@ == "--force"@,
        !dracut_installed ==> r.0@ == "update-initramfs"@ && r.1@ == "-u"@,
{
    if dracut_installed {
        ("dracut", "--force")
    } else {
        ("update-initramfs", "-u")
    }
}

/// What to do to the discrete GPU's power.
#[derive(Debug, Clone, PartialEq, Eq)]
pub enum PowerAction {
    /// Rescan the PCI bus, bringing removed devices back.
    Rescan,
    /// Run the power-off pipeline over the NVIDIA devices.
    PowerOff(PowerOff),
}

/// One PCI function as read from the bus during a scan.
#[derive(Debug, Clone, PartialEq, Eq)]
pub struct PciEntry {
    /// Bus id, `domain:bus:slot.function`.
    pub id: String,
    /// The 24-bit class code; the class byte is its top byte.
    pub class: u32,
    /// The vendor id. Only read, and only meaningful, for display controllers.
    pub vendor: u16,
}

/// The bucket a display controller is sorted into.
#[derive(Debug, Clone, Copy, PartialEq, Eq)]
pub enum VendorKind {
    Amd,
    Intel,
    Nvidia,
    Other,
}

pub open spec fn vendor_kind(vendor: u16) -> VendorKind {
    if vendor == AMD_VENDOR {
        VendorKind::Amd
    } else if vendor == NVIDIA_VENDOR {
        VendorKind::Nvidia
    } else if vendor == INTEL_VENDOR {
        VendorKind::Intel
    } else {
        VendorKind::Other
    }
}

/// The class byte of a display controller is 0x03.
pub open spec fn spec_is_display(class: u32) -> bool {
    (class >> 16u32) & 0xFFu32 == 3
}

/// Whether a function with this class code is a display controller.
pub fn is_display_class(class: u32) -> (r: bool)
    ensures
        r == spec_is_display(class),
{
    (class >> 16u32) & 0xFFu32 == 3
}

/// Which bucket a display controller with this vendor id belongs to.
pub fn classify_vendor(vendor: u16) -> (r: VendorKind)
    ensures
        r == vendor_kind(vendor),
{
    if vendor == AMD_VENDOR {
        VendorKind::Amd
    } else if vendor == NVIDIA_VENDOR {
        VendorKind::Nvidia
    } else if vendor == INTEL_VENDOR {
        VendorKind::Intel
    } else {
        VendorKind::Other
    }
}

/// The ids among `entries` whose slot is `slot`, in bus order.
pub open spec fn slot_members(entries: Seq<PciEntry>, slot: Seq<char>) -> Seq<String>
    decreases entries.len(),
{
    if entries.len() == 0 {
        Seq::empty()
    } else {
        let rest = slot_members(entries.drop_last(), slot);
        if before_dot(entries.last().id@) == slot {
            rest.push(entries.last().id)
        } else {
            rest
        }
    }
}

/// The devices of one bucket found among the first `upto.len()` entries of a
/// scan of `all`: each display controller of that kind, with every function
/// of the scan that shares its slot.
pub open spec fn bucket(upto: Seq<PciEntry>, all: Seq<PciEntry>, kind: VendorKind) -> Seq<
    (String, Seq<String>),
>
    decreases upto.len(),
{
    if upto.len() == 0 {
        Seq::empty()
    } else {
        let rest = bucket(upto.drop_last(), all, kind);
        let e = upto.last();
        if spec_is_display(e.class) && vendor_kind(e.vendor) == kind {
            rest.push((e.id, slot_members(all, before_dot(e.id@))))
        } else {
            rest
        }
    }
}

/// A device as its id and the ids of its functions.
pub open spec fn device_view(d: GraphicsDevice) -> (String, Seq<String>) {
    (d.spec_id(), d.spec_functions())
}

/// The devices held in `devs`, viewed as ids and functions.
pub open spec fn devices_view(devs: Seq<GraphicsDevice>) -> Seq<(String, Seq<String>)> {
    devs.map_values(|d: GraphicsDevice| device_view(d))
}

/// The functions of the scan that share the slot of `id`.
fn slot_functions(entries: &Vec<PciEntry>, id: &String) -> (r: Vec<String>)
    ensures
        r@ == slot_members(entries@, before_dot(id@)),
{
    let slot = first_dot_piece(id.as_str());
    let mut r: Vec<String> = Vec::new();
    let mut i: usize = 0;
    while i < entries.len()
        invariant
            i <= entries.len(),
            slot@ == before_dot(id@),
            r@ == slot_members(entries@.subrange(0, i as int), slot@),
        decreases entries.len() - i,
    {
        assert(entries@.subrange(0, i as int + 1).drop_last() == entries@.subrange(0, i as int));
        let func_slot = first_dot_piece(entries[i].id.as_str());
        if func_slot == slot {
            r.push(entries[i].id.clone());
        }
        i = i + 1;
    }
    assert(entries@.subrange(0, entries.len() as int) == entries@);
    r
}

/// The graphics topology found by one scan of the PCI bus.
pub struct Graphics {
    pub amd: Vec<GraphicsDevice>,
    pub intel: Vec<GraphicsDevice>,
    pub nvidia: Vec<GraphicsDevice>,
    pub other: Vec<GraphicsDevice>,
}

/// Whether `modules` names a driver of the NVIDIA GPU.
pub open spec fn nvidia_loaded(modules: Seq<String>) -> bool {
    exists|i: int| 0 <= i < modules.len() && (modules[i]@ == "nouveau"@ || modules[i]@ == "nvidia"@)
}

/// The active vendor mode, given the loaded modules and the PRIME file's
/// content (`None` when it cannot be read).
pub open spec fn vendor_of(modules: Seq<String>, prime: Option<Seq<char>>) -> Seq<char> {
    if !nvidia_loaded(modules) {
        "integrated"@
    } else {
        match prime {
            None => "nvidia"@,
            Some(content) => if trimmed(content) == "on-demand"@ {
                "hybrid"@
            } else if trimmed(content) == "off"@ {
                "compute"@
            } else {
                "nvidia"@
            },
        }
    }
}

/// Without `nouveau` or `nvidia` loaded the vendor mode is `integrated`,
/// whatever the PRIME file holds.
pub proof fn lemma_vendor_integrated_without_driver(modules: Seq<String>, prime: Option<Seq<char>>)
    requires
        forall|i: int| 0 <= i < modules.len() ==> #[trigger] modules[i]@ != "nouveau"@ && modules[i]@ != "nvidia"@,
    ensures
        vendor_of(modules, prime) == "integrated"@,
{
}

impl Graphics {
    /// Whether the machine has both a discrete NVIDIA GPU and an integrated one.
    pub open spec fn spec_can_switch(&self) -> bool {
        self.nvidia.len() > 0 && (self.intel.len() > 0 || self.amd.len() > 0)
    }

    /// Sorts the display controllers of a scan into vendor buckets. Each
    /// device gathers every function of the scan that shares its slot.
    pub fn new(entries: &Vec<PciEntry>) -> (r: Graphics)
        ensures
            devices_view(r.amd@) == bucket(entries@, entries@, VendorKind::Amd),
            devices_view(r.intel@) == bucket(entries@, entries@, VendorKind::Intel),
            devices_view(r.nvidia@) == bucket(entries@, entries@, VendorKind::Nvidia),
            devices_view(r.other@) == bucket(entries@, entries@, VendorKind::Other),
    {
        let mut amd: Vec<GraphicsDevice> = Vec::new();
        let mut intel: Vec<GraphicsDevice> = Vec::new();
        let mut nvidia: Vec<GraphicsDevice> = Vec::new();
        let mut other: Vec<GraphicsDevice> = Vec::new();
        let mut i: usize = 0;
        while i < entries.len()
            invariant
                i <= entries.len(),
                devices_view(amd@) == bucket(entries@.subrange(0, i as int), entries@, VendorKind::Amd),
                devices_view(intel@) == bucket(entries@.subrange(0, i as int), entries@, VendorKind::Intel),
                devices_view(nvidia@) == bucket(entries@.subrange(0, i as int), entries@, VendorKind::Nvidia),
                devices_view(other@) == bucket(entries@.subrange(0, i as int), entries@, VendorKind::Other),
            decreases entries.len() - i,
        {
            let ghost up = entries@.subrange(0, i as int + 1);
            assert(up.drop_last() == entries@.subrange(0, i as int));
            assert(up.last() == entries@[i as int]);
            let ghost (a0, i0, n0, o0) = (amd@, intel@, nvidia@, other@);
            let dev = &entries[i];
            if is_display_class(dev.class) {
                let d = GraphicsDevice::new(dev.id.clone(), slot_functions(entries, &dev.id));
                match classify_vendor(dev.vendor) {
                    VendorKind::Amd => amd.push(d),
                    VendorKind::Nvidia => nvidia.push(d),
                    VendorKind::Intel => intel.push(d),
                    VendorKind::Other => other.push(d),
                }
            }
            proof {
                assert(devices_view(amd@) =~= bucket(up, entries@, VendorKind::Amd));
                assert(devices_view(intel@) =~= bucket(up, entries@, VendorKind::Intel));
                assert(devices_view(nvidia@) =~= bucket(up, entries@, VendorKind::Nvidia));
                assert(devices_view(other@) =~= bucket(up, entries@, VendorKind::Other));
            }
            i = i + 1;
        }
        assert(entries@.subrange(0, entries.len() as int) == entries@);
        Graphics { amd, intel, nvidia, other }
    }

    /// True iff there is an NVIDIA device and an AMD or Intel device.
    pub fn can_switch(&self) -> (r: bool)
        ensures
            r == self.spec_can_switch(),
    {
        !self.nvidia.is_empty() && (!self.intel.is_empty() || !self.amd.is_empty())
    }

    fn switchable_or_fail(&self) -> (r: Result<(), GraphicsDeviceError>)
        ensures
            r == (if self.spec_can_switch() {
                Ok(())
            } else {
                Err(GraphicsDeviceError::NotSwitchable)
            }),
    {
        if self.can_switch() {
            Ok(())
        } else {
            Err(GraphicsDeviceError::NotSwitchable)
        }
    }

    /// The active vendor mode: `integrated` unless `nouveau` or `nvidia` is
    /// among the loaded `modules`; otherwise decided by the PRIME file's
    /// `content` (`None` when it cannot be read, which counts as `nvidia`).
    pub fn get_vendor(&self, modules: &Vec<String>, prime: Option<&str>) -> (r: String)
        ensures
            r@ == vendor_of(modules@, match prime {
                Some(c) => Some(c@),
                None => None,
            }),
    {
        let nouveau = "nouveau".to_owned();
        let nvidia = "nvidia".to_owned();
        let mut loaded = false;
        let mut i: usize = 0;
        while i < modules.len()
            invariant
                i <= modules.len(),
                nouveau@ == "nouveau"@,
                nvidia@ == "nvidia"@,
                loaded == exists|j: int| 0 <= j < i && (modules[j]@ == "nouveau"@ || modules[j]@ == "nvidia"@),
            decreases modules.len() - i,
        {
            if modules[i] == nouveau || modules[i] == nvidia {
                loaded = true;
            }
            i = i + 1;
        }
        if !loaded {
            return "integrated".to_owned();
        }
        match prime {
            None => "nvidia".to_owned(),
            Some(content) => {
                let mode = trim(content);
                if is_word(mode.as_str(), "on-demand") {
                    "hybrid".to_owned()
                } else if is_word(mode.as_str(), "off") {
                    "compute".to_owned()
                } else {
                    "nvidia".to_owned()
                }
            },
        }
    }
    /// Decides what switching to `vendor` writes. Refused unless the machine
    /// can switch.
    pub fn set_vendor(&self, vendor: &str) -> (r: Result<VendorSwitch, GraphicsDeviceError>)
        ensures
            !self.spec_can_switch() <==> r == Err::<VendorSwitch, GraphicsDeviceError>(
                GraphicsDeviceError::NotSwitchable,
            ),
            r is Ok <==> self.spec_can_switch(),
            r matches Ok(w) ==> w.prime_mode@ == prime_mode_for(vendor@) && w.modprobe@
                == modprobe_for(vendor@) && w.enable_fallback == (vendor@ == "nvidia"@),
    {
        self.switchable_or_fail()?;
        let hybrid = is_word(vendor, "hybrid");
        let nvidia = is_word(vendor, "nvidia");
        let compute = is_word(vendor, "compute");
        let prime_mode = if hybrid {
            "on-demand\n"
        } else if nvidia {
            "on\n"
        } else {
            "off\n"
        };
        let modprobe = if hybrid {
            MODPROBE_HYBRID
        } else if compute {
            MODPROBE_COMPUTE
        } else if nvidia {
            MODPROBE_NVIDIA
        } else {
            MODPROBE_INTEGRATED
        };
        Ok(VendorSwitch { prime_mode, modprobe, enable_fallback: nvidia })
    }

    /// Whether the discrete GPU is powered: true iff some function of some
    /// NVIDIA device is present, where `present[i][j]` tells whether the j-th
    /// function of the i-th NVIDIA device exists.
    pub fn get_power(&self, present: &Vec<Vec<bool>>) -> (r: Result<bool, GraphicsDeviceError>)
        requires
            present.len() == self.nvidia.len(),
            forall|i: int| 0 <= i < present.len() ==> #[trigger] present[i].len() == self.nvidia[i].spec_functions().len(),
        ensures
            !self.spec_can_switch() <==> r == Err::<bool, GraphicsDeviceError>(GraphicsDeviceError::NotSwitchable),
            r is Ok <==> self.spec_can_switch(),
            r matches Ok(on) ==> on == exists|i: int, j: int| 0 <= i < present.len() && 0 <= j < present[i].len() && #[trigger] present[i][j],
    {
        self.switchable_or_fail()?;
        let mut i: usize = 0;
        while i < present.len()
            invariant
                i <= present.len(),
                self.spec_can_switch(),
                present.len() == self.nvidia.len(),
                forall|k: int| 0 <= k < present.len() ==> #[trigger] present[k].len() == self.nvidia[k].spec_functions().len(),
                forall|k: int, j: int| 0 <= k < i && 0 <= j < present[k].len() ==> !#[trigger] present[k][j],
            decreases present.len() - i,
        {
            if self.nvidia[i].is_present(&present[i]) {
                return Ok(true);
            }
            i = i + 1;
        }
        Ok(false)
    }

    /// Decides how to set the discrete GPU's power: on is a bus rescan; off
    /// is the power-off pipeline over every NVIDIA device.
    pub fn set_power(&self, power: bool) -> (r: Result<PowerAction, GraphicsDeviceError>)
        ensures
            !self.spec_can_switch() <==> r == Err::<PowerAction, GraphicsDeviceError>(
                GraphicsDeviceError::NotSwitchable,
            ),
            r is Ok <==> self.spec_can_switch(),
            r matches Ok(a) ==> (power <==> a is Rescan),
            r matches Ok(PowerAction::PowerOff(p)) ==> p.wf() && p.spec_devices() == self.nvidia.len()
                && p.spec_done() == 0 && p.spec_failure() is None,
    {
        self.switchable_or_fail()?;
        if power {
            Ok(PowerAction::Rescan)
        } else {
            Ok(PowerAction::PowerOff(PowerOff::new(self.nvidia.len())))
        }
    }

    /// Powers the discrete GPU on unless the active vendor mode, decided as
    /// by `get_vendor`, is `integrated`.
    pub fn auto_power(&self, modules: &Vec<String>, prime: Option<&str>) -> (r: Result<PowerAction, GraphicsDeviceError>)
        ensures
            !self.spec_can_switch() <==> r == Err::<PowerAction, GraphicsDeviceError>(
                GraphicsDeviceError::NotSwitchable,
            ),
            r is Ok <==> self.spec_can_switch(),
            r matches Ok(a) ==> (a is Rescan <==> vendor_of(modules@, match prime {
                Some(c) => Some(c@),
                None => None,
            }) != "integrated"@),
    {
        let vendor = self.get_vendor(modules, prime);
        self.set_power(!is_word(vendor.as_str(), "integrated"))
    }
}

} // verus!
