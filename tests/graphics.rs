use system76_power::capability::{find_nvidia_device, gpu_supports_runtimepm, nvidia_major, parse_device_id, NvidiaDevice};
use system76_power::device::{FunctionProbe, GraphicsDevice, Unbinding};
use system76_power::error::GraphicsDeviceError;
use system76_power::power::PowerOffStep::{Remove, Unbind};
use system76_power::graphics::{
    classify_vendor, initramfs_command, is_display_class, Graphics, PciEntry, PowerAction, VendorKind,
    MODPROBE_COMPUTE, MODPROBE_HYBRID, MODPROBE_INTEGRATED, MODPROBE_NVIDIA,
};

fn dev(id: &str, funcs: &[&str]) -> GraphicsDevice {
    GraphicsDevice::new(id.to_string(), funcs.iter().map(|f| f.to_string()).collect())
}

fn topology(amd: usize, intel: usize, nvidia: usize, other: usize) -> Graphics {
    let make = |n: usize, base: &str| (0..n).map(|i| dev(&format!("{}:{:02}.0", base, i), &[&format!("{}:{:02}.0", base, i)])).collect();
    Graphics { amd: make(amd, "0000:05"), intel: make(intel, "0000:00"), nvidia: make(nvidia, "0000:01"), other: make(other, "0000:07") }
}

fn switchable() -> Graphics {
    topology(0, 1, 1, 0)
}

fn entry(id: &str, class: u32, vendor: u16) -> PciEntry {
    PciEntry { id: id.to_string(), class, vendor }
}

fn strings(v: &[&str]) -> Vec<String> {
    v.iter().map(|s| s.to_string()).collect()
}

#[test]
fn can_switch_all_bucket_combinations() {
    for amd in 0..2 {
        for intel in 0..2 {
            for nvidia in 0..2 {
                for other in 0..2 {
                    let g = topology(amd, intel, nvidia, other);
                    assert_eq!(g.can_switch(), nvidia > 0 && (amd > 0 || intel > 0));
                }
            }
        }
    }
}

#[test]
fn gated_operations_fail_only_when_not_switchable() {
    for (amd, intel, nvidia, other) in [(0, 0, 1, 1), (1, 0, 0, 0), (0, 0, 0, 0), (1, 0, 1, 0), (0, 2, 1, 1)] {
        let g = topology(amd, intel, nvidia, other);
        let ok = g.can_switch();
        let not = |r: bool| assert_eq!(r, !ok);
        not(g.set_vendor("nvidia") == Err(GraphicsDeviceError::NotSwitchable));
        not(g.set_power(true) == Err(GraphicsDeviceError::NotSwitchable));
        not(g.set_power(false) == Err(GraphicsDeviceError::NotSwitchable));
        let present: Vec<Vec<bool>> = g.nvidia.iter().map(|d| vec![true; d.functions().len()]).collect();
        not(g.get_power(&present) == Err(GraphicsDeviceError::NotSwitchable));
        not(g.get_default_graphics("System76\n", true) == Err(GraphicsDeviceError::NotSwitchable));
        not(g.get_external_displays_require_dgpu("x", &vec![]) == Err(GraphicsDeviceError::NotSwitchable));
        not(g.auto_power(&strings(&["nvidia"]), None) == Err(GraphicsDeviceError::NotSwitchable));
    }
}

#[test]
fn set_vendor_hybrid_writes() {
    let w = switchable().set_vendor("hybrid").unwrap();
    assert_eq!(w.prime_mode, "on-demand\n");
    assert_eq!(w.modprobe, MODPROBE_HYBRID);
    assert!(!w.enable_fallback);
    assert!(MODPROBE_HYBRID.contains("options nvidia NVreg_DynamicPowerManagement=0x02\noptions nvidia-drm modeset=1\n"));
}

#[test]
fn set_vendor_other_modes_write() {
    let g = switchable();
    let w = g.set_vendor("nvidia").unwrap();
    assert_eq!((w.prime_mode, w.modprobe, w.enable_fallback), ("on\n", MODPROBE_NVIDIA, true));
    let w = g.set_vendor("integrated").unwrap();
    assert_eq!((w.prime_mode, w.modprobe, w.enable_fallback), ("off\n", MODPROBE_INTEGRATED, false));
    let w = g.set_vendor("compute").unwrap();
    assert_eq!((w.prime_mode, w.modprobe, w.enable_fallback), ("off\n", MODPROBE_COMPUTE, false));
    let w = g.set_vendor("something").unwrap();
    assert_eq!((w.prime_mode, w.modprobe), ("off\n", MODPROBE_INTEGRATED));
    for t in [MODPROBE_NVIDIA, MODPROBE_HYBRID, MODPROBE_COMPUTE, MODPROBE_INTEGRATED] {
        assert!(t.starts_with("# Automatically generated by system76-power\n"));
    }
    assert!(!MODPROBE_INTEGRATED.contains("options"));
    assert!(!MODPROBE_COMPUTE.contains("modeset=1"));
}

#[test]
fn get_vendor_without_driver_is_integrated() {
    let g = switchable();
    for prime in [None, Some("on-demand\n"), Some("off\n"), Some("on\n")] {
        assert_eq!(g.get_vendor(&strings(&["i915", "snd_hda_intel"]), prime), "integrated");
        assert_eq!(g.get_vendor(&vec![], prime), "integrated");
    }
}

#[test]
fn get_vendor_reads_prime_mode() {
    let g = switchable();
    assert_eq!(g.get_vendor(&strings(&["i915", "nvidia"]), Some("on-demand\n")), "hybrid");
    assert_eq!(g.get_vendor(&strings(&["nouveau"]), Some("  off \n")), "compute");
    assert_eq!(g.get_vendor(&strings(&["nvidia"]), Some("on\n")), "nvidia");
    assert_eq!(g.get_vendor(&strings(&["nvidia"]), None), "nvidia");
    assert_eq!(g.get_vendor(&strings(&["nvidia_drm"]), Some("off\n")), "integrated");
}

#[test]
fn unbind_without_bound_driver_needs_nothing() {
    let d = dev("0000:01:00.0", &["0000:01:00.0", "0000:01:00.1"]);
    assert_eq!(d.unbind(&vec![FunctionProbe::Unbound, FunctionProbe::Absent]), Ok(vec![]));
}

#[test]
fn unbind_plans_bound_functions_in_order() {
    let d = dev("0000:01:00.0", &["0000:01:00.0", "0000:01:00.1", "0000:01:00.2"]);
    let probes = vec![FunctionProbe::Bound("nvidia".into()), FunctionProbe::Unbound, FunctionProbe::Bound("snd_hda_intel".into())];
    assert_eq!(
        d.unbind(&probes),
        Ok(vec![
            Unbinding { func: "0000:01:00.0".into(), driver: "nvidia".into() },
            Unbinding { func: "0000:01:00.2".into(), driver: "snd_hda_intel".into() },
        ])
    );
    let probes = vec![FunctionProbe::Bound("nvidia".into()), FunctionProbe::Failed("denied".into())];
    let d2 = dev("0000:01:00.0", &["0000:01:00.0", "0000:01:00.1"]);
    assert_eq!(d2.unbind(&probes), Err(GraphicsDeviceError::PciDriver { device: "0000:01:00.0".into(), why: "denied".into() }));
}

#[test]
fn remove_refuses_bound_function() {
    let d = dev("0000:01:00.0", &["0000:01:00.0", "0000:01:00.1"]);
    let probes = vec![FunctionProbe::Unbound, FunctionProbe::Bound("snd_hda_intel".into())];
    assert_eq!(
        d.remove(&probes),
        Err(GraphicsDeviceError::DeviceInUse { func: "0000:01:00.1".into(), driver: "snd_hda_intel".into() })
    );
    assert_eq!(d.remove(&vec![FunctionProbe::Unbound, FunctionProbe::Absent]), Ok(vec!["0000:01:00.0".to_string()]));
    assert_eq!(
        d.remove(&vec![FunctionProbe::Failed("io".into()), FunctionProbe::Unbound]),
        Err(GraphicsDeviceError::PciDriver { device: "0000:01:00.0".into(), why: "io".into() })
    );
}

#[test]
fn remove_twice_on_absent_device() {
    let d = dev("0000:01:00.0", &["0000:01:00.0", "0000:01:00.1"]);
    let absent = vec![FunctionProbe::Absent, FunctionProbe::Absent];
    assert_eq!(d.remove(&absent), Ok(vec![]));
    assert_eq!(d.remove(&absent), Ok(vec![]));
}

#[test]
fn power_off_stops_at_first_unbind_failure() {
    let g = topology(0, 1, 3, 0);
    let mut p = match g.set_power(false) {
        Ok(PowerAction::PowerOff(p)) => p,
        _ => panic!("expected the power-off pipeline"),
    };
    let mut seen = Vec::new();
    let failure = GraphicsDeviceError::Unbind { func: "0000:01:01.0".into(), driver: "nvidia".into(), why: "busy".into() };
    while let Some(step) = p.next_step() {
        seen.push(step);
        let outcome = if seen.len() == 2 { Err(failure.clone()) } else { Ok(()) };
        p.record(outcome);
    }
    assert_eq!(seen, vec![Unbind(0), Unbind(1)]);
    assert_eq!(p.result(), Err(failure));
}

#[test]
fn power_off_runs_unbinds_then_removes() {
    let g = topology(1, 0, 2, 0);
    let mut p = match g.set_power(false) {
        Ok(PowerAction::PowerOff(p)) => p,
        _ => panic!("expected the power-off pipeline"),
    };
    let mut seen = Vec::new();
    while let Some(step) = p.next_step() {
        seen.push(step);
        p.record(Ok(()));
    }
    assert_eq!(seen, vec![Unbind(0), Unbind(1), Remove(0), Remove(1)]);
    assert_eq!(p.result(), Ok(()));
    assert_eq!(switchable().set_power(true), Ok(PowerAction::Rescan));
}

#[test]
fn get_power_and_auto_power() {
    let g = topology(0, 1, 2, 0);
    assert_eq!(g.get_power(&vec![vec![false], vec![false]]), Ok(false));
    assert_eq!(g.get_power(&vec![vec![false], vec![true]]), Ok(true));
    assert!(!g.nvidia[0].is_present(&vec![false]));
    assert_eq!(g.auto_power(&strings(&["i915"]), Some("on\n")).map(|a| a == PowerAction::Rescan), Ok(false));
    assert_eq!(g.auto_power(&strings(&["nvidia"]), Some("on-demand\n")), Ok(PowerAction::Rescan));
}

#[test]
fn scan_sorts_display_controllers_by_vendor() {
    let entries = vec![
        entry("0000:00:02.0", 0x030000, 0x8086),
        entry("0000:00:1f.3", 0x040300, 0x8086),
        entry("0000:01:00.0", 0x030000, 0x10DE),
        entry("0000:01:00.1", 0x040300, 0x10DE),
        entry("0000:05:00.0", 0x038000, 0x1002),
        entry("0000:07:00.0", 0x030200, 0x1234),
        entry("0000:08:00.0", 0x020000, 0x10DE),
    ];
    let g = Graphics::new(&entries);
    assert_eq!(g.intel.len(), 1);
    assert_eq!(g.intel[0].id(), "0000:00:02.0");
    assert_eq!(g.intel[0].functions(), &strings(&["0000:00:02.0"]));
    assert_eq!(g.nvidia.len(), 1);
    assert_eq!(g.nvidia[0].functions(), &strings(&["0000:01:00.0", "0000:01:00.1"]));
    assert_eq!(g.amd.len(), 1);
    assert_eq!(g.other.len(), 1);
    assert_eq!(g.other[0].id(), "0000:07:00.0");
    assert!(g.can_switch());
    assert!(is_display_class(0x030000));
    assert!(!is_display_class(0x040300));
    assert_eq!(classify_vendor(0x10DE), VendorKind::Nvidia);
    assert_eq!(classify_vendor(0x1002), VendorKind::Amd);
    assert_eq!(classify_vendor(0x8086), VendorKind::Intel);
    assert_eq!(classify_vendor(0x1af4), VendorKind::Other);
}

#[test]
fn initramfs_tool_choice() {
    assert_eq!(initramfs_command(true), ("dracut", "--force"));
    assert_eq!(initramfs_command(false), ("update-initramfs", "-u"));
}

fn chip(devid: &str, features: &[&str]) -> NvidiaDevice {
    NvidiaDevice {
        devid: devid.to_string(),
        subdeviceid: None,
        subvendorid: None,
        name: "GPU".to_string(),
        legacybranch: None,
        features: strings(features),
    }
}

#[test]
fn device_database_lookup() {
    let chips = vec![chip("0x1C8D", &["runtimepm"]), chip("0x1F95", &["kernelopen"]), chip("0x1F95", &["runtimepm"])];
    assert_eq!(parse_device_id("0x1f95\n"), Ok(0x1f95));
    assert!(matches!(parse_device_id("0xzz\n"), Err(GraphicsDeviceError::SysFs(_))));
    assert_eq!(find_nvidia_device(&chips, 0x1f95), Ok(1));
    assert_eq!(gpu_supports_runtimepm(&chips, 0x1f95), Ok(false));
    assert_eq!(gpu_supports_runtimepm(&chips, 0x1c8d), Ok(true));
    assert!(matches!(gpu_supports_runtimepm(&chips, 0x2000), Err(GraphicsDeviceError::Json(_))));
    assert_eq!(nvidia_major("535.113.01\n"), 535);
    assert_eq!(nvidia_major("garbage"), 0);
}

#[test]
fn default_graphics_decision() {
    let g = switchable();
    assert_eq!(g.get_default_graphics("Dell Inc.\n", true), Ok("nvidia".to_string()));
    assert_eq!(g.get_default_graphics("System76\n", true), Ok("hybrid".to_string()));
    assert_eq!(g.get_default_graphics("System76\n", false), Ok("integrated".to_string()));
    let list = strings(&["oryp4", "oryp5"]);
    assert_eq!(g.get_external_displays_require_dgpu("oryp5\n", &list), Ok(true));
    assert_eq!(g.get_external_displays_require_dgpu("galp5\n", &list), Ok(false));
}
