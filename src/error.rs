use vstd::prelude::*;

verus! {

/// Everything that can go wrong while inspecting or switching the graphics
/// topology. Causes reported by the operating system are carried as their
/// message text.
#[derive(Debug, Clone, PartialEq, Eq)]
pub enum GraphicsDeviceError {
    /// An external command could not be started.
    Command { cmd: String, why: String },
    /// A function that was to be removed is still held by a driver.
    DeviceInUse { func: String, driver: String },
    /// The driver's device database could not be read or did not list the device.
    Json(String),
    ModprobeFileOpen(String),
    ModprobeFileWrite(String),
    ModulesFetch(String),
    /// The machine lacks either the discrete or the integrated GPU.
    NotSwitchable,
    /// Looking up the driver of a function failed for a reason other than
    /// "no driver bound".
    PciDriver { device: String, why: String },
    PrimeModeRead(String),
    PrimeModeWrite(String),
    Remove { device: String, why: String },
    Rescan(String),
    SysFs(String),
    Unbind { func: String, driver: String, why: String },
    /// The initramfs tool ran and exited unsuccessfully (exit code, if any).
    UpdateInitramfs(Option<i32>),
    /// No initramfs tool could be found; it exited with this code, if any.
    UpdateInitramfsNoTools(Option<i32>),
}

} // verus!
