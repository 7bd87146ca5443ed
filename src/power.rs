use vstd::prelude::*;
use crate::error::GraphicsDeviceError;

verus! {

/// One step of powering the discrete GPU off, naming a device by its index
/// among the NVIDIA devices.
#[derive(Debug, Clone, Copy, PartialEq, Eq)]
pub enum PowerOffStep {
    /// Detach every driver from the device.
    Unbind(usize),
    /// Remove every function of the device from the bus.
    Remove(usize),
}

/// The ordered pipeline that powers the discrete GPU off: first every device is
/// unbound, then every device is removed. It stops at the first step that
/// fails, and that failure is the outcome.
#[derive(Debug, Clone, PartialEq, Eq)]
pub struct PowerOff {
    devices: usize,
    removing: bool,
    index: usize,
    failure: Option<GraphicsDeviceError>,
}

/// The `k`-th step of the pipeline over `n` devices.
pub open spec fn step_at(n: nat, k: nat) -> PowerOffStep {
    if k < n {
        PowerOffStep::Unbind(k as usize)
    } else {
        PowerOffStep::Remove((k - n) as usize)
    }
}

impl PowerOff {
    /// Number of devices the pipeline runs over.
    pub closed spec fn spec_devices(&self) -> nat {
        self.devices as nat
    }

    /// Number of steps whose outcome has been recorded.
    pub closed spec fn spec_done(&self) -> nat {
        if self.removing {
            (self.devices + self.index) as nat
        } else {
            self.index as nat
        }
    }

    /// The failure that stopped the pipeline, if one did.
    pub closed spec fn spec_failure(&self) -> Option<GraphicsDeviceError> {
        self.failure
    }

    pub closed spec fn wf(&self) -> bool {
        self.index <= self.devices && (!self.removing ==> self.index < self.devices || self.devices == 0)
    }

    /// The step still owed, if the pipeline has neither failed nor finished.
    pub open spec fn spec_next(&self) -> Option<PowerOffStep> {
        if self.spec_failure() is None && self.spec_done() < 2 * self.spec_devices() {
            Some(step_at(self.spec_devices(), self.spec_done()))
        } else {
            None
        }
    }

    /// The state after the pending step ended with `outcome`.
    pub open spec fn spec_record(&self, outcome: Result<(), GraphicsDeviceError>) -> (
        nat,
        Option<GraphicsDeviceError>,
    ) {
        match outcome {
            Ok(()) => (self.spec_done() + 1, None),
            Err(e) => (self.spec_done() + 1, Some(e)),
        }
    }

    /// The outcome of the pipeline as it stands.
    pub open spec fn spec_result(&self) -> Result<(), GraphicsDeviceError> {
        match self.spec_failure() {
            Some(e) => Err(e),
            None => Ok(()),
        }
    }

    /// A pipeline over `devices` devices with nothing done yet.
    pub fn new(devices: usize) -> (r: PowerOff)
        ensures
            r.wf(),
            r.spec_devices() == devices,
            r.spec_done() == 0,
            r.spec_failure() is None,
    {
        PowerOff { devices, removing: false, index: 0, failure: None }
    }

    /// The step to perform next, or `None` once the pipeline has failed or
    /// every step has succeeded.
    pub fn next_step(&self) -> (r: Option<PowerOffStep>)
        requires
            self.wf(),
        ensures
            r == self.spec_next(),
    {
        if self.failure.is_some() || self.index >= self.devices {
            None
        } else if self.removing {
            Some(PowerOffStep::Remove(self.index))
        } else {
            Some(PowerOffStep::Unbind(self.index))
        }
    }

    /// Records how the pending step ended.
    pub fn record(&mut self, outcome: Result<(), GraphicsDeviceError>)
        requires
            old(self).wf(),
            old(self).spec_next() is Some,
        ensures
            final(self).wf(),
            final(self).spec_devices() == old(self).spec_devices(),
            (final(self).spec_done(), final(self).spec_failure()) == old(self).spec_record(outcome),
    {
        self.index = self.index + 1;
        if !self.removing && self.index == self.devices {
            self.removing = true;
            self.index = 0;
        }
        match outcome {
            Ok(()) => {},
            Err(e) => {
                self.failure = Some(e);
            },
        }
    }

    /// The outcome: the failure that stopped the pipeline, or success.
    pub fn result(self) -> (r: Result<(), GraphicsDeviceError>)
        ensures
            r == self.spec_result(),
    {
        match self.failure {
            Some(e) => Err(e),
            None => Ok(()),
        }
    }
}

/// Powering off is fail-fast: once a step fails, no further step is owed and
/// the pipeline's outcome is exactly that step's failure.
pub proof fn lemma_power_off_fail_fast(p: PowerOff, q: PowerOff, e: GraphicsDeviceError)
    requires
        p.wf(),
        p.spec_next() is Some,
        q.spec_devices() == p.spec_devices(),
        (q.spec_done(), q.spec_failure()) == p.spec_record(Err(e)),
    ensures
        q.spec_next() is None,
        q.spec_result() == Err::<(), GraphicsDeviceError>(e),
{
}

} // verus!
