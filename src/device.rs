use vstd::prelude::*;
use crate::error::GraphicsDeviceError;

verus! {

/// What the sysfs tree showed for one PCI function at the moment it was looked at.
#[derive(Debug, Clone, PartialEq, Eq)]
pub enum FunctionProbe {
    /// The function's sysfs path is gone.
    Absent,
    /// The function is present and no driver is bound to it.
    Unbound,
    /// The function is present and held by the named driver.
    Bound(String),
    /// The function is present but its driver could not be looked up.
    Failed(String),
}

/// One driver unbind to perform: detach `driver` from the function `func`.
#[derive(Debug, Clone, PartialEq, Eq)]
pub struct Unbinding {
    pub func: String,
    pub driver: String,
}

/// The PCI functions (VGA, audio, USB-C controller, ...) that make up one GPU.
pub struct GraphicsDevice {
    id: String,
    functions: Vec<String>,
}

/// The unbinds owed for the first `probes.len()` functions: one for each bound
/// function, in order.
pub open spec fn unbind_calls(funcs: Seq<String>, probes: Seq<FunctionProbe>) -> Seq<Unbinding>
    decreases probes.len(),
{
    if probes.len() == 0 {
        Seq::empty()
    } else {
        let rest = unbind_calls(funcs, probes.drop_last());
        match probes.last() {
            FunctionProbe::Bound(d) => rest.push(Unbinding { func: funcs[probes.len() - 1], driver: d }),
            _ => rest,
        }
    }
}

/// The first driver lookup that failed among `probes`, if any.
pub open spec fn first_lookup_failure(probes: Seq<FunctionProbe>) -> Option<String>
    decreases probes.len(),
{
    if probes.len() == 0 {
        None
    } else {
        match first_lookup_failure(probes.drop_last()) {
            Some(m) => Some(m),
            None => match probes.last() {
                FunctionProbe::Failed(m) => Some(m),
                _ => None,
            },
        }
    }
}

/// What unbinding a device owes: the unbinds of its bound functions, or the
/// first failed driver lookup.
pub open spec fn unbind_outcome(id: String, funcs: Seq<String>, probes: Seq<FunctionProbe>) -> Result<
    Seq<Unbinding>,
    GraphicsDeviceError,
> {
    match first_lookup_failure(probes) {
        Some(why) => Err(GraphicsDeviceError::PciDriver { device: id, why }),
        None => Ok(unbind_calls(funcs, probes)),
    }
}

/// The first function among `probes` that forbids removal: one still held by a
/// driver, or one whose driver could not be looked up.
pub open spec fn removal_blocker(id: String, funcs: Seq<String>, probes: Seq<FunctionProbe>) -> Option<
    GraphicsDeviceError,
>
    decreases probes.len(),
{
    if probes.len() == 0 {
        None
    } else {
        match removal_blocker(id, funcs, probes.drop_last()) {
            Some(e) => Some(e),
            None => match probes.last() {
                FunctionProbe::Bound(d) => Some(
                    GraphicsDeviceError::DeviceInUse { func: funcs[probes.len() - 1], driver: d },
                ),
                FunctionProbe::Failed(why) => Some(GraphicsDeviceError::PciDriver { device: id, why }),
                _ => None,
            },
        }
    }
}

/// The functions to remove: the present ones that no driver holds, in order.
pub open spec fn removal_targets(funcs: Seq<String>, probes: Seq<FunctionProbe>) -> Seq<String>
    decreases probes.len(),
{
    if probes.len() == 0 {
        Seq::empty()
    } else {
        let rest = removal_targets(funcs, probes.drop_last());
        match probes.last() {
            FunctionProbe::Unbound => rest.push(funcs[probes.len() - 1]),
            _ => rest,
        }
    }
}

/// What removing a device owes: the removals of its free functions, or the
/// first function that forbids removal.
pub open spec fn remove_outcome(id: String, funcs: Seq<String>, probes: Seq<FunctionProbe>) -> Result<
    Seq<String>,
    GraphicsDeviceError,
> {
    match removal_blocker(id, funcs, probes) {
        Some(e) => Err(e),
        None => Ok(removal_targets(funcs, probes)),
    }
}

/// Once a prefix of the probes holds a failed lookup, every longer prefix
/// reports that same failure first.
proof fn lemma_lookup_failure_extends(probes: Seq<FunctionProbe>, j: int, k: int)
    requires
        0 <= j <= k <= probes.len(),
        first_lookup_failure(probes.subrange(0, j)) is Some,
    ensures
        first_lookup_failure(probes.subrange(0, k)) == first_lookup_failure(probes.subrange(0, j)),
    decreases k - j,
{
    if k > j {
        lemma_lookup_failure_extends(probes, j, k - 1);
        assert(probes.subrange(0, k).drop_last() == probes.subrange(0, k - 1));
    }
}

/// Once a prefix of the probes holds a blocker, every longer prefix reports
/// that same blocker first.
proof fn lemma_blocker_extends(id: String, funcs: Seq<String>, probes: Seq<FunctionProbe>, j: int, k: int)
    requires
        0 <= j <= k <= probes.len(),
        removal_blocker(id, funcs, probes.subrange(0, j)) is Some,
    ensures
        removal_blocker(id, funcs, probes.subrange(0, k)) == removal_blocker(id, funcs, probes.subrange(0, j)),
    decreases k - j,
{
    if k > j {
        lemma_blocker_extends(id, funcs, probes, j, k - 1);
        assert(probes.subrange(0, k).drop_last() == probes.subrange(0, k - 1));
    }
}

/// Unbinding a device none of whose functions holds a driver owes no unbind
/// at all, and succeeds.
pub proof fn lemma_unbind_nothing_bound(id: String, funcs: Seq<String>, probes: Seq<FunctionProbe>)
    requires
        forall|i: int| 0 <= i < probes.len() ==> #[trigger] probes[i] is Absent || probes[i] is Unbound,
    ensures
        unbind_outcome(id, funcs, probes) == Ok::<Seq<Unbinding>, GraphicsDeviceError>(Seq::empty()),
    decreases probes.len(),
{
    if probes.len() > 0 {
        let rest = probes.drop_last();
        assert forall|i: int| 0 <= i < rest.len() implies #[trigger] rest[i] is Absent || rest[i] is Unbound by {
            assert(rest[i] == probes[i]);
        }
        lemma_unbind_nothing_bound(id, funcs, rest);
        assert(probes.last() == probes[probes.len() - 1]);
    }
}

/// Removing a device refuses while a present function is still held by a
/// driver: with no failed lookup, the outcome is a device-in-use error, and
/// no removal is owed.
pub proof fn lemma_remove_refuses_bound(id: String, funcs: Seq<String>, probes: Seq<FunctionProbe>, k: int)
    requires
        0 <= k < probes.len(),
        probes[k] is Bound,
        forall|i: int| 0 <= i < probes.len() ==> !(#[trigger] probes[i] is Failed),
    ensures
        remove_outcome(id, funcs, probes) matches Err(GraphicsDeviceError::DeviceInUse { .. }),
    decreases probes.len(),
{
    let rest = probes.drop_last();
    assert forall|i: int| 0 <= i < rest.len() implies !(#[trigger] rest[i] is Failed) by {
        assert(rest[i] == probes[i]);
    }
    if k < probes.len() - 1 {
        assert(rest[k] == probes[k]);
        lemma_remove_refuses_bound(id, funcs, rest, k);
    } else {
        lemma_blocker_in_use_or_none(id, funcs, rest);
    }
}

/// Without failed lookups, the only blocker a prefix can hold is a function
/// in use.
proof fn lemma_blocker_in_use_or_none(id: String, funcs: Seq<String>, probes: Seq<FunctionProbe>)
    requires
        forall|i: int| 0 <= i < probes.len() ==> !(#[trigger] probes[i] is Failed),
    ensures
        removal_blocker(id, funcs, probes) is None || removal_blocker(id, funcs, probes) matches Some(
            GraphicsDeviceError::DeviceInUse { .. },
        ),
    decreases probes.len(),
{
    if probes.len() > 0 {
        let rest = probes.drop_last();
        assert forall|i: int| 0 <= i < rest.len() implies !(#[trigger] rest[i] is Failed) by {
            assert(rest[i] == probes[i]);
        }
        lemma_blocker_in_use_or_none(id, funcs, rest);
        assert(probes.last() == probes[probes.len() - 1]);
    }
}

/// Removal is idempotent: on a device whose functions are all gone it owes
/// nothing and succeeds, as often as it is asked.
pub proof fn lemma_remove_absent_idempotent(
    id: String,
    funcs: Seq<String>,
    first: Seq<FunctionProbe>,
    second: Seq<FunctionProbe>,
)
    requires
        forall|i: int| 0 <= i < first.len() ==> #[trigger] first[i] is Absent,
        forall|i: int| 0 <= i < second.len() ==> #[trigger] second[i] is Absent,
    ensures
        remove_outcome(id, funcs, first) == Ok::<Seq<String>, GraphicsDeviceError>(Seq::empty()),
        remove_outcome(id, funcs, second) == Ok::<Seq<String>, GraphicsDeviceError>(Seq::empty()),
{
    lemma_remove_all_absent(id, funcs, first);
    lemma_remove_all_absent(id, funcs, second);
}

proof fn lemma_remove_all_absent(id: String, funcs: Seq<String>, probes: Seq<FunctionProbe>)
    requires
        forall|i: int| 0 <= i < probes.len() ==> #[trigger] probes[i] is Absent,
    ensures
        removal_blocker(id, funcs, probes) is None,
        removal_targets(funcs, probes) == Seq::<String>::empty(),
    decreases probes.len(),
{
    if probes.len() > 0 {
        let rest = probes.drop_last();
        assert forall|i: int| 0 <= i < rest.len() implies #[trigger] rest[i] is Absent by {
            assert(rest[i] == probes[i]);
        }
        lemma_remove_all_absent(id, funcs, rest);
        assert(probes.last() == probes[probes.len() - 1]);
    }
}

impl GraphicsDevice {
    pub closed spec fn spec_id(&self) -> String {
        self.id
    }

    pub closed spec fn spec_functions(&self) -> Seq<String> {
        self.functions@
    }

    pub fn new(id: String, functions: Vec<String>) -> (r: GraphicsDevice)
        ensures
            r.spec_id() == id,
            r.spec_functions() == functions@,
    {
        GraphicsDevice { id, functions }
    }

    /// The PCI slot id of the device's display function.
    pub fn id(&self) -> (r: &String)
        ensures
            *r == self.spec_id(),
    {
        &self.id
    }

    /// The ids of all functions of the device, in bus order.
    pub fn functions(&self) -> (r: &Vec<String>)
        ensures
            r@ == self.spec_functions(),
    {
        &self.functions
    }

    /// True if any function of the device is still present; `present[i]` tells
    /// whether the i-th function's sysfs path exists.
    pub fn is_present(&self, present: &Vec<bool>) -> (r: bool)
        requires
            present.len() == self.spec_functions().len(),
        ensures
            r == exists|i: int| 0 <= i < present.len() && present[i],
    {
        let mut i: usize = 0;
        while i < present.len()
            invariant
                i <= present.len(),
                forall|j: int| 0 <= j < i ==> !present[j],
            decreases present.len() - i,
        {
            if present[i] {
                return true;
            }
            i = i + 1;
        }
        false
    }

    /// Decides how to detach every driver from the device, given a probe of each
    /// function. Functions that are absent or have no driver need nothing; a
    /// failed driver lookup is an error and nothing is to be unbound.
    pub fn unbind(&self, probes: &Vec<FunctionProbe>) -> (r: Result<Vec<Unbinding>, GraphicsDeviceError>)
        requires
            probes.len() == self.spec_functions().len(),
        ensures
            match r {
                Ok(calls) => unbind_outcome(self.spec_id(), self.spec_functions(), probes@) == Ok::<
                    Seq<Unbinding>,
                    GraphicsDeviceError,
                >(calls@),
                Err(e) => unbind_outcome(self.spec_id(), self.spec_functions(), probes@) == Err::<
                    Seq<Unbinding>,
                    GraphicsDeviceError,
                >(e),
            },
    {
        let mut calls: Vec<Unbinding> = Vec::new();
        let mut i: usize = 0;
        while i < probes.len()
            invariant
                i <= probes.len(),
                probes.len() == self.functions.len(),
                first_lookup_failure(probes@.subrange(0, i as int)) is None,
                calls@ == unbind_calls(self.functions@, probes@.subrange(0, i as int)),
            decreases probes.len() - i,
        {
            let ghost prefix = probes@.subrange(0, i as int + 1);
            assert(prefix.drop_last() == probes@.subrange(0, i as int));
            match &probes[i] {
                FunctionProbe::Bound(d) => {
                    calls.push(Unbinding { func: self.functions[i].clone(), driver: d.clone() });
                },
                FunctionProbe::Failed(why) => {
                    proof {
                        lemma_lookup_failure_extends(probes@, i as int + 1, probes.len() as int);
                        assert(probes@.subrange(0, probes.len() as int) == probes@);
                    }
                    return Err(GraphicsDeviceError::PciDriver { device: self.id.clone(), why: why.clone() });
                },
                _ => {},
            }
            i = i + 1;
        }
        assert(probes@.subrange(0, probes.len() as int) == probes@);
        Ok(calls)
    }

    /// Decides which functions of the device to remove, given a probe of each.
    /// Removal is refused outright while any present function is still held by
    /// a driver (or its driver cannot be looked up); absent functions count as
    /// already removed.
    pub fn remove(&self, probes: &Vec<FunctionProbe>) -> (r: Result<Vec<String>, GraphicsDeviceError>)
        requires
            probes.len() == self.spec_functions().len(),
        ensures
            match r {
                Ok(targets) => remove_outcome(self.spec_id(), self.spec_functions(), probes@) == Ok::<
                    Seq<String>,
                    GraphicsDeviceError,
                >(targets@),
                Err(e) => remove_outcome(self.spec_id(), self.spec_functions(), probes@) == Err::<
                    Seq<String>,
                    GraphicsDeviceError,
                >(e),
            },
    {
        let mut targets: Vec<String> = Vec::new();
        let mut i: usize = 0;
        while i < probes.len()
            invariant
                i <= probes.len(),
                probes.len() == self.functions.len(),
                removal_blocker(self.id, self.functions@, probes@.subrange(0, i as int)) is None,
                targets@ == removal_targets(self.functions@, probes@.subrange(0, i as int)),
            decreases probes.len() - i,
        {
            let ghost prefix = probes@.subrange(0, i as int + 1);
            assert(prefix.drop_last() == probes@.subrange(0, i as int));
            match &probes[i] {
                FunctionProbe::Unbound => {
                    targets.push(self.functions[i].clone());
                },
                FunctionProbe::Bound(d) => {
                    proof {
                        lemma_blocker_extends(self.id, self.functions@, probes@, i as int + 1, probes.len() as int);
                        assert(probes@.subrange(0, probes.len() as int) == probes@);
                    }
                    return Err(GraphicsDeviceError::DeviceInUse { func: self.functions[i].clone(), driver: d.clone() });
                },
                FunctionProbe::Failed(why) => {
                    proof {
                        lemma_blocker_extends(self.id, self.functions@, probes@, i as int + 1, probes.len() as int);
                        assert(probes@.subrange(0, probes.len() as int) == probes@);
                    }
                    return Err(GraphicsDeviceError::PciDriver { device: self.id.clone(), why: why.clone() });
                },
                FunctionProbe::Absent => {},
            }
            i = i + 1;
        }
        assert(probes@.subrange(0, probes.len() as int) == probes@);
        Ok(targets)
    }
}

} // verus!
