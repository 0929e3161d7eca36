//! Task resource specifications.

use vstd::prelude::*;
use nonempty::NonEmpty;
use crate::engine::non_empty::{clone_texts, extend_with, optional_texts, texts};

verus! {

/// A set of requested resources. Every part may be absent, which leaves the
/// choice to the backend.
///
/// The two sizes are 64-bit floating point numbers of gigabytes. They are
/// held as their bit patterns, as `f64::to_bits` gives them, and are only
/// carried: no arithmetic is done on them here.
#[derive(Debug)]
pub struct Resources {
    pub(crate) cpu_cores: Option<u64>,
    pub(crate) preemptible: Option<bool>,
    pub(crate) ram_gb: Option<u64>,
    pub(crate) disk_gb: Option<u64>,
    pub(crate) zones: Option<NonEmpty<String>>,
}

/// What a set of requested resources holds.
pub struct ResourcesView {
    /// The number of CPU cores requested.
    pub cpu_cores: Option<u64>,
    /// Whether or not the task may use preemptible resources.
    pub preemptible: Option<bool>,
    /// The requested random access memory size in gigabytes, as bits.
    pub ram_gb: Option<u64>,
    /// The requested disk size in gigabytes, as bits.
    pub disk_gb: Option<u64>,
    /// The associated compute zones; where there are any, at least one.
    pub zones: Option<Seq<Seq<char>>>,
}

impl View for Resources {
    type V = ResourcesView;

    closed spec fn view(&self) -> ResourcesView {
        ResourcesView {
            cpu_cores: self.cpu_cores,
            preemptible: self.preemptible,
            ram_gb: self.ram_gb,
            disk_gb: self.disk_gb,
            zones: optional_texts(self.zones),
        }
    }
}

impl Resources {
    /// Gets a new builder for [`Resources`].
    pub fn builder() -> (r: Builder)
        ensures
            r@ == (ResourcesView {
                cpu_cores: None,
                preemptible: None,
                ram_gb: None,
                disk_gb: None,
                zones: None,
            }),
    {
        Builder { cpu_cores: None, preemptible: None, ram_gb: None, disk_gb: None, zones: None }
    }

    /// A number of CPU cores.
    pub fn cpu_cores(&self) -> (r: Option<u64>)
        ensures
            r == self@.cpu_cores,
    {
        self.cpu_cores
    }

    /// Whether the instance should be preemptible.
    pub fn preemptible(&self) -> (r: Option<bool>)
        ensures
            r == self@.preemptible,
    {
        self.preemptible
    }

    /// The amount of RAM in gigabytes, as the bits of a 64-bit float.
    pub fn ram_gb(&self) -> (r: Option<u64>)
        ensures
            r == self@.ram_gb,
    {
        self.ram_gb
    }

    /// The amount of disk space in gigabytes, as the bits of a 64-bit float.
    pub fn disk_gb(&self) -> (r: Option<u64>)
        ensures
            r == self@.disk_gb,
    {
        self.disk_gb
    }

    /// The set of requested zones.
    pub fn zones(&self) -> (r: Option<&NonEmpty<String>>)
        ensures
            match r {
                Some(zones) => self@.zones == Some(texts(*zones)),
                None => self@.zones is None,
            },
    {
        self.zones.as_ref()
    }

    /// The number of CPUs for a container: the number of cores as a signed
    /// number, where a number beyond the signed range wraps round.
    pub fn cpu_count(&self) -> (r: Option<i64>)
        ensures
            match self@.cpu_cores {
                Some(cores) => r == Some(cores as i64),
                None => r is None,
            },
    {
        match self.cpu_cores {
            Some(cores) => Some(#[verifier::truncate] (cores as i64)),
            None => None,
        }
    }

    /// A copy of the resources.
    pub fn duplicate(&self) -> (r: Self)
        ensures
            r@ == self@,
    {
        Resources {
            cpu_cores: self.cpu_cores,
            preemptible: self.preemptible,
            ram_gb: self.ram_gb,
            disk_gb: self.disk_gb,
            zones: match &self.zones {
                Some(zones) => Some(clone_texts(zones)),
                None => None,
            },
        }
    }
}

impl Clone for Resources {
    fn clone(&self) -> (r: Self)
        ensures
            r@ == self@,
    {
        self.duplicate()
    }
}

/// A builder for [`Resources`].
#[derive(Debug)]
pub struct Builder {
    cpu_cores: Option<u64>,
    preemptible: Option<bool>,
    ram_gb: Option<u64>,
    disk_gb: Option<u64>,
    zones: Option<NonEmpty<String>>,
}

impl View for Builder {
    type V = ResourcesView;

    closed spec fn view(&self) -> ResourcesView {
        ResourcesView {
            cpu_cores: self.cpu_cores,
            preemptible: self.preemptible,
            ram_gb: self.ram_gb,
            disk_gb: self.disk_gb,
            zones: optional_texts(self.zones),
        }
    }
}

impl Builder {
    /// Sets the requested number of CPU cores, in place of an earlier one.
    pub fn cpu_cores(self, value: u64) -> (r: Self)
        ensures
            r@ == (ResourcesView { cpu_cores: Some(value), ..self@ }),
    {
        Builder { cpu_cores: Some(value), ..self }
    }

    /// Sets whether the requested resources are preemptible, in place of an
    /// earlier choice.
    pub fn preemptible(self, value: bool) -> (r: Self)
        ensures
            r@ == (ResourcesView { preemptible: Some(value), ..self@ }),
    {
        Builder { preemptible: Some(value), ..self }
    }

    /// Sets the requested amount of RAM in gigabytes, given as the bits of a
    /// 64-bit float, in place of an earlier amount.
    pub fn ram_gb(self, bits: u64) -> (r: Self)
        ensures
            r@ == (ResourcesView { ram_gb: Some(bits), ..self@ }),
    {
        Builder { ram_gb: Some(bits), ..self }
    }

    /// Sets the requested amount of disk space in gigabytes, given as the
    /// bits of a 64-bit float, in place of an earlier amount.
    pub fn disk_gb(self, bits: u64) -> (r: Self)
        ensures
            r@ == (ResourcesView { disk_gb: Some(bits), ..self@ }),
    {
        Builder { disk_gb: Some(bits), ..self }
    }

    /// Resets the zones to none.
    pub fn reset_zones(self) -> (r: Self)
        ensures
            r@ == (ResourcesView { zones: None, ..self@ }),
    {
        Builder { zones: None, ..self }
    }

    /// Adds zones behind those that were added before.
    pub fn zones(self, values: Vec<String>) -> (r: Self)
        ensures
            r@ == (ResourcesView {
                zones: match self@.zones {
                    Some(before) => Some(before + values@.map_values(|s: String| s@)),
                    None => if values@.len() > 0 {
                        Some(values@.map_values(|s: String| s@))
                    } else {
                        None
                    },
                },
                ..self@
            }),
    {
        let ghost added = values@.map_values(|s: String| s@);
        let ghost old_zones = self.zones;
        let zones = extend_with(self.zones, values);
        proof {
            match old_zones {
                Some(before) => {
                    assert(texts(zones->0) =~= texts(before) + added);
                },
                None => {
                    if added.len() > 0 {
                        assert(texts(zones->0) =~= added);
                    }
                },
            }
        }
        Builder {
            cpu_cores: self.cpu_cores,
            preemptible: self.preemptible,
            ram_gb: self.ram_gb,
            disk_gb: self.disk_gb,
            zones,
        }
    }

    /// Consumes `self` and returns the built [`Resources`].
    pub fn build(self) -> (r: Resources)
        ensures
            r@ == self@,
    {
        Resources {
            cpu_cores: self.cpu_cores,
            preemptible: self.preemptible,
            ram_gb: self.ram_gb,
            disk_gb: self.disk_gb,
            zones: self.zones,
        }
    }
}

} // verus!
