//! NVMf target, transport, subsystem and namespace options.

use vstd::prelude::*;

verus! {

/// NVMf target options.
#[derive(Debug, Clone)]
pub struct NvmfTargetOpts {
    /// Target name
    pub name: Option<String>,
    /// Max subsystems
    pub max_subsystems: Option<u32>,
}

impl Default for NvmfTargetOpts {
    fn default() -> (r: Self)
        ensures
            r.name is None,
            r.max_subsystems is None,
    {
        NvmfTargetOpts { name: None, max_subsystems: None }
    }
}

impl NvmfTargetOpts {
    /// The options of a target created by name alone: that name, and SPDK's
    /// defaults for the rest.
    pub fn named(name: &str) -> (r: Self)
        ensures
            r.name matches Some(n) && n@ == name@,
            r.max_subsystems is None,
    {
        NvmfTargetOpts { name: Some(String::from_str(name)), max_subsystems: None }
    }
}

/// NVMf transport options.
#[derive(Debug, Clone)]
pub struct NvmfTransportOpts {
    /// Max I/O size in bytes
    pub max_io_size: Option<u32>,
    /// I/O unit size in bytes
    pub io_unit_size: Option<u32>,
    /// Max queue pairs per controller
    pub max_qpairs_per_ctrlr: Option<u16>,
    /// In-capsule data size
    pub in_capsule_data_size: Option<u32>,
    /// Max AQ depth
    pub max_aq_depth: Option<u32>,
}

impl Default for NvmfTransportOpts {
    fn default() -> (r: Self)
        ensures
            r.max_io_size is None,
            r.io_unit_size is None,
            r.max_qpairs_per_ctrlr is None,
            r.in_capsule_data_size is None,
            r.max_aq_depth is None,
    {
        NvmfTransportOpts {
            max_io_size: None,
            io_unit_size: None,
            max_qpairs_per_ctrlr: None,
            in_capsule_data_size: None,
            max_aq_depth: None,
        }
    }
}

/// NVMf subsystem options.
#[derive(Debug, Clone)]
pub struct NvmfSubsystemOpts {
    /// Serial number
    pub serial_number: Option<String>,
    /// Model number
    pub model_number: Option<String>,
    /// Allow any host to connect
    pub allow_any_host: bool,
}

impl Default for NvmfSubsystemOpts {
    fn default() -> (r: Self)
        ensures
            r.serial_number is None,
            r.model_number is None,
            !r.allow_any_host,
    {
        NvmfSubsystemOpts { serial_number: None, model_number: None, allow_any_host: false }
    }
}

/// NVMf namespace options.
#[derive(Debug, Clone)]
pub struct NvmfNsOpts {
    /// Namespace ID (0 = auto-assign)
    pub nsid: u32,
    /// UUID (empty = auto-generate)
    pub uuid: Option<String>,
}

impl Default for NvmfNsOpts {
    fn default() -> (r: Self)
        ensures
            r.nsid == 0,
            r.uuid is None,
    {
        NvmfNsOpts { nsid: 0, uuid: None }
    }
}

} // verus!
