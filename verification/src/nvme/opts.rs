//! NVMe controller and queue pair options.
//!
//! Each option is optional: when set it overrides SPDK's default, when unset
//! SPDK's default stands.

use vstd::prelude::*;

verus! {

/// The value an optional setting gives: the setting when present, else the
/// default.
pub open spec fn override_with<T>(setting: Option<T>, default: T) -> T {
    match setting {
        Some(v) => v,
        None => default,
    }
}

/// NVMe controller options.
///
/// Configure controller behavior when connecting.
#[derive(Debug, Clone)]
pub struct NvmeCtrlrOpts {
    /// Number of I/O queues to request
    pub num_io_queues: Option<u32>,
    /// I/O queue depth
    pub io_queue_size: Option<u32>,
    /// Admin queue depth
    pub admin_queue_size: Option<u16>,
    /// Keep-alive timeout in ms (0 = disabled)
    pub keep_alive_timeout_ms: Option<u32>,
}

impl Default for NvmeCtrlrOpts {
    fn default() -> (r: Self)
        ensures
            r.num_io_queues is None,
            r.io_queue_size is None,
            r.admin_queue_size is None,
            r.keep_alive_timeout_ms is None,
    {
        NvmeCtrlrOpts {
            num_io_queues: None,
            io_queue_size: None,
            admin_queue_size: None,
            keep_alive_timeout_ms: None,
        }
    }
}

/// The controller settings that the options can change, as SPDK holds them.
#[derive(Debug, Clone, Copy, PartialEq, Eq, Structural)]
pub struct CtrlrSettings {
    pub num_io_queues: u32,
    pub io_queue_size: u32,
    pub admin_queue_size: u16,
    pub keep_alive_timeout_ms: u32,
}

impl NvmeCtrlrOpts {
    /// The settings that result from applying these options over SPDK's
    /// defaults.
    pub open spec fn spec_apply(&self, defaults: CtrlrSettings) -> CtrlrSettings {
        CtrlrSettings {
            num_io_queues: override_with(self.num_io_queues, defaults.num_io_queues),
            io_queue_size: override_with(self.io_queue_size, defaults.io_queue_size),
            admin_queue_size: override_with(self.admin_queue_size, defaults.admin_queue_size),
            keep_alive_timeout_ms: override_with(
                self.keep_alive_timeout_ms,
                defaults.keep_alive_timeout_ms,
            ),
        }
    }

    /// Applies these options over SPDK's default controller settings.
    pub fn apply_to(&self, defaults: CtrlrSettings) -> (r: CtrlrSettings)
        ensures
            r == self.spec_apply(defaults),
            self.num_io_queues matches Some(v) ==> r.num_io_queues == v,
            self.num_io_queues is None ==> r.num_io_queues == defaults.num_io_queues,
            self.io_queue_size matches Some(v) ==> r.io_queue_size == v,
            self.io_queue_size is None ==> r.io_queue_size == defaults.io_queue_size,
            self.admin_queue_size matches Some(v) ==> r.admin_queue_size == v,
            self.admin_queue_size is None ==> r.admin_queue_size == defaults.admin_queue_size,
            self.keep_alive_timeout_ms matches Some(v) ==> r.keep_alive_timeout_ms == v,
            self.keep_alive_timeout_ms is None ==> r.keep_alive_timeout_ms
                == defaults.keep_alive_timeout_ms,
    {
        let mut r = defaults;
        if let Some(v) = self.num_io_queues {
            r.num_io_queues = v;
        }
        if let Some(v) = self.io_queue_size {
            r.io_queue_size = v;
        }
        if let Some(v) = self.admin_queue_size {
            r.admin_queue_size = v;
        }
        if let Some(v) = self.keep_alive_timeout_ms {
            r.keep_alive_timeout_ms = v;
        }
        r
    }
}

/// NVMe queue pair options.
///
/// Configure queue pair behavior when allocating.
#[derive(Debug, Clone)]
pub struct NvmeQpairOpts {
    /// Queue depth
    pub io_queue_size: Option<u32>,
    /// Queue requests
    pub io_queue_requests: Option<u32>,
}

impl Default for NvmeQpairOpts {
    fn default() -> (r: Self)
        ensures
            r.io_queue_size is None,
            r.io_queue_requests is None,
    {
        NvmeQpairOpts { io_queue_size: None, io_queue_requests: None }
    }
}

/// The queue-pair settings that the options can change, as SPDK holds them.
#[derive(Debug, Clone, Copy, PartialEq, Eq, Structural)]
pub struct QpairSettings {
    pub io_queue_size: u32,
    pub io_queue_requests: u32,
}

impl NvmeQpairOpts {
    /// The settings that result from applying these options over SPDK's
    /// defaults.
    pub open spec fn spec_apply(&self, defaults: QpairSettings) -> QpairSettings {
        QpairSettings {
            io_queue_size: override_with(self.io_queue_size, defaults.io_queue_size),
            io_queue_requests: override_with(self.io_queue_requests, defaults.io_queue_requests),
        }
    }

    /// Applies these options over SPDK's default queue-pair settings.
    pub fn apply_to(&self, defaults: QpairSettings) -> (r: QpairSettings)
        ensures
            r == self.spec_apply(defaults),
            self.io_queue_size matches Some(v) ==> r.io_queue_size == v,
            self.io_queue_size is None ==> r.io_queue_size == defaults.io_queue_size,
            self.io_queue_requests matches Some(v) ==> r.io_queue_requests == v,
            self.io_queue_requests is None ==> r.io_queue_requests == defaults.io_queue_requests,
    {
        let mut r = defaults;
        if let Some(v) = self.io_queue_size {
            r.io_queue_size = v;
        }
        if let Some(v) = self.io_queue_requests {
            r.io_queue_requests = v;
        }
        r
    }
}

/// Law: options with nothing set leave SPDK's defaults unchanged, and
/// applying the same options a second time changes nothing more.
pub proof fn lemma_ctrlr_opts_defaults_and_idempotence(opts: NvmeCtrlrOpts, defaults: CtrlrSettings)
    ensures
        (NvmeCtrlrOpts {
            num_io_queues: None,
            io_queue_size: None,
            admin_queue_size: None,
            keep_alive_timeout_ms: None,
        }).spec_apply(defaults) == defaults,
        opts.spec_apply(opts.spec_apply(defaults)) == opts.spec_apply(defaults),
{
}

/// Law: queue-pair options with nothing set leave SPDK's defaults unchanged,
/// and applying the same options a second time changes nothing more.
pub proof fn lemma_qpair_opts_defaults_and_idempotence(opts: NvmeQpairOpts, defaults: QpairSettings)
    ensures
        (NvmeQpairOpts { io_queue_size: None, io_queue_requests: None }).spec_apply(defaults)
            == defaults,
        opts.spec_apply(opts.spec_apply(defaults)) == opts.spec_apply(defaults),
{
}

/// Law: each controller option that is set overrides exactly its own
/// setting with the value asked for, and each option left unset keeps SPDK's
/// default for its setting.
pub proof fn lemma_ctrlr_opts_override_fieldwise(opts: NvmeCtrlrOpts, defaults: CtrlrSettings)
    ensures
        opts.num_io_queues matches Some(v) ==> opts.spec_apply(defaults).num_io_queues == v,
        opts.num_io_queues is None ==> opts.spec_apply(defaults).num_io_queues
            == defaults.num_io_queues,
        opts.io_queue_size matches Some(v) ==> opts.spec_apply(defaults).io_queue_size == v,
        opts.io_queue_size is None ==> opts.spec_apply(defaults).io_queue_size
            == defaults.io_queue_size,
        opts.admin_queue_size matches Some(v) ==> opts.spec_apply(defaults).admin_queue_size == v,
        opts.admin_queue_size is None ==> opts.spec_apply(defaults).admin_queue_size
            == defaults.admin_queue_size,
        opts.keep_alive_timeout_ms matches Some(v) ==> opts.spec_apply(
            defaults,
        ).keep_alive_timeout_ms == v,
        opts.keep_alive_timeout_ms is None ==> opts.spec_apply(defaults).keep_alive_timeout_ms
            == defaults.keep_alive_timeout_ms,
{
}

/// Law: each queue-pair option that is set overrides exactly its own setting
/// with the value asked for, and each option left unset keeps SPDK's default.
pub proof fn lemma_qpair_opts_override_fieldwise(opts: NvmeQpairOpts, defaults: QpairSettings)
    ensures
        opts.io_queue_size matches Some(v) ==> opts.spec_apply(defaults).io_queue_size == v,
        opts.io_queue_size is None ==> opts.spec_apply(defaults).io_queue_size
            == defaults.io_queue_size,
        opts.io_queue_requests matches Some(v) ==> opts.spec_apply(defaults).io_queue_requests
            == v,
        opts.io_queue_requests is None ==> opts.spec_apply(defaults).io_queue_requests
            == defaults.io_queue_requests,
{
}

} // verus!
