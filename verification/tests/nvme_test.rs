use spdk_io::error::Error;
use spdk_io::nvme::controller::{
    completion_result, connect_outcome, namespace_id_in_range, namespace_selected, namespace_size,
    no_current_thread_error, probe_step, qpair_outcome, ProbeStep,
};
use spdk_io::nvme::opts::{CtrlrSettings, QpairSettings};
use spdk_io::nvme::{NvmeCtrlrOpts, NvmeQpairOpts};

fn defaults() -> CtrlrSettings {
    CtrlrSettings { num_io_queues: 1024, io_queue_size: 256, admin_queue_size: 32, keep_alive_timeout_ms: 10000 }
}

#[test]
fn default_ctrlr_opts_keep_spdk_defaults() {
    let opts = NvmeCtrlrOpts::default();
    assert_eq!(opts.apply_to(defaults()), defaults());
}

#[test]
fn ctrlr_opts_override_only_what_is_set() {
    let opts = NvmeCtrlrOpts { num_io_queues: Some(4), io_queue_size: None, admin_queue_size: Some(64), keep_alive_timeout_ms: Some(0) };
    let r = opts.apply_to(defaults());
    assert_eq!(r, CtrlrSettings { num_io_queues: 4, io_queue_size: 256, admin_queue_size: 64, keep_alive_timeout_ms: 0 });
    assert_eq!(opts.apply_to(r), r);
}

#[test]
fn qpair_opts_override_only_what_is_set() {
    let d = QpairSettings { io_queue_size: 128, io_queue_requests: 512 };
    assert_eq!(NvmeQpairOpts::default().apply_to(d), d);
    let opts = NvmeQpairOpts { io_queue_size: Some(16), io_queue_requests: None };
    assert_eq!(opts.apply_to(d), QpairSettings { io_queue_size: 16, io_queue_requests: 512 });
}

#[test]
fn probe_steps() {
    assert!(matches!(probe_step(0), ProbeStep::Done));
    assert!(matches!(probe_step(-11), ProbeStep::Pending));
    assert!(matches!(probe_step(-19), ProbeStep::Failed(Error::Os(19))));
    assert!(matches!(probe_step(5), ProbeStep::Failed(Error::Os(-5))));
}

#[test]
fn connect_and_qpair_outcomes() {
    assert!(connect_outcome(true).is_ok());
    assert!(matches!(connect_outcome(false), Err(Error::ControllerNotFound)));
    assert!(qpair_outcome(true).is_ok());
    assert!(matches!(qpair_outcome(false), Err(Error::QpairAlloc)));
    assert!(matches!(no_current_thread_error(), Error::Os(22)));
}

#[test]
fn namespace_ids_are_one_based() {
    assert!(!namespace_id_in_range(0, 4));
    assert!(namespace_id_in_range(1, 4));
    assert!(namespace_id_in_range(4, 4));
    assert!(!namespace_id_in_range(5, 4));
    assert!(!namespace_id_in_range(1, 0));
    assert!(namespace_selected(2, 4, true, true));
    assert!(!namespace_selected(2, 4, true, false));
    assert!(!namespace_selected(2, 4, false, true));
    assert!(!namespace_selected(0, 4, true, true));
}

#[test]
fn completion_status_decoding() {
    // Phase bit alone: success.
    assert!(completion_result(0x0001).is_ok());
    assert!(completion_result(0x0000).is_ok());
    // Bits above the status-code type do not matter.
    assert!(completion_result(0xf000).is_ok());
    // Status code 2 (invalid field), generic type.
    match completion_result(2 << 1) {
        Err(Error::NvmeError { sct, sc }) => assert_eq!((sct, sc), (0, 2)),
        other => panic!("unexpected: {:?}", other),
    }
    // Command-specific type 1, code 0x81, phase bit set.
    match completion_result((1 << 9) | (0x81 << 1) | 1) {
        Err(Error::NvmeError { sct, sc }) => assert_eq!((sct, sc), (1, 0x81)),
        other => panic!("unexpected: {:?}", other),
    }
}

#[test]
fn namespace_size_in_bytes() {
    assert_eq!(namespace_size(262144, 512), 134217728);
    assert_eq!(namespace_size(0, 4096), 0);
}
