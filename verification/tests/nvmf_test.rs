use spdk_io::error::Error;
use spdk_io::nvmf::subsystem::{
    add_namespace_outcome, completion_status_outcome, model_number_outcome, serial_number_outcome,
    setup_steps, state_change_submit_outcome, subsystem_create_outcome, SubsystemStep,
};
use spdk_io::nvmf::target::{listen_outcome, target_create_outcome};
use spdk_io::nvmf::transport::{create_outcome, opts_init_outcome, NvmfTransportKind};
use spdk_io::nvmf::{NvmfNsOpts, NvmfSubsystemOpts, NvmfTargetOpts, NvmfTransportOpts};

#[test]
fn default_options() {
    let t = NvmfTargetOpts::default();
    assert!(t.name.is_none() && t.max_subsystems.is_none());
    let tr = NvmfTransportOpts::default();
    assert!(tr.max_io_size.is_none() && tr.max_aq_depth.is_none());
    let s = NvmfSubsystemOpts::default();
    assert!(s.serial_number.is_none() && s.model_number.is_none() && !s.allow_any_host);
    let ns = NvmfNsOpts::default();
    assert_eq!(ns.nsid, 0);
    assert!(ns.uuid.is_none());
}

#[test]
fn named_target_options() {
    let o = NvmfTargetOpts::named("nvmf_tgt");
    assert_eq!(o.name.as_deref(), Some("nvmf_tgt"));
    assert!(o.max_subsystems.is_none());
    assert_eq!(o.name_field(), b"nvmf_tgt".to_vec());
}

#[test]
fn target_name_is_cut_to_fit() {
    let long = "x".repeat(300);
    let o = NvmfTargetOpts::named(&long);
    assert_eq!(o.name_field().len(), 255);
    assert_eq!(NvmfTargetOpts::default().name_field(), Vec::<u8>::new());
    let exact = "y".repeat(255);
    assert_eq!(NvmfTargetOpts::named(&exact).name_field(), exact.as_bytes().to_vec());
}

#[test]
fn target_outcomes() {
    assert!(target_create_outcome(true).is_ok());
    match target_create_outcome(false) {
        Err(Error::InvalidArgument(m)) => assert_eq!(m, "Failed to create NVMf target"),
        other => panic!("unexpected: {:?}", other),
    }
    assert!(listen_outcome(0).is_ok());
    assert!(matches!(listen_outcome(-98), Err(Error::Os(98))));
}

#[test]
fn subsystem_setup_order() {
    let opts = NvmfSubsystemOpts {
        serial_number: Some("SPDK001".to_string()),
        model_number: Some("SPDK Model".to_string()),
        allow_any_host: true,
    };
    let steps = setup_steps(&opts);
    assert_eq!(steps.len(), 3);
    assert!(matches!(steps[0], SubsystemStep::AllowAnyHost));
    assert!(matches!(&steps[1], SubsystemStep::SerialNumber(s) if s == "SPDK001"));
    assert!(matches!(&steps[2], SubsystemStep::ModelNumber(m) if m == "SPDK Model"));
    assert!(setup_steps(&NvmfSubsystemOpts::default()).is_empty());
    let only_model = NvmfSubsystemOpts { serial_number: None, model_number: Some("M".to_string()), allow_any_host: false };
    let steps = setup_steps(&only_model);
    assert_eq!(steps.len(), 1);
    assert!(matches!(&steps[0], SubsystemStep::ModelNumber(m) if m == "M"));
}

#[test]
fn subsystem_outcomes() {
    assert!(subsystem_create_outcome("nqn.a", true).is_ok());
    match subsystem_create_outcome("nqn.2016-06.io.spdk:cnode1", false) {
        Err(Error::InvalidArgument(m)) => assert_eq!(m, "Failed to create subsystem: nqn.2016-06.io.spdk:cnode1"),
        other => panic!("unexpected: {:?}", other),
    }
    assert!(serial_number_outcome(0).is_ok());
    match serial_number_outcome(-1) {
        Err(Error::InvalidArgument(m)) => assert_eq!(m, "Failed to set serial number"),
        other => panic!("unexpected: {:?}", other),
    }
    match model_number_outcome(-1) {
        Err(Error::InvalidArgument(m)) => assert_eq!(m, "Failed to set model number"),
        other => panic!("unexpected: {:?}", other),
    }
    assert_eq!(add_namespace_outcome("Null0", 1).unwrap(), 1);
    match add_namespace_outcome("Null0", 0) {
        Err(Error::InvalidArgument(m)) => assert_eq!(m, "Failed to add namespace: Null0"),
        other => panic!("unexpected: {:?}", other),
    }
    assert!(state_change_submit_outcome(0).is_ok());
    assert!(matches!(state_change_submit_outcome(-16), Err(Error::Os(16))));
    assert!(completion_status_outcome(0).is_ok());
    assert!(matches!(completion_status_outcome(-5), Err(Error::Os(5))));
}

#[test]
fn transport_outcomes() {
    assert_eq!(NvmfTransportKind::Tcp.name(), "TCP");
    assert_eq!(NvmfTransportKind::Rdma.name(), "RDMA");
    assert!(opts_init_outcome("TCP", true).is_ok());
    match opts_init_outcome("RDMA", false) {
        Err(Error::InvalidArgument(m)) => assert_eq!(m, "Transport type not found: RDMA"),
        other => panic!("unexpected: {:?}", other),
    }
    match create_outcome("TCP", false) {
        Err(Error::InvalidArgument(m)) => assert_eq!(m, "Failed to create TCP transport"),
        other => panic!("unexpected: {:?}", other),
    }
    assert!(create_outcome("TCP", true).is_ok());
}
