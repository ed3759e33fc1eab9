use spdk_io::app::{start_outcome, LogLevel, SpdkApp, SpdkAppBuilder};
use spdk_io::error::Error;

#[test]
fn empty_builder_launches_with_defaults() {
    let l = SpdkApp::builder().launch_options().unwrap();
    assert!(l.name.is_none());
    assert!(l.json_config_file.is_none());
    assert!(l.json_data.is_none());
    assert!(!l.json_config_ignore_errors);
    assert!(l.reactor_mask.is_none());
    assert!(l.rpc_addr.is_none());
    assert!(l.main_core.is_none() && l.mem_size.is_none() && l.shm_id.is_none());
    assert!(!l.no_pci && !l.no_huge);
    assert!(l.print_level.is_none());
}

#[test]
fn builder_settings_reach_launch_options() {
    let l = SpdkAppBuilder::default()
        .name("test_2core")
        .config_file("./config.json")
        .json_data("{}")
        .json_config_ignore_errors(true)
        .reactor_mask("0x3")
        .rpc_addr("/var/tmp/spdk.sock")
        .main_core(0)
        .mem_size_mb(512)
        .shm_id(-1)
        .no_pci(true)
        .no_huge(true)
        .log_level(LogLevel::Debug)
        .launch_options()
        .unwrap();
    assert_eq!(l.name, Some(b"test_2core".to_vec()));
    assert_eq!(l.json_config_file, Some(b"./config.json".to_vec()));
    assert_eq!(l.json_data, Some(b"{}".to_vec()));
    assert!(l.json_config_ignore_errors);
    assert_eq!(l.reactor_mask, Some(b"0x3".to_vec()));
    assert_eq!(l.rpc_addr, Some(b"/var/tmp/spdk.sock".to_vec()));
    assert_eq!(l.main_core, Some(0));
    assert_eq!(l.mem_size, Some(512));
    assert_eq!(l.shm_id, Some(-1));
    assert!(l.no_pci && l.no_huge);
    assert_eq!(l.print_level, Some(4));
}

#[test]
fn later_setting_replaces_earlier() {
    let l = SpdkApp::builder().name("a").mem_size_mb(64).name("b").launch_options().unwrap();
    assert_eq!(l.name, Some(b"b".to_vec()));
    assert_eq!(l.mem_size, Some(64));
}

#[test]
fn first_text_with_nul_is_reported() {
    match SpdkApp::builder().reactor_mask("0x\03").rpc_addr("\0").launch_options() {
        Err(Error::NulError(e)) => {
            assert_eq!(e.nul_position(), 2);
            assert_eq!(e.into_vec(), b"0x\x003".to_vec());
        }
        other => panic!("unexpected: {:?}", other),
    }
    match SpdkApp::builder().name("ok").rpc_addr("a\0").launch_options() {
        Err(Error::NulError(e)) => assert_eq!(e.nul_position(), 1),
        other => panic!("unexpected: {:?}", other),
    }
    // JSON data is passed as bytes and may hold anything.
    assert!(SpdkApp::builder().json_data("a\0b").launch_options().is_ok());
}

#[test]
fn log_levels() {
    assert_eq!(LogLevel::Disabled.as_print_level(), -1);
    assert_eq!(LogLevel::Error.as_print_level(), 0);
    assert_eq!(LogLevel::Warn.as_print_level(), 1);
    assert_eq!(LogLevel::Notice.as_print_level(), 2);
    assert_eq!(LogLevel::Info.as_print_level(), 3);
    assert_eq!(LogLevel::Debug.as_print_level(), 4);
}

#[test]
fn start_outcomes() {
    assert!(start_outcome(0).is_ok());
    match start_outcome(-1) {
        Err(Error::EnvInit(m)) => assert_eq!(m, "spdk_app_start failed with error code -1"),
        other => panic!("unexpected: {:?}", other),
    }
    match start_outcome(12) {
        Err(Error::EnvInit(m)) => assert_eq!(m, "spdk_app_start failed with error code 12"),
        other => panic!("unexpected: {:?}", other),
    }
}
