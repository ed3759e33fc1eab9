use spdk_io::error::Error;
use spdk_io::nvme::transport::{NVME_TRANSPORT_PCIE, NVME_TRANSPORT_RDMA, NVME_TRANSPORT_TCP, NVMF_ADRFAM_IPV4};
use spdk_io::nvme::TransportId;

#[test]
fn pcie_transport_id() {
    let t = TransportId::pcie("0000:00:04.0").unwrap();
    assert_eq!(t.transport_type(), NVME_TRANSPORT_PCIE);
    assert_eq!(t.transport_type(), 256);
    assert_eq!(t.address_family(), 0);
    assert_eq!(t.transport_string(), "PCIe");
    assert_eq!(t.address(), "0000:00:04.0");
    assert_eq!(t.service_id(), "");
    assert_eq!(t.subnqn(), "");
    assert_eq!(t.transport_name(), "PCIe");
}

#[test]
fn pcie_address_too_long() {
    let addr = "a".repeat(257);
    match TransportId::pcie(&addr) {
        Err(Error::InvalidArgument(m)) => assert_eq!(m, "PCI address too long: 257 (max 256)"),
        other => panic!("unexpected: {:?}", other),
    }
    assert!(TransportId::pcie(&"a".repeat(256)).is_ok());
}

#[test]
fn tcp_transport_id() {
    let t = TransportId::tcp("127.0.0.1", "4420", "nqn.2024-01.io.spdk:test").unwrap();
    assert_eq!(t.transport_type(), NVME_TRANSPORT_TCP);
    assert_eq!(t.address_family(), NVMF_ADRFAM_IPV4);
    assert_eq!(t.transport_string(), "TCP");
    assert_eq!(t.address(), "127.0.0.1");
    assert_eq!(t.service_id(), "4420");
    assert_eq!(t.subnqn(), "nqn.2024-01.io.spdk:test");
    assert_eq!(t.transport_name(), "TCP");
}

#[test]
fn rdma_transport_id() {
    let t = TransportId::rdma("192.168.1.100", "4420", "nqn.2024-01.io.spdk:cnode1").unwrap();
    assert_eq!(t.transport_type(), NVME_TRANSPORT_RDMA);
    assert_eq!(t.transport_type(), 1);
    assert_eq!(t.transport_string(), "RDMA");
    assert_eq!(t.address(), "192.168.1.100");
    assert_eq!(t.transport_name(), "RDMA");
}

#[test]
fn fabric_field_errors_in_order() {
    let long_addr = "1".repeat(300);
    let long_port = "2".repeat(33);
    let long_nqn = "n".repeat(224);
    match TransportId::tcp(&long_addr, &long_port, &long_nqn) {
        Err(Error::InvalidArgument(m)) => assert_eq!(m, "address too long: 300 (max 256)"),
        other => panic!("unexpected: {:?}", other),
    }
    match TransportId::tcp("10.0.0.1", &long_port, &long_nqn) {
        Err(Error::InvalidArgument(m)) => assert_eq!(m, "port too long: 33 (max 32)"),
        other => panic!("unexpected: {:?}", other),
    }
    match TransportId::rdma("10.0.0.1", "4420", &long_nqn) {
        Err(Error::InvalidArgument(m)) => assert_eq!(m, "subnqn too long: 224 (max 223)"),
        other => panic!("unexpected: {:?}", other),
    }
    assert!(TransportId::tcp("10.0.0.1", &"2".repeat(32), &"n".repeat(223)).is_ok());
}

#[test]
fn field_lengths_count_bytes_not_characters() {
    // 128 two-byte characters are 256 bytes: they fit; one more does not.
    let fits = "é".repeat(128);
    assert!(TransportId::pcie(&fits).is_ok());
    let too_long = "é".repeat(129);
    match TransportId::pcie(&too_long) {
        Err(Error::InvalidArgument(m)) => assert_eq!(m, "PCI address too long: 258 (max 256)"),
        other => panic!("unexpected: {:?}", other),
    }
}

#[test]
fn field_reads_back_up_to_first_nul() {
    let t = TransportId::tcp("10.0.0.1\0junk", "44\020", "nqn").unwrap();
    assert_eq!(t.address(), "10.0.0.1");
    assert_eq!(t.service_id(), "44");
    assert_eq!(t.subnqn(), "nqn");
    assert_eq!(t.raw_traddr(), "10.0.0.1\0junk");
    assert_eq!(t.raw_trsvcid(), "44\020");
}

#[test]
fn parse_outcome_messages() {
    assert!(TransportId::parse_outcome("trtype:PCIe traddr:0000:00:04.0", 0).is_ok());
    match TransportId::parse_outcome("garbage", -22) {
        Err(Error::InvalidArgument(m)) => assert_eq!(m, "Failed to parse transport ID: garbage"),
        other => panic!("unexpected: {:?}", other),
    }
}

#[test]
fn transport_id_from_parsed_fields() {
    let t = TransportId::from_fields(3, 1, "TCP", "127.0.0.1", "4420", "nqn.test").unwrap();
    assert_eq!(t.transport_type(), 3);
    assert_eq!(t.address_family(), 1);
    assert_eq!(t.raw_trstring(), "TCP");
    assert_eq!(t.address(), "127.0.0.1");
    assert_eq!(t.raw_subnqn(), "nqn.test");
    match TransportId::from_fields(3, 1, &"T".repeat(33), "a", "b", "c") {
        Err(Error::InvalidArgument(m)) => assert_eq!(m, "trstring too long: 33 (max 32)"),
        other => panic!("unexpected: {:?}", other),
    }
    let unknown = TransportId::from_fields(4096, 0, "CUSTOM", "", "", "").unwrap();
    assert_eq!(unknown.transport_name(), "Unknown");
}

#[test]
fn cloned_transport_id_keeps_fields() {
    let t = TransportId::rdma("10.0.0.2", "4421", "nqn.x").unwrap();
    let c = t.clone();
    assert_eq!(c.transport_type(), t.transport_type());
    assert_eq!(c.address_family(), t.address_family());
    assert_eq!(c.raw_trstring(), "RDMA");
    assert_eq!(c.address(), "10.0.0.2");
    assert_eq!(c.service_id(), "4421");
    assert_eq!(c.subnqn(), "nqn.x");
}
