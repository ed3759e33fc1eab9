//! NVMf transports: which transport a constructor asks SPDK for, and the
//! outcomes of initializing its options and creating it.

use crate::error::Error;
use vstd::prelude::*;

verus! {

/// A kind of NVMf transport.
#[derive(Debug, Clone, Copy, PartialEq, Eq, Structural)]
pub enum NvmfTransportKind {
    /// NVMe over TCP.
    Tcp,
    /// NVMe over RDMA.
    Rdma,
}

/// The name SPDK knows a transport kind by.
pub open spec fn kind_name(kind: NvmfTransportKind) -> Seq<char> {
    match kind {
        NvmfTransportKind::Tcp => "TCP"@,
        NvmfTransportKind::Rdma => "RDMA"@,
    }
}

impl NvmfTransportKind {
    /// The name SPDK knows this transport kind by.
    pub fn name(&self) -> (r: &'static str)
        ensures
            r@ == kind_name(*self),
    {
        match self {
            NvmfTransportKind::Tcp => "TCP",
            NvmfTransportKind::Rdma => "RDMA",
        }
    }
}

/// The message of a transport type SPDK does not know.
pub open spec fn unknown_transport_message(name: Seq<char>) -> Seq<char> {
    "Transport type not found: "@ + name
}

/// The message of a transport SPDK could not create.
pub open spec fn transport_create_failure_message(name: Seq<char>) -> Seq<char> {
    "Failed to create "@ + name + " transport"@
}

/// The outcome of asking SPDK for the default options of the transport
/// `name`: SPDK answers whether it knows the transport.
pub fn opts_init_outcome(name: &str, known: bool) -> (r: Result<(), Error>)
    ensures
        known ==> r is Ok,
        !known ==> (r matches Err(Error::InvalidArgument(m)) && m@ == unknown_transport_message(
            name@,
        )),
{
    if known {
        Ok(())
    } else {
        let mut m = String::from_str("Transport type not found: ");
        m.append(name);
        Err(Error::InvalidArgument(m))
    }
}

/// The outcome of creating the transport `name`.
pub fn create_outcome(name: &str, created: bool) -> (r: Result<(), Error>)
    ensures
        created ==> r is Ok,
        !created ==> (r matches Err(Error::InvalidArgument(m)) && m@
            == transport_create_failure_message(name@)),
{
    if created {
        Ok(())
    } else {
        let mut m = String::from_str("Failed to create ");
        m.append(name);
        m.append(" transport");
        Err(Error::InvalidArgument(m))
    }
}

} // verus!
