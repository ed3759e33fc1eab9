//! NVMe transport identifier.
//!
//! Identifies how to reach an NVMe controller (PCIe, TCP, RDMA). SPDK keeps
//! each text field in a fixed-size C character array with room for a
//! terminating NUL; a field therefore holds at most its array size less one
//! byte, and reading it back stops at the first NUL character.

use crate::error::Error;
use crate::text::{decimal, decimal_u64};
use vstd::prelude::*;
use vstd::string::StringSliceAdditionalSpecFns;
use vstd::utf8::encode_utf8;

verus! {

/// Transport type of a PCIe-attached controller.
pub const NVME_TRANSPORT_PCIE: u32 = 256;

/// Transport type of an RDMA fabric.
pub const NVME_TRANSPORT_RDMA: u32 = 1;

/// Transport type of a TCP fabric.
pub const NVME_TRANSPORT_TCP: u32 = 3;

/// Address family IPv4.
pub const NVMF_ADRFAM_IPV4: u32 = 1;

/// Most bytes the transport-string field holds.
pub const TRSTRING_MAX_LEN: usize = 32;

/// Most bytes the address field holds.
pub const TRADDR_MAX_LEN: usize = 256;

/// Most bytes the service-id (port) field holds.
pub const TRSVCID_MAX_LEN: usize = 32;

/// Most bytes the subsystem-NQN field holds.
pub const NQN_MAX_LEN: usize = 223;

/// Number of bytes of the UTF-8 encoding of a text.
pub open spec fn byte_len(s: Seq<char>) -> nat {
    encode_utf8(s).len()
}

/// Number of characters before the first NUL character of `s` (all of them
/// when there is none).
pub open spec fn c_field_len(s: Seq<char>) -> nat
    decreases s.len(),
{
    if s.len() == 0 {
        0
    } else if s[0] == '\0' {
        0
    } else {
        1 + c_field_len(s.drop_first())
    }
}

/// What reading a C character field back gives: the text up to, and not
/// including, its first NUL character.
pub open spec fn c_field(s: Seq<char>) -> Seq<char> {
    s.take(c_field_len(s) as int)
}

/// The message of a field that does not fit.
pub open spec fn too_long_message(name: Seq<char>, len: nat, max: nat) -> Seq<char> {
    name + " too long: "@ + decimal(len) + " (max "@ + decimal(max) + ")"@
}

/// The message of a PCI address that does not fit.
pub open spec fn pcie_too_long_message(len: nat, max: nat) -> Seq<char> {
    "PCI address too long: "@ + decimal(len) + " (max "@ + decimal(max) + ")"@
}

/// The message of a transport-id text that SPDK could not parse.
pub open spec fn parse_failure_message(input: Seq<char>) -> Seq<char> {
    "Failed to parse transport ID: "@ + input
}

/// The abstract content of a transport identifier: its two numeric fields
/// and the text written into each character field.
pub struct TransportIdView {
    pub trtype: u32,
    pub adrfam: u32,
    pub trstring: Seq<char>,
    pub traddr: Seq<char>,
    pub trsvcid: Seq<char>,
    pub subnqn: Seq<char>,
}

impl TransportIdView {
    /// Every text field fits its C array.
    pub open spec fn fits(self) -> bool {
        &&& byte_len(self.trstring) <= TRSTRING_MAX_LEN
        &&& byte_len(self.traddr) <= TRADDR_MAX_LEN
        &&& byte_len(self.trsvcid) <= TRSVCID_MAX_LEN
        &&& byte_len(self.subnqn) <= NQN_MAX_LEN
    }
}

/// NVMe transport identifier.
///
/// Identifies a unique endpoint on an NVMe fabric or PCIe bus.
#[derive(Debug)]
pub struct TransportId {
    trtype: u32,
    adrfam: u32,
    trstring: String,
    traddr: String,
    trsvcid: String,
    subnqn: String,
}

impl View for TransportId {
    type V = TransportIdView;

    open spec fn view(&self) -> TransportIdView {
        TransportIdView {
            trtype: self.spec_trtype(),
            adrfam: self.spec_adrfam(),
            trstring: self.spec_trstring(),
            traddr: self.spec_traddr(),
            trsvcid: self.spec_trsvcid(),
            subnqn: self.spec_subnqn(),
        }
    }
}

impl Clone for TransportId {
    fn clone(&self) -> (r: Self)
        ensures
            r@ == self@,
    {
        proof {
            use_type_invariant(self);
        }
        TransportId {
            trtype: self.trtype,
            adrfam: self.adrfam,
            trstring: self.trstring.clone(),
            traddr: self.traddr.clone(),
            trsvcid: self.trsvcid.clone(),
            subnqn: self.subnqn.clone(),
        }
    }
}

/// The message reported for the first of the fabric fields that does not
/// fit, in the order address, port, subsystem NQN.
pub open spec fn fabric_error_message(addr: Seq<char>, port: Seq<char>, subnqn: Seq<char>) -> Seq<
    char,
> {
    if byte_len(addr) > TRADDR_MAX_LEN {
        too_long_message("address"@, byte_len(addr), TRADDR_MAX_LEN as nat)
    } else if byte_len(port) > TRSVCID_MAX_LEN {
        too_long_message("port"@, byte_len(port), TRSVCID_MAX_LEN as nat)
    } else {
        too_long_message("subnqn"@, byte_len(subnqn), NQN_MAX_LEN as nat)
    }
}

/// The fabric fields all fit.
pub open spec fn fabric_fields_fit(addr: Seq<char>, port: Seq<char>, subnqn: Seq<char>) -> bool {
    &&& byte_len(addr) <= TRADDR_MAX_LEN
    &&& byte_len(port) <= TRSVCID_MAX_LEN
    &&& byte_len(subnqn) <= NQN_MAX_LEN
}

/// What a fabric constructor (TCP or RDMA) returns.
pub open spec fn fabric_result_spec(
    r: Result<TransportId, Error>,
    trtype: u32,
    trstring: Seq<char>,
    addr: Seq<char>,
    port: Seq<char>,
    subnqn: Seq<char>,
) -> bool {
    match r {
        Ok(t) => {
            &&& fabric_fields_fit(addr, port, subnqn)
            &&& t@ == TransportIdView {
                trtype,
                adrfam: NVMF_ADRFAM_IPV4,
                trstring,
                traddr: addr,
                trsvcid: port,
                subnqn,
            }
            &&& t@.fits()
        },
        Err(e) => {
            &&& !fabric_fields_fit(addr, port, subnqn)
            &&& e matches Error::InvalidArgument(m) && m@ == fabric_error_message(addr, port, subnqn)
        },
    }
}

/// Checks that `value` fits a field of `max_len` bytes and copies it.
fn copy_to_field(value: &str, max_len: usize, name: &str) -> (r: Result<String, Error>)
    ensures
        match r {
            Ok(s) => byte_len(value@) <= max_len && s@ == value@,
            Err(e) => byte_len(value@) > max_len && (e matches Error::InvalidArgument(m) && m@
                == too_long_message(name@, byte_len(value@), max_len as nat)),
        },
{
    let len: usize = value.as_bytes().len();
    if len > max_len {
        let mut m = String::from_str(name);
        m.append(" too long: ");
        m.append(decimal_u64(len as u64).as_str());
        m.append(" (max ");
        m.append(decimal_u64(max_len as u64).as_str());
        m.append(")");
        Err(Error::InvalidArgument(m))
    } else {
        Ok(String::from_str(value))
    }
}

/// The prefix of `s` up to its first NUL character.
fn c_field_of(s: &str) -> (r: &str)
    ensures
        r@ == c_field(s@),
{
    let n: usize = s.unicode_len();
    let mut i: usize = 0;
    while i < n
        invariant_except_break
            n == s@.len(),
            0 <= i <= n,
            forall|j: int| 0 <= j < i ==> s@[j] != '\0',
        ensures
            n == s@.len(),
            0 <= i <= n,
            forall|j: int| 0 <= j < i ==> s@[j] != '\0',
            i == n || s@[i as int] == '\0',
        decreases n - i,
    {
        if s.get_char(i) == '\0' {
            break ;
        }
        i = i + 1;
    }
    proof {
        lemma_c_field_len_is_first_nul(s@, i as int);
    }
    s.substring_char(0, i)
}

/// `c_field_len` is the index of the first NUL character, or the length when
/// there is none.
pub proof fn lemma_c_field_len_is_first_nul(s: Seq<char>, k: int)
    requires
        0 <= k <= s.len(),
        forall|j: int| 0 <= j < k ==> s[j] != '\0',
        k == s.len() || s[k] == '\0',
    ensures
        c_field_len(s) == k,
    decreases k,
{
    if k > 0 {
        let t = s.drop_first();
        assert forall|j: int| 0 <= j < k - 1 implies t[j] != '\0' by {
            assert(t[j] == s[j + 1]);
        }
        if k < s.len() {
            assert(t[k - 1] == s[k]);
        }
        lemma_c_field_len_is_first_nul(t, k - 1);
    }
}

/// Law: a field written with a text that holds no NUL character reads back
/// as exactly that text.
pub proof fn lemma_c_field_round_trip(s: Seq<char>)
    requires
        forall|j: int| 0 <= j < s.len() ==> s[j] != '\0',
    ensures
        c_field(s) == s,
{
    lemma_c_field_len_is_first_nul(s, s.len() as int);
    assert(s.take(s.len() as int) =~= s);
}

/// The characters before `c_field_len(s)` are not NUL, and there are no more
/// of them than `s` has.
proof fn lemma_c_field_len_bounds(s: Seq<char>)
    ensures
        c_field_len(s) <= s.len(),
        forall|j: int| 0 <= j < c_field_len(s) ==> s[j] != '\0',
    decreases s.len(),
{
    if s.len() > 0 && s[0] != '\0' {
        let t = s.drop_first();
        lemma_c_field_len_bounds(t);
        assert forall|j: int| 0 <= j < c_field_len(s) implies s[j] != '\0' by {
            if j > 0 {
                assert(s[j] == t[j - 1]);
            }
        }
    }
}

/// Law: reading a field back gives a prefix of what was written, and that
/// prefix holds no NUL character.
pub proof fn lemma_c_field_is_nul_free_prefix(s: Seq<char>)
    ensures
        c_field(s).len() <= s.len(),
        c_field(s) == s.take(c_field(s).len() as int),
        forall|j: int| 0 <= j < c_field(s).len() ==> c_field(s)[j] != '\0',
{
    lemma_c_field_len_bounds(s);
}

/// The byte length of an ASCII literal is its character count.
proof fn lemma_ascii_literal_len(s: &str)
    requires
        vstd::string::is_ascii(s),
    ensures
        s.spec_bytes().len() == s@.len(),
{
    vstd::string::is_ascii_spec_bytes(s);
}

impl TransportId {
    /// Every text field fits its C array.
    #[verifier::type_invariant]
    spec fn well_formed(&self) -> bool {
        self@.fits()
    }

    pub closed spec fn spec_trtype(&self) -> u32 {
        self.trtype
    }

    pub closed spec fn spec_adrfam(&self) -> u32 {
        self.adrfam
    }

    pub closed spec fn spec_trstring(&self) -> Seq<char> {
        self.trstring@
    }

    pub closed spec fn spec_traddr(&self) -> Seq<char> {
        self.traddr@
    }

    pub closed spec fn spec_trsvcid(&self) -> Seq<char> {
        self.trsvcid@
    }

    pub closed spec fn spec_subnqn(&self) -> Seq<char> {
        self.subnqn@
    }

    /// Create a PCIe transport ID from a BDF address such as `0000:00:04.0`.
    ///
    /// Fails when the address does not fit its field.
    pub fn pcie(addr: &str) -> (r: Result<TransportId, Error>)
        ensures
            match r {
                Ok(t) => {
                    &&& byte_len(addr@) <= TRADDR_MAX_LEN
                    &&& t@ == TransportIdView {
                        trtype: NVME_TRANSPORT_PCIE,
                        adrfam: 0,
                        trstring: "PCIe"@,
                        traddr: addr@,
                        trsvcid: Seq::empty(),
                        subnqn: Seq::empty(),
                    }
                    &&& t@.fits()
                },
                Err(e) => {
                    &&& byte_len(addr@) > TRADDR_MAX_LEN
                    &&& e matches Error::InvalidArgument(m) && m@ == pcie_too_long_message(
                        byte_len(addr@),
                        TRADDR_MAX_LEN as nat,
                    )
                },
            },
    {
        let len: usize = addr.as_bytes().len();
        if len > TRADDR_MAX_LEN {
            let mut m = String::from_str("PCI address too long: ");
            m.append(decimal_u64(len as u64).as_str());
            m.append(" (max ");
            m.append(decimal_u64(TRADDR_MAX_LEN as u64).as_str());
            m.append(")");
            return Err(Error::InvalidArgument(m));
        }
        proof {
            reveal_strlit("PCIe");
            reveal_strlit("");
            lemma_ascii_literal_len("PCIe");
            lemma_ascii_literal_len("");
            assert(byte_len("PCIe"@) == 4);
            assert(byte_len(""@) == 0);
            assert(""@ == Seq::<char>::empty());
        }
        Ok(TransportId {
            trtype: NVME_TRANSPORT_PCIE,
            adrfam: 0,
            trstring: String::from_str("PCIe"),
            traddr: String::from_str(addr),
            trsvcid: String::from_str(""),
            subnqn: String::from_str(""),
        })
    }

    /// A fabric transport ID: the fields are checked in the order address,
    /// port, subsystem NQN, and the first that does not fit is reported.
    fn fabric(trtype: u32, trstring: &str, addr: &str, port: &str, subnqn: &str) -> (r: Result<
        TransportId,
        Error,
    >)
        requires
            byte_len(trstring@) <= TRSTRING_MAX_LEN,
        ensures
            fabric_result_spec(r, trtype, trstring@, addr@, port@, subnqn@),
    {
        let traddr = match copy_to_field(addr, TRADDR_MAX_LEN, "address") {
            Ok(s) => s,
            Err(e) => {
                proof {
                    reveal_strlit("address");
                }
                return Err(e);
            },
        };
        let trsvcid = match copy_to_field(port, TRSVCID_MAX_LEN, "port") {
            Ok(s) => s,
            Err(e) => {
                proof {
                    reveal_strlit("port");
                }
                return Err(e);
            },
        };
        let nqn = match copy_to_field(subnqn, NQN_MAX_LEN, "subnqn") {
            Ok(s) => s,
            Err(e) => {
                proof {
                    reveal_strlit("subnqn");
                }
                return Err(e);
            },
        };
        Ok(TransportId {
            trtype,
            adrfam: NVMF_ADRFAM_IPV4,
            trstring: String::from_str(trstring),
            traddr,
            trsvcid,
            subnqn: nqn,
        })
    }

    /// Create a TCP transport ID from an address, a service port (typically
    /// `4420`) and a subsystem NQN (empty for discovery).
    pub fn tcp(addr: &str, port: &str, subnqn: &str) -> (r: Result<TransportId, Error>)
        ensures
            fabric_result_spec(r, NVME_TRANSPORT_TCP, "TCP"@, addr@, port@, subnqn@),
    {
        proof {
            reveal_strlit("TCP");
            lemma_ascii_literal_len("TCP");
        }
        Self::fabric(NVME_TRANSPORT_TCP, "TCP", addr, port, subnqn)
    }

    /// Create an RDMA transport ID from an address, a service port and a
    /// subsystem NQN.
    pub fn rdma(addr: &str, port: &str, subnqn: &str) -> (r: Result<TransportId, Error>)
        ensures
            fabric_result_spec(r, NVME_TRANSPORT_RDMA, "RDMA"@, addr@, port@, subnqn@),
    {
        proof {
            reveal_strlit("RDMA");
            lemma_ascii_literal_len("RDMA");
        }
        Self::fabric(NVME_TRANSPORT_RDMA, "RDMA", addr, port, subnqn)
    }

    /// The outcome of asking SPDK to parse `input`: a non-zero return code
    /// means the text is not a transport ID.
    pub fn parse_outcome(input: &str, rc: i32) -> (r: Result<(), Error>)
        ensures
            rc == 0 ==> r is Ok,
            rc != 0 ==> (r matches Err(Error::InvalidArgument(m)) && m@ == parse_failure_message(
                input@,
            )),
    {
        if rc != 0 {
            let mut m = String::from_str("Failed to parse transport ID: ");
            m.append(input);
            Err(Error::InvalidArgument(m))
        } else {
            Ok(())
        }
    }

    /// A transport ID from the fields SPDK filled in, each checked to fit in
    /// the order transport string, address, port, subsystem NQN.
    pub fn from_fields(
        trtype: u32,
        adrfam: u32,
        trstring: &str,
        traddr: &str,
        trsvcid: &str,
        subnqn: &str,
    ) -> (r: Result<TransportId, Error>)
        ensures
            match r {
                Ok(t) => t@ == TransportIdView {
                    trtype,
                    adrfam,
                    trstring: trstring@,
                    traddr: traddr@,
                    trsvcid: trsvcid@,
                    subnqn: subnqn@,
                } && t@.fits(),
                Err(e) => {
                    &&& !(TransportIdView {
                        trtype,
                        adrfam,
                        trstring: trstring@,
                        traddr: traddr@,
                        trsvcid: trsvcid@,
                        subnqn: subnqn@,
                    }).fits()
                    &&& e matches Error::InvalidArgument(m) && m@ == (if byte_len(trstring@)
                        > TRSTRING_MAX_LEN {
                        too_long_message(
                            "trstring"@,
                            byte_len(trstring@),
                            TRSTRING_MAX_LEN as nat,
                        )
                    } else {
                        fabric_error_message(traddr@, trsvcid@, subnqn@)
                    })
                },
            },
    {
        let trs = match copy_to_field(trstring, TRSTRING_MAX_LEN, "trstring") {
            Ok(s) => s,
            Err(e) => {
                proof {
                    reveal_strlit("trstring");
                }
                return Err(e);
            },
        };
        match Self::fabric(trtype, trs.as_str(), traddr, trsvcid, subnqn) {
            Ok(t) => Ok(TransportId { adrfam, ..t }),
            Err(e) => Err(e),
        }
    }

    /// Get the transport type.
    pub fn transport_type(&self) -> (r: u32)
        ensures
            r == self@.trtype,
    {
        self.trtype
    }

    /// Get the address family.
    pub fn address_family(&self) -> (r: u32)
        ensures
            r == self@.adrfam,
    {
        self.adrfam
    }

    /// Get the transport string, as SPDK reads it back.
    pub fn transport_string(&self) -> (r: &str)
        ensures
            r@ == c_field(self@.trstring),
    {
        c_field_of(self.trstring.as_str())
    }

    /// Get the address.
    pub fn address(&self) -> (r: &str)
        ensures
            r@ == c_field(self@.traddr),
    {
        c_field_of(self.traddr.as_str())
    }

    /// Get the service ID (port).
    pub fn service_id(&self) -> (r: &str)
        ensures
            r@ == c_field(self@.trsvcid),
    {
        c_field_of(self.trsvcid.as_str())
    }

    /// Get the subsystem NQN.
    pub fn subnqn(&self) -> (r: &str)
        ensures
            r@ == c_field(self@.subnqn),
    {
        c_field_of(self.subnqn.as_str())
    }

    /// The text written into the transport-string field, as copied to C.
    pub fn raw_trstring(&self) -> (r: &str)
        ensures
            r@ == self@.trstring,
            byte_len(r@) <= TRSTRING_MAX_LEN,
    {
        proof {
            use_type_invariant(self);
        }
        self.trstring.as_str()
    }

    /// The text written into the address field, as copied to C.
    pub fn raw_traddr(&self) -> (r: &str)
        ensures
            r@ == self@.traddr,
            byte_len(r@) <= TRADDR_MAX_LEN,
    {
        proof {
            use_type_invariant(self);
        }
        self.traddr.as_str()
    }

    /// The text written into the service-id field, as copied to C.
    pub fn raw_trsvcid(&self) -> (r: &str)
        ensures
            r@ == self@.trsvcid,
            byte_len(r@) <= TRSVCID_MAX_LEN,
    {
        proof {
            use_type_invariant(self);
        }
        self.trsvcid.as_str()
    }

    /// The text written into the subsystem-NQN field, as copied to C.
    pub fn raw_subnqn(&self) -> (r: &str)
        ensures
            r@ == self@.subnqn,
            byte_len(r@) <= NQN_MAX_LEN,
    {
        proof {
            use_type_invariant(self);
        }
        self.subnqn.as_str()
    }

    /// The name of the transport type, as a debug listing shows it.
    pub fn transport_name(&self) -> (r: &'static str)
        ensures
            r@ == transport_name_spec(self@.trtype),
    {
        if self.trtype == NVME_TRANSPORT_PCIE {
            "PCIe"
        } else if self.trtype == NVME_TRANSPORT_TCP {
            "TCP"
        } else if self.trtype == NVME_TRANSPORT_RDMA {
            "RDMA"
        } else {
            "Unknown"
        }
    }
}

/// The name a debug listing gives a transport type.
pub open spec fn transport_name_spec(trtype: u32) -> Seq<char> {
    if trtype == NVME_TRANSPORT_PCIE {
        "PCIe"@
    } else if trtype == NVME_TRANSPORT_TCP {
        "TCP"@
    } else if trtype == NVME_TRANSPORT_RDMA {
        "RDMA"@
    } else {
        "Unknown"@
    }
}

/// Law: the address, port and NQN that a TCP or RDMA transport ID was built
/// from read back unchanged when they hold no NUL character, and the
/// transport ID fits SPDK's fields.
pub proof fn lemma_fabric_round_trip(
    r: Result<TransportId, Error>,
    trtype: u32,
    trstring: Seq<char>,
    addr: Seq<char>,
    port: Seq<char>,
    subnqn: Seq<char>,
)
    requires
        fabric_result_spec(r, trtype, trstring, addr, port, subnqn),
        r is Ok,
        forall|j: int| 0 <= j < addr.len() ==> addr[j] != '\0',
        forall|j: int| 0 <= j < port.len() ==> port[j] != '\0',
        forall|j: int| 0 <= j < subnqn.len() ==> subnqn[j] != '\0',
    ensures
        c_field(r->Ok_0@.traddr) == addr,
        c_field(r->Ok_0@.trsvcid) == port,
        c_field(r->Ok_0@.subnqn) == subnqn,
        r->Ok_0@.fits(),
{
    lemma_c_field_round_trip(addr);
    lemma_c_field_round_trip(port);
    lemma_c_field_round_trip(subnqn);
}

} // verus!
