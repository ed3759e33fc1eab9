//! NVMe controller: the decisions taken around connecting, namespace lookup,
//! queue-pair allocation and command completion.

use crate::error::{Error, EAGAIN};
use vstd::prelude::*;

verus! {

/// What to do after one poll of an asynchronous controller probe.
#[derive(Debug)]
pub enum ProbeStep {
    /// The probe has finished; look at what was attached.
    Done,
    /// The probe is still running; poll the SPDK thread and poll again.
    Pending,
    /// The probe failed with this error.
    Failed(Error),
}

/// Decides the next step of an asynchronous connect from the return code of
/// one probe poll: zero is completion, `-EAGAIN` is "still in progress", any
/// other code is a negative errno.
pub fn probe_step(rc: i32) -> (s: ProbeStep)
    requires
        rc != i32::MIN,
    ensures
        rc == 0 ==> s is Done,
        rc == -EAGAIN ==> s is Pending,
        rc != 0 && rc != -EAGAIN ==> s == ProbeStep::Failed(Error::Os(-rc as i32)),
{
    if rc == 0 {
        ProbeStep::Done
    } else if rc == -EAGAIN {
        ProbeStep::Pending
    } else {
        ProbeStep::Failed(Error::from_errno(-rc))
    }
}

/// The outcome of a connect: a controller was attached, or none was found.
pub fn connect_outcome(attached: bool) -> (r: Result<(), Error>)
    ensures
        attached ==> r is Ok,
        !attached ==> r == Err::<(), Error>(Error::ControllerNotFound),
{
    if attached {
        Ok(())
    } else {
        Err(Error::ControllerNotFound)
    }
}

/// The error of an asynchronous connect started outside an SPDK thread.
pub fn no_current_thread_error() -> (e: Error)
    ensures
        e == Error::Os(crate::error::EINVAL),
{
    Error::from_errno(crate::error::EINVAL)
}

/// The outcome of an I/O queue-pair allocation.
pub fn qpair_outcome(allocated: bool) -> (r: Result<(), Error>)
    ensures
        allocated ==> r is Ok,
        !allocated ==> r == Err::<(), Error>(Error::QpairAlloc),
{
    if allocated {
        Ok(())
    } else {
        Err(Error::QpairAlloc)
    }
}

/// Namespace IDs are 1-based; an ID is looked up only when it lies within the
/// controller's namespace count.
pub fn namespace_id_in_range(ns_id: u32, num_namespaces: u32) -> (b: bool)
    ensures
        b == (1 <= ns_id && ns_id <= num_namespaces),
{
    ns_id != 0 && ns_id <= num_namespaces
}

/// A namespace is handed out when its ID is in range, SPDK knows it, and it
/// is active.
pub fn namespace_selected(ns_id: u32, num_namespaces: u32, present: bool, active: bool) -> (b:
    bool)
    ensures
        b == (1 <= ns_id && ns_id <= num_namespaces && present && active),
{
    namespace_id_in_range(ns_id, num_namespaces) && present && active
}

/// The status-code type of an NVMe completion status word (bits 9 to 11).
pub open spec fn status_code_type(status_raw: u16) -> u16 {
    (status_raw >> 9u16) & 7u16
}

/// The status code of an NVMe completion status word (bits 1 to 8).
pub open spec fn status_code(status_raw: u16) -> u16 {
    (status_raw >> 1u16) & 0xffu16
}

/// Decodes the status word of an NVMe completion: success when both the
/// status-code type and the status code are zero, else the error that
/// carries them.
pub fn completion_result(status_raw: u16) -> (r: Result<(), Error>)
    ensures
        (status_code_type(status_raw) == 0 && status_code(status_raw) == 0) ==> r is Ok,
        !(status_code_type(status_raw) == 0 && status_code(status_raw) == 0) ==> r
            == Err::<(), Error>(
            Error::NvmeError {
                sct: status_code_type(status_raw) as u8,
                sc: status_code(status_raw) as u8,
            },
        ),
{
    let sct: u16 = (status_raw >> 9u16) & 7u16;
    let sc: u16 = (status_raw >> 1u16) & 0xffu16;
    if sct == 0 && sc == 0 {
        Ok(())
    } else {
        Err(Error::NvmeError { sct: sct as u8, sc: sc as u8 })
    }
}

/// Law: a completion succeeds exactly when bits 1 to 11 of its status word
/// are clear; the phase bit and the bits above the status-code type play no
/// part. The decoded fields fit their ranges.
pub proof fn lemma_completion_success_bits(status_raw: u16)
    ensures
        (status_code_type(status_raw) == 0 && status_code(status_raw) == 0) <==> (status_raw
            & 0x0ffeu16) == 0,
        status_code_type(status_raw) < 8,
        status_code(status_raw) < 256,
{
    assert(((status_raw >> 9u16) & 7u16 == 0 && (status_raw >> 1u16) & 0xffu16 == 0) <==> (
    status_raw & 0x0ffeu16) == 0) by (bit_vector);
    assert((status_raw >> 9u16) & 7u16 < 8) by (bit_vector);
    assert((status_raw >> 1u16) & 0xffu16 < 256) by (bit_vector);
}

/// The status word of a completion with status-code type `sct`, status code
/// `sc` and phase bit `p`, laid out as the NVMe specification lays it out:
/// the phase bit in bit 0, the status code in bits 1 to 8, the status-code
/// type in bits 9 to 11.
pub open spec fn status_word(sct: u16, sc: u16, p: u16) -> u16 {
    ((sct << 9u16) | (sc << 1u16) | p) as u16
}

/// Law: decoding inverts the NVMe status layout: the status-code type and
/// status code read back from a status word are the numbers stored in it,
/// whatever its phase bit; so a completion is reported as the error that
/// carries exactly those numbers, and as success only when both are zero.
pub proof fn lemma_status_word_decodes(sct: u16, sc: u16, p: u16)
    requires
        sct < 8,
        sc < 256,
        p < 2,
    ensures
        status_code_type(status_word(sct, sc, p)) == sct,
        status_code(status_word(sct, sc, p)) == sc,
{
    assert((((((sct << 9u16) | (sc << 1u16) | p) as u16) >> 9u16) & 7u16) == sct) by (bit_vector)
        requires
            sct < 8u16,
            sc < 256u16,
            p < 2u16,
    ;
    assert((((((sct << 9u16) | (sc << 1u16) | p) as u16) >> 1u16) & 0xffu16) == sc)
        by (bit_vector)
        requires
            sct < 8u16,
            sc < 256u16,
            p < 2u16,
    ;
}

/// Size in bytes of a namespace: its sector count times its sector size.
pub fn namespace_size(num_sectors: u64, sector_size: u32) -> (r: u64)
    requires
        num_sectors * sector_size <= u64::MAX,
    ensures
        r == num_sectors * sector_size,
{
    num_sectors * (sector_size as u64)
}

} // verus!
