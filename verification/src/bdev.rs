//! Block devices: sizes, and the decisions taken around opening a block
//! device, obtaining an I/O channel, and submitting and completing reads and
//! writes.

use crate::error::Error;
use crate::text::{decimal, decimal_u64};
use vstd::prelude::*;

verus! {

/// SPDK's event type for a block device that is being removed.
pub const BDEV_EVENT_REMOVE: u32 = 0;

/// SPDK's event type for a block device that was resized.
pub const BDEV_EVENT_RESIZE: u32 = 1;

/// SPDK's event type for a media-management notice.
pub const BDEV_EVENT_MEDIA_MANAGEMENT: u32 = 2;

/// Total size in bytes of a block device: its block size times its block
/// count.
pub fn size_bytes(block_size: u32, num_blocks: u64) -> (r: u64)
    requires
        block_size * num_blocks <= u64::MAX,
    ensures
        r == block_size * num_blocks,
{
    (block_size as u64) * num_blocks
}

/// The message of a descriptor that SPDK reported as opened but did not
/// hand out.
pub open spec fn null_descriptor_message() -> Seq<char> {
    "null descriptor"@
}

/// The outcome of opening a block device: SPDK's return code (zero, or a
/// negative errno), and whether it handed out a descriptor.
pub fn open_outcome(rc: i32, has_descriptor: bool) -> (r: Result<(), Error>)
    requires
        rc != i32::MIN,
    ensures
        rc != 0 ==> r == Err::<(), Error>(Error::Os(-rc as i32)),
        rc == 0 && has_descriptor ==> r is Ok,
        rc == 0 && !has_descriptor ==> (r matches Err(Error::InvalidArgument(m)) && m@
            == null_descriptor_message()),
{
    if rc != 0 {
        return Err(Error::from_errno(-rc));
    }
    if has_descriptor {
        Ok(())
    } else {
        Err(Error::InvalidArgument(String::from_str("null descriptor")))
    }
}

/// The outcome of asking for an I/O channel on the current thread.
pub fn io_channel_outcome(has_channel: bool) -> (r: Result<(), Error>)
    ensures
        has_channel ==> r is Ok,
        !has_channel ==> r == Err::<(), Error>(Error::ChannelAlloc),
{
    if has_channel {
        Ok(())
    } else {
        Err(Error::ChannelAlloc)
    }
}

/// The outcome of submitting a read or write: SPDK returns zero, or a
/// negative errno that is reported as the errno.
pub fn submit_outcome(rc: i32) -> (r: Result<(), Error>)
    requires
        rc != i32::MIN,
    ensures
        rc == 0 ==> r is Ok,
        rc != 0 ==> r == Err::<(), Error>(Error::Os(-rc as i32)),
{
    crate::error::neg_errno_result(rc)
}

/// The result a completed read or write delivers.
pub fn completion_outcome(success: bool) -> (r: Result<(), Error>)
    ensures
        success ==> r is Ok,
        !success ==> r == Err::<(), Error>(Error::IoError),
{
    if success {
        Ok(())
    } else {
        Err(Error::IoError)
    }
}

/// The message logged for a block-device event.
pub open spec fn event_message(event_type: u32, name: Seq<char>) -> Seq<char> {
    if event_type == BDEV_EVENT_REMOVE {
        "bdev event: "@ + name + " is being removed"@
    } else if event_type == BDEV_EVENT_RESIZE {
        "bdev event: "@ + name + " was resized"@
    } else if event_type == BDEV_EVENT_MEDIA_MANAGEMENT {
        "bdev event: "@ + name + " media management"@
    } else {
        "bdev event: "@ + name + " unknown event "@ + decimal(event_type as nat)
    }
}

/// The message logged when SPDK notifies an event on the block device
/// called `name`.
pub fn event_log_line(event_type: u32, name: &str) -> (s: String)
    ensures
        s@ == event_message(event_type, name@),
{
    let mut s = String::from_str("bdev event: ");
    s.append(name);
    if event_type == BDEV_EVENT_REMOVE {
        s.append(" is being removed");
    } else if event_type == BDEV_EVENT_RESIZE {
        s.append(" was resized");
    } else if event_type == BDEV_EVENT_MEDIA_MANAGEMENT {
        s.append(" media management");
    } else {
        s.append(" unknown event ");
        s.append(decimal_u64(event_type as u64).as_str());
    }
    s
}

} // verus!
