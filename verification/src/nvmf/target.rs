//! NVMf target: the name field SPDK is given, and the outcomes of creating a
//! target and listening on an address.

use crate::error::Error;
use crate::nvmf::opts::NvmfTargetOpts;
use vstd::prelude::*;
use vstd::utf8::encode_utf8;

verus! {

/// Size of the target-name character array of SPDK's target options.
pub const TGT_NAME_FIELD_LEN: usize = 256;

/// The message of a target that SPDK could not create.
pub open spec fn target_create_failure_message() -> Seq<char> {
    "Failed to create NVMf target"@
}

/// The bytes written into the target-name field: the name's bytes, cut to
/// leave room for the terminating NUL.
pub open spec fn name_field_bytes(name: Option<Seq<char>>) -> Seq<u8> {
    match name {
        Some(n) => {
            let b = encode_utf8(n);
            if b.len() <= TGT_NAME_FIELD_LEN - 1 {
                b
            } else {
                b.take(TGT_NAME_FIELD_LEN - 1)
            }
        },
        None => Seq::empty(),
    }
}

impl NvmfTargetOpts {
    /// The bytes to copy into the target-name field of SPDK's target
    /// options; a name too long for the field is cut, not refused.
    pub fn name_field(&self) -> (r: Vec<u8>)
        ensures
            r@ == name_field_bytes(
                match self.name {
                    Some(n) => Some(n@),
                    None => None,
                },
            ),
            r@.len() < TGT_NAME_FIELD_LEN,
    {
        match &self.name {
            None => Vec::new(),
            Some(n) => {
                let bytes = n.as_str().as_bytes();
                let max_len: usize = TGT_NAME_FIELD_LEN - 1;
                let copy_len: usize = if bytes.len() < max_len {
                    bytes.len()
                } else {
                    max_len
                };
                let mut out: Vec<u8> = Vec::new();
                let mut i: usize = 0;
                while i < copy_len
                    invariant
                        copy_len <= bytes@.len(),
                        0 <= i <= copy_len,
                        out@ == bytes@.take(i as int),
                    decreases copy_len - i,
                {
                    out.push(bytes[i]);
                    i = i + 1;
                    assert(out@ =~= bytes@.take(i as int));
                }
                assert(bytes@.take(bytes@.len() as int) =~= bytes@);
                out
            },
        }
    }
}

/// The outcome of creating a target.
pub fn target_create_outcome(created: bool) -> (r: Result<(), Error>)
    ensures
        created ==> r is Ok,
        !created ==> (r matches Err(Error::InvalidArgument(m)) && m@
            == target_create_failure_message()),
{
    if created {
        Ok(())
    } else {
        Err(Error::InvalidArgument(String::from_str("Failed to create NVMf target")))
    }
}

/// The outcome of listening on an address: SPDK returns a negative errno on
/// failure.
pub fn listen_outcome(rc: i32) -> (r: Result<(), Error>)
    requires
        rc != i32::MIN,
    ensures
        rc == 0 ==> r is Ok,
        rc != 0 ==> r == Err::<(), Error>(Error::Os(-rc as i32)),
{
    crate::error::neg_errno_result(rc)
}

/// Law: the name field always leaves room for the terminating NUL, and a
/// name that fits is written whole.
pub proof fn lemma_name_field_fits(name: Seq<char>)
    ensures
        name_field_bytes(Some(name)).len() <= TGT_NAME_FIELD_LEN - 1,
        encode_utf8(name).len() <= TGT_NAME_FIELD_LEN - 1 ==> name_field_bytes(Some(name))
            == encode_utf8(name),
        name_field_bytes(Some(name)) == encode_utf8(name).take(
            name_field_bytes(Some(name)).len() as int,
        ),
{
    let b = encode_utf8(name);
    if b.len() <= TGT_NAME_FIELD_LEN - 1 {
        assert(b.take(b.len() as int) =~= b);
    }
}

} // verus!
