//! NVMf subsystem: the settings applied after creation and the outcomes of
//! SPDK's subsystem calls.

use crate::error::Error;
use crate::nvmf::opts::NvmfSubsystemOpts;
use vstd::prelude::*;

verus! {

/// One setting applied to a freshly created subsystem.
#[derive(Debug, Clone)]
pub enum SubsystemStep {
    /// Let any host connect.
    AllowAnyHost,
    /// Set the serial number.
    SerialNumber(String),
    /// Set the model number.
    ModelNumber(String),
}

/// The abstract content of a setting.
pub enum SubsystemStepView {
    AllowAnyHost,
    SerialNumber(Seq<char>),
    ModelNumber(Seq<char>),
}

/// The abstract content of a setting.
pub open spec fn step_view(s: SubsystemStep) -> SubsystemStepView {
    match s {
        SubsystemStep::AllowAnyHost => SubsystemStepView::AllowAnyHost,
        SubsystemStep::SerialNumber(t) => SubsystemStepView::SerialNumber(t@),
        SubsystemStep::ModelNumber(t) => SubsystemStepView::ModelNumber(t@),
    }
}

/// The settings that subsystem options ask for, in the order they are
/// applied: allowing any host, then the serial number, then the model
/// number; each only when the options ask for it.
pub open spec fn setup_plan(
    allow_any_host: bool,
    serial_number: Option<Seq<char>>,
    model_number: Option<Seq<char>>,
) -> Seq<SubsystemStepView> {
    (if allow_any_host {
        seq![SubsystemStepView::AllowAnyHost]
    } else {
        Seq::empty()
    }) + (match serial_number {
        Some(s) => seq![SubsystemStepView::SerialNumber(s)],
        None => Seq::empty(),
    }) + (match model_number {
        Some(m) => seq![SubsystemStepView::ModelNumber(m)],
        None => Seq::empty(),
    })
}

/// The text of an optional string.
pub open spec fn opt_view(o: Option<String>) -> Option<Seq<char>> {
    match o {
        Some(s) => Some(s@),
        None => None,
    }
}

/// Law: each subsystem option asks for its own setting, independently of the
/// others: the plan allows any host first exactly when that is asked for,
/// sets the serial number given (and only when one is given), then the model
/// number given (and only when one is given), and holds nothing else.
pub proof fn lemma_setup_plan_options_independent(
    allow_any_host: bool,
    serial_number: Option<Seq<char>>,
    model_number: Option<Seq<char>>,
)
    ensures
        ({
            let plan = setup_plan(allow_any_host, serial_number, model_number);
            let a: int = if allow_any_host {
                1
            } else {
                0
            };
            let n: int = if serial_number is Some {
                1
            } else {
                0
            };
            let m: int = if model_number is Some {
                1
            } else {
                0
            };
            &&& plan.len() == a + n + m
            &&& allow_any_host ==> plan[0] == SubsystemStepView::AllowAnyHost
            &&& (serial_number matches Some(sn) ==> plan[a] == SubsystemStepView::SerialNumber(sn))
            &&& (model_number matches Some(mn) ==> plan[a + n] == SubsystemStepView::ModelNumber(
                mn,
            ))
            &&& forall|i: int|
                0 <= i < plan.len() ==> {
                    &&& (plan[i] is AllowAnyHost ==> allow_any_host && i == 0)
                    &&& (plan[i] is SerialNumber ==> serial_number is Some && i == a)
                    &&& (plan[i] is ModelNumber ==> model_number is Some && i == a + n)
                }
        }),
{
}

/// The settings to apply, in order, to a subsystem created with `opts`.
pub fn setup_steps(opts: &NvmfSubsystemOpts) -> (r: Vec<SubsystemStep>)
    ensures
        r@.map_values(|s: SubsystemStep| step_view(s)) == setup_plan(
            opts.allow_any_host,
            opt_view(opts.serial_number),
            opt_view(opts.model_number),
        ),
        opts.allow_any_host <==> (r@.len() > 0 && r@[0] is AllowAnyHost),
        opts.serial_number matches Some(sn) ==> exists|i: int|
            0 <= i < r@.len() && step_view(#[trigger] r@[i]) == SubsystemStepView::SerialNumber(
                sn@,
            ),
        opts.serial_number is None ==> forall|i: int|
            0 <= i < r@.len() ==> !(#[trigger] r@[i] is SerialNumber),
        opts.model_number matches Some(mn) ==> exists|i: int|
            0 <= i < r@.len() && step_view(#[trigger] r@[i]) == SubsystemStepView::ModelNumber(
                mn@,
            ),
        opts.model_number is None ==> forall|i: int|
            0 <= i < r@.len() ==> !(#[trigger] r@[i] is ModelNumber),
{
    let mut steps: Vec<SubsystemStep> = Vec::new();
    if opts.allow_any_host {
        steps.push(SubsystemStep::AllowAnyHost);
    }
    match &opts.serial_number {
        Some(sn) => steps.push(SubsystemStep::SerialNumber(sn.clone())),
        None => {},
    }
    match &opts.model_number {
        Some(mn) => steps.push(SubsystemStep::ModelNumber(mn.clone())),
        None => {},
    }
    let ghost plan = setup_plan(
        opts.allow_any_host,
        opt_view(opts.serial_number),
        opt_view(opts.model_number),
    );
    assert(steps@.map_values(|s: SubsystemStep| step_view(s)) =~= plan);
    proof {
        lemma_setup_plan_options_independent(
            opts.allow_any_host,
            opt_view(opts.serial_number),
            opt_view(opts.model_number),
        );
        assert forall|i: int| 0 <= i < steps@.len() implies step_view(steps@[i]) == plan[i] by {
            assert(steps@.map_values(|s: SubsystemStep| step_view(s))[i] == step_view(steps@[i]));
        }
        let a: int = if opts.allow_any_host {
            1
        } else {
            0
        };
        let n: int = if opts.serial_number is Some {
            1
        } else {
            0
        };
        if opts.allow_any_host {
            assert(step_view(steps@[0]) == plan[0]);
        }
        if steps@.len() > 0 && steps@[0] is AllowAnyHost {
            assert(step_view(steps@[0]) == plan[0]);
        }
        if opts.serial_number is Some {
            assert(step_view(steps@[a]) == plan[a]);
        }
        if opts.model_number is Some {
            assert(step_view(steps@[a + n]) == plan[a + n]);
        }
        assert forall|i: int| 0 <= i < steps@.len() implies !(#[trigger] steps@[i] is SerialNumber)
            || opts.serial_number is Some by {
            assert(step_view(steps@[i]) == plan[i]);
        }
        assert forall|i: int| 0 <= i < steps@.len() implies !(#[trigger] steps@[i] is ModelNumber)
            || opts.model_number is Some by {
            assert(step_view(steps@[i]) == plan[i]);
        }
    }
    steps
}

/// The message of a subsystem that SPDK could not create.
pub open spec fn subsystem_create_failure_message(nqn: Seq<char>) -> Seq<char> {
    "Failed to create subsystem: "@ + nqn
}

/// The outcome of creating the subsystem `nqn`.
pub fn subsystem_create_outcome(nqn: &str, created: bool) -> (r: Result<(), Error>)
    ensures
        created ==> r is Ok,
        !created ==> (r matches Err(Error::InvalidArgument(m)) && m@
            == subsystem_create_failure_message(nqn@)),
{
    if created {
        Ok(())
    } else {
        let mut m = String::from_str("Failed to create subsystem: ");
        m.append(nqn);
        Err(Error::InvalidArgument(m))
    }
}

/// The outcome of setting the serial number: SPDK refuses one that does not
/// fit or holds characters it does not accept.
pub fn serial_number_outcome(rc: i32) -> (r: Result<(), Error>)
    ensures
        rc == 0 ==> r is Ok,
        rc != 0 ==> (r matches Err(Error::InvalidArgument(m)) && m@
            == "Failed to set serial number"@),
{
    if rc == 0 {
        Ok(())
    } else {
        Err(Error::InvalidArgument(String::from_str("Failed to set serial number")))
    }
}

/// The outcome of setting the model number.
pub fn model_number_outcome(rc: i32) -> (r: Result<(), Error>)
    ensures
        rc == 0 ==> r is Ok,
        rc != 0 ==> (r matches Err(Error::InvalidArgument(m)) && m@
            == "Failed to set model number"@),
{
    if rc == 0 {
        Ok(())
    } else {
        Err(Error::InvalidArgument(String::from_str("Failed to set model number")))
    }
}

/// The message of a block device that could not be added as a namespace.
pub open spec fn add_namespace_failure_message(bdev_name: Seq<char>) -> Seq<char> {
    "Failed to add namespace: "@ + bdev_name
}

/// The outcome of adding the block device `bdev_name` as a namespace: SPDK
/// returns the namespace ID it assigned, or zero on failure.
pub fn add_namespace_outcome(bdev_name: &str, nsid: u32) -> (r: Result<u32, Error>)
    ensures
        nsid != 0 ==> r == Ok::<u32, Error>(nsid),
        nsid == 0 ==> (r matches Err(Error::InvalidArgument(m)) && m@
            == add_namespace_failure_message(bdev_name@)),
{
    if nsid == 0 {
        let mut m = String::from_str("Failed to add namespace: ");
        m.append(bdev_name);
        Err(Error::InvalidArgument(m))
    } else {
        Ok(nsid)
    }
}

/// The outcome of submitting a start or stop of the subsystem: SPDK returns
/// a negative errno when it refuses.
pub fn state_change_submit_outcome(rc: i32) -> (r: Result<(), Error>)
    requires
        rc != i32::MIN,
    ensures
        rc == 0 ==> r is Ok,
        rc != 0 ==> r == Err::<(), Error>(Error::Os(-rc as i32)),
{
    crate::error::neg_errno_result(rc)
}

/// The result a completed listener addition, start or stop delivers: a zero
/// status is success, anything else a negative errno.
pub fn completion_status_outcome(status: i32) -> (r: Result<(), Error>)
    requires
        status != i32::MIN,
    ensures
        status == 0 ==> r is Ok,
        status != 0 ==> r == Err::<(), Error>(Error::Os(-status as i32)),
{
    crate::error::status_result(status)
}

} // verus!
