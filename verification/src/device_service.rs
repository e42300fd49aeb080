//! The decisions of the daemon's D-Bus service: the names it is reached
//! by, the checks around each write, and the messages of failed rollbacks.
//! The bus itself, and the writes, are the application's.

use vstd::prelude::*;

use crate::device_state::{DeviceOutputState, SoftwareGraphOutput};
use crate::text;
use crate::text::{owned, push_decimal, push_str, str_eq};

verus! {

/// The well-known bus name of the daemon.
pub const SERVICE_NAME: &'static str = "io.github.klimovich008.Ae5Control";

/// The object path of the device object.
pub const OBJECT_PATH: &'static str = "/io/github/klimovich008/Ae5Control";

/// The interface of the device object.
pub const INTERFACE_NAME: &'static str = "io.github.klimovich008.Ae5Control.Device1";

/// The device object the daemon serves.
pub struct Ae5DeviceService;

/// A refused or failed service call, by the D-Bus error it is answered with.
#[derive(Clone, Debug, Eq, PartialEq)]
pub enum ServiceError {
    /// The arguments are refused (`org.freedesktop.DBus.Error.InvalidArgs`).
    InvalidArgs(String),
    /// The call failed (`org.freedesktop.DBus.Error.Failed`).
    Failed(String),
}

/// The message for a master volume above 100 percent.
pub open spec fn volume_range_text() -> Seq<char> {
    "Master volume must be between 0 and 100 percent."@
}

/// Refuses a master volume above 100 percent.
pub fn check_master_volume_request(percent: u16) -> (r: Result<(), ServiceError>)
    ensures
        percent <= 100 ==> r is Ok,
        percent > 100 ==> (r matches Err(ServiceError::InvalidArgs(m)) && m@ == volume_range_text()),
{
    if percent > 100 {
        return Err(ServiceError::InvalidArgs(owned("Master volume must be between 0 and 100 percent.")));
    }
    Ok(())
}

/// Checks that the state read after a volume write shows `percent`.
pub fn check_master_volume_readback(state: &DeviceOutputState, percent: u16) -> (r: Result<(), ServiceError>)
    ensures
        (state.volume_available && state.master_volume == percent) ==> r is Ok,
        !(state.volume_available && state.master_volume == percent) ==> (r matches Err(ServiceError::Failed(m))
            && m@ == "Master volume read back as "@ + text::decimal(state.master_volume as nat) + "%, expected "@
            + text::decimal(percent as nat) + "%."@),
{
    if state.volume_available && state.master_volume == percent {
        return Ok(());
    }
    let mut m = owned("Master volume read back as ");
    push_decimal(&mut m, state.master_volume as u64);
    push_str(&mut m, "%, expected ");
    push_decimal(&mut m, percent as u64);
    push_str(&mut m, "%.");
    Err(ServiceError::Failed(m))
}

/// `true` or `false` as text.
pub open spec fn flag_text(v: bool) -> Seq<char> {
    if v {
        "true"@
    } else {
        "false"@
    }
}

/// Appends `true` or `false`.
fn push_flag(s: &mut String, v: bool)
    ensures
        final(s)@ == old(s)@ + flag_text(v),
{
    if v {
        push_str(s, "true");
    } else {
        push_str(s, "false");
    }
}

/// Checks that the state read after a mute write shows `muted`.
pub fn check_mute_readback(state: &DeviceOutputState, muted: bool) -> (r: Result<(), ServiceError>)
    ensures
        (state.mute_available && state.muted == muted) ==> r is Ok,
        !(state.mute_available && state.muted == muted) ==> (r matches Err(ServiceError::Failed(m))
            && m@ == "Mute read back as "@ + flag_text(state.muted) + ", expected "@ + flag_text(muted) + "."@),
{
    if state.mute_available && state.muted == muted {
        return Ok(());
    }
    let mut m = owned("Mute read back as ");
    push_flag(&mut m, state.muted);
    push_str(&mut m, ", expected ");
    push_flag(&mut m, muted);
    push_str(&mut m, ".");
    Err(ServiceError::Failed(m))
}

/// Checks that the state read after applying a software EQ shows it current.
pub fn check_eq_applied(state: &DeviceOutputState) -> (r: Result<(), ServiceError>)
    ensures
        (state.software_eq_active && state.software_eq_state@ == "current"@) ==> r is Ok,
        !(state.software_eq_active && state.software_eq_state@ == "current"@) ==> (r matches Err(ServiceError::Failed(m))
            && m@ == "Software EQ runtime verification returned '"@ + state.software_eq_state@ + "': "@
            + state.software_eq_detail@),
{
    if state.software_eq_active && str_eq(state.software_eq_state.as_str(), "current") {
        return Ok(());
    }
    let mut m = owned("Software EQ runtime verification returned '");
    push_str(&mut m, state.software_eq_state.as_str());
    push_str(&mut m, "': ");
    push_str(&mut m, state.software_eq_detail.as_str());
    Err(ServiceError::Failed(m))
}

/// Checks that the state read after disabling the software EQ shows it inactive.
pub fn check_eq_disabled(state: &DeviceOutputState) -> (r: Result<(), ServiceError>)
    ensures
        (!state.software_eq_active && state.software_eq_state@ == "inactive"@) ==> r is Ok,
        !(!state.software_eq_active && state.software_eq_state@ == "inactive"@) ==> (r matches Err(ServiceError::Failed(m))
            && m@ == "Software EQ disable readback returned '"@ + state.software_eq_state@ + "': "@
            + state.software_eq_detail@),
{
    if !state.software_eq_active && str_eq(state.software_eq_state.as_str(), "inactive") {
        return Ok(());
    }
    let mut m = owned("Software EQ disable readback returned '");
    push_str(&mut m, state.software_eq_state.as_str());
    push_str(&mut m, "': ");
    push_str(&mut m, state.software_eq_detail.as_str());
    Err(ServiceError::Failed(m))
}

/// What rebuilding a running software EQ needs, judged from the saved
/// state (its signature and its filter graph) and the graph found running:
/// nothing when none runs, else the saved graph and signature, refused when
/// the running graph is not the saved one.
pub open spec fn previous_eq_runtime(
    saved_signature: Option<Seq<char>>,
    saved_graph: Result<Option<Seq<char>>, Seq<char>>,
    output: Option<SoftwareGraphOutput>,
) -> Result<(Option<Seq<char>>, Option<Seq<char>>), Seq<char>> {
    match output {
        None => Ok((None, None)),
        Some(o) => match saved_signature {
            None => Err("An AE-5 software EQ graph is active without a matching managed configuration."@),
            Some(sig) => if text::opt_string_view(o.signature) != Some(sig) {
                Err("The active AE-5 software EQ graph changed outside ae5d; disable it before applying another preset."@)
            } else {
                match saved_graph {
                    Err(e) => Err(e),
                    Ok(None) => Err("The managed software EQ has no restorable filter graph."@),
                    Ok(Some(g)) => Ok((Some(g), Some(sig))),
                }
            },
        },
    }
}

/// What rebuilding the running software EQ needs: its graph and signature.
pub fn known_previous_eq_runtime(
    saved_signature: &Option<String>,
    saved_graph: &Result<Option<String>, String>,
    output: &Option<SoftwareGraphOutput>,
) -> (r: Result<(Option<String>, Option<String>), String>)
    ensures
        match previous_eq_runtime(
            text::opt_string_view(*saved_signature),
            match *saved_graph { Ok(g) => Ok(text::opt_string_view(g)), Err(e) => Err(e@) },
            *output,
        ) {
            Ok((g, s)) => r matches Ok((rg, rs)) && text::opt_string_view(rg) == g && text::opt_string_view(rs) == s,
            Err(m) => r matches Err(x) && x@ == m,
        },
{
    let o = match output {
        None => return Ok((None, None)),
        Some(o) => o,
    };
    let expected = match saved_signature {
        None => return Err(owned("An AE-5 software EQ graph is active without a matching managed configuration.")),
        Some(s) => s,
    };
    let running = match &o.signature {
        Some(s) => str_eq(s.as_str(), expected.as_str()),
        None => false,
    };
    if !running {
        return Err(owned("The active AE-5 software EQ graph changed outside ae5d; disable it before applying another preset."));
    }
    match saved_graph {
        Err(e) => Err(e.clone()),
        Ok(None) => Err(owned("The managed software EQ has no restorable filter graph.")),
        Ok(Some(g)) => Ok((Some(g.clone()), Some(expected.clone()))),
    }
}

/// How a rollback step ended: `restored`, or its error's text.
pub open spec fn restored_text(r: Result<(), String>) -> Seq<char> {
    match r {
        Ok(()) => "restored"@,
        Err(m) => m@,
    }
}

/// Appends how a rollback step ended.
fn push_restored(s: &mut String, r: &Result<(), String>)
    ensures
        final(s)@ == old(s)@ + restored_text(*r),
{
    match r {
        Ok(()) => push_str(s, "restored"),
        Err(m) => push_str(s, m.as_str()),
    }
}

/// The answer to a failed software EQ change after its rollback: the
/// failure, and either that the previous state was restored or how each
/// rollback step ended, `first` before `second`.
pub open spec fn eq_rollback_text(failure: Seq<char>, first_name: Seq<char>, first: Result<(), String>, second_name: Seq<char>, second: Result<(), String>) -> Seq<char> {
    if first is Ok && second is Ok {
        failure + "; the previous software EQ state was restored"@
    } else {
        failure + "; rollback failed ("@ + first_name + ": "@ + restored_text(first) + "; "@ + second_name + ": "@
            + restored_text(second) + ")"@
    }
}

/// The answer to a failed software EQ apply, after the runtime and the
/// saved configuration were rolled back.
pub fn applied_eq_rollback_failure(failure: &str, runtime: &Result<(), String>, config: &Result<(), String>) -> (r: ServiceError)
    ensures
        r matches ServiceError::Failed(m) && m@ == eq_rollback_text(failure@, "runtime"@, *runtime, "configuration"@, *config),
{
    let mut m = owned(failure);
    if runtime.is_ok() && config.is_ok() {
        push_str(&mut m, "; the previous software EQ state was restored");
    } else {
        push_str(&mut m, "; rollback failed (");
        push_str(&mut m, "runtime");
        push_str(&mut m, ": ");
        push_restored(&mut m, runtime);
        push_str(&mut m, "; ");
        push_str(&mut m, "configuration");
        push_str(&mut m, ": ");
        push_restored(&mut m, config);
        push_str(&mut m, ")");
    }
    ServiceError::Failed(m)
}

/// The answer to a failed software EQ disable, after the saved
/// configuration and the runtime were rolled back.
pub fn disabled_eq_rollback_failure(failure: &str, config: &Result<(), String>, runtime: &Result<(), String>) -> (r: ServiceError)
    ensures
        r matches ServiceError::Failed(m) && m@ == eq_rollback_text(failure@, "configuration"@, *config, "runtime"@, *runtime),
{
    let mut m = owned(failure);
    if config.is_ok() && runtime.is_ok() {
        push_str(&mut m, "; the previous software EQ state was restored");
    } else {
        push_str(&mut m, "; rollback failed (");
        push_str(&mut m, "configuration");
        push_str(&mut m, ": ");
        push_restored(&mut m, config);
        push_str(&mut m, "; ");
        push_str(&mut m, "runtime");
        push_str(&mut m, ": ");
        push_restored(&mut m, runtime);
        push_str(&mut m, ")");
    }
    ServiceError::Failed(m)
}

/// How a rollback restores the runtime graph it replaced.
#[derive(Clone, Debug, Eq, PartialEq)]
pub enum EqRuntimeRollback {
    /// Put the previous graph back, with its signature.
    Replace(String, String),
    /// No graph ran before: remove the applied one.
    Remove,
}

/// How to roll back the runtime after a failed apply: the previous graph
/// and signature come together or not at all.
pub fn applied_eq_runtime_rollback(previous_graph: &Option<String>, previous_signature: &Option<String>) -> (r: Result<EqRuntimeRollback, String>)
    ensures
        match (*previous_graph, *previous_signature) {
            (Some(g), Some(s)) => r matches Ok(EqRuntimeRollback::Replace(rg, rs)) && rg@ == g@ && rs@ == s@,
            (None, None) => r == Ok::<EqRuntimeRollback, String>(EqRuntimeRollback::Remove),
            _ => r matches Err(m) && m@ == "previous software EQ graph and signature do not match"@,
        },
{
    match (previous_graph, previous_signature) {
        (Some(g), Some(s)) => Ok(EqRuntimeRollback::Replace(g.clone(), s.clone())),
        (None, None) => Ok(EqRuntimeRollback::Remove),
        _ => Err(owned("previous software EQ graph and signature do not match")),
    }
}

} // verus!
