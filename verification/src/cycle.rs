//! The login-then-reboot cycle as a state machine. The driver performs one
//! POST per step and hands the result back; the decisions here determine
//! whether the reboot request may be issued and what the cycle's outcome
//! is. A cycle issues at most one login and at most one reboot, and never a
//! reboot without a successful login status first.

use vstd::prelude::*;
use crate::http::HttpResult;
use crate::http::is_success_status;
use crate::http::spec_is_success;

verus! {

/// Which step of a cycle a failure belongs to.
pub enum Phase {
    Login,
    Reboot,
}

/// The result of one full cycle, consumed by the logging boundary: success,
/// or a tagged failure naming the step and, for transport failures, the
/// underlying cause.
pub enum RunOutcome {
    Success,
    LoginFailed { status: u16 },
    RebootFailed { status: u16 },
    TransportError { phase: Phase, cause: String },
}

/// Where a cycle stands: the login request is still to be sent, the login
/// succeeded and the reboot request is to be sent, or the cycle is over
/// with its outcome.
pub enum CycleState {
    NeedLogin,
    NeedReboot,
    Done { outcome: RunOutcome },
}

/// What the login result decides: a success status proceeds to the reboot
/// step — whether or not a cookie was set — while a non-success status or a
/// transport failure ends the cycle.
pub open spec fn spec_login_step(r: HttpResult) -> CycleState {
    match r {
        HttpResult::Response { status, .. } => if spec_is_success(status) {
            CycleState::NeedReboot
        } else {
            CycleState::Done { outcome: RunOutcome::LoginFailed { status } }
        },
        HttpResult::Failed { cause } => CycleState::Done {
            outcome: RunOutcome::TransportError { phase: Phase::Login, cause },
        },
    }
}

/// What the reboot result decides: a success status completes the cycle,
/// anything else ends it with a reboot failure.
pub open spec fn spec_reboot_step(r: HttpResult) -> CycleState {
    match r {
        HttpResult::Response { status, .. } => if spec_is_success(status) {
            CycleState::Done { outcome: RunOutcome::Success }
        } else {
            CycleState::Done { outcome: RunOutcome::RebootFailed { status } }
        },
        HttpResult::Failed { cause } => CycleState::Done {
            outcome: RunOutcome::TransportError { phase: Phase::Reboot, cause },
        },
    }
}

/// A fresh cycle: the login request is still to be sent.
pub fn cycle_start() -> (s: CycleState)
    ensures
        s is NeedLogin,
{
    CycleState::NeedLogin
}

/// Advances a cycle past its login step.
pub fn on_login_result(r: HttpResult) -> (s: CycleState)
    ensures
        s == spec_login_step(r),
{
    match r {
        HttpResult::Response { status, .. } => if is_success_status(status) {
            CycleState::NeedReboot
        } else {
            CycleState::Done { outcome: RunOutcome::LoginFailed { status } }
        },
        HttpResult::Failed { cause } => CycleState::Done {
            outcome: RunOutcome::TransportError { phase: Phase::Login, cause },
        },
    }
}

/// Advances a cycle past its reboot step.
pub fn on_reboot_result(r: HttpResult) -> (s: CycleState)
    ensures
        s == spec_reboot_step(r),
{
    match r {
        HttpResult::Response { status, .. } => if is_success_status(status) {
            CycleState::Done { outcome: RunOutcome::Success }
        } else {
            CycleState::Done { outcome: RunOutcome::RebootFailed { status } }
        },
        HttpResult::Failed { cause } => CycleState::Done {
            outcome: RunOutcome::TransportError { phase: Phase::Reboot, cause },
        },
    }
}

/// Whether the driver must now send the reboot request: exactly when the
/// login step ended in `NeedReboot`.
pub fn should_send_reboot(s: &CycleState) -> (r: bool)
    ensures
        r == (*s is NeedReboot),
{
    match s {
        CycleState::NeedReboot => true,
        _ => false,
    }
}

/// How many reboot requests one cycle issues, given its login result: one
/// when the login step proceeds to the reboot step, none otherwise.
pub open spec fn spec_reboots_issued(login: HttpResult) -> nat {
    if spec_login_step(login) is NeedReboot {
        1
    } else {
        0
    }
}

/// A login response with a non-success status, or a login transport
/// failure, ends the cycle at once: the reboot request is never issued.
pub proof fn lemma_no_reboot_after_failed_login(r: HttpResult)
    requires
        !(r matches HttpResult::Response { status, .. } && spec_is_success(status)),
    ensures
        spec_login_step(r) !is NeedReboot,
        spec_login_step(r) is Done,
        spec_reboots_issued(r) == 0,
{
}

/// The reboot step is reached only through a login response whose status
/// was a success: no transport failure and no other status leads into
/// `NeedReboot`, so a cycle never issues the reboot request without a
/// successful login attempt before it.
pub proof fn lemma_reboot_needs_login_success(r: HttpResult)
    ensures
        spec_login_step(r) is NeedReboot <==> (r matches HttpResult::Response { status, .. }
            && spec_is_success(status)),
{
}

/// Cookie absence is advisory only: a login response with a success status
/// proceeds to the reboot step whether or not a cookie was set.
pub proof fn lemma_cookie_absence_is_advisory(status: u16, had_cookie: bool)
    requires
        spec_is_success(status),
    ensures
        spec_login_step(HttpResult::Response { status, had_cookie }) is NeedReboot,
        spec_reboots_issued(HttpResult::Response { status, had_cookie }) == 1,
{
}

/// Across a cycle whose login was denied and a later cycle whose login
/// succeeded, exactly one reboot request is issued in total: none on the
/// failed cycle, one on the successful one.
pub proof fn lemma_one_reboot_across_retry(
    denied_status: u16,
    denied_cookie: bool,
    ok_status: u16,
    ok_cookie: bool,
)
    requires
        !spec_is_success(denied_status),
        spec_is_success(ok_status),
    ensures
        spec_reboots_issued(HttpResult::Response { status: denied_status, had_cookie: denied_cookie })
            + spec_reboots_issued(HttpResult::Response { status: ok_status, had_cookie: ok_cookie })
            == 1,
{
}

} // verus!
