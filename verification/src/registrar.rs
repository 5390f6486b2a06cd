//! Scheme registration: validating the scheme name and tracking the
//! process-wide registration state.
//!
//! The platform call that records the association with the operating system
//! is input/output and stays outside this crate. The composing application
//! first asks [`plan_register`] what to do; only when the answer is
//! [`RegisterPlan::CallPlatform`] does it consult the platform, and it then
//! feeds the platform's answer to [`register_step`], which yields the next
//! state and the reported result. Registering a scheme that is already held
//! never needs the platform again and never fails.

use vstd::prelude::*;
use vstd::string::*;
use crate::chars::str_eq;
use crate::uri::{is_valid_scheme, valid_scheme};

verus! {

/// Why a registration request was refused.
#[derive(Clone, Copy, Debug, PartialEq, Eq, Structural)]
pub enum RegistrationError {
    /// The scheme name is not a valid scheme token.
    InvalidScheme,
    /// The platform denied the request, for instance because the scheme is
    /// claimed by another application with priority.
    PlatformDenied,
}

/// The process-wide registration state: nothing registered yet, or one
/// scheme registered for the lifetime of the process.
#[derive(Clone, Debug, PartialEq, Eq)]
pub enum RegistrationState {
    Unregistered,
    Registered { scheme: String },
}

/// The registration state as a mathematical value.
pub enum RegistrationView {
    Unregistered,
    Registered(Seq<char>),
}

impl View for RegistrationState {
    type V = RegistrationView;

    open spec fn view(&self) -> RegistrationView {
        match self {
            RegistrationState::Unregistered => RegistrationView::Unregistered,
            RegistrationState::Registered { scheme } => RegistrationView::Registered(scheme@),
        }
    }
}

/// What a registration request needs next.
#[derive(Clone, Copy, Debug, PartialEq, Eq, Structural)]
pub enum RegisterPlan {
    /// The scheme name is invalid; refuse without consulting the platform.
    Reject,
    /// The same scheme is already registered; report success, with no
    /// platform call and no state change.
    AlreadyDone,
    /// The platform has to be asked to record the association.
    CallPlatform,
}

/// The plan for registering `scheme` in state `st`.
pub open spec fn spec_plan(st: RegistrationView, scheme: Seq<char>) -> RegisterPlan {
    if !is_valid_scheme(scheme) {
        RegisterPlan::Reject
    } else if st matches RegistrationView::Registered(s) && s == scheme {
        RegisterPlan::AlreadyDone
    } else {
        RegisterPlan::CallPlatform
    }
}

/// The state and the reported result after a registration request, where
/// `platform_accepts` is the platform's answer, consulted only when the
/// plan is `CallPlatform`.
pub open spec fn spec_register(st: RegistrationView, scheme: Seq<char>, platform_accepts: bool) -> (
    RegistrationView,
    Result<(), RegistrationError>,
) {
    match spec_plan(st, scheme) {
        RegisterPlan::Reject => (st, Result::Err(RegistrationError::InvalidScheme)),
        RegisterPlan::AlreadyDone => (st, Result::Ok(())),
        RegisterPlan::CallPlatform => if platform_accepts {
            (RegistrationView::Registered(scheme), Result::Ok(()))
        } else {
            (st, Result::Err(RegistrationError::PlatformDenied))
        },
    }
}

/// Decide what registering `scheme` in state `st` needs next.
pub fn plan_register(st: &RegistrationState, scheme: &str) -> (a: RegisterPlan)
    ensures
        a == spec_plan(st@, scheme@),
{
    if !valid_scheme(scheme) {
        RegisterPlan::Reject
    } else {
        match st {
            RegistrationState::Registered { scheme: held } => {
                if str_eq(held.as_str(), scheme) {
                    RegisterPlan::AlreadyDone
                } else {
                    RegisterPlan::CallPlatform
                }
            },
            RegistrationState::Unregistered => RegisterPlan::CallPlatform,
        }
    }
}

/// Apply one registration request: the next state and the result reported
/// to startup diagnostics. `platform_accepts` is the platform's answer for
/// the case in which the plan asks for a platform call; with any other plan
/// it is ignored.
pub fn register_step(st: RegistrationState, scheme: &str, platform_accepts: bool) -> (r: (
    RegistrationState,
    Result<(), RegistrationError>,
))
    ensures
        (r.0@, r.1) == spec_register(st@, scheme@, platform_accepts),
{
    match plan_register(&st, scheme) {
        RegisterPlan::Reject => (st, Result::Err(RegistrationError::InvalidScheme)),
        RegisterPlan::AlreadyDone => (st, Result::Ok(())),
        RegisterPlan::CallPlatform => {
            if platform_accepts {
                (
                    RegistrationState::Registered { scheme: scheme.to_owned() },
                    Result::Ok(()),
                )
            } else {
                (st, Result::Err(RegistrationError::PlatformDenied))
            }
        },
    }
}

/// Registration is idempotent: once registering `scheme` has succeeded,
/// registering the same scheme again reports success and leaves the state
/// exactly as it was, whatever the platform would answer — the platform is
/// not involved a second time.
pub proof fn lemma_register_idempotent(
    st: RegistrationView,
    scheme: Seq<char>,
    first_answer: bool,
    second_answer: bool,
)
    requires
        spec_register(st, scheme, first_answer).1 == Result::<(), RegistrationError>::Ok(()),
    ensures
        spec_register(spec_register(st, scheme, first_answer).0, scheme, second_answer) == (
            spec_register(st, scheme, first_answer).0,
            Result::<(), RegistrationError>::Ok(()),
        ),
{
}

} // verus!
