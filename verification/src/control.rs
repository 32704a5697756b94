//! The automatic controller: a step-wise corrective policy that holds the CPU
//! temperature at or under a target.
//!
//! The controller decides; it never touches the host. Each decision names at
//! most one request, which the caller sends to the host and whose outcome it
//! hands back.

use crate::error::{ControlError, GatewayError};
use crate::mode::Mode;
use vstd::prelude::*;

verus! {

/// The status text of a decision that needs no action. Callers suppress it
/// instead of showing it.
pub const ON_TARGET: &'static str = "On target";

/// A request to the host.
#[derive(Clone, Copy, Debug, PartialEq, Eq, Structural)]
pub enum GatewayRequest {
    /// Make this mode the active one.
    SetMode(Mode),
    /// Switch the fan boost on or off.
    SetFanBoost(bool),
}

/// What the controller decides at one poll.
#[derive(Clone, Copy, Debug, PartialEq, Eq, Structural)]
pub enum ControlAction {
    /// The temperature is at or under the target: nothing to do.
    OnTarget,
    /// Too hot: request this calmer mode.
    StepDown(Mode),
    /// Too hot in the calmest mode: switch the fan boost on.
    BoostFan,
    /// Too hot in the calmest mode with the fan boosted: nothing is left to do.
    AtMinimum,
}

impl ControlAction {
    /// The request that the action sends to the host, if it sends one.
    pub open spec fn request_of(self) -> Option<GatewayRequest> {
        match self {
            ControlAction::OnTarget => None,
            ControlAction::StepDown(mode) => Some(GatewayRequest::SetMode(mode)),
            ControlAction::BoostFan => Some(GatewayRequest::SetFanBoost(true)),
            ControlAction::AtMinimum => None,
        }
    }

    /// The status text that reports the action.
    pub open spec fn status_text(self) -> Seq<char> {
        match self {
            ControlAction::OnTarget => ON_TARGET@,
            ControlAction::StepDown(mode) => "Too hot: switching to "@ + mode.label_text(),
            ControlAction::BoostFan => "Too hot: fan boost on"@,
            ControlAction::AtMinimum => "Too hot: already at minimum"@,
        }
    }

    /// The request that the action sends to the host, if it sends one. An
    /// action never sends more than one.
    pub fn request(&self) -> (request: Option<GatewayRequest>)
        ensures
            request == self.request_of(),
    {
        match self {
            ControlAction::OnTarget => None,
            ControlAction::StepDown(mode) => Some(GatewayRequest::SetMode(*mode)),
            ControlAction::BoostFan => Some(GatewayRequest::SetFanBoost(true)),
            ControlAction::AtMinimum => None,
        }
    }

    /// The status text that reports the action.
    pub fn message(&self) -> (text: String)
        ensures
            text@ == self.status_text(),
    {
        match self {
            ControlAction::OnTarget => String::from_str(ON_TARGET),
            ControlAction::StepDown(mode) => String::from_str("Too hot: switching to ").concat(
                mode.label(),
            ),
            ControlAction::BoostFan => String::from_str("Too hot: fan boost on"),
            ControlAction::AtMinimum => String::from_str("Too hot: already at minimum"),
        }
    }
}

/// The corrective action for a machine that runs too hot in the given mode and
/// fan state: one step to a calmer mode; in the calmest mode, the fan boost;
/// with the fan boosted too, nothing.
pub open spec fn corrective(mode: Mode, fan_boost: bool) -> ControlAction {
    match mode.calmer() {
        Some(next) => ControlAction::StepDown(next),
        None => if fan_boost {
            ControlAction::AtMinimum
        } else {
            ControlAction::BoostFan
        },
    }
}

/// The decision of the policy for a CPU temperature, a target, and the mode and
/// fan state that the host reports.
pub open spec fn planned(cpu_temp: int, target_temp: int, mode: Mode, fan_boost: bool)
    -> ControlAction {
    if cpu_temp <= target_temp {
        ControlAction::OnTarget
    } else {
        corrective(mode, fan_boost)
    }
}

/// Decides what to do about the CPU temperature. At or under the target there
/// is nothing to do. Over the target the controller asks for the next calmer
/// mode; in the calmest mode it asks for the fan boost; with the fan already
/// boosted nothing is left.
pub fn plan_thermal_control(cpu_temp: i32, target_temp: i32, mode: Mode, fan_boost: bool) -> (action:
    ControlAction)
    ensures
        action == planned(cpu_temp as int, target_temp as int, mode, fan_boost),
        cpu_temp <= target_temp ==> action == ControlAction::OnTarget,
{
    if cpu_temp <= target_temp {
        ControlAction::OnTarget
    } else {
        match mode.step_down() {
            Some(next) => ControlAction::StepDown(next),
            None => if fan_boost {
                ControlAction::AtMinimum
            } else {
                ControlAction::BoostFan
            },
        }
    }
}

/// What the controller reports once the host has answered the request of
/// `action`: the action's status text where the host accepted, and the host's
/// failure, wrapped, where it did not. For an action without a request the
/// caller hands in `Ok`.
pub fn control_outcome(action: ControlAction, answer: Result<(), GatewayError>) -> (outcome: Result<
    String,
    ControlError,
>)
    ensures
        match answer {
            Ok(_) => outcome matches Ok(text) && text@ == action.status_text(),
            Err(failure) => outcome matches Err(error) && error.source == failure,
        },
{
    match answer {
        Ok(_) => Ok(action.message()),
        Err(failure) => Err(ControlError { source: failure }),
    }
}

/// Whether a status text is the one that callers suppress.
pub fn is_on_target(text: &str) -> (sentinel: bool)
    ensures
        sentinel <==> text@ == ON_TARGET@,
{
    String::from_str(text) == String::from_str(ON_TARGET)
}

/// Only the decision to do nothing at or under the target carries the
/// suppressed status text.
pub proof fn lemma_status_text_names_on_target(action: ControlAction)
    ensures
        action.status_text() == ON_TARGET@ <==> action == ControlAction::OnTarget,
{
    reveal_strlit("On target");
    reveal_strlit("Too hot: switching to ");
    reveal_strlit("Too hot: fan boost on");
    reveal_strlit("Too hot: already at minimum");
    assert(ON_TARGET@[0] == 'O');
    match action {
        ControlAction::OnTarget => {},
        ControlAction::StepDown(_) => {
            assert(action.status_text()[0] == 'T');
        },
        ControlAction::BoostFan => {
            assert(action.status_text()[0] == 'T');
        },
        ControlAction::AtMinimum => {
            assert(action.status_text()[0] == 'T');
        },
    }
}

/// At or under the target the controller does nothing: it sends no request and
/// reports the suppressed status text.
pub proof fn lemma_on_target_sends_nothing(
    cpu_temp: int,
    target_temp: int,
    mode: Mode,
    fan_boost: bool,
)
    requires
        cpu_temp <= target_temp,
    ensures
        planned(cpu_temp, target_temp, mode, fan_boost) == ControlAction::OnTarget,
        planned(cpu_temp, target_temp, mode, fan_boost).request_of() is None,
        planned(cpu_temp, target_temp, mode, fan_boost).status_text() == ON_TARGET@,
{
}

/// Over the target, in a mode that has a calmer one, the controller sends
/// exactly one request, for that calmer mode, and its status text is not the
/// suppressed one.
pub proof fn lemma_over_target_steps_down(
    cpu_temp: int,
    target_temp: int,
    mode: Mode,
    fan_boost: bool,
)
    requires
        cpu_temp > target_temp,
        mode.calmer() is Some,
    ensures
        planned(cpu_temp, target_temp, mode, fan_boost).request_of() == Some(
            GatewayRequest::SetMode(mode.calmer().unwrap()),
        ),
        planned(cpu_temp, target_temp, mode, fan_boost).status_text() != ON_TARGET@,
{
    lemma_status_text_names_on_target(planned(cpu_temp, target_temp, mode, fan_boost));
}

/// Over the target, in the calmest mode and with the fan not boosted, the
/// controller sends exactly one request: to switch the fan boost on.
pub proof fn lemma_over_target_boosts_fan(cpu_temp: int, target_temp: int, mode: Mode)
    requires
        cpu_temp > target_temp,
        mode.calmer() is None,
    ensures
        planned(cpu_temp, target_temp, mode, false).request_of() == Some(
            GatewayRequest::SetFanBoost(true),
        ),
        planned(cpu_temp, target_temp, mode, false).status_text() != ON_TARGET@,
{
    lemma_status_text_names_on_target(planned(cpu_temp, target_temp, mode, false));
}

/// At the floor the controller is idle: however often it is asked while the
/// temperature stays over the target, the mode is the calmest and the fan is
/// boosted, it sends no request.
pub proof fn lemma_floor_sends_nothing(cpu_temps: Seq<int>, target_temp: int, mode: Mode)
    requires
        mode.calmer() is None,
        forall|i: int| 0 <= i < cpu_temps.len() ==> cpu_temps[i] > target_temp,
    ensures
        forall|i: int|
            0 <= i < cpu_temps.len() ==> {
                &&& #[trigger] planned(cpu_temps[i], target_temp, mode, true)
                    == ControlAction::AtMinimum
                &&& planned(cpu_temps[i], target_temp, mode, true).request_of() is None
            },
{
}

/// The mode and the fan state that a host reports once it has honoured the
/// request of `action`.
pub open spec fn honoured(mode: Mode, fan_boost: bool, action: ControlAction) -> (Mode, bool) {
    match action.request_of() {
        Some(GatewayRequest::SetMode(next)) => (next, fan_boost),
        Some(GatewayRequest::SetFanBoost(on)) => (mode, on),
        None => (mode, fan_boost),
    }
}

/// The mode and the fan state after `polls` polls at which the temperature was
/// over the target and the host honoured what the controller asked for.
pub open spec fn after_hot_polls(mode: Mode, fan_boost: bool, polls: nat) -> (Mode, bool)
    decreases polls,
{
    if polls == 0 {
        (mode, fan_boost)
    } else {
        let (m, f) = after_hot_polls(mode, fan_boost, (polls - 1) as nat);
        honoured(m, f, corrective(m, f))
    }
}

/// How many requests the controller has left before it stands at the floor.
pub open spec fn steps_left(mode: Mode, fan_boost: bool) -> nat {
    mode.distance_to_quiet() + if fan_boost {
        0nat
    } else {
        1nat
    }
}

/// With a host that honours every request, each poll over the target brings the
/// controller one request nearer to the floor. After four such polls at most it
/// stands there, in the calmest mode with the fan boosted, and sends nothing
/// more.
pub proof fn lemma_policy_settles(mode: Mode, fan_boost: bool, polls: nat)
    ensures
        ({
            let (m, f) = after_hot_polls(mode, fan_boost, polls);
            &&& steps_left(m, f) == if polls <= steps_left(mode, fan_boost) {
                steps_left(mode, fan_boost) - polls
            } else {
                0
            }
            &&& steps_left(m, f) == 0 <==> corrective(m, f) == ControlAction::AtMinimum
            &&& polls >= 4 ==> corrective(m, f).request_of() is None
        }),
    decreases polls,
{
    if polls > 0 {
        lemma_policy_settles(mode, fan_boost, (polls - 1) as nat);
    }
}

} // verus!
