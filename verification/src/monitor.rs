//! The poll driver: the state that lives between polls and what each event
//! does to it.
//!
//! The driver owns no timer and touches no host. Its caller reads the host,
//! sends the requests that the driver names, measures the time, and hands in
//! what came back.

use crate::control::{
    control_outcome, is_on_target, lemma_status_text_names_on_target, plan_thermal_control,
    planned, ControlAction, GatewayRequest, ON_TARGET,
};
use crate::error::{error_text, GatewayError, ReadError};
use crate::history::{newest, Sample, TemperatureHistory, HISTORY_CAPACITY};
use crate::mode::Mode;
use crate::state::ThermalState;
use vstd::prelude::*;

verus! {

/// Lowest target temperature that the operator can choose, in thousandths of a
/// degree.
pub const TARGET_MIN: i32 = 40_000;

/// Highest target temperature that the operator can choose, in thousandths of a
/// degree.
pub const TARGET_MAX: i32 = 80_000;

/// The target temperature at start, in thousandths of a degree.
pub const DEFAULT_TARGET: i32 = 55_000;

/// Time between two polls, in milliseconds.
pub const UPDATE_INTERVAL_MS: u64 = 2_000;

/// Time for which a status message is shown, in milliseconds.
pub const STATUS_LIFETIME_MS: u64 = 3_000;

/// The state of the driver between polls.
pub struct ThermalApp {
    state: ThermalState,
    history: TemperatureHistory,
    status_message: Option<String>,
    target_temp: i32,
    auto_control: bool,
    fan_boost_manual: bool,
}

/// What a [`ThermalApp`] holds, as plain values.
pub struct ThermalAppView {
    /// The snapshot of the last successful poll.
    pub state: ThermalState,
    /// The samples of the history, oldest first.
    pub history: Seq<Sample>,
    /// The capacity of the history.
    pub history_limit: nat,
    /// The status message, if one is set.
    pub status_message: Option<Seq<char>>,
    /// The target temperature in thousandths of a degree.
    pub target_temp: int,
    /// Whether the automatic controller is switched on.
    pub auto_control: bool,
    /// Whether the operator has asked for the fan boost.
    pub fan_boost_manual: bool,
}

/// `target` brought into the range that the operator can choose from.
pub open spec fn clamped_target(target: int) -> int {
    if target < TARGET_MIN {
        TARGET_MIN as int
    } else if target > TARGET_MAX {
        TARGET_MAX as int
    } else {
        target
    }
}

/// The status text after a requested mode change was accepted.
pub open spec fn mode_changed_text(mode: Mode) -> Seq<char> {
    "Mode changed to "@ + mode.label_text()
}

/// The status message after the automatic controller has acted: the action's
/// status text where the host accepted, unless it is the one that callers
/// suppress, and the failure's text where the host did not.
pub open spec fn status_after_control(
    before: Option<Seq<char>>,
    action: ControlAction,
    answer: Result<(), GatewayError>,
) -> Option<Seq<char>> {
    match answer {
        Ok(_) => if action.status_text() == ON_TARGET@ {
            before
        } else {
            Some(action.status_text())
        },
        Err(failure) => Some(error_text(failure.detail@)),
    }
}

impl View for ThermalApp {
    type V = ThermalAppView;

    closed spec fn view(&self) -> ThermalAppView {
        ThermalAppView {
            state: self.state,
            history: self.history@,
            history_limit: self.history.limit(),
            status_message: match self.status_message {
                Some(text) => Some(text@),
                None => None,
            },
            target_temp: self.target_temp as int,
            auto_control: self.auto_control,
            fan_boost_manual: self.fan_boost_manual,
        }
    }
}

impl ThermalApp {
    #[verifier::type_invariant]
    spec fn target_in_range(self) -> bool {
        TARGET_MIN <= self.target_temp <= TARGET_MAX
    }

    /// The driver at start, from the first snapshot: the history holds that
    /// snapshot's sample, the target is [`DEFAULT_TARGET`], the automatic
    /// controller is off and no status message is set.
    pub fn new(state: ThermalState) -> (app: Self)
        ensures
            app@ == (ThermalAppView {
                state,
                history: seq![(state.cpu_temp, state.keyboard_temp)],
                history_limit: HISTORY_CAPACITY as nat,
                status_message: None,
                target_temp: DEFAULT_TARGET as int,
                auto_control: false,
                fan_boost_manual: false,
            }),
    {
        let mut history = TemperatureHistory::default();
        history.push(state.cpu_temp, state.keyboard_temp);
        assert(history@ =~= seq![(state.cpu_temp, state.keyboard_temp)]);
        ThermalApp {
            state,
            history,
            status_message: None,
            target_temp: DEFAULT_TARGET,
            auto_control: false,
            fan_boost_manual: false,
        }
    }

    /// One poll. A failed read changes nothing and is handed back. A snapshot
    /// replaces the current one and its sample enters the history; where the
    /// automatic controller is on, the result names what it decided for the
    /// snapshot's temperature, mode and fan state.
    pub fn update_state(&mut self, reading: Result<ThermalState, ReadError>) -> (outcome: Result<
        Option<ControlAction>,
        ReadError,
    >)
        ensures
            match reading {
                Ok(state) => {
                    &&& final(self)@ == (ThermalAppView {
                        state,
                        history: newest(
                            old(self)@.history.push((state.cpu_temp, state.keyboard_temp)),
                            old(self)@.history_limit,
                        ),
                        ..old(self)@
                    })
                    &&& outcome == Ok::<Option<ControlAction>, ReadError>(
                        if old(self)@.auto_control {
                            Some(
                                planned(
                                    state.cpu_temp as int,
                                    old(self)@.target_temp,
                                    state.mode,
                                    state.fan_boost,
                                ),
                            )
                        } else {
                            None
                        },
                    )
                },
                Err(failure) => {
                    &&& final(self)@ == old(self)@
                    &&& outcome == Err::<Option<ControlAction>, ReadError>(failure)
                },
            },
    {
        proof {
            use_type_invariant(&*self);
        }
        match reading {
            Err(failure) => Err(failure),
            Ok(state) => {
                let action = if self.auto_control {
                    Some(
                        plan_thermal_control(
                            state.cpu_temp,
                            self.target_temp,
                            state.mode,
                            state.fan_boost,
                        ),
                    )
                } else {
                    None
                };
                let mut history = TemperatureHistory::new(0);
                std::mem::swap(&mut history, &mut self.history);
                history.push(state.cpu_temp, state.keyboard_temp);
                self.history = history;
                self.state = state;
                Ok(action)
            },
        }
    }

    /// Records how the host answered the request of an action of the automatic
    /// controller. Only the status message changes: see
    /// [`status_after_control`]. The result says whether a message was set,
    /// which it is unless the host accepted and the action's status text is the
    /// one that callers suppress.
    pub fn control_finished(&mut self, action: ControlAction, answer: Result<(), GatewayError>) -> (set:
        bool)
        ensures
            final(self)@ == (ThermalAppView {
                status_message: status_after_control(old(self)@.status_message, action, answer),
                ..old(self)@
            }),
            set <==> !(answer is Ok && action == ControlAction::OnTarget),
    {
        proof {
            use_type_invariant(&*self);
            lemma_status_text_names_on_target(action);
        }
        match control_outcome(action, answer) {
            Ok(text) => {
                if is_on_target(text.as_str()) {
                    false
                } else {
                    self.status_message = Some(text);
                    true
                }
            },
            Err(error) => {
                self.status_message = Some(error.message());
                true
            },
        }
    }

    /// The request to send when the operator picks a mode: none for the mode
    /// that is already active, and none for `Unknown`, which is never requested.
    pub fn mode_request(&self, mode: Mode) -> (request: Option<GatewayRequest>)
        ensures
            request == (if mode == self@.state.mode || mode == Mode::Unknown {
                None
            } else {
                Some(GatewayRequest::SetMode(mode))
            }),
    {
        if mode == self.state.mode || mode == Mode::Unknown {
            None
        } else {
            Some(GatewayRequest::SetMode(mode))
        }
    }

    /// Records how the host answered a mode change that the operator asked
    /// for. Only the status message changes: it reports the change or the
    /// failure. The snapshot stays as it is; the result says whether the caller
    /// is to poll at once, which it is after a change that the host accepted.
    pub fn mode_change_finished(&mut self, mode: Mode, answer: Result<(), GatewayError>) -> (poll:
        bool)
        ensures
            poll <==> answer is Ok,
            final(self)@ == (ThermalAppView {
                status_message: Some(
                    match answer {
                        Ok(_) => mode_changed_text(mode),
                        Err(failure) => error_text(failure.detail@),
                    },
                ),
                ..old(self)@
            }),
    {
        proof {
            use_type_invariant(&*self);
        }
        match answer {
            Ok(_) => {
                self.status_message = Some(String::from_str("Mode changed to ").concat(mode.label()));
                true
            },
            Err(failure) => {
                self.status_message = Some(failure.message());
                false
            },
        }
    }

    /// Sets the status message.
    pub fn set_status(&mut self, message: String)
        ensures
            final(self)@ == (ThermalAppView { status_message: Some(message@), ..old(self)@ }),
    {
        proof {
            use_type_invariant(&*self);
        }
        self.status_message = Some(message);
    }

    /// Removes a status message that has been shown for
    /// [`STATUS_LIFETIME_MS`] or longer. `age_ms` is the time since the message
    /// was set. The result says whether a message is still to be shown.
    pub fn expire_status(&mut self, age_ms: u64) -> (shown: bool)
        ensures
            final(self)@ == (ThermalAppView {
                status_message: if age_ms < STATUS_LIFETIME_MS {
                    old(self)@.status_message
                } else {
                    None
                },
                ..old(self)@
            }),
            shown <==> final(self)@.status_message is Some,
    {
        proof {
            use_type_invariant(&*self);
        }
        if age_ms >= STATUS_LIFETIME_MS {
            self.status_message = None;
        }
        self.status_message.is_some()
    }

    /// Switches the automatic controller on or off and says so in the status
    /// message.
    pub fn toggle_auto_control(&mut self)
        ensures
            final(self)@ == (ThermalAppView {
                auto_control: !old(self)@.auto_control,
                status_message: Some(
                    if old(self)@.auto_control {
                        "Auto OFF"@
                    } else {
                        "Auto ON"@
                    },
                ),
                ..old(self)@
            }),
    {
        proof {
            use_type_invariant(&*self);
        }
        self.auto_control = !self.auto_control;
        let text = if self.auto_control {
            "Auto ON"
        } else {
            "Auto OFF"
        };
        self.status_message = Some(String::from_str(text));
    }

    /// Switches the operator's fan boost on or off, says so in the status
    /// message, and names the request to send to the host.
    pub fn toggle_fan_boost(&mut self) -> (request: GatewayRequest)
        ensures
            request == GatewayRequest::SetFanBoost(!old(self)@.fan_boost_manual),
            final(self)@ == (ThermalAppView {
                fan_boost_manual: !old(self)@.fan_boost_manual,
                status_message: Some(
                    if old(self)@.fan_boost_manual {
                        "Fan auto"@
                    } else {
                        "Fan boost"@
                    },
                ),
                ..old(self)@
            }),
    {
        proof {
            use_type_invariant(&*self);
        }
        self.fan_boost_manual = !self.fan_boost_manual;
        let text = if self.fan_boost_manual {
            "Fan boost"
        } else {
            "Fan auto"
        };
        self.status_message = Some(String::from_str(text));
        GatewayRequest::SetFanBoost(self.fan_boost_manual)
    }

    /// Sets the target temperature, brought into the range from [`TARGET_MIN`]
    /// to [`TARGET_MAX`].
    pub fn set_target_temp(&mut self, target: i32)
        ensures
            final(self)@ == (ThermalAppView {
                target_temp: clamped_target(target as int),
                ..old(self)@
            }),
    {
        proof {
            use_type_invariant(&*self);
        }
        self.target_temp = if target < TARGET_MIN {
            TARGET_MIN
        } else if target > TARGET_MAX {
            TARGET_MAX
        } else {
            target
        };
    }

    /// The target temperature, which always lies in the range from
    /// [`TARGET_MIN`] to [`TARGET_MAX`].
    pub fn target_temp(&self) -> (target: i32)
        ensures
            target == self@.target_temp,
            TARGET_MIN <= target <= TARGET_MAX,
    {
        proof {
            use_type_invariant(self);
        }
        self.target_temp
    }

    /// By how much the CPU temperature of the current snapshot is over the
    /// target, or `None` where it is at or under the target.
    pub fn over_target(&self) -> (excess: Option<i32>)
        ensures
            excess == (if self@.state.cpu_temp > self@.target_temp {
                Some((self@.state.cpu_temp - self@.target_temp) as i32)
            } else {
                None
            }),
            excess matches Some(by) ==> by > 0,
    {
        proof {
            use_type_invariant(self);
        }
        if self.state.cpu_temp > self.target_temp {
            Some(self.state.cpu_temp - self.target_temp)
        } else {
            None
        }
    }

    /// Whether the fan counts as boosted: the host reports it so, or the
    /// operator has asked for it.
    pub fn fan_active(&self) -> (active: bool)
        ensures
            active == (self@.state.fan_boost || self@.fan_boost_manual),
    {
        self.state.fan_boost || self.fan_boost_manual
    }

    /// The target temperature as a series over the whole width of the history:
    /// one point for each of the [`HISTORY_CAPACITY`] positions.
    pub fn target_points(&self) -> (points: Vec<(usize, i32)>)
        ensures
            points@.len() == HISTORY_CAPACITY,
            forall|i: int|
                0 <= i < points@.len() ==> #[trigger] points@[i] == (
                    i as usize,
                    self@.target_temp as i32,
                ),
    {
        let mut points: Vec<(usize, i32)> = Vec::new();
        let mut i: usize = 0;
        while i < HISTORY_CAPACITY
            invariant
                i <= HISTORY_CAPACITY,
                points@.len() == i,
                forall|k: int|
                    0 <= k < i ==> #[trigger] points@[k] == (k as usize, self.target_temp),
            decreases HISTORY_CAPACITY - i,
        {
            points.push((i, self.target_temp));
            i += 1;
        }
        points
    }

    /// The snapshot of the last successful poll.
    pub fn state(&self) -> (state: &ThermalState)
        ensures
            *state == self@.state,
    {
        &self.state
    }

    /// The history of samples.
    pub fn history(&self) -> (history: &TemperatureHistory)
        ensures
            history@ == self@.history,
            history.limit() == self@.history_limit,
    {
        &self.history
    }

    /// The status message, if one is set.
    pub fn status_message(&self) -> (message: Option<&String>)
        ensures
            match message {
                Some(text) => self@.status_message == Some(text@),
                None => self@.status_message is None,
            },
    {
        self.status_message.as_ref()
    }

    /// Whether the automatic controller is switched on.
    pub fn auto_control(&self) -> (on: bool)
        ensures
            on == self@.auto_control,
    {
        self.auto_control
    }

    /// Whether the operator has asked for the fan boost.
    pub fn fan_boost_manual(&self) -> (on: bool)
        ensures
            on == self@.fan_boost_manual,
    {
        self.fan_boost_manual
    }
}

/// Whether the next poll is due, `elapsed_ms` after the last one.
pub fn is_update_due(elapsed_ms: u64) -> (due: bool)
    ensures
        due <==> elapsed_ms >= UPDATE_INTERVAL_MS,
{
    elapsed_ms >= UPDATE_INTERVAL_MS
}

} // verus!
