//! Thermal state model and control policy for a laptop-class machine.
//!
//! Temperatures are integers in thousandths of a degree Celsius, the unit in
//! which the host's sensors report them.

pub mod control;
pub mod error;
pub mod history;
pub mod locale;
pub mod mode;
pub mod monitor;
pub mod palette;
pub mod state;
pub mod zone;

pub use control::{
    control_outcome, is_on_target, plan_thermal_control, ControlAction, GatewayRequest, ON_TARGET,
};
pub use error::{ControlError, GatewayError, ReadError};
pub use history::{Sample, TemperatureHistory, HISTORY_CAPACITY};
pub use locale::{localized_description, select_locale};
pub use mode::Mode;
pub use monitor::{
    is_update_due, ThermalApp, DEFAULT_TARGET, STATUS_LIFETIME_MS, TARGET_MAX, TARGET_MIN,
    UPDATE_INTERVAL_MS,
};
pub use palette::mode_color_rgb;
pub use state::{ThermalState, FULL_SPEED_MHZ};
pub use zone::{classify, ThermalZone};
