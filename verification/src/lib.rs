//! Control core of a single-board thermostat.
//!
//! * [`deadband`]: classifies a value against a tolerance interval whose ends
//!   are independently closed, open or absent.
//! * [`controller`]: a two-state heater policy that turns each reading into
//!   an action, or into none while the reading is inside the band.
//! * [`common`] and [`uptime`]: microsecond instants and the uptime clock that
//!   is counted in whole seconds by a tick and refined by a hardware countdown.
//!
//! The comparator and the controller are generic over the measured type and
//! rely only on its partial order, so a reading that is ordered against
//! nothing (a sensor dropout) is held rather than acted upon.

pub mod common;
pub mod controller;
pub mod deadband;
pub mod uptime;
