//! Control core for a USB Power-Delivery sink built around the AP33772
//! sink controller.
//!
//! The crate covers the decision logic of the firmware:
//!
//! - [`regs`]: the register-level codec — status flags, Power Data Objects
//!   (PDOs) and Request Data Objects (RDOs) as bit-exact 8/32-bit words;
//! - [`device`]: the driver state — the last status read and the decoded
//!   PDO table, refreshed from raw register bytes;
//! - [`selector`]: the pure profile-selection algorithm that picks the best
//!   electrically compatible offer and builds the request word;
//! - [`control`]: the reactive state machine that gates the power-enable
//!   output from status updates.
//!
//! Bus transactions, task scheduling and diagnostics live outside the
//! crate; everything here works on plain register values.

pub mod control;
pub mod device;
pub mod regs;
pub mod selector;
