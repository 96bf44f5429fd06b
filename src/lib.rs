use vstd::prelude::*;

pub mod cadence;
pub mod error;
pub mod moments;
pub mod projection;
pub mod shape;

pub use error::GaLoreError;
pub use moments::{MomentClock, MomentStep};
pub use projection::{BasisAction, GaLoreProjection, SlotBases};
pub use shape::Shape;
