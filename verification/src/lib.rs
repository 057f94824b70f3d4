//! Range-constrained numeric settings with saturating arithmetic, a level
//! abstraction with fractional and percentage semantics, and the adjustment
//! pipeline that keeps a settings record and its displayed text consistent.

pub mod bounded;
pub mod level;
pub mod settings;
pub mod percent;
