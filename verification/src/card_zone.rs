//! Setting cards on the zones of the field.

pub mod can_set;
