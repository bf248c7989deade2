//! What each tab of the inspector shows, as plain values.

pub mod cgram;
pub mod oam;
pub mod ppuregs;
