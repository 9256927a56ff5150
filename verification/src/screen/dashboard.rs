//! The dashboard screen.

pub mod sidebar;
