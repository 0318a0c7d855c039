//! The decisions of a small mailing-list service, stated and proved: how the
//! settings are read out of a loaded configuration, how the two routes answer,
//! and in which order the service starts up and gives up.

pub mod configuration;
pub mod error;
pub mod routes;
pub mod startup;
