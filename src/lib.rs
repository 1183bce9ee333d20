//! Newsletter subscription service: validated subscriber identity, mail
//! dispatch decisions and configuration values.

pub mod config;
pub mod domain;
pub mod mail;
pub mod routes;
