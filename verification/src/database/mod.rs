//! Direct access to the MySQL whitelist table.

pub mod mysql;
