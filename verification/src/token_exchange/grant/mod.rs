//! The grants that the token endpoint knows.
pub mod authorization_code;
pub mod password;
