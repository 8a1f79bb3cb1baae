//! Registrars administer a database of known clients: they govern the redirect urls a client may
//! use, the scope it is granted and, for confidential clients, how the client authenticates.

pub mod digest;
pub mod redirect;
pub mod scope;
pub mod registrar;
pub mod laws;
