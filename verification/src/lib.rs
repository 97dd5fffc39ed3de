//! Client logic for the Pastery paste service: building the upload request,
//! reading the credential from the configuration text, interpreting the
//! server's answer and deciding what the command-line front end does next.

pub mod config;
pub mod decimal;
pub mod form;
pub mod json;
pub mod request;
pub mod response;
pub mod scan;
pub mod session;
