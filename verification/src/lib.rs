//! Verified core of the Odysseus desktop shell: where the server, its Python
//! runtime and its data live, how first-time setup output is read, how a
//! Python 3.11+ interpreter is found, and the state machine that brings the
//! local server up.
pub mod credentials;
pub mod path;
pub mod paths;
pub mod python;
pub mod runtime;
pub mod server;
pub mod shell;
pub mod startup;
pub mod status;
pub mod text;
