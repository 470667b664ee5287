//! Startup sequencing for a desktop shell: a splash window is shown while the
//! application warms up, then closed, and the pre-declared main window is
//! revealed. The decisions live here as a verified state machine; the host
//! framework performs each requested action and reports the outcome back.

pub mod window;
pub mod startup;
