//! Account bookkeeping for switching between several Git identities: the
//! state machine behind the terminal interface, the store operations as step
//! machines, the account records and the text handling around the `git` and
//! `ssh-keygen` commands.

pub mod text;
pub mod db;
pub mod email;
pub mod app;
pub mod laws;
pub mod store;
pub mod layout;
