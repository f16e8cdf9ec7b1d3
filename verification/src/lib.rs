//! Index options of the ZomboDB access method: how an index's stored
//! settings are read back, what each defaults to, and how the string
//! options are validated before PostgreSQL accepts them.

pub mod text;
pub mod options;
pub mod validate;
pub mod reloptions;
