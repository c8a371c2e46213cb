//! What the server schedules and what its users may do.

pub mod server_tasks;
