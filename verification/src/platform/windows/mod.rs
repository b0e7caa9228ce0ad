pub mod attach;
pub mod constants;
pub mod functions;
pub mod mouse;
pub mod procs;
pub mod models;
pub mod monitors;
