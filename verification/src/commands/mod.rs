//! What each command of the service decides, before and after the work
//! that its caller does on the voice connection.

pub mod leave;
pub mod loopc;
pub mod play;
pub mod queue;
pub mod resume;
pub mod skip;
pub mod song;
pub mod stop;
