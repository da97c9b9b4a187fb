//! Verified core of a nannou creative-coding workspace: the demo router and its
//! heads-up display, the memory-trail recorder shared by the sketches, the
//! demo state machines, the window-restore rules of the desktop runner, and the
//! text answers of the project helper server.
pub mod text;
pub mod trails;
pub mod hot_reload;
pub mod sketch;
pub mod runner;
pub mod project_server;
