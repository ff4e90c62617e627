//! Window setup logic of the GRRPit desktop shell: which window to build,
//! which visual effect to apply on each platform, when startup must abort,
//! and how the title-bar height query answers.

pub mod setup;
pub mod titlebar;
pub mod window;
