//! Context-aware dispatch of `add <package>` to the package manager that a
//! project uses: npm, pnpm, yarn, bun, pip, uv, poetry or pipenv.
//!
//! The library decides; the program around it reads the disk and runs commands.
pub mod flags;
pub mod text;
pub mod backends;
pub mod json;
pub mod detect;
pub mod config;
pub mod dispatch;
pub mod exec;
