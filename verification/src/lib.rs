//! Planning of a fresh Directus project directory: which directories and
//! files to create, what the files hold, and what to tell the user about
//! each step once it has been attempted.

pub mod paths;
pub mod plan;
pub mod report;
pub mod scaffolder;
pub mod templates;
pub mod tree;
