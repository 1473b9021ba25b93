//! Configuration resolution and project planning for a personal project
//! scaffolding tool.
//!
//! The crate holds the decisions of the tool and none of its effects: values
//! come in as plain strings and tables, and paths, registries and plans go
//! out. Reading and writing files, encoding tables as text and creating
//! links is left to the caller.

pub mod config;
pub mod error;
pub mod path;
pub mod project;
pub mod registry;

pub use config::{Alias, Config, ProjectConfig, ProjectType};
pub use error::{ConfigError, ErrorKind};
pub use project::{
    create_alias_group, create_lib, create_project, define_project_type, project_alias_groups,
    project_links, Link, ProjectPlan,
};
pub use registry::Registry;
