//! A single-host process isolation sandbox library.
//!
//! Given a numeric sandbox identifier, the library carves out a dedicated
//! filesystem view and user/group identity, then describes how one external
//! program is executed inside that confinement under CPU-time, wall-time,
//! memory, file-size, process-count and open-file limits, reporting a
//! structured outcome.
//!
//! All operating-system work (identity queries, privilege switches,
//! filesystem primitives, process execution) goes through the [`System`]
//! capability trait, so the lifecycle logic here is independent of the host
//! and can be exercised with a substitute collaborator.

pub mod config;
pub mod dir_rule;
pub mod environment;
pub mod error;
pub mod execution_context;
pub mod execution_result;
pub mod mount;
pub mod sandbox;
pub mod system;
pub mod text;
pub mod variable;

pub use config::BehaviorConfig;
pub use config::CgroupConfig;
pub use config::CgroupRoot;
pub use config::Config;
pub use config::FilesystemConfig;
pub use config::IoConfig;
pub use config::ProgramLimits;
pub use config::SecurityConfig;
pub use dir_rule::DirOptions;
pub use dir_rule::DirRule;
pub use environment::Environment;
pub use error::Error;
pub use execution_context::ExecutionContext;
pub use execution_result::ExecutionResult;
pub use execution_result::MonitorVerdict;
pub use execution_result::RawTermination;
pub use execution_result::RunFailure;
pub use execution_result::Status;
pub use mount::Mount;
pub use mount::MountOptions;
pub use mount::resolve_mounts;
pub use sandbox::Credentials;
pub use sandbox::Sandbox;
pub use sandbox::check_ancestor;
pub use sandbox::check_effective_root;
pub use sandbox::resolve_credentials;
pub use sandbox::setegid_failure;
pub use sandbox::skip_optional_mount;
pub use sandbox::validate_sandbox_id;
pub use system::PathInfo;
pub use system::ProcessPlan;
pub use system::System;
pub use text::u32_to_string;
pub use variable::Action;
pub use variable::Variable;
