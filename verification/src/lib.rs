//! Decision logic of a desktop assistant's agent runtime: admitting and streaming agent
//! turns, driving command-line agents, gating tool permissions, keeping agent profiles, and
//! creating, pruning and restoring backups.
pub mod admission;
pub mod admission_laws;
pub mod agent_run;
pub mod archive_laws;
pub mod backup;
pub mod backup_delete;
pub mod backup_job;
pub mod backup_laws;
pub mod cancel;
pub mod cli;
pub mod cli_laws;
pub mod cli_turn;
pub mod command_laws;
pub mod deepseek;
pub mod export;
pub mod export_laws;
pub mod job_laws;
pub mod location;
pub mod payload;
pub mod permission;
pub mod permission_laws;
pub mod profile;
pub mod prompt_laws;
pub mod registry;
pub mod restore;
pub mod restore_laws;
pub mod running;
pub mod schedule;
pub mod session;
pub mod stream;
pub mod stream_laws;
pub mod text;
pub mod text_laws;
pub mod time;
pub mod tool_call_laws;
pub mod tool_input;
pub mod transcript;
pub mod turn_laws;
