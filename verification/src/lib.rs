pub mod text;
pub mod order;
pub mod json;
pub mod nix_command;
pub mod strmap;
pub mod eh_config;
pub mod eh_error;
pub mod error;
pub mod patterns;
pub mod hash;
pub mod eval;
pub mod nix_config;
pub mod retry;
pub mod util;
pub mod suggestions;
pub mod retry_flow;
pub mod command;
pub mod guarded_run;
pub mod run;
pub mod shell;
pub mod eh_log;
pub mod eh_locate;
pub mod update;
pub mod commands;
pub mod comma;
pub mod info;
pub mod cli;
pub mod config;
