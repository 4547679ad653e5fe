pub mod callbacks;
pub mod client_laws;
pub mod client_log;
pub mod clock;
pub mod digest;
pub mod direction;
pub mod effect;
pub mod effect_laws;
pub mod error;
pub mod exec;
pub mod exec_parallel;
pub mod executor;
pub mod file_laws;
pub mod headers;
pub mod ids;
pub mod inner_task;
pub mod key_map;
pub mod lifecycle;
pub mod log;
pub mod log_entry_laws;
pub mod log_laws;
pub mod log_line_laws;
pub mod log_lines;
pub mod memory_budget;
pub mod meow_client;
pub mod meow_config;
pub mod operation_laws;
pub mod order;
pub mod part_window;
pub mod pounce_task;
pub mod presigned;
pub mod retry;
pub mod run_laws;
pub mod scheduler;
pub mod scheduler_laws;
pub mod scheduler_log;
pub mod scheduler_state;
pub mod source_check;
pub mod source_laws;
pub mod target_lease;
pub mod text;
pub mod transfer_status;
pub mod transfer_task;
pub mod upload_file;
pub mod worker_event;
pub mod worker_laws;
pub mod worker_log;
