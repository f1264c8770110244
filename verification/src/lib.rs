mod exe_path;
mod greeting;
mod startup;

pub use exe_path::EnvironmentQueryError;
pub use exe_path::empty_path_cause;
pub use exe_path::exe_path_response;
pub use exe_path::get_current_exe_path;
pub use exe_path::lemma_exe_path_idempotent;
pub use exe_path::lemma_exe_path_never_empty;
pub use exe_path::query_failure_prefix;
pub use exe_path::query_failure_text;
pub use exe_path::query_view;
pub use exe_path::response_view;
pub use greeting::greet;
pub use greeting::greeting;
pub use greeting::greeting_prefix;
pub use greeting::greeting_suffix;
pub use startup::StartupPlugin;
pub use startup::startup_plugins;
pub use startup::startup_sequence;
