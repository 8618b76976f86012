pub mod directory;
pub mod error;
pub mod file;
pub mod ime;
pub mod path;

pub use directory::{ensure_directory, sort_entries, DirectoryLister, FileEntry};
pub use error::{AppError, ErrorView};
pub use file::{
    check_read_size, plan_write, settings_or_null, settings_paths, staging_path, WriteMode,
    WritePlan, MAX_FILE_SIZE,
};
pub use ime::{
    get_input_source, ime_save_and_switch_ascii, require_source, save_and_switch_to_ascii,
    select_ascii_input, select_input_source, InputSource, UnsupportedInputSource,
};
pub use path::{resolve, validate_path, ValidatedPath};
