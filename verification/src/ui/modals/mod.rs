pub mod alert;
pub mod anilist;
pub mod confirm_remove;
pub mod cover_prompt;
pub mod edit_path;
pub mod help;
pub mod install_sources;
pub mod kcc_missing;
pub mod mark_read_text;
pub mod process_text;
pub mod settings;
pub mod settings_text;
pub mod source_select;
pub mod source_select_text;
pub mod styled;
