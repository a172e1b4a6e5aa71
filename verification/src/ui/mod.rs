pub mod browse;
pub mod components;
pub mod image_preview;
pub mod jobs;
pub mod layout;
pub mod modal_keys;
pub mod modals;
pub mod navigation;
pub mod packaging;
