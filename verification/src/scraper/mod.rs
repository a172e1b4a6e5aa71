pub mod html;
pub mod lua;
pub mod manager;
pub mod script_text;
