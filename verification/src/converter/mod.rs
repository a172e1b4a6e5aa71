pub mod cbz;
pub mod images;
pub mod kcc;
pub mod pdf;
pub mod toolchain;
