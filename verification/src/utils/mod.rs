pub mod error;
pub mod error_code;
pub mod pavex;
