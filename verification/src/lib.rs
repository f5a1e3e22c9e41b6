pub mod dialog;
pub mod downloads;
pub mod greeting;
pub mod saving;
