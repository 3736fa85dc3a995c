pub mod android;
pub mod darwin;
pub mod harmony;
