pub mod errors;
