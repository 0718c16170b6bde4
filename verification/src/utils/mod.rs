pub mod clock;
pub mod consts;
pub mod datatable;
pub mod error_response;
pub mod merge_json;
pub mod random;
pub mod text;
