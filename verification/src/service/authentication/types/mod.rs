pub mod email;
pub mod password;
pub mod validated_json;
