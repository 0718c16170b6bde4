pub mod users_entity_service;
