pub mod api_response;
