pub mod github_auth_service;
pub mod github_service;
