pub mod github_service_deploy;
pub mod github_service_status;
pub mod github_service_teardown;
