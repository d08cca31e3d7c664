pub mod backend_engineer;
pub mod base_agent;
pub mod junior_backend_engineer;
pub mod project_manager;
pub mod solution_architect;
pub mod team_traits;
