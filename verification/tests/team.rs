use auto_gippity::models::base_agent::{AgentState, BaseAgent};
use auto_gippity::models::junior_backend_engineer::{
    JuniorAction, JuniorBackendEngineer, JuniorEvent,
};
use auto_gippity::models::project_manager::{ProjectManager, TeamMember};
use auto_gippity::models::team_traits::{select_testable_routes, RouteObject, SolutionSpecification};

#[test]
fn fresh_junior_backend_engineer() {
    let agent = JuniorBackendEngineer::new();
    let attributes = agent.get_attributes_from_agent();
    assert_eq!(attributes.objective, "Develops initial backend code for the webserver");
    assert_eq!(attributes.position, "Junior Backend Developer");
    assert_eq!(attributes.state, AgentState::Discovery);
}

#[test]
fn junior_writes_code_once() {
    let mut agent = JuniorBackendEngineer::new();
    let mut sol = SolutionSpecification::from_description("a blog".to_string());
    assert_eq!(agent.step(&mut sol, JuniorEvent::Start), JuniorAction::WriteInitialCode);
    assert_eq!(agent.step(&mut sol, JuniorEvent::Start), JuniorAction::WriteInitialCode);
    assert_eq!(
        agent.step(&mut sol, JuniorEvent::CodeWritten("fn main() {}".to_string())),
        JuniorAction::Finish
    );
    assert_eq!(sol.backend_code.as_deref(), Some("fn main() {}"));
    assert_eq!(agent.get_attributes_from_agent().state, AgentState::Finished);
    assert_eq!(agent.step(&mut sol, JuniorEvent::Start), JuniorAction::Finish);
}

#[test]
fn base_agent_state_updates() {
    let mut agent = BaseAgent::new("objective".to_string(), "position".to_string());
    assert_eq!(agent.state, AgentState::Discovery);
    agent.update_state(AgentState::UnitTesting);
    assert_eq!(agent.state, AgentState::UnitTesting);
    assert_eq!(agent.objective, "objective");
    assert_eq!(agent.position, "position");
}

#[test]
fn project_manager_starts_without_team() {
    let pm = ProjectManager::new("track fitness progress".to_string());
    assert_eq!(
        pm.attributes.objective,
        "Manage team members that are designing and building the website for the user"
    );
    assert_eq!(pm.attributes.position, "Project Manager");
    assert_eq!(pm.specification.project_description, "track fitness progress");
    assert!(pm.specification.project_scope.is_none());
    assert!(pm.specification.external_urls.is_none());
    assert!(pm.specification.backend_code.is_none());
    assert!(pm.specification.api_schema.is_none());
    assert!(pm.team.is_empty());
}

#[test]
fn delivery_team_is_architect_then_backend() {
    let mut pm = ProjectManager::new("track fitness progress".to_string());
    pm.create_team_members();
    assert_eq!(pm.team.len(), 2);
    match &pm.team[0] {
        TeamMember::Architect(a) => {
            assert_eq!(a.get_attributes_from_agent().position, "Solution Architect")
        }
        _ => panic!("the architect comes first"),
    }
    match &pm.team[1] {
        TeamMember::Backend(b) => {
            assert_eq!(b.get_attributes_from_agent().position, "Backend Developer")
        }
        _ => panic!("the backend engineer comes second"),
    }
    pm.add_team_member(TeamMember::JuniorBackend(JuniorBackendEngineer::new()));
    assert_eq!(pm.team.len(), 3);
}

#[test]
fn testable_routes_keep_order() {
    let mk = |m: &str, d: &str, r: &str| RouteObject {
        is_route_dynamic: d.to_string(),
        method: m.to_string(),
        request_body: serde_json::Value::Null,
        response: serde_json::Value::Null,
        route: r.to_string(),
    };
    let kept = select_testable_routes(vec![
        mk("get", "false", "/a"),
        mk("GET", "false", "/b"),
        mk("get", "true", "/c/{id}"),
        mk("delete", "false", "/d"),
        mk("get", "false", "/e"),
    ]);
    let paths: Vec<String> = kept.into_iter().map(|r| r.route).collect();
    assert_eq!(paths, vec!["/a".to_string(), "/e".to_string()]);
}
