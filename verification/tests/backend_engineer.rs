use auto_gippity::models::backend_engineer::{
    api_schema_prompt, endpoint_url, fix_bugs_prompt, fix_bugs_prompt_from_debug, improve_code_prompt,
    improve_code_prompt_from_debug, initial_code_prompt, BackendAbort, BackendAction, BackendEngineer,
    BackendEvent,
};
use auto_gippity::models::base_agent::AgentState;
use auto_gippity::models::team_traits::{RouteObject, SolutionSpecification};

fn route(method: &str, dynamic: &str, path: &str) -> RouteObject {
    RouteObject {
        is_route_dynamic: dynamic.to_string(),
        method: method.to_string(),
        request_body: serde_json::Value::Null,
        response: serde_json::Value::Object(serde_json::Map::new()),
        route: path.to_string(),
    }
}

fn spec() -> SolutionSpecification {
    SolutionSpecification::from_description(
        "build a website that fetches and tracks fitness progress with timezone information.".to_string(),
    )
}

#[test]
fn fresh_backend_engineer() {
    let agent = BackendEngineer::new();
    let attributes = agent.get_attributes_from_agent();
    assert_eq!(attributes.objective, "Develops backend code for the webserver and json database");
    assert_eq!(attributes.position, "Backend Developer");
    assert_eq!(attributes.state, AgentState::Discovery);
    assert!(attributes.memory.is_empty());
    assert_eq!(agent.bugs(), None);
}

#[test]
fn backend_happy_path() {
    let mut agent = BackendEngineer::new();
    let mut sol = spec();
    assert_eq!(agent.step(&mut sol, BackendEvent::Start), BackendAction::WriteInitialCode);
    assert_eq!(
        agent.step(&mut sol, BackendEvent::CodeWritten("v1".to_string())),
        BackendAction::ImproveCode
    );
    assert_eq!(sol.backend_code.as_deref(), Some("v1"));
    assert_eq!(agent.get_attributes_from_agent().state, AgentState::Working);
    assert_eq!(
        agent.step(&mut sol, BackendEvent::CodeWritten("v2".to_string())),
        BackendAction::ConfirmSafeCode
    );
    assert_eq!(sol.backend_code.as_deref(), Some("v2"));
    assert_eq!(agent.get_attributes_from_agent().state, AgentState::UnitTesting);
    assert_eq!(agent.step(&mut sol, BackendEvent::SafetyAnswer(true)), BackendAction::BuildServer);
    assert_eq!(
        agent.step(&mut sol, BackendEvent::BuildFinished(true, String::new())),
        BackendAction::ExtractApiSchema
    );
    let routes = vec![
        route("get", "false", "/api/time"),
        route("post", "false", "/api/user"),
        route("get", "true", "/api/user/{id}"),
        route("get", "false", "/api/health"),
    ];
    assert_eq!(agent.step(&mut sol, BackendEvent::RoutesDecoded(routes)), BackendAction::TestEndpoints);
    let schema = sol.api_schema.as_ref().unwrap();
    let paths: Vec<&str> = schema.iter().map(|r| r.route.as_str()).collect();
    assert_eq!(paths, vec!["/api/time", "/api/health"]);
    assert_eq!(agent.step(&mut sol, BackendEvent::EndpointsTested), BackendAction::Finish);
    assert_eq!(agent.get_attributes_from_agent().state, AgentState::Finished);
    assert_eq!(agent.step(&mut sol, BackendEvent::Start), BackendAction::Finish);
}

#[test]
fn failed_builds_ask_for_fixes_then_stop_at_the_third() {
    let mut agent = BackendEngineer::new();
    let mut sol = spec();
    agent.step(&mut sol, BackendEvent::Start);
    agent.step(&mut sol, BackendEvent::CodeWritten("v1".to_string()));
    agent.step(&mut sol, BackendEvent::CodeWritten("v2".to_string()));
    agent.step(&mut sol, BackendEvent::SafetyAnswer(true));
    assert_eq!(
        agent.step(&mut sol, BackendEvent::BuildFinished(false, "error 1".to_string())),
        BackendAction::FixBugs
    );
    assert_eq!(agent.bugs().map(|b| b.as_str()), Some("error 1"));
    assert_eq!(agent.get_attributes_from_agent().state, AgentState::Working);
    assert_eq!(
        agent.step(&mut sol, BackendEvent::CodeWritten("v3".to_string())),
        BackendAction::ConfirmSafeCode
    );
    agent.step(&mut sol, BackendEvent::SafetyAnswer(true));
    assert_eq!(
        agent.step(&mut sol, BackendEvent::BuildFinished(false, "error 2".to_string())),
        BackendAction::FixBugs
    );
    agent.step(&mut sol, BackendEvent::CodeWritten("v4".to_string()));
    agent.step(&mut sol, BackendEvent::SafetyAnswer(true));
    assert_eq!(
        agent.step(&mut sol, BackendEvent::BuildFinished(false, "error 3".to_string())),
        BackendAction::Abort(BackendAbort::BugLimitExceeded)
    );
    assert_eq!(agent.bugs().map(|b| b.as_str()), Some("error 3"));
    assert_eq!(
        agent.step(&mut sol, BackendEvent::Start),
        BackendAction::Abort(BackendAbort::BugLimitExceeded)
    );
}

#[test]
fn successful_build_resets_bug_count() {
    let mut agent = BackendEngineer::new();
    let mut sol = spec();
    agent.step(&mut sol, BackendEvent::Start);
    agent.step(&mut sol, BackendEvent::CodeWritten("v1".to_string()));
    agent.step(&mut sol, BackendEvent::CodeWritten("v2".to_string()));
    agent.step(&mut sol, BackendEvent::SafetyAnswer(true));
    agent.step(&mut sol, BackendEvent::BuildFinished(false, "e".to_string()));
    agent.step(&mut sol, BackendEvent::CodeWritten("v3".to_string()));
    agent.step(&mut sol, BackendEvent::SafetyAnswer(true));
    assert_eq!(
        agent.step(&mut sol, BackendEvent::BuildFinished(true, String::new())),
        BackendAction::ExtractApiSchema
    );
    agent.step(&mut sol, BackendEvent::RoutesDecoded(vec![]));
    assert_eq!(sol.api_schema.as_ref().map(|s| s.len()), Some(0));
    assert_eq!(agent.step(&mut sol, BackendEvent::EndpointsTested), BackendAction::Finish);
}

#[test]
fn rejected_code_stops_the_run() {
    let mut agent = BackendEngineer::new();
    let mut sol = spec();
    agent.step(&mut sol, BackendEvent::Start);
    agent.step(&mut sol, BackendEvent::CodeWritten("v1".to_string()));
    agent.step(&mut sol, BackendEvent::CodeWritten("v2".to_string()));
    assert_eq!(
        agent.step(&mut sol, BackendEvent::SafetyAnswer(false)),
        BackendAction::Abort(BackendAbort::UserRejectedCode)
    );
    assert_eq!(
        agent.step(&mut sol, BackendEvent::BuildFinished(true, String::new())),
        BackendAction::Abort(BackendAbort::UserRejectedCode)
    );
}

#[test]
fn unrelated_event_repeats_the_request() {
    let mut agent = BackendEngineer::new();
    let mut sol = spec();
    agent.step(&mut sol, BackendEvent::Start);
    assert_eq!(agent.step(&mut sol, BackendEvent::SafetyAnswer(true)), BackendAction::WriteInitialCode);
    assert_eq!(sol.backend_code, None);
    assert_eq!(agent.get_attributes_from_agent().state, AgentState::Discovery);
}

#[test]
fn backend_prompts() {
    assert_eq!(
        initial_code_prompt("fn main() {}", "a todo app"),
        "CODE_TEMPLATE: fn main() {} \nPROJECT DESCRIPTION: a todo app"
    );
    assert_eq!(api_schema_prompt("fn main() {}"), "CODE_INPUT: fn main() {}");
}

#[test]
fn endpoints_are_called_on_the_local_server() {
    assert_eq!(endpoint_url("/api/time"), "http://127.0.0.1:8080/api/time");
    assert_eq!(endpoint_url(""), "http://127.0.0.1:8080");
}

#[test]
fn fix_bugs_prompt_shows_code_and_errors_in_debug_form() {
    let code = "fn main() { println!(\"hi\"); }".to_string();
    let bugs = "error[E0425]: cannot find value `x`".to_string();
    assert_eq!(
        fix_bugs_prompt(Some(&code), Some(&bugs)),
        format!(
            "BROKEN CODE: {:?} \nERROR_BUGS: {:?}\n\n            THIS FUNCTION ONLY OUTPUTS CODE, NOTHING ELSE",
            Some(code.clone()),
            Some(bugs.clone())
        )
    );
    assert_eq!(
        fix_bugs_prompt(None, None),
        "BROKEN CODE: None \nERROR_BUGS: None\n\n            THIS FUNCTION ONLY OUTPUTS CODE, NOTHING ELSE"
    );
    assert_eq!(
        fix_bugs_prompt_from_debug("a", "b"),
        "BROKEN CODE: a \nERROR_BUGS: b\n\n            THIS FUNCTION ONLY OUTPUTS CODE, NOTHING ELSE"
    );
}

#[test]
fn improve_prompt_shows_code_and_specification_in_debug_form() {
    let mut sol = SolutionSpecification::from_description("a".to_string());
    sol.backend_code = Some("fn main() {}".to_string());
    sol.api_schema = Some(vec![route("get", "false", "/x")]);
    assert_eq!(
        improve_code_prompt(&sol),
        "CODE_TEMPLATE: Some(\"fn main() {}\") \nPROJECT DESCRIPTION: SolutionSpecification { \
         project_description: \"a\", project_scope: None, external_urls: None, \
         backend_code: Some(\"fn main() {}\"), api_schema: Some([RouteObject { \
         is_route_dynamic: \"false\", method: \"get\", request_body: Null, \
         response: Object {}, route: \"/x\" }]) }"
    );
    let empty = SolutionSpecification::from_description("b".to_string());
    assert_eq!(
        improve_code_prompt(&empty),
        "CODE_TEMPLATE: None \nPROJECT DESCRIPTION: SolutionSpecification { project_description: \"b\", \
         project_scope: None, external_urls: None, backend_code: None, api_schema: None }"
    );
    assert_eq!(improve_code_prompt_from_debug("c", "s"), "CODE_TEMPLATE: c \nPROJECT DESCRIPTION: s");
}
