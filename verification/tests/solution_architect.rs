use auto_gippity::models::base_agent::AgentState;
use auto_gippity::models::solution_architect::{
    ArchitectAbort, ArchitectAction, ArchitectEvent, SolutionArchitect,
};
use auto_gippity::models::team_traits::{ProjectFeatures, SolutionSpecification};

fn spec() -> SolutionSpecification {
    SolutionSpecification::from_description(
        "Build a fullstack website with user login and logout that shows the latest Forex prices".to_string(),
    )
}

fn features(urls: bool) -> ProjectFeatures {
    ProjectFeatures {
        is_crud_required: true,
        is_user_login_and_logout_required: true,
        is_external_urls_required: urls,
    }
}

#[test]
fn fresh_solution_architect() {
    let agent = SolutionArchitect::new();
    let attributes = agent.get_attributes_from_agent();
    assert_eq!(
        attributes.objective,
        "Gathers requirements and design the solution for the website architecture"
    );
    assert_eq!(attributes.position, "Solution Architect");
    assert_eq!(attributes.state, AgentState::Discovery);
    assert!(attributes.memory.is_empty());
}

#[test]
fn no_external_urls_needed() {
    let mut agent = SolutionArchitect::new();
    let mut sol = spec();
    assert_eq!(agent.step(&mut sol, ArchitectEvent::Start), ArchitectAction::RequestFeatures);
    assert_eq!(
        agent.step(&mut sol, ArchitectEvent::FeaturesDecoded(features(false))),
        ArchitectAction::Finish
    );
    assert_eq!(sol.project_scope, Some(features(false)));
    assert_eq!(sol.external_urls, None);
    assert_eq!(agent.get_attributes_from_agent().state, AgentState::Finished);
}

#[test]
fn urls_that_do_not_answer_200_are_dropped() {
    let mut agent = SolutionArchitect::new();
    let mut sol = spec();
    agent.step(&mut sol, ArchitectEvent::Start);
    assert_eq!(
        agent.step(&mut sol, ArchitectEvent::FeaturesDecoded(features(true))),
        ArchitectAction::RequestExternalUrls
    );
    let urls = vec![
        "https://a.example".to_string(),
        "https://b.example".to_string(),
        "https://c.example".to_string(),
        "https://d.example".to_string(),
    ];
    assert_eq!(agent.step(&mut sol, ArchitectEvent::UrlsDecoded(urls)), ArchitectAction::CheckUrls);
    assert_eq!(agent.get_attributes_from_agent().state, AgentState::UnitTesting);
    assert_eq!(
        agent.step(
            &mut sol,
            ArchitectEvent::UrlsChecked(vec![Some(200), Some(404), None, Some(500)])
        ),
        ArchitectAction::Finish
    );
    assert_eq!(
        sol.external_urls,
        Some(vec!["https://a.example".to_string(), "https://c.example".to_string()])
    );
    assert_eq!(agent.get_attributes_from_agent().state, AgentState::Finished);
}

#[test]
fn every_copy_of_a_rejected_url_is_dropped() {
    let mut agent = SolutionArchitect::new();
    let mut sol = spec();
    agent.step(&mut sol, ArchitectEvent::Start);
    agent.step(&mut sol, ArchitectEvent::FeaturesDecoded(features(true)));
    let urls = vec!["x".to_string(), "y".to_string(), "x".to_string()];
    agent.step(&mut sol, ArchitectEvent::UrlsDecoded(urls));
    agent.step(&mut sol, ArchitectEvent::UrlsChecked(vec![Some(200), Some(200), Some(301)]));
    assert_eq!(sol.external_urls, Some(vec!["y".to_string()]));
}

#[test]
fn all_urls_kept_when_all_answer() {
    let mut agent = SolutionArchitect::new();
    let mut sol = spec();
    agent.step(&mut sol, ArchitectEvent::Start);
    agent.step(&mut sol, ArchitectEvent::FeaturesDecoded(features(true)));
    agent.step(&mut sol, ArchitectEvent::UrlsDecoded(vec!["x".to_string(), "y".to_string()]));
    agent.step(&mut sol, ArchitectEvent::UrlsChecked(vec![Some(200), None]));
    assert_eq!(sol.external_urls, Some(vec!["x".to_string(), "y".to_string()]));
}

#[test]
fn missing_urls_stop_the_run() {
    let mut agent = SolutionArchitect::new();
    let mut sol = spec();
    agent.step(&mut sol, ArchitectEvent::Start);
    agent.step(&mut sol, ArchitectEvent::FeaturesDecoded(features(true)));
    agent.step(&mut sol, ArchitectEvent::UrlsDecoded(vec!["x".to_string()]));
    sol.external_urls = None;
    assert_eq!(
        agent.step(&mut sol, ArchitectEvent::UrlsChecked(vec![Some(200)])),
        ArchitectAction::Abort(ArchitectAbort::MissingUrls)
    );
    assert_eq!(
        agent.step(&mut sol, ArchitectEvent::Start),
        ArchitectAction::Abort(ArchitectAbort::MissingUrls)
    );
}
