use vstd::prelude::*;
use crate::models::backend_engineer::{fresh_backend_engineer, BackendEngineer, BackendEngineerView};
use crate::models::base_agent::{AgentState, BaseAgent, BaseAgentView, MessageView};
use crate::models::junior_backend_engineer::{JuniorBackendEngineer, JuniorBackendEngineerView};
use crate::models::solution_architect::{
    fresh_solution_architect, SolutionArchitect, SolutionArchitectView,
};
use crate::models::team_traits::{SolutionSpecification, SpecificationView};

verus! {

/// One member of the project manager's team.
#[derive(Debug)]
pub enum TeamMember {
    Architect(SolutionArchitect),
    Backend(BackendEngineer),
    JuniorBackend(JuniorBackendEngineer),
}

/// The abstract content of a [`TeamMember`].
pub ghost enum TeamMemberView {
    Architect(SolutionArchitectView),
    Backend(BackendEngineerView),
    JuniorBackend(JuniorBackendEngineerView),
}

impl View for TeamMember {
    type V = TeamMemberView;

    open spec fn view(&self) -> TeamMemberView {
        match self {
            TeamMember::Architect(a) => TeamMemberView::Architect(a@),
            TeamMember::Backend(b) => TeamMemberView::Backend(b@),
            TeamMember::JuniorBackend(j) => TeamMemberView::JuniorBackend(j@),
        }
    }
}

/// The abstract content of a team.
pub open spec fn team_views(team: Seq<TeamMember>) -> Seq<TeamMemberView> {
    team.map_values(|m: TeamMember| m@)
}

/// The agent that turns the user's request into a project description and
/// hands the specification to its team, member after member.
#[derive(Debug)]
pub struct ProjectManager {
    pub attributes: BaseAgent,
    pub specification: SolutionSpecification,
    pub team: Vec<TeamMember>,
}

/// The abstract content of a [`ProjectManager`].
pub ghost struct ProjectManagerView {
    pub attributes: BaseAgentView,
    pub specification: SpecificationView,
    pub team: Seq<TeamMemberView>,
}

impl View for ProjectManager {
    type V = ProjectManagerView;

    open spec fn view(&self) -> ProjectManagerView {
        ProjectManagerView {
            attributes: self.attributes@,
            specification: self.specification@,
            team: team_views(self.team@),
        }
    }
}

/// The team the project manager delivers a project with, in the order in
/// which its members work: the solution architect, then the backend
/// engineer.
pub open spec fn delivery_team() -> Seq<TeamMemberView> {
    seq![
        TeamMemberView::Architect(fresh_solution_architect()),
        TeamMemberView::Backend(fresh_backend_engineer()),
    ]
}

impl ProjectManager {
    /// A project manager for the project described by `project_description`
    /// (the model's restatement of the user's request), with no team yet.
    pub fn new(project_description: String) -> (manager: ProjectManager)
        ensures
            manager@ == (ProjectManagerView {
                attributes: BaseAgentView {
                    objective: "Manage team members that are designing and building the website for the user"@,
                    position: "Project Manager"@,
                    state: AgentState::Discovery,
                    memory: Seq::<MessageView>::empty(),
                },
                specification: SpecificationView {
                    project_description: project_description@,
                    project_scope: None,
                    external_urls: None,
                    backend_code: None,
                    api_schema: None,
                },
                team: Seq::<TeamMemberView>::empty(),
            }),
    {
        let attributes = BaseAgent::new(
            String::from_str("Manage team members that are designing and building the website for the user"),
            String::from_str("Project Manager"),
        );
        let specification = SolutionSpecification::from_description(project_description);
        let team: Vec<TeamMember> = Vec::new();
        let manager = ProjectManager { attributes, specification, team };
        assert(manager@.team =~= Seq::<TeamMemberView>::empty());
        manager
    }

    /// Adds a member at the end of the team.
    pub fn add_team_member(&mut self, member: TeamMember)
        ensures
            final(self)@ == (ProjectManagerView {
                team: old(self)@.team.push(member@),
                ..old(self)@
            }),
    {
        self.team.push(member);
        assert(team_views(self.team@) =~= old(self)@.team.push(member@));
    }

    /// Adds the delivery team: a fresh solution architect, then a fresh
    /// backend engineer.
    pub fn create_team_members(&mut self)
        ensures
            final(self)@ == (ProjectManagerView {
                team: old(self)@.team + delivery_team(),
                ..old(self)@
            }),
            final(self)@.team.len() == old(self)@.team.len() + 2,
            final(self)@.team[old(self)@.team.len() as int] matches TeamMemberView::Architect(a)
                && a.attributes.position == "Solution Architect"@ && a.attributes.state
                == AgentState::Discovery,
            final(self)@.team[old(self)@.team.len() as int + 1] matches TeamMemberView::Backend(b)
                && b.attributes.position == "Backend Developer"@ && b.attributes.state
                == AgentState::Discovery && b.bug_count == 0,
    {
        self.add_team_member(TeamMember::Architect(SolutionArchitect::new()));
        self.add_team_member(TeamMember::Backend(BackendEngineer::new()));
        assert(self@.team =~= old(self)@.team + delivery_team());
    }
}

} // verus!
