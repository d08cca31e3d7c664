use vstd::prelude::*;
use crate::models::base_agent::{AgentState, BaseAgent, BaseAgentView, MessageView};
use crate::models::team_traits::{SolutionSpecification, SpecificationView};

verus! {

/// What the junior backend engineer is waiting for.
#[derive(PartialEq, Eq, Structural, Clone, Copy, Debug)]
pub enum JuniorWait {
    /// Nothing: the next event starts the work of the current stage.
    Nothing,
    /// The first version of the server, written by the model.
    Code,
}

/// What the junior backend engineer asks its driver to do next.
#[derive(PartialEq, Eq, Structural, Clone, Copy, Debug)]
pub enum JuniorAction {
    /// Ask the model for a first version of the server from the code template.
    WriteInitialCode,
    /// Nothing: the junior engineer has no work in its current stage and
    /// stays in it.
    Idle,
    /// The task is complete.
    Finish,
}

/// What the driver reports back to the junior backend engineer.
#[derive(Debug)]
pub enum JuniorEvent {
    /// Begin (or resume) the work of the current stage.
    Start,
    /// The model wrote this backend code (it is already saved).
    CodeWritten(String),
}

/// The abstract content of a [`JuniorEvent`].
pub ghost enum JuniorEventView {
    Start,
    CodeWritten(Seq<char>),
}

impl View for JuniorEvent {
    type V = JuniorEventView;

    open spec fn view(&self) -> JuniorEventView {
        match self {
            JuniorEvent::Start => JuniorEventView::Start,
            JuniorEvent::CodeWritten(code) => JuniorEventView::CodeWritten(code@),
        }
    }
}

/// The agent that only writes the first version of the backend server.
#[derive(Debug)]
pub struct JuniorBackendEngineer {
    attributes: BaseAgent,
    awaiting: JuniorWait,
}

/// The abstract content of a [`JuniorBackendEngineer`].
pub ghost struct JuniorBackendEngineerView {
    pub attributes: BaseAgentView,
    pub awaiting: JuniorWait,
}

impl View for JuniorBackendEngineer {
    type V = JuniorBackendEngineerView;

    closed spec fn view(&self) -> JuniorBackendEngineerView {
        JuniorBackendEngineerView { attributes: self.attributes@, awaiting: self.awaiting }
    }
}

/// A junior backend engineer at the start of its task.
pub open spec fn fresh_junior_backend_engineer() -> JuniorBackendEngineerView {
    JuniorBackendEngineerView {
        attributes: BaseAgentView {
            objective: "Develops initial backend code for the webserver"@,
            position: "Junior Backend Developer"@,
            state: AgentState::Discovery,
            memory: Seq::<MessageView>::empty(),
        },
        awaiting: JuniorWait::Nothing,
    }
}

/// Opens the work of the current stage.
pub open spec fn junior_enter(s: JuniorBackendEngineerView) -> (JuniorBackendEngineerView, JuniorAction) {
    match s.attributes.state {
        AgentState::Discovery => (
            JuniorBackendEngineerView { awaiting: JuniorWait::Code, ..s },
            JuniorAction::WriteInitialCode,
        ),
        AgentState::Finished => (s, JuniorAction::Finish),
        _ => (s, JuniorAction::Idle),
    }
}

/// One step of the junior backend engineer: its new state, the new
/// specification and the next request, given the event that answers its
/// last request. An event that does not answer the pending request changes
/// nothing and the request is repeated.
pub open spec fn junior_next(
    s: JuniorBackendEngineerView,
    sol: SpecificationView,
    event: JuniorEventView,
) -> (JuniorBackendEngineerView, SpecificationView, JuniorAction) {
    match (s.awaiting, event) {
        (JuniorWait::Nothing, _) => {
            let (s2, action) = junior_enter(s);
            (s2, sol, action)
        },
        (JuniorWait::Code, JuniorEventView::CodeWritten(code)) => (
            JuniorBackendEngineerView {
                attributes: BaseAgentView { state: AgentState::Finished, ..s.attributes },
                awaiting: JuniorWait::Nothing,
            },
            SpecificationView { backend_code: Some(code), ..sol },
            JuniorAction::Finish,
        ),
        (JuniorWait::Code, _) => (s, sol, JuniorAction::WriteInitialCode),
    }
}


/// The junior engineer's state and the specification after the events
/// `events`, answered one after the other.
pub open spec fn junior_run(
    s: JuniorBackendEngineerView,
    sol: SpecificationView,
    events: Seq<JuniorEventView>,
) -> (JuniorBackendEngineerView, SpecificationView)
    decreases events.len(),
{
    if events.len() == 0 {
        (s, sol)
    } else {
        let (s1, sol1, _action) = junior_next(s, sol, events[0]);
        junior_run(s1, sol1, events.drop_first())
    }
}

/// Whatever events come, the junior engineer keeps its objective, position
/// and memory, and changes no part of the specification but the backend
/// code.
pub proof fn lemma_junior_run_invariants(
    s: JuniorBackendEngineerView,
    sol: SpecificationView,
    events: Seq<JuniorEventView>,
)
    ensures
        ({
            let (s2, sol2) = junior_run(s, sol, events);
            &&& s2.attributes.objective == s.attributes.objective
            &&& s2.attributes.position == s.attributes.position
            &&& s2.attributes.memory == s.attributes.memory
            &&& sol2.project_description == sol.project_description
            &&& sol2.project_scope == sol.project_scope
            &&& sol2.external_urls == sol.external_urls
            &&& sol2.api_schema == sol.api_schema
        }),
    decreases events.len(),
{
    if events.len() > 0 {
        let (s1, sol1, _action) = junior_next(s, sol, events[0]);
        lemma_junior_run_invariants(s1, sol1, events.drop_first());
    }
}

/// A fresh junior engineer asks for the first version of the server, and
/// once it is written the code is recorded and the task is finished.
pub proof fn lemma_junior_writes_once(sol: SpecificationView, code: Seq<char>)
    ensures
        ({
            let (s1, sol1, a1) = junior_next(
                fresh_junior_backend_engineer(),
                sol,
                JuniorEventView::Start,
            );
            let (s2, sol2, a2) = junior_next(s1, sol1, JuniorEventView::CodeWritten(code));
            &&& a1 == JuniorAction::WriteInitialCode
            &&& a2 == JuniorAction::Finish
            &&& s2.attributes.state == AgentState::Finished
            &&& sol2 == SpecificationView { backend_code: Some(code), ..sol }
        }),
{
}

/// Whenever the junior engineer waits for code, the code it receives
/// becomes the specification's backend code, nothing else of the
/// specification changes, and the engineer finishes.
pub proof fn lemma_junior_code_written_is_recorded(
    s: JuniorBackendEngineerView,
    sol: SpecificationView,
    code: Seq<char>,
)
    requires
        s.awaiting == JuniorWait::Code,
    ensures
        ({
            let (s2, sol2, action) = junior_next(s, sol, JuniorEventView::CodeWritten(code));
            &&& sol2 == SpecificationView { backend_code: Some(code), ..sol }
            &&& s2.attributes.state == AgentState::Finished
            &&& action == JuniorAction::Finish
        }),
{
}

/// The junior engineer reports `Finish` only once its state is `Finished`.
pub proof fn lemma_junior_finish_means_finished(
    s: JuniorBackendEngineerView,
    sol: SpecificationView,
    event: JuniorEventView,
)
    ensures
        junior_next(s, sol, event).2 == JuniorAction::Finish ==> junior_next(
            s,
            sol,
            event,
        ).0.attributes.state == AgentState::Finished,
{
}

impl JuniorBackendEngineer {
    /// A fresh junior backend engineer, at the start of its task.
    pub fn new() -> (agent: JuniorBackendEngineer)
        ensures
            agent@ == fresh_junior_backend_engineer(),
    {
        let attributes = BaseAgent::new(
            String::from_str("Develops initial backend code for the webserver"),
            String::from_str("Junior Backend Developer"),
        );
        JuniorBackendEngineer { attributes, awaiting: JuniorWait::Nothing }
    }

    /// The agent's common attributes.
    pub fn get_attributes_from_agent(&self) -> (attributes: &BaseAgent)
        ensures
            attributes@ == self@.attributes,
    {
        &self.attributes
    }

    /// Takes the event that answers the engineer's last request, updates
    /// the engineer and the specification, and returns the next request.
    pub fn step(&mut self, specification: &mut SolutionSpecification, event: JuniorEvent) -> (action: JuniorAction)
        ensures
            (final(self)@, final(specification)@, action) == junior_next(
                old(self)@,
                old(specification)@,
                event@,
            ),
    {
        match (self.awaiting, event) {
            (JuniorWait::Nothing, _) => match self.attributes.state {
                AgentState::Discovery => {
                    self.awaiting = JuniorWait::Code;
                    JuniorAction::WriteInitialCode
                },
                AgentState::Finished => JuniorAction::Finish,
                _ => JuniorAction::Idle,
            },
            (JuniorWait::Code, JuniorEvent::CodeWritten(code)) => {
                specification.backend_code = Some(code);
                self.attributes.update_state(AgentState::Finished);
                self.awaiting = JuniorWait::Nothing;
                JuniorAction::Finish
            },
            (JuniorWait::Code, _) => JuniorAction::WriteInitialCode,
        }
    }
}

} // verus!
