use vstd::prelude::*;
use crate::models::base_agent::{AgentState, BaseAgent, BaseAgentView, MessageView};
use crate::models::team_traits::{
    lemma_testable_routes, route_views, select_testable_routes, testable_route_filter, RouteObject, RouteView,
    SolutionSpecification, SpecificationView,
};

verus! {

/// Why the backend engineer stops the whole run.
#[derive(PartialEq, Eq, Structural, Clone, Copy, Debug)]
pub enum BackendAbort {
    /// The user refused to run the code the model wrote.
    UserRejectedCode,
    /// The server failed to build too many times in a row.
    BugLimitExceeded,
}

/// What the backend engineer is waiting for.
#[derive(PartialEq, Eq, Structural, Clone, Copy, Debug)]
pub enum BackendWait {
    /// Nothing: the next event starts the work of the current stage.
    Nothing,
    /// Backend code written by the model.
    Code,
    /// The user's go / no-go on running that code.
    Confirmation,
    /// The outcome of building the server.
    Build,
    /// The REST endpoints the model extracted from the code.
    Schema,
    /// The end of the endpoint tests on the running server.
    EndpointTests,
    /// Nothing any more: the run was stopped.
    Halted(BackendAbort),
}

/// What the backend engineer asks its driver to do next.
#[derive(PartialEq, Eq, Structural, Clone, Copy, Debug)]
pub enum BackendAction {
    /// Ask the model for a first version of the server from the code template.
    WriteInitialCode,
    /// Ask the model to improve the current code.
    ImproveCode,
    /// Ask the model to fix the current code, given the last build errors.
    FixBugs,
    /// Ask the user whether the AI-written code may be run.
    ConfirmSafeCode,
    /// Build the server.
    BuildServer,
    /// Ask the model for the REST endpoints of the current code.
    ExtractApiSchema,
    /// Run the server and call each route of the specification's API schema.
    TestEndpoints,
    /// Stop the whole run.
    Abort(BackendAbort),
    /// The task is complete.
    Finish,
}

/// What the driver reports back to the backend engineer.
#[derive(Debug)]
pub enum BackendEvent {
    /// Begin (or resume) the work of the current stage.
    Start,
    /// The model wrote this backend code (it is already saved).
    CodeWritten(String),
    /// The user's answer: may the code be run?
    SafetyAnswer(bool),
    /// The build finished: whether it succeeded, and what it wrote on stderr.
    BuildFinished(bool, String),
    /// The REST endpoints the model found in the code.
    RoutesDecoded(Vec<RouteObject>),
    /// The endpoint tests are over, the schema saved and the server stopped.
    EndpointsTested,
}

/// The abstract content of a [`BackendEvent`].
pub ghost enum BackendEventView {
    Start,
    CodeWritten(Seq<char>),
    SafetyAnswer(bool),
    BuildFinished(bool, Seq<char>),
    RoutesDecoded(Seq<RouteView>),
    EndpointsTested,
}

impl View for BackendEvent {
    type V = BackendEventView;

    open spec fn view(&self) -> BackendEventView {
        match self {
            BackendEvent::Start => BackendEventView::Start,
            BackendEvent::CodeWritten(code) => BackendEventView::CodeWritten(code@),
            BackendEvent::SafetyAnswer(ok) => BackendEventView::SafetyAnswer(*ok),
            BackendEvent::BuildFinished(ok, stderr) => BackendEventView::BuildFinished(*ok, stderr@),
            BackendEvent::RoutesDecoded(routes) => BackendEventView::RoutesDecoded(route_views(routes@)),
            BackendEvent::EndpointsTested => BackendEventView::EndpointsTested,
        }
    }
}

/// The working state of a backend engineer.
#[derive(Debug)]
struct BackendState {
    attributes: BaseAgent,
    bug_count: u8,
    bugs: Option<String>,
    awaiting: BackendWait,
}

/// The agent that writes, builds and tests the backend server. Its state
/// always satisfies [`BackendEngineerView::wf`].
#[derive(Debug)]
pub struct BackendEngineer {
    state: BackendState,
}

/// The abstract content of a [`BackendEngineer`].
pub ghost struct BackendEngineerView {
    pub attributes: BaseAgentView,
    pub bug_count: u8,
    pub bugs: Option<Seq<char>>,
    pub awaiting: BackendWait,
}

impl View for BackendState {
    type V = BackendEngineerView;

    closed spec fn view(&self) -> BackendEngineerView {
        BackendEngineerView {
            attributes: self.attributes@,
            bug_count: self.bug_count,
            bugs: match self.bugs {
                Some(b) => Some(b@),
                None => None,
            },
            awaiting: self.awaiting,
        }
    }
}

impl View for BackendEngineer {
    type V = BackendEngineerView;

    closed spec fn view(&self) -> BackendEngineerView {
        self.state@
    }
}

/// The number of failed builds after which the run is stopped.
pub open spec fn bug_limit() -> u8 {
    3
}

impl BackendEngineerView {
    /// The invariant of the backend engineer: fewer failed builds in a row
    /// than the limit unless the run was stopped for that, the errors of
    /// the last failed build at hand whenever there is one, and a pending
    /// request that belongs to the current stage (code is written in
    /// discovery and while working; the code is confirmed, built and its
    /// endpoints extracted and tested while unit testing, the last two only
    /// after a successful build).
    pub open spec fn wf(self) -> bool {
        &&& self.bug_count <= bug_limit()
        &&& self.bug_count == bug_limit() ==> self.awaiting == BackendWait::Halted(
            BackendAbort::BugLimitExceeded,
        )
        &&& self.bug_count > 0 ==> self.bugs is Some
        &&& match self.awaiting {
            BackendWait::Nothing => self.attributes.state == AgentState::Discovery
                || self.attributes.state == AgentState::Finished,
            BackendWait::Code => self.attributes.state == AgentState::Discovery
                || self.attributes.state == AgentState::Working,
            BackendWait::Confirmation => self.attributes.state == AgentState::UnitTesting,
            BackendWait::Build => self.attributes.state == AgentState::UnitTesting,
            BackendWait::Schema => self.attributes.state == AgentState::UnitTesting
                && self.bug_count == 0,
            BackendWait::EndpointTests => self.attributes.state == AgentState::UnitTesting
                && self.bug_count == 0,
            BackendWait::Halted(_) => self.attributes.state == AgentState::UnitTesting,
        }
    }
}

/// The request that opens the work of the engineer's current stage.
pub open spec fn stage_action(s: BackendEngineerView) -> BackendAction {
    match s.attributes.state {
        AgentState::Discovery => BackendAction::WriteInitialCode,
        AgentState::Working => if s.bug_count == 0 {
            BackendAction::ImproveCode
        } else {
            BackendAction::FixBugs
        },
        AgentState::UnitTesting => BackendAction::ConfirmSafeCode,
        AgentState::Finished => BackendAction::Finish,
    }
}

/// What the engineer waits for after asking for `action`.
pub open spec fn wait_after(action: BackendAction) -> BackendWait {
    match action {
        BackendAction::WriteInitialCode => BackendWait::Code,
        BackendAction::ImproveCode => BackendWait::Code,
        BackendAction::FixBugs => BackendWait::Code,
        BackendAction::ConfirmSafeCode => BackendWait::Confirmation,
        BackendAction::BuildServer => BackendWait::Build,
        BackendAction::ExtractApiSchema => BackendWait::Schema,
        BackendAction::TestEndpoints => BackendWait::EndpointTests,
        BackendAction::Abort(reason) => BackendWait::Halted(reason),
        BackendAction::Finish => BackendWait::Nothing,
    }
}

/// The request the engineer is waiting on an answer to.
pub open spec fn pending_action(s: BackendEngineerView) -> BackendAction {
    match s.awaiting {
        BackendWait::Nothing => stage_action(s),
        BackendWait::Code => stage_action(s),
        BackendWait::Confirmation => BackendAction::ConfirmSafeCode,
        BackendWait::Build => BackendAction::BuildServer,
        BackendWait::Schema => BackendAction::ExtractApiSchema,
        BackendWait::EndpointTests => BackendAction::TestEndpoints,
        BackendWait::Halted(reason) => BackendAction::Abort(reason),
    }
}

/// Opens the work of the current stage.
pub open spec fn enter_stage(s: BackendEngineerView) -> (BackendEngineerView, BackendAction) {
    let action = stage_action(s);
    (BackendEngineerView { awaiting: wait_after(action), ..s }, action)
}

/// The stage that follows a round of code writing.
pub open spec fn stage_after_code(state: AgentState) -> AgentState {
    match state {
        AgentState::Discovery => AgentState::Working,
        AgentState::Working => AgentState::UnitTesting,
        _ => state,
    }
}

/// One step of the backend engineer: its new state, the new specification
/// and the next request, given the event that answers its last request.
/// An event that does not answer the pending request changes nothing and
/// the request is repeated; a stopped run stays stopped.
pub open spec fn backend_next(
    s: BackendEngineerView,
    sol: SpecificationView,
    event: BackendEventView,
) -> (BackendEngineerView, SpecificationView, BackendAction) {
    match (s.awaiting, event) {
        (BackendWait::Halted(reason), _) => (s, sol, BackendAction::Abort(reason)),
        (BackendWait::Nothing, _) => {
            let (s2, action) = enter_stage(s);
            (s2, sol, action)
        },
        (BackendWait::Code, BackendEventView::CodeWritten(code)) => {
            let s1 = BackendEngineerView {
                attributes: BaseAgentView {
                    state: stage_after_code(s.attributes.state),
                    ..s.attributes
                },
                ..s
            };
            let (s2, action) = enter_stage(s1);
            (s2, SpecificationView { backend_code: Some(code), ..sol }, action)
        },
        (BackendWait::Confirmation, BackendEventView::SafetyAnswer(ok)) => {
            if ok {
                (BackendEngineerView { awaiting: BackendWait::Build, ..s }, sol, BackendAction::BuildServer)
            } else {
                (
                    BackendEngineerView {
                        awaiting: BackendWait::Halted(BackendAbort::UserRejectedCode),
                        ..s
                    },
                    sol,
                    BackendAction::Abort(BackendAbort::UserRejectedCode),
                )
            }
        },
        (BackendWait::Build, BackendEventView::BuildFinished(success, stderr)) => {
            if success {
                (
                    BackendEngineerView { bug_count: 0, awaiting: BackendWait::Schema, ..s },
                    sol,
                    BackendAction::ExtractApiSchema,
                )
            } else {
                let count = (s.bug_count + 1) as u8;
                if count >= bug_limit() {
                    (
                        BackendEngineerView {
                            bug_count: count,
                            bugs: Some(stderr),
                            awaiting: BackendWait::Halted(BackendAbort::BugLimitExceeded),
                            ..s
                        },
                        sol,
                        BackendAction::Abort(BackendAbort::BugLimitExceeded),
                    )
                } else {
                    let s1 = BackendEngineerView {
                        attributes: BaseAgentView { state: AgentState::Working, ..s.attributes },
                        bug_count: count,
                        bugs: Some(stderr),
                        ..s
                    };
                    let (s2, action) = enter_stage(s1);
                    (s2, sol, action)
                }
            }
        },
        (BackendWait::Schema, BackendEventView::RoutesDecoded(routes)) => (
            BackendEngineerView { awaiting: BackendWait::EndpointTests, ..s },
            SpecificationView { api_schema: Some(routes.filter(testable_route_filter())), ..sol },
            BackendAction::TestEndpoints,
        ),
        (BackendWait::EndpointTests, BackendEventView::EndpointsTested) => (
            BackendEngineerView {
                attributes: BaseAgentView { state: AgentState::Finished, ..s.attributes },
                awaiting: BackendWait::Nothing,
                ..s
            },
            sol,
            BackendAction::Finish,
        ),
        _ => (s, sol, pending_action(s)),
    }
}

/// A backend engineer at the start of its task.
pub open spec fn fresh_backend_engineer() -> BackendEngineerView {
    BackendEngineerView {
        attributes: BaseAgentView {
            objective: "Develops backend code for the webserver and json database"@,
            position: "Backend Developer"@,
            state: AgentState::Discovery,
            memory: Seq::<MessageView>::empty(),
        },
        bug_count: 0,
        bugs: None,
        awaiting: BackendWait::Nothing,
    }
}


/// The engineer's state and the specification after the events `events`,
/// answered one after the other.
pub open spec fn backend_run(
    s: BackendEngineerView,
    sol: SpecificationView,
    events: Seq<BackendEventView>,
) -> (BackendEngineerView, SpecificationView)
    decreases events.len(),
{
    if events.len() == 0 {
        (s, sol)
    } else {
        let (s1, sol1, _action) = backend_next(s, sol, events[0]);
        backend_run(s1, sol1, events.drop_first())
    }
}

/// One step keeps the engineer's invariant and identity, and changes no
/// part of the specification but the backend code and the API schema.
pub proof fn lemma_backend_step_invariants(
    s: BackendEngineerView,
    sol: SpecificationView,
    event: BackendEventView,
)
    requires
        s.wf(),
    ensures
        ({
            let (s2, sol2, _action) = backend_next(s, sol, event);
            &&& s2.wf()
            &&& s2.attributes.objective == s.attributes.objective
            &&& s2.attributes.position == s.attributes.position
            &&& s2.attributes.memory == s.attributes.memory
            &&& sol2.project_description == sol.project_description
            &&& sol2.project_scope == sol.project_scope
            &&& sol2.external_urls == sol.external_urls
        }),
{
}

/// Whatever events come, the backend engineer keeps its invariant (never
/// more failed builds in a row than the limit without stopping the run),
/// keeps its objective, position and memory, and changes no part of the
/// specification but the backend code and the API schema.
pub proof fn lemma_backend_run_invariants(
    s: BackendEngineerView,
    sol: SpecificationView,
    events: Seq<BackendEventView>,
)
    requires
        s.wf(),
    ensures
        ({
            let (s2, sol2) = backend_run(s, sol, events);
            &&& s2.wf()
            &&& s2.attributes.objective == s.attributes.objective
            &&& s2.attributes.position == s.attributes.position
            &&& s2.attributes.memory == s.attributes.memory
            &&& sol2.project_description == sol.project_description
            &&& sol2.project_scope == sol.project_scope
            &&& sol2.external_urls == sol.external_urls
        }),
    decreases events.len(),
{
    if events.len() > 0 {
        let (s1, sol1, _action) = backend_next(s, sol, events[0]);
        lemma_backend_step_invariants(s, sol, events[0]);
        lemma_backend_run_invariants(s1, sol1, events.drop_first());
    }
}

/// A stopped run stays stopped: whatever events come, the engineer and the
/// specification no longer change, and every answer repeats the abort.
pub proof fn lemma_backend_halt_is_final(
    s: BackendEngineerView,
    sol: SpecificationView,
    events: Seq<BackendEventView>,
)
    requires
        s.awaiting is Halted,
    ensures
        backend_run(s, sol, events) == (s, sol),
        forall|e: BackendEventView|
            #[trigger] backend_next(s, sol, e) == (s, sol, BackendAction::Abort(s.awaiting->0)),
    decreases events.len(),
{
    if events.len() > 0 {
        lemma_backend_halt_is_final(s, sol, events.drop_first());
    }
}

/// A failed build counts one more bug and keeps its errors; the run is
/// stopped when that makes three failed builds in a row, and otherwise
/// the engineer goes back to work and asks for a fix.
pub proof fn lemma_backend_failed_build(
    s: BackendEngineerView,
    sol: SpecificationView,
    stderr: Seq<char>,
)
    requires
        s.wf(),
        s.awaiting == BackendWait::Build,
    ensures
        ({
            let (s2, sol2, action) = backend_next(s, sol, BackendEventView::BuildFinished(false, stderr));
            &&& s2.bug_count == s.bug_count + 1
            &&& s2.bugs == Some(stderr)
            &&& sol2 == sol
            &&& (s.bug_count + 1 >= 3 ==> action == BackendAction::Abort(BackendAbort::BugLimitExceeded))
            &&& (s.bug_count + 1 < 3 ==> action == BackendAction::FixBugs && s2.attributes.state
                == AgentState::Working)
        }),
{
}

/// A successful build clears the count of failed builds, and the engineer
/// moves on to extracting the API schema.
pub proof fn lemma_backend_successful_build(
    s: BackendEngineerView,
    sol: SpecificationView,
    stderr: Seq<char>,
)
    requires
        s.awaiting == BackendWait::Build,
    ensures
        ({
            let (s2, sol2, action) = backend_next(s, sol, BackendEventView::BuildFinished(true, stderr));
            &&& s2.bug_count == 0
            &&& sol2 == sol
            &&& action == BackendAction::ExtractApiSchema
        }),
{
}

/// The API schema the engineer records holds exactly the decoded routes
/// whose method is `get` and that have no dynamic part, and nothing else of
/// the specification changes.
pub proof fn lemma_backend_schema_is_testable(
    s: BackendEngineerView,
    sol: SpecificationView,
    routes: Seq<RouteView>,
)
    requires
        s.awaiting == BackendWait::Schema,
    ensures
        ({
            let sol2 = backend_next(s, sol, BackendEventView::RoutesDecoded(routes)).1;
            &&& sol2.api_schema is Some
            &&& forall|r: RouteView|
                #[trigger] sol2.api_schema->0.contains(r) <==> routes.contains(r) && r.method
                    == "get"@ && r.is_route_dynamic == "false"@
            &&& forall|i: int|
                0 <= i < sol2.api_schema->0.len() ==> (#[trigger] sol2.api_schema->0[i]).method
                    == "get"@ && sol2.api_schema->0[i].is_route_dynamic == "false"@
            &&& sol2.api_schema->0.len() <= routes.len()
            &&& sol2 == SpecificationView { api_schema: sol2.api_schema, ..sol }
        }),
{
    lemma_testable_routes(routes);
}

/// The user's go-ahead leads to a build, and only to a build; a refusal
/// stops the run for good. Neither changes the specification or the count
/// of failed builds.
pub proof fn lemma_backend_safety_answer(s: BackendEngineerView, sol: SpecificationView, ok: bool)
    requires
        s.awaiting == BackendWait::Confirmation,
    ensures
        ({
            let (s2, sol2, action) = backend_next(s, sol, BackendEventView::SafetyAnswer(ok));
            &&& sol2 == sol
            &&& s2.bug_count == s.bug_count
            &&& s2.attributes == s.attributes
            &&& ok ==> action == BackendAction::BuildServer
            &&& !ok ==> action == BackendAction::Abort(BackendAbort::UserRejectedCode)
                && s2.awaiting == BackendWait::Halted(BackendAbort::UserRejectedCode)
        }),
{
}

/// Whenever the engineer waits for code, in any stage and whatever the
/// count of failed builds, the code it receives becomes the
/// specification's backend code (a fix replaces the broken code), and
/// nothing else of the specification changes.
pub proof fn lemma_backend_code_written_is_recorded(
    s: BackendEngineerView,
    sol: SpecificationView,
    code: Seq<char>,
)
    requires
        s.awaiting == BackendWait::Code,
    ensures
        backend_next(s, sol, BackendEventView::CodeWritten(code)).1 == (SpecificationView {
            backend_code: Some(code),
            ..sol
        }),
{
}

/// The engineer reports `Finish` only once its state is `Finished`.
pub proof fn lemma_backend_finish_means_finished(
    s: BackendEngineerView,
    sol: SpecificationView,
    event: BackendEventView,
)
    ensures
        backend_next(s, sol, event).2 == BackendAction::Finish ==> backend_next(
            s,
            sol,
            event,
        ).0.attributes.state == AgentState::Finished,
{
}


/// A fresh engineer whose first build succeeds completes its task: it
/// writes the code, improves it, has it confirmed, builds it, extracts and
/// tests the endpoints, and finishes with the improved code and the
/// testable routes recorded.
pub proof fn lemma_backend_completes(
    sol: SpecificationView,
    first: Seq<char>,
    improved: Seq<char>,
    stderr: Seq<char>,
    routes: Seq<RouteView>,
)
    ensures
        ({
            let (s1, sol1, a1) = backend_next(fresh_backend_engineer(), sol, BackendEventView::Start);
            let (s2, sol2, a2) = backend_next(s1, sol1, BackendEventView::CodeWritten(first));
            let (s3, sol3, a3) = backend_next(s2, sol2, BackendEventView::CodeWritten(improved));
            let (s4, sol4, a4) = backend_next(s3, sol3, BackendEventView::SafetyAnswer(true));
            let (s5, sol5, a5) = backend_next(s4, sol4, BackendEventView::BuildFinished(true, stderr));
            let (s6, sol6, a6) = backend_next(s5, sol5, BackendEventView::RoutesDecoded(routes));
            let (s7, sol7, a7) = backend_next(s6, sol6, BackendEventView::EndpointsTested);
            &&& a1 == BackendAction::WriteInitialCode
            &&& a2 == BackendAction::ImproveCode
            &&& a3 == BackendAction::ConfirmSafeCode
            &&& a4 == BackendAction::BuildServer
            &&& a5 == BackendAction::ExtractApiSchema
            &&& a6 == BackendAction::TestEndpoints
            &&& a7 == BackendAction::Finish
            &&& s7.attributes.state == AgentState::Finished
            &&& s7.bug_count == 0
            &&& sol7 == SpecificationView {
                backend_code: Some(improved),
                api_schema: Some(routes.filter(testable_route_filter())),
                ..sol
            }
        }),
{
}


/// The stage moves the backend engineer can make in one step: stay, go
/// from discovery to work, from work to unit testing, and from unit testing
/// back to work (after a failed build) or to the end.
pub open spec fn stage_move(from: AgentState, to: AgentState) -> bool {
    ||| from == to
    ||| from == AgentState::Discovery && to == AgentState::Working
    ||| from == AgentState::Working && to == AgentState::UnitTesting
    ||| from == AgentState::UnitTesting && to == AgentState::Working
    ||| from == AgentState::UnitTesting && to == AgentState::Finished
}

/// In one step the engineer makes a [`stage_move`]. It goes back from unit
/// testing to work only on a failed build that leaves fewer than three
/// failures in a row, keeping that build's errors and asking for a fix; it
/// ends only when the endpoint tests are over, after a successful build.
/// Whenever it asks for code while working, it asks for an improvement when
/// no build failed since the last success, and for a fix otherwise.
pub proof fn lemma_backend_step_stage(
    s: BackendEngineerView,
    sol: SpecificationView,
    event: BackendEventView,
)
    requires
        s.wf(),
    ensures
        ({
            let (s2, sol2, action) = backend_next(s, sol, event);
            &&& stage_move(s.attributes.state, s2.attributes.state)
            &&& (s.attributes.state == AgentState::UnitTesting && s2.attributes.state
                == AgentState::Working) ==> {
                &&& event matches BackendEventView::BuildFinished(ok, stderr) && !ok && s2.bugs
                    == Some(stderr)
                &&& s2.bug_count == s.bug_count + 1
                &&& s2.bug_count < bug_limit()
                &&& action == BackendAction::FixBugs
            }
            &&& (s.attributes.state != AgentState::Finished && s2.attributes.state
                == AgentState::Finished) ==> {
                &&& s.awaiting == BackendWait::EndpointTests
                &&& event is EndpointsTested
                &&& s2.bug_count == 0
                &&& action == BackendAction::Finish
            }
            &&& (s2.attributes.state == AgentState::Working && (action
                == BackendAction::ImproveCode || action == BackendAction::FixBugs)) ==> (action
                == BackendAction::ImproveCode <==> s2.bug_count == 0)
        }),
{
}

/// The stages the engineer goes through while answering `events`: its
/// stage before each event, then its stage after the last one.
pub open spec fn backend_stages(
    s: BackendEngineerView,
    sol: SpecificationView,
    events: Seq<BackendEventView>,
) -> Seq<AgentState>
    decreases events.len(),
{
    if events.len() == 0 {
        seq![s.attributes.state]
    } else {
        let (s1, sol1, _action) = backend_next(s, sol, events[0]);
        seq![s.attributes.state] + backend_stages(s1, sol1, events.drop_first())
    }
}

/// Over any run, the engineer's stages follow discovery, work, unit
/// testing, then work again after a failed build or the end after a
/// successful one: each stage is a [`stage_move`] from the one before.
pub proof fn lemma_backend_stage_order(
    s: BackendEngineerView,
    sol: SpecificationView,
    events: Seq<BackendEventView>,
)
    requires
        s.wf(),
    ensures
        ({
            let stages = backend_stages(s, sol, events);
            &&& stages.len() == events.len() + 1
            &&& stages[0] == s.attributes.state
            &&& forall|i: int|
                0 <= i < events.len() ==> stage_move(#[trigger] stages[i], stages[i + 1])
        }),
    decreases events.len(),
{
    if events.len() > 0 {
        let (s1, sol1, _action) = backend_next(s, sol, events[0]);
        lemma_backend_step_stage(s, sol, events[0]);
        lemma_backend_step_invariants(s, sol, events[0]);
        lemma_backend_stage_order(s1, sol1, events.drop_first());
        let rest = backend_stages(s1, sol1, events.drop_first());
        let stages = backend_stages(s, sol, events);
        assert(stages =~= seq![s.attributes.state] + rest);
        assert forall|i: int| 0 <= i < events.len() implies stage_move(
            #[trigger] stages[i],
            stages[i + 1],
        ) by {
            if i > 0 {
                assert(stages[i] == rest[i - 1]);
                assert(stages[i + 1] == rest[i]);
            }
        }
    }
}

impl BackendState {
    /// The state of an engineer at the start of its task.
    fn new() -> (state: BackendState)
        ensures
            state@ == fresh_backend_engineer(),
    {
        let attributes = BaseAgent::new(
            String::from_str("Develops backend code for the webserver and json database"),
            String::from_str("Backend Developer"),
        );
        BackendState { attributes, bug_count: 0, bugs: None, awaiting: BackendWait::Nothing }
    }

    /// Opens the work of the current stage.
    fn enter_stage(&mut self) -> (action: BackendAction)
        ensures
            (final(self)@, action) == enter_stage(old(self)@),
    {
        let action = match self.attributes.state {
            AgentState::Discovery => BackendAction::WriteInitialCode,
            AgentState::Working => if self.bug_count == 0 {
                BackendAction::ImproveCode
            } else {
                BackendAction::FixBugs
            },
            AgentState::UnitTesting => BackendAction::ConfirmSafeCode,
            AgentState::Finished => BackendAction::Finish,
        };
        self.awaiting = match action {
            BackendAction::WriteInitialCode => BackendWait::Code,
            BackendAction::ImproveCode => BackendWait::Code,
            BackendAction::FixBugs => BackendWait::Code,
            BackendAction::ConfirmSafeCode => BackendWait::Confirmation,
            BackendAction::BuildServer => BackendWait::Build,
            BackendAction::ExtractApiSchema => BackendWait::Schema,
            BackendAction::TestEndpoints => BackendWait::EndpointTests,
            BackendAction::Abort(reason) => BackendWait::Halted(reason),
            BackendAction::Finish => BackendWait::Nothing,
        };
        action
    }

    /// The request the engineer waits on.
    fn pending_action(&self) -> (action: BackendAction)
        ensures
            action == pending_action(self@),
    {
        match self.awaiting {
            BackendWait::Nothing | BackendWait::Code => match self.attributes.state {
                AgentState::Discovery => BackendAction::WriteInitialCode,
                AgentState::Working => if self.bug_count == 0 {
                    BackendAction::ImproveCode
                } else {
                    BackendAction::FixBugs
                },
                AgentState::UnitTesting => BackendAction::ConfirmSafeCode,
                AgentState::Finished => BackendAction::Finish,
            },
            BackendWait::Confirmation => BackendAction::ConfirmSafeCode,
            BackendWait::Build => BackendAction::BuildServer,
            BackendWait::Schema => BackendAction::ExtractApiSchema,
            BackendWait::EndpointTests => BackendAction::TestEndpoints,
            BackendWait::Halted(reason) => BackendAction::Abort(reason),
        }
    }

    /// One step of the engineer, on its working state.
    fn advance(&mut self, specification: &mut SolutionSpecification, event: BackendEvent) -> (action: BackendAction)
        requires
            old(self)@.wf(),
        ensures
            (final(self)@, final(specification)@, action) == backend_next(
                old(self)@,
                old(specification)@,
                event@,
            ),
            final(self)@.wf(),
    {
        match (self.awaiting, event) {
            (BackendWait::Halted(reason), _) => BackendAction::Abort(reason),
            (BackendWait::Nothing, _) => self.enter_stage(),
            (BackendWait::Code, BackendEvent::CodeWritten(code)) => {
                let next = match self.attributes.state {
                    AgentState::Discovery => AgentState::Working,
                    AgentState::Working => AgentState::UnitTesting,
                    other => other,
                };
                self.attributes.update_state(next);
                specification.backend_code = Some(code);
                self.enter_stage()
            },
            (BackendWait::Confirmation, BackendEvent::SafetyAnswer(ok)) => {
                if ok {
                    self.awaiting = BackendWait::Build;
                    BackendAction::BuildServer
                } else {
                    self.awaiting = BackendWait::Halted(BackendAbort::UserRejectedCode);
                    BackendAction::Abort(BackendAbort::UserRejectedCode)
                }
            },
            (BackendWait::Build, BackendEvent::BuildFinished(success, stderr)) => {
                if success {
                    self.bug_count = 0;
                    self.awaiting = BackendWait::Schema;
                    BackendAction::ExtractApiSchema
                } else {
                    self.bug_count = self.bug_count + 1;
                    self.bugs = Some(stderr);
                    if self.bug_count >= 3 {
                        self.awaiting = BackendWait::Halted(BackendAbort::BugLimitExceeded);
                        BackendAction::Abort(BackendAbort::BugLimitExceeded)
                    } else {
                        self.attributes.update_state(AgentState::Working);
                        self.enter_stage()
                    }
                }
            },
            (BackendWait::Schema, BackendEvent::RoutesDecoded(routes)) => {
                specification.api_schema = Some(select_testable_routes(routes));
                self.awaiting = BackendWait::EndpointTests;
                BackendAction::TestEndpoints
            },
            (BackendWait::EndpointTests, BackendEvent::EndpointsTested) => {
                self.attributes.update_state(AgentState::Finished);
                self.awaiting = BackendWait::Nothing;
                BackendAction::Finish
            },
            _ => self.pending_action(),
        }
    }
}


impl BackendEngineer {
    /// The invariant every backend engineer satisfies.
    #[verifier::type_invariant]
    spec fn state_is_well_formed(self) -> bool {
        self.state@.wf()
    }

    /// A fresh backend engineer, at the start of its task.
    pub fn new() -> (agent: BackendEngineer)
        ensures
            agent@ == fresh_backend_engineer(),
            agent@.wf(),
    {
        BackendEngineer { state: BackendState::new() }
    }

    /// The agent's common attributes.
    pub fn get_attributes_from_agent(&self) -> (attributes: &BaseAgent)
        ensures
            attributes@ == self@.attributes,
    {
        &self.state.attributes
    }

    /// The errors of the last failed build, if a build ever failed.
    pub fn bugs(&self) -> (bugs: Option<&String>)
        ensures
            match bugs {
                Some(b) => self@.bugs == Some(b@),
                None => self@.bugs is None,
            },
    {
        match &self.state.bugs {
            Some(b) => Some(b),
            None => None,
        }
    }

    /// Takes the event that answers the engineer's last request, updates
    /// the engineer and the specification, and returns the next request.
    pub fn step(&mut self, specification: &mut SolutionSpecification, event: BackendEvent) -> (action: BackendAction)
        ensures
            (final(self)@, final(specification)@, action) == backend_next(
                old(self)@,
                old(specification)@,
                event@,
            ),
            final(self)@.wf(),
            old(self)@.awaiting == BackendWait::Code ==> (event@ matches BackendEventView::CodeWritten(
                code,
            ) ==> final(specification)@ == (SpecificationView {
                backend_code: Some(code),
                ..old(specification)@
            })),
    {
        proof {
            use_type_invariant(&*self);
            if let BackendEventView::CodeWritten(code) = event@ {
                if self@.awaiting == BackendWait::Code {
                    lemma_backend_code_written_is_recorded(self@, specification@, code);
                }
            }
        }
        let mut state = BackendState::new();
        std::mem::swap(&mut state, &mut self.state);
        let action = state.advance(specification, event);
        self.state = state;
        action
    }
}

/// The message that asks the model for a first version of the server.
pub fn initial_code_prompt(code_template: &str, project_description: &str) -> (prompt: String)
    ensures
        prompt@ == "CODE_TEMPLATE: "@ + code_template@ + " \nPROJECT DESCRIPTION: "@
            + project_description@,
{
    let mut prompt = String::from_str("CODE_TEMPLATE: ");
    prompt.append(code_template);
    prompt.append(" \nPROJECT DESCRIPTION: ");
    prompt.append(project_description);
    prompt
}

/// The message that asks the model for the REST endpoints of the code.
pub fn api_schema_prompt(backend_code: &str) -> (prompt: String)
    ensures
        prompt@ == "CODE_INPUT: "@ + backend_code@,
{
    let mut prompt = String::from_str("CODE_INPUT: ");
    prompt.append(backend_code);
    prompt
}

/// The address at which a route of the server under test is called.
pub fn endpoint_url(route: &str) -> (url: String)
    ensures
        url@ == "http://127.0.0.1:8080"@ + route@,
{
    let mut url = String::from_str("http://127.0.0.1:8080");
    url.append(route);
    url
}

/// What `format!("{:?}", text)` writes for an optional text: Rust's
/// `Debug` form of an `Option<String>`.
pub uninterp spec fn debug_optional_text(text: Option<Seq<char>>) -> Seq<char>;

/// The characters of an optional text, if any.
pub open spec fn optional_text_view(text: Option<&String>) -> Option<Seq<char>> {
    match text {
        Some(t) => Some(t@),
        None => None,
    }
}

/// Calls `format!("{:?}", text)`. The contract claims only that the result
/// is the named value `debug_optional_text` of the optional text.
#[verifier::external_body]
fn debug_format_optional_text(text: Option<&String>) -> (formatted: String)
    ensures
        formatted@ == debug_optional_text(optional_text_view(text)),
{
    format!("{:?}", text)
}

/// The message that asks the model to fix the code, given the `Debug`
/// forms of the current code and of the last build errors.
pub open spec fn fix_bugs_text(code_debug: Seq<char>, bugs_debug: Seq<char>) -> Seq<char> {
    "BROKEN CODE: "@ + code_debug + " \nERROR_BUGS: "@ + bugs_debug
        + "\n\n            THIS FUNCTION ONLY OUTPUTS CODE, NOTHING ELSE"@
}

/// Builds the fix request from the `Debug` forms of the code and the errors.
pub fn fix_bugs_prompt_from_debug(code_debug: &str, bugs_debug: &str) -> (prompt: String)
    ensures
        prompt@ == fix_bugs_text(code_debug@, bugs_debug@),
        prompt@ == "BROKEN CODE: "@ + code_debug@ + " \nERROR_BUGS: "@ + bugs_debug@
            + "\n\n            THIS FUNCTION ONLY OUTPUTS CODE, NOTHING ELSE"@,
{
    let mut prompt = String::from_str("BROKEN CODE: ");
    prompt.append(code_debug);
    prompt.append(" \nERROR_BUGS: ");
    prompt.append(bugs_debug);
    prompt.append("\n\n            THIS FUNCTION ONLY OUTPUTS CODE, NOTHING ELSE");
    prompt
}

/// The message that asks the model to fix the current code, given the
/// errors of the last failed build.
pub fn fix_bugs_prompt(backend_code: Option<&String>, bugs: Option<&String>) -> (prompt: String)
    ensures
        prompt@ == fix_bugs_text(
            debug_optional_text(optional_text_view(backend_code)),
            debug_optional_text(optional_text_view(bugs)),
        ),
        prompt@ == "BROKEN CODE: "@ + debug_optional_text(optional_text_view(backend_code))
            + " \nERROR_BUGS: "@ + debug_optional_text(optional_text_view(bugs))
            + "\n\n            THIS FUNCTION ONLY OUTPUTS CODE, NOTHING ELSE"@,
{
    let code_debug = debug_format_optional_text(backend_code);
    let bugs_debug = debug_format_optional_text(bugs);
    fix_bugs_prompt_from_debug(code_debug.as_str(), bugs_debug.as_str())
}

/// The message that asks the model to improve the code, given the `Debug`
/// forms of the current code and of the whole specification.
pub open spec fn improve_code_text(code_debug: Seq<char>, specification_debug: Seq<char>) -> Seq<char> {
    "CODE_TEMPLATE: "@ + code_debug + " \nPROJECT DESCRIPTION: "@ + specification_debug
}

/// Builds the improvement request from the `Debug` forms of the code and of
/// the specification.
pub fn improve_code_prompt_from_debug(code_debug: &str, specification_debug: &str) -> (prompt: String)
    ensures
        prompt@ == improve_code_text(code_debug@, specification_debug@),
        prompt@ == "CODE_TEMPLATE: "@ + code_debug@ + " \nPROJECT DESCRIPTION: "@
            + specification_debug@,
{
    let mut prompt = String::from_str("CODE_TEMPLATE: ");
    prompt.append(code_debug);
    prompt.append(" \nPROJECT DESCRIPTION: ");
    prompt.append(specification_debug);
    prompt
}

/// What `format!("{:?}", specification)` writes for a specification: Rust's
/// derived `Debug` form of a [`SolutionSpecification`], with its JSON
/// values in `serde_json`'s `Debug` form.
pub uninterp spec fn debug_specification(specification: SpecificationView) -> Seq<char>;

/// Calls `format!("{:?}", specification)`. The contract claims only that
/// the result is the named value `debug_specification` of the
/// specification.
#[verifier::external_body]
fn debug_format_specification(specification: &SolutionSpecification) -> (formatted: String)
    ensures
        formatted@ == debug_specification(specification@),
{
    format!("{:?}", specification)
}

/// The message that asks the model to improve the current code: the code
/// and the whole specification, both in `Debug` form.
pub fn improve_code_prompt(specification: &SolutionSpecification) -> (prompt: String)
    ensures
        prompt@ == improve_code_text(
            debug_optional_text(specification@.backend_code),
            debug_specification(specification@),
        ),
        prompt@ == "CODE_TEMPLATE: "@ + debug_optional_text(specification@.backend_code)
            + " \nPROJECT DESCRIPTION: "@ + debug_specification(specification@),
{
    let code_debug = debug_format_optional_text(specification.backend_code.as_ref());
    let specification_debug = debug_format_specification(specification);
    improve_code_prompt_from_debug(code_debug.as_str(), specification_debug.as_str())
}

} // verus!
