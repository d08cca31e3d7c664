use vstd::prelude::*;
use crate::models::base_agent::{AgentState, BaseAgent, BaseAgentView, MessageView};
use crate::models::team_traits::{ProjectFeatures, SolutionSpecification, SpecificationView};

verus! {

/// Why the solution architect stops the whole run.
#[derive(PartialEq, Eq, Structural, Clone, Copy, Debug)]
pub enum ArchitectAbort {
    /// The URLs were to be tested but the specification holds none.
    MissingUrls,
}

/// What the solution architect is waiting for.
#[derive(PartialEq, Eq, Structural, Clone, Copy, Debug)]
pub enum ArchitectWait {
    /// Nothing: the next event starts the work of the current stage.
    Nothing,
    /// The project features, as decided by the model.
    Features,
    /// The external URLs the project needs, as listed by the model.
    Urls,
    /// The outcome of calling each external URL.
    UrlChecks,
    /// Nothing any more: the run was stopped.
    Halted(ArchitectAbort),
}

/// What the solution architect asks its driver to do next.
#[derive(PartialEq, Eq, Structural, Clone, Copy, Debug)]
pub enum ArchitectAction {
    /// Ask the model which features the project needs.
    RequestFeatures,
    /// Ask the model which external URLs the project needs.
    RequestExternalUrls,
    /// Call each URL of the specification and report its status.
    CheckUrls,
    /// Stop the whole run.
    Abort(ArchitectAbort),
    /// The task is complete.
    Finish,
}

/// What the driver reports back to the solution architect.
#[derive(Debug)]
pub enum ArchitectEvent {
    /// Begin (or resume) the work of the current stage.
    Start,
    /// The features the model decided on.
    FeaturesDecoded(ProjectFeatures),
    /// The external URLs the model listed.
    UrlsDecoded(Vec<String>),
    /// For each URL of the specification, in order, the HTTP status it
    /// answered with, or `None` when the request itself failed.
    UrlsChecked(Vec<Option<u16>>),
}

/// The abstract content of an [`ArchitectEvent`].
pub ghost enum ArchitectEventView {
    Start,
    FeaturesDecoded(ProjectFeatures),
    UrlsDecoded(Seq<Seq<char>>),
    UrlsChecked(Seq<Option<u16>>),
}

impl View for ArchitectEvent {
    type V = ArchitectEventView;

    open spec fn view(&self) -> ArchitectEventView {
        match self {
            ArchitectEvent::Start => ArchitectEventView::Start,
            ArchitectEvent::FeaturesDecoded(f) => ArchitectEventView::FeaturesDecoded(*f),
            ArchitectEvent::UrlsDecoded(urls) => ArchitectEventView::UrlsDecoded(urls.deep_view()),
            ArchitectEvent::UrlsChecked(statuses) => ArchitectEventView::UrlsChecked(statuses@),
        }
    }
}

/// The agent that decides the project's features and the external URLs it
/// relies on, and drops the URLs that do not answer properly.
#[derive(Debug)]
pub struct SolutionArchitect {
    attributes: BaseAgent,
    awaiting: ArchitectWait,
}

/// The abstract content of a [`SolutionArchitect`].
pub ghost struct SolutionArchitectView {
    pub attributes: BaseAgentView,
    pub awaiting: ArchitectWait,
}

impl View for SolutionArchitect {
    type V = SolutionArchitectView;

    closed spec fn view(&self) -> SolutionArchitectView {
        SolutionArchitectView { attributes: self.attributes@, awaiting: self.awaiting }
    }
}

/// The URLs that answered with a status other than 200: `statuses[i]` is
/// the outcome for `urls[i]`.
pub open spec fn rejected_urls(urls: Seq<Seq<char>>, statuses: Seq<Option<u16>>) -> Seq<Seq<char>>
    decreases urls.len(),
{
    if urls.len() == 0 {
        Seq::empty()
    } else {
        let rest = rejected_urls(urls.drop_last(), statuses);
        let i = urls.len() - 1;
        if i < statuses.len() && statuses[i] is Some && statuses[i]->0 != 200 {
            rest.push(urls.last())
        } else {
            rest
        }
    }
}

/// The URLs that are not among `rejected`, as a predicate to filter with.
pub open spec fn not_rejected(rejected: Seq<Seq<char>>) -> spec_fn(Seq<char>) -> bool {
    |url: Seq<char>| !rejected.contains(url)
}

/// The URL list once the check results are in: when some URLs were
/// rejected, every occurrence of a rejected URL is dropped.
pub open spec fn checked_urls(urls: Seq<Seq<char>>, statuses: Seq<Option<u16>>) -> Seq<Seq<char>> {
    let rejected = rejected_urls(urls, statuses);
    if rejected.len() > 0 {
        urls.filter(not_rejected(rejected))
    } else {
        urls
    }
}

/// Opens the work of the current stage.
pub open spec fn architect_enter(s: SolutionArchitectView, sol: SpecificationView) -> (
    SolutionArchitectView,
    ArchitectAction,
) {
    match s.attributes.state {
        AgentState::Discovery => (
            SolutionArchitectView { awaiting: ArchitectWait::Features, ..s },
            ArchitectAction::RequestFeatures,
        ),
        AgentState::UnitTesting => if sol.external_urls is Some {
            (
                SolutionArchitectView { awaiting: ArchitectWait::UrlChecks, ..s },
                ArchitectAction::CheckUrls,
            )
        } else {
            (
                SolutionArchitectView {
                    awaiting: ArchitectWait::Halted(ArchitectAbort::MissingUrls),
                    ..s
                },
                ArchitectAction::Abort(ArchitectAbort::MissingUrls),
            )
        },
        _ => (
            SolutionArchitectView {
                attributes: BaseAgentView { state: AgentState::Finished, ..s.attributes },
                awaiting: ArchitectWait::Nothing,
            },
            ArchitectAction::Finish,
        ),
    }
}

/// The request the architect is waiting on an answer to.
pub open spec fn architect_pending(s: SolutionArchitectView) -> ArchitectAction {
    match s.awaiting {
        ArchitectWait::Features => ArchitectAction::RequestFeatures,
        ArchitectWait::Urls => ArchitectAction::RequestExternalUrls,
        ArchitectWait::UrlChecks => ArchitectAction::CheckUrls,
        ArchitectWait::Halted(reason) => ArchitectAction::Abort(reason),
        ArchitectWait::Nothing => ArchitectAction::Finish,
    }
}

/// One step of the solution architect: its new state, the new
/// specification and the next request, given the event that answers its
/// last request. An event that does not answer the pending request changes
/// nothing and the request is repeated; a stopped run stays stopped.
pub open spec fn architect_next(
    s: SolutionArchitectView,
    sol: SpecificationView,
    event: ArchitectEventView,
) -> (SolutionArchitectView, SpecificationView, ArchitectAction) {
    match (s.awaiting, event) {
        (ArchitectWait::Halted(reason), _) => (s, sol, ArchitectAction::Abort(reason)),
        (ArchitectWait::Nothing, _) => {
            let (s2, action) = architect_enter(s, sol);
            (s2, sol, action)
        },
        (ArchitectWait::Features, ArchitectEventView::FeaturesDecoded(features)) => {
            let sol1 = SpecificationView { project_scope: Some(features), ..sol };
            let attributes = BaseAgentView { state: AgentState::Finished, ..s.attributes };
            if features.is_external_urls_required {
                (
                    SolutionArchitectView { attributes, awaiting: ArchitectWait::Urls },
                    sol1,
                    ArchitectAction::RequestExternalUrls,
                )
            } else {
                (
                    SolutionArchitectView { attributes, awaiting: ArchitectWait::Nothing },
                    sol1,
                    ArchitectAction::Finish,
                )
            }
        },
        (ArchitectWait::Urls, ArchitectEventView::UrlsDecoded(urls)) => {
            let sol1 = SpecificationView { external_urls: Some(urls), ..sol };
            let s1 = SolutionArchitectView {
                attributes: BaseAgentView { state: AgentState::UnitTesting, ..s.attributes },
                ..s
            };
            let (s2, action) = architect_enter(s1, sol1);
            (s2, sol1, action)
        },
        (ArchitectWait::UrlChecks, ArchitectEventView::UrlsChecked(statuses)) => match sol.external_urls {
            Some(urls) => (
                SolutionArchitectView {
                    attributes: BaseAgentView { state: AgentState::Finished, ..s.attributes },
                    awaiting: ArchitectWait::Nothing,
                },
                SpecificationView { external_urls: Some(checked_urls(urls, statuses)), ..sol },
                ArchitectAction::Finish,
            ),
            None => (
                SolutionArchitectView {
                    awaiting: ArchitectWait::Halted(ArchitectAbort::MissingUrls),
                    ..s
                },
                sol,
                ArchitectAction::Abort(ArchitectAbort::MissingUrls),
            ),
        },
        _ => (s, sol, architect_pending(s)),
    }
}


/// Whether some check of `u` (at a position where `urls` holds `u`)
/// answered with a status other than 200.
pub open spec fn answered_badly(urls: Seq<Seq<char>>, statuses: Seq<Option<u16>>, u: Seq<char>) -> bool {
    exists|i: int|
        0 <= i < urls.len() && i < statuses.len() && #[trigger] urls[i] == u && statuses[i] is Some
            && statuses[i]->0 != 200
}

/// The rejected URLs are exactly those that some check answered with a
/// status other than 200.
pub proof fn lemma_rejected_urls_answered_badly(urls: Seq<Seq<char>>, statuses: Seq<Option<u16>>)
    ensures
        forall|u: Seq<char>|
            #[trigger] rejected_urls(urls, statuses).contains(u) <==> answered_badly(urls, statuses, u),
    decreases urls.len(),
{
    if urls.len() > 0 {
        let init = urls.drop_last();
        lemma_rejected_urls_answered_badly(init, statuses);
        let rest = rejected_urls(init, statuses);
        let last = urls.len() - 1;
        assert forall|u: Seq<char>|
            #[trigger] rejected_urls(urls, statuses).contains(u) <==> answered_badly(urls, statuses, u) by {
            if rejected_urls(urls, statuses).contains(u) {
                if rest.contains(u) {
                    let i = choose|i: int|
                        0 <= i < init.len() && i < statuses.len() && #[trigger] init[i] == u
                            && statuses[i] is Some && statuses[i]->0 != 200;
                    assert(urls[i] == u);
                } else {
                    assert(urls[last] == u);
                }
            }
            if answered_badly(urls, statuses, u) {
                let i = choose|i: int|
                    0 <= i < urls.len() && i < statuses.len() && #[trigger] urls[i] == u
                        && statuses[i] is Some && statuses[i]->0 != 200;
                if i < last {
                    assert(init[i] == u);
                    assert(answered_badly(init, statuses, u));
                    assert(rest.contains(u));
                    let j = choose|j: int| 0 <= j < rest.len() && rest[j] == u;
                    assert(rejected_urls(urls, statuses)[j] == u);
                } else {
                    let r = rejected_urls(urls, statuses);
                    assert(r[r.len() - 1] == u);
                }
            }
        }
    }
}

/// After the URL checks, a URL is still listed exactly when it was listed
/// before and none of its checks answered with a status other than 200;
/// no URL is added and the order is kept.
pub proof fn lemma_checked_urls(urls: Seq<Seq<char>>, statuses: Seq<Option<u16>>)
    ensures
        forall|u: Seq<char>|
            #[trigger] checked_urls(urls, statuses).contains(u) <==> urls.contains(u)
                && !answered_badly(urls, statuses, u),
        checked_urls(urls, statuses).len() <= urls.len(),
{
    lemma_rejected_urls_answered_badly(urls, statuses);
    let rejected = rejected_urls(urls, statuses);
    let pred = not_rejected(rejected);
    urls.lemma_filter_len(pred);
    assert forall|u: Seq<char>|
        #[trigger] checked_urls(urls, statuses).contains(u) <==> urls.contains(u) && !answered_badly(
            urls,
            statuses,
            u,
        ) by {
        if rejected.len() > 0 {
            let kept = urls.filter(pred);
            if kept.contains(u) {
                urls.lemma_filter_contains_rev(pred, u);
                let i = choose|i: int| 0 <= i < kept.len() && kept[i] == u;
                urls.lemma_filter_pred(pred, i);
            }
            if urls.contains(u) && !answered_badly(urls, statuses, u) {
                let i = choose|i: int| 0 <= i < urls.len() && urls[i] == u;
                urls.lemma_filter_contains(pred, i);
            }
        } else {
            if urls.contains(u) && answered_badly(urls, statuses, u) {
                assert(rejected.contains(u));
                assert(false);
            }
        }
    }
}

/// When the URL checks come back, a listed URL stays exactly when no check
/// of it (at a position where the list holds it) answered with a status
/// other than 200; a failed request does not drop a URL, no URL is added,
/// the list never grows, the architect finishes, and nothing else of the
/// specification changes.
pub proof fn lemma_architect_url_checks(
    s: SolutionArchitectView,
    sol: SpecificationView,
    statuses: Seq<Option<u16>>,
)
    requires
        s.awaiting == ArchitectWait::UrlChecks,
        sol.external_urls is Some,
    ensures
        ({
            let urls = sol.external_urls->0;
            let (s2, sol2, action) = architect_next(s, sol, ArchitectEventView::UrlsChecked(statuses));
            &&& action == ArchitectAction::Finish
            &&& s2.attributes.state == AgentState::Finished
            &&& sol2.external_urls is Some
            &&& sol2.external_urls->0.len() <= urls.len()
            &&& forall|u: Seq<char>|
                #[trigger] sol2.external_urls->0.contains(u) <==> urls.contains(u) && !exists|i: int|
                    0 <= i < urls.len() && i < statuses.len() && #[trigger] urls[i] == u
                        && statuses[i] is Some && statuses[i]->0 != 200
            &&& sol2 == SpecificationView { external_urls: sol2.external_urls, ..sol }
        }),
{
    lemma_checked_urls(sol.external_urls->0, statuses);
}

/// The URLs the model lists become the specification's external URLs, the
/// architect moves to unit testing and asks for them to be checked, and
/// nothing else of the specification changes.
pub proof fn lemma_architect_urls_recorded(
    s: SolutionArchitectView,
    sol: SpecificationView,
    urls: Seq<Seq<char>>,
)
    requires
        s.awaiting == ArchitectWait::Urls,
    ensures
        ({
            let (s2, sol2, action) = architect_next(s, sol, ArchitectEventView::UrlsDecoded(urls));
            &&& sol2 == SpecificationView { external_urls: Some(urls), ..sol }
            &&& s2.attributes.state == AgentState::UnitTesting
            &&& action == ArchitectAction::CheckUrls
        }),
{
}

/// The architect's state and the specification after the events
/// `events`, answered one after the other.
pub open spec fn architect_run(
    s: SolutionArchitectView,
    sol: SpecificationView,
    events: Seq<ArchitectEventView>,
) -> (SolutionArchitectView, SpecificationView)
    decreases events.len(),
{
    if events.len() == 0 {
        (s, sol)
    } else {
        let (s1, sol1, _action) = architect_next(s, sol, events[0]);
        architect_run(s1, sol1, events.drop_first())
    }
}

/// Whatever events come, the architect keeps its objective, position and
/// memory, and changes no part of the specification but the project scope
/// and the external URLs.
pub proof fn lemma_architect_run_invariants(
    s: SolutionArchitectView,
    sol: SpecificationView,
    events: Seq<ArchitectEventView>,
)
    ensures
        ({
            let (s2, sol2) = architect_run(s, sol, events);
            &&& s2.attributes.objective == s.attributes.objective
            &&& s2.attributes.position == s.attributes.position
            &&& s2.attributes.memory == s.attributes.memory
            &&& sol2.project_description == sol.project_description
            &&& sol2.backend_code == sol.backend_code
            &&& sol2.api_schema == sol.api_schema
        }),
    decreases events.len(),
{
    if events.len() > 0 {
        let (s1, sol1, _action) = architect_next(s, sol, events[0]);
        lemma_architect_run_invariants(s1, sol1, events.drop_first());
    }
}

/// A stopped run stays stopped: whatever events come, the architect and the
/// specification no longer change.
pub proof fn lemma_architect_halt_is_final(
    s: SolutionArchitectView,
    sol: SpecificationView,
    events: Seq<ArchitectEventView>,
)
    requires
        s.awaiting is Halted,
    ensures
        architect_run(s, sol, events) == (s, sol),
    decreases events.len(),
{
    if events.len() > 0 {
        lemma_architect_halt_is_final(s, sol, events.drop_first());
    }
}

/// The decided features are recorded in the specification, and the
/// external URLs are asked for exactly when the features call for them.
pub proof fn lemma_architect_features(
    s: SolutionArchitectView,
    sol: SpecificationView,
    features: ProjectFeatures,
)
    requires
        s.awaiting == ArchitectWait::Features,
    ensures
        ({
            let (s2, sol2, action) = architect_next(s, sol, ArchitectEventView::FeaturesDecoded(features));
            &&& sol2.project_scope == Some(features)
            &&& (action == ArchitectAction::RequestExternalUrls) == features.is_external_urls_required
            &&& (action == ArchitectAction::Finish) == !features.is_external_urls_required
        }),
{
}

/// The architect reports `Finish` only once its state is `Finished`.
pub proof fn lemma_architect_finish_means_finished(
    s: SolutionArchitectView,
    sol: SpecificationView,
    event: ArchitectEventView,
)
    ensures
        architect_next(s, sol, event).2 == ArchitectAction::Finish ==> architect_next(
            s,
            sol,
            event,
        ).0.attributes.state == AgentState::Finished,
{
}

/// Whether `list` holds a string with the characters of `s`.
fn contains_string(list: &Vec<String>, s: &String) -> (found: bool)
    ensures
        found == list.deep_view().contains(s@),
{
    let mut i: usize = 0;
    while i < list.len()
        invariant
            i <= list.len(),
            forall|k: int| 0 <= k < i ==> list.deep_view()[k] != s@,
        decreases list.len() - i,
    {
        if list[i] == *s {
            assert(list.deep_view()[i as int] == s@);
            return true;
        }
        i = i + 1;
    }
    false
}

/// The URLs whose check answered with a status other than 200.
fn collect_rejected_urls(urls: &Vec<String>, statuses: &Vec<Option<u16>>) -> (rejected: Vec<String>)
    ensures
        rejected.deep_view() == rejected_urls(urls.deep_view(), statuses@),
{
    let ghost all = urls.deep_view();
    let mut rejected: Vec<String> = Vec::new();
    let mut i: usize = 0;
    while i < urls.len()
        invariant
            i <= urls.len(),
            all == urls.deep_view(),
            rejected.deep_view() == rejected_urls(all.take(i as int), statuses@),
        decreases urls.len() - i,
    {
        let ghost before = rejected.deep_view();
        let bad = i < statuses.len() && match statuses[i] {
            Some(code) => code != 200,
            None => false,
        };
        if bad {
            rejected.push(urls[i].clone());
        }
        proof {
            let t = all.take(i + 1);
            assert(t.drop_last() =~= all.take(i as int));
            assert(t.last() == all[i as int]);
            if bad {
                assert(rejected.deep_view() =~= before.push(all[i as int]));
            } else {
                assert(rejected.deep_view() =~= before);
            }
        }
        i = i + 1;
    }
    assert(all.take(i as int) =~= all);
    rejected
}

/// `urls` without the ones among `rejected`, in their order.
fn drop_rejected_urls(urls: &Vec<String>, rejected: &Vec<String>) -> (kept: Vec<String>)
    ensures
        kept.deep_view() == urls.deep_view().filter(not_rejected(rejected.deep_view())),
{
    let ghost all = urls.deep_view();
    let ghost bad = rejected.deep_view();
    let mut kept: Vec<String> = Vec::new();
    let mut i: usize = 0;
    while i < urls.len()
        invariant
            i <= urls.len(),
            all == urls.deep_view(),
            bad == rejected.deep_view(),
            kept.deep_view() == all.take(i as int).filter(not_rejected(bad)),
        decreases urls.len() - i,
    {
        let ghost before = kept.deep_view();
        let drop = contains_string(rejected, &urls[i]);
        if !drop {
            kept.push(urls[i].clone());
        }
        proof {
            let t = all.take(i + 1);
            assert(t.drop_last() =~= all.take(i as int));
            assert(t.last() == all[i as int]);
            assert(not_rejected(bad)(all[i as int]) == !drop);
            reveal_with_fuel(Seq::filter, 1);
            if !drop {
                assert(kept.deep_view() =~= before.push(all[i as int]));
            } else {
                assert(kept.deep_view() =~= before);
            }
        }
        i = i + 1;
    }
    assert(all.take(i as int) =~= all);
    kept
}

/// A solution architect at the start of its task.
pub open spec fn fresh_solution_architect() -> SolutionArchitectView {
    SolutionArchitectView {
        attributes: BaseAgentView {
            objective: "Gathers requirements and design the solution for the website architecture"@,
            position: "Solution Architect"@,
            state: AgentState::Discovery,
            memory: Seq::<MessageView>::empty(),
        },
        awaiting: ArchitectWait::Nothing,
    }
}


/// A fresh architect completes its task: it asks for the features, then,
/// when they call for external URLs, for the URLs and for their checks,
/// and finishes with the features and the checked URLs recorded.
pub proof fn lemma_architect_completes(
    sol: SpecificationView,
    features: ProjectFeatures,
    urls: Seq<Seq<char>>,
    statuses: Seq<Option<u16>>,
)
    ensures
        ({
            let (s1, sol1, a1) = architect_next(fresh_solution_architect(), sol, ArchitectEventView::Start);
            let (s2, sol2, a2) = architect_next(s1, sol1, ArchitectEventView::FeaturesDecoded(features));
            let (s3, sol3, a3) = architect_next(s2, sol2, ArchitectEventView::UrlsDecoded(urls));
            let (s4, sol4, a4) = architect_next(s3, sol3, ArchitectEventView::UrlsChecked(statuses));
            &&& a1 == ArchitectAction::RequestFeatures
            &&& if features.is_external_urls_required {
                &&& a2 == ArchitectAction::RequestExternalUrls
                &&& a3 == ArchitectAction::CheckUrls
                &&& a4 == ArchitectAction::Finish
                &&& s4.attributes.state == AgentState::Finished
                &&& sol4 == SpecificationView {
                    project_scope: Some(features),
                    external_urls: Some(checked_urls(urls, statuses)),
                    ..sol
                }
            } else {
                &&& a2 == ArchitectAction::Finish
                &&& s2.attributes.state == AgentState::Finished
                &&& sol2 == SpecificationView { project_scope: Some(features), ..sol }
            }
        }),
{
}

impl SolutionArchitect {
    /// A fresh solution architect, at the start of its task.
    pub fn new() -> (agent: SolutionArchitect)
        ensures
            agent@ == fresh_solution_architect(),
    {
        let attributes = BaseAgent::new(
            String::from_str("Gathers requirements and design the solution for the website architecture"),
            String::from_str("Solution Architect"),
        );
        SolutionArchitect { attributes, awaiting: ArchitectWait::Nothing }
    }

    /// The agent's common attributes.
    pub fn get_attributes_from_agent(&self) -> (attributes: &BaseAgent)
        ensures
            attributes@ == self@.attributes,
    {
        &self.attributes
    }

    /// Opens the work of the current stage.
    fn enter_stage(&mut self, specification: &SolutionSpecification) -> (action: ArchitectAction)
        ensures
            (final(self)@, action) == architect_enter(old(self)@, specification@),
    {
        match self.attributes.state {
            AgentState::Discovery => {
                self.awaiting = ArchitectWait::Features;
                ArchitectAction::RequestFeatures
            },
            AgentState::UnitTesting => {
                if specification.external_urls.is_some() {
                    self.awaiting = ArchitectWait::UrlChecks;
                    ArchitectAction::CheckUrls
                } else {
                    self.awaiting = ArchitectWait::Halted(ArchitectAbort::MissingUrls);
                    ArchitectAction::Abort(ArchitectAbort::MissingUrls)
                }
            },
            _ => {
                self.attributes.update_state(AgentState::Finished);
                self.awaiting = ArchitectWait::Nothing;
                ArchitectAction::Finish
            },
        }
    }

    /// Takes the event that answers the architect's last request, updates
    /// the architect and the specification, and returns the next request.
    pub fn step(&mut self, specification: &mut SolutionSpecification, event: ArchitectEvent) -> (action: ArchitectAction)
        ensures
            (final(self)@, final(specification)@, action) == architect_next(
                old(self)@,
                old(specification)@,
                event@,
            ),
    {
        match (self.awaiting, event) {
            (ArchitectWait::Halted(reason), _) => ArchitectAction::Abort(reason),
            (ArchitectWait::Nothing, _) => self.enter_stage(specification),
            (ArchitectWait::Features, ArchitectEvent::FeaturesDecoded(features)) => {
                specification.project_scope = Some(features);
                self.attributes.update_state(AgentState::Finished);
                if features.is_external_urls_required {
                    self.awaiting = ArchitectWait::Urls;
                    ArchitectAction::RequestExternalUrls
                } else {
                    self.awaiting = ArchitectWait::Nothing;
                    ArchitectAction::Finish
                }
            },
            (ArchitectWait::Urls, ArchitectEvent::UrlsDecoded(urls)) => {
                specification.external_urls = Some(urls);
                self.attributes.update_state(AgentState::UnitTesting);
                self.enter_stage(specification)
            },
            (ArchitectWait::UrlChecks, ArchitectEvent::UrlsChecked(statuses)) => {
                match &specification.external_urls {
                    Some(urls) => {
                        let rejected = collect_rejected_urls(urls, &statuses);
                        if rejected.len() > 0 {
                            let kept = drop_rejected_urls(urls, &rejected);
                            specification.external_urls = Some(kept);
                        }
                        self.attributes.update_state(AgentState::Finished);
                        self.awaiting = ArchitectWait::Nothing;
                        ArchitectAction::Finish
                    },
                    None => {
                        self.awaiting = ArchitectWait::Halted(ArchitectAbort::MissingUrls);
                        ArchitectAction::Abort(ArchitectAbort::MissingUrls)
                    },
                }
            },
            _ => match self.awaiting {
                ArchitectWait::Features => ArchitectAction::RequestFeatures,
                ArchitectWait::Urls => ArchitectAction::RequestExternalUrls,
                ArchitectWait::UrlChecks => ArchitectAction::CheckUrls,
                ArchitectWait::Halted(reason) => ArchitectAction::Abort(reason),
                ArchitectWait::Nothing => ArchitectAction::Finish,
            },
        }
    }
}

} // verus!
