use vstd::prelude::*;

verus! {

/// A JSON value, carried through unread.
#[verifier::external_type_specification]
#[verifier::external_body]
pub struct ExJsonValue(serde_json::Value);

/// What the solution architect decided the project needs.
#[derive(PartialEq, Eq, Structural, Clone, Copy, Debug)]
pub struct ProjectFeatures {
    pub is_crud_required: bool,
    pub is_user_login_and_logout_required: bool,
    pub is_external_urls_required: bool,
}

/// One REST endpoint of the generated server, as the model describes it.
/// The request body and the response are JSON values, carried as they are.
#[derive(Debug)]
pub struct RouteObject {
    pub is_route_dynamic: String,
    pub method: String,
    pub request_body: serde_json::Value,
    pub response: serde_json::Value,
    pub route: String,
}

/// The abstract content of a [`RouteObject`].
pub ghost struct RouteView {
    pub is_route_dynamic: Seq<char>,
    pub method: Seq<char>,
    pub request_body: serde_json::Value,
    pub response: serde_json::Value,
    pub route: Seq<char>,
}

impl View for RouteObject {
    type V = RouteView;

    open spec fn view(&self) -> RouteView {
        RouteView {
            is_route_dynamic: self.is_route_dynamic@,
            method: self.method@,
            request_body: self.request_body,
            response: self.response,
            route: self.route@,
        }
    }
}

/// The abstract content of a list of routes.
pub open spec fn route_views(routes: Seq<RouteObject>) -> Seq<RouteView> {
    routes.map_values(|r: RouteObject| r@)
}

/// Everything the team has settled about the project so far.
#[derive(Debug)]
pub struct SolutionSpecification {
    pub project_description: String,
    pub project_scope: Option<ProjectFeatures>,
    pub external_urls: Option<Vec<String>>,
    pub backend_code: Option<String>,
    pub api_schema: Option<Vec<RouteObject>>,
}

/// The abstract content of a [`SolutionSpecification`].
pub ghost struct SpecificationView {
    pub project_description: Seq<char>,
    pub project_scope: Option<ProjectFeatures>,
    pub external_urls: Option<Seq<Seq<char>>>,
    pub backend_code: Option<Seq<char>>,
    pub api_schema: Option<Seq<RouteView>>,
}

impl View for SolutionSpecification {
    type V = SpecificationView;

    open spec fn view(&self) -> SpecificationView {
        SpecificationView {
            project_description: self.project_description@,
            project_scope: self.project_scope,
            external_urls: match self.external_urls {
                Some(urls) => Some(urls.deep_view()),
                None => None,
            },
            backend_code: match self.backend_code {
                Some(code) => Some(code@),
                None => None,
            },
            api_schema: match self.api_schema {
                Some(routes) => Some(route_views(routes@)),
                None => None,
            },
        }
    }
}

impl SolutionSpecification {
    /// A specification that holds only the project description.
    pub fn from_description(project_description: String) -> (spec: SolutionSpecification)
        ensures
            spec@ == (SpecificationView {
                project_description: project_description@,
                project_scope: None,
                external_urls: None,
                backend_code: None,
                api_schema: None,
            }),
    {
        SolutionSpecification {
            project_description,
            project_scope: None,
            external_urls: None,
            backend_code: None,
            api_schema: None,
        }
    }
}

/// A route that the backend engineer tests once the server runs: a `get`
/// route whose path has no dynamic part.
pub open spec fn is_testable_route(r: RouteView) -> bool {
    r.method == "get"@ && r.is_route_dynamic == "false"@
}

/// [`is_testable_route`] as a predicate to filter with.
pub open spec fn testable_route_filter() -> spec_fn(RouteView) -> bool {
    |r: RouteView| is_testable_route(r)
}

/// Filtering routes for testing keeps exactly the routes whose method is
/// `get` and that have no dynamic part; every kept route has those texts,
/// and there are never more routes than before.
pub proof fn lemma_testable_routes(routes: Seq<RouteView>)
    ensures
        forall|r: RouteView|
            #[trigger] routes.filter(testable_route_filter()).contains(r) <==> routes.contains(r)
                && r.method == "get"@ && r.is_route_dynamic == "false"@,
        forall|i: int|
            0 <= i < routes.filter(testable_route_filter()).len() ==> (#[trigger] routes.filter(
                testable_route_filter(),
            )[i]).method == "get"@ && routes.filter(testable_route_filter())[i].is_route_dynamic
                == "false"@,
        routes.filter(testable_route_filter()).len() <= routes.len(),
{
    let pred = testable_route_filter();
    let kept = routes.filter(pred);
    routes.lemma_filter_len(pred);
    assert forall|i: int| 0 <= i < kept.len() implies (#[trigger] kept[i]).method == "get"@
        && kept[i].is_route_dynamic == "false"@ by {
        routes.lemma_filter_pred(pred, i);
    }
    assert forall|r: RouteView| #[trigger] kept.contains(r) <==> routes.contains(r) && r.method
        == "get"@ && r.is_route_dynamic == "false"@ by {
        if kept.contains(r) {
            routes.lemma_filter_contains_rev(pred, r);
            let i = choose|i: int| 0 <= i < kept.len() && kept[i] == r;
            routes.lemma_filter_pred(pred, i);
        }
        if routes.contains(r) && r.method == "get"@ && r.is_route_dynamic == "false"@ {
            let i = choose|i: int| 0 <= i < routes.len() && routes[i] == r;
            routes.lemma_filter_contains(pred, i);
        }
    }
}

/// Keeps, in their order, the routes that can be tested by a plain request:
/// those whose method is `get` and whose `is_route_dynamic` is `false`.
pub fn select_testable_routes(routes: Vec<RouteObject>) -> (kept: Vec<RouteObject>)
    ensures
        route_views(kept@) == route_views(routes@).filter(testable_route_filter()),
        forall|i: int|
            0 <= i < kept@.len() ==> (#[trigger] kept@[i]).method@ == "get"@
                && kept@[i].is_route_dynamic@ == "false"@,
        forall|r: RouteView|
            #[trigger] route_views(kept@).contains(r) <==> route_views(routes@).contains(r)
                && r.method == "get"@ && r.is_route_dynamic == "false"@,
{
    let ghost all = route_views(routes@);
    let n = routes.len();
    assert(all.len() == n);
    let mut rest = routes;
    let mut kept: Vec<RouteObject> = Vec::new();
    let mut done: usize = 0;
    while rest.len() > 0
        invariant
            done + rest@.len() == all.len(),
            all.len() <= usize::MAX,
            route_views(rest@) == all.skip(done as int),
            route_views(kept@) == all.take(done as int).filter(testable_route_filter()),
        decreases rest@.len(),
    {
        let ghost before = rest@;
        let route = rest.remove(0);
        assert(route@ == all[done as int]) by {
            assert(route_views(before)[0] == all.skip(done as int)[0]);
        }
        assert(route_views(rest@) =~= all.skip(done + 1)) by {
            assert forall|k: int| 0 <= k < rest@.len() implies route_views(rest@)[k] == all.skip(
                done + 1,
            )[k] by {
                assert(route_views(before)[k + 1] == all.skip(done as int)[k + 1]);
            }
        }
        let testable = str_is(&route.method, "get") && str_is(&route.is_route_dynamic, "false");
        let ghost kept_before = kept@;
        assert(testable_route_filter()(route@) == testable);
        if testable {
            kept.push(route);
        }
        proof {
            assert(all.take(done + 1).drop_last() =~= all.take(done as int));
            assert(all.take(done + 1).last() == all[done as int]);
            reveal_with_fuel(Seq::filter, 1);
            if testable {
                assert(route_views(kept@) =~= route_views(kept_before).push(all[done as int]));
            } else {
                assert(route_views(kept@) =~= route_views(kept_before));
            }
        }
        done = done + 1;
    }
    proof {
        assert(all.take(done as int) =~= all);
        lemma_testable_routes(all);
        assert forall|i: int| 0 <= i < kept@.len() implies (#[trigger] kept@[i]).method@ == "get"@
            && kept@[i].is_route_dynamic@ == "false"@ by {
            assert(route_views(kept@)[i] == kept@[i]@);
        }
    }
    kept
}

/// Whether a string holds exactly the characters of `expected`.
fn str_is(s: &String, expected: &str) -> (eq: bool)
    ensures
        eq == (s@ == expected@),
{
    *s == String::from_str(expected)
}

} // verus!
