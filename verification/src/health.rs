//! Health checks: combining the results of component checks and choosing the
//! reply of each health endpoint.

use vstd::prelude::*;

use crate::table::{keyed_table, lemma_keyed_lookup, lemma_keyed_push, lemma_keyed_update};
use crate::text::same_text;

verus! {

/// Health check status.
#[derive(Clone, Copy, Debug, PartialEq, Eq, Structural)]
pub enum HealthStatus {
    /// The component is healthy.
    Healthy,
    /// The component is unhealthy.
    Unhealthy,
}

/// The status of a check that reported `healthy`.
pub open spec fn status_of(healthy: bool) -> HealthStatus {
    if healthy {
        HealthStatus::Healthy
    } else {
        HealthStatus::Unhealthy
    }
}

/// The statuses by component name that a list of `(name, healthy)` results
/// gives; a later result for a name replaces an earlier one.
pub open spec fn result_table(results: Seq<(String, bool)>) -> Map<Seq<char>, HealthStatus>
    decreases results.len(),
{
    if results.len() == 0 {
        Map::empty()
    } else {
        result_table(results.drop_last()).insert(results.last().0@, status_of(results.last().1))
    }
}

/// Whether every result of a list of `(name, healthy)` results is healthy.
pub open spec fn all_healthy(results: Seq<(String, bool)>) -> bool {
    forall|i: int| 0 <= i < results.len() ==> (#[trigger] results[i]).1
}

/// Health check result: the overall status and the status of each component.
#[derive(Debug)]
pub struct HealthCheck {
    status: HealthStatus,
    checks: Vec<(String, HealthStatus)>,
}

/// The names of a list of named statuses.
pub open spec fn check_names(s: Seq<(String, HealthStatus)>) -> Seq<Seq<char>> {
    s.map_values(|p: (String, HealthStatus)| p.0@)
}

/// The statuses of a list of named statuses.
pub open spec fn check_statuses(s: Seq<(String, HealthStatus)>) -> Seq<HealthStatus> {
    s.map_values(|p: (String, HealthStatus)| p.1)
}

impl HealthCheck {
    #[verifier::type_invariant]
    spec fn names_distinct(self) -> bool {
        check_names(self.checks@).no_duplicates()
    }

    /// The overall health status.
    pub closed spec fn spec_status(self) -> HealthStatus {
        self.status
    }

    /// The overall health status.
    pub fn status(&self) -> (s: HealthStatus)
        ensures
            s == self.spec_status(),
    {
        self.status
    }

    /// The status of each component by name.
    pub closed spec fn checks_view(self) -> Map<Seq<char>, HealthStatus> {
        keyed_table(check_names(self.checks@), check_statuses(self.checks@))
    }

    /// Combines the results of component checks, in the order they ran: the
    /// overall status is healthy exactly when every check is, and each
    /// component has the status of its last result.
    pub fn from_results(results: &[(String, bool)]) -> (h: HealthCheck)
        ensures
            h.spec_status() == status_of(all_healthy(results@)),
            h.checks_view() == result_table(results@),
    {
        let mut checks: Vec<(String, HealthStatus)> = Vec::new();
        let mut overall_healthy = true;
        let mut i: usize = 0;
        assert(keyed_table(check_names(checks@), check_statuses(checks@)) =~= Map::<Seq<char>, HealthStatus>::empty());
        while i < results.len()
            invariant
                0 <= i <= results@.len(),
                overall_healthy == all_healthy(results@.take(i as int)),
                check_names(checks@).no_duplicates(),
                check_names(checks@).len() == check_statuses(checks@).len(),
                keyed_table(check_names(checks@), check_statuses(checks@)) == result_table(results@.take(i as int)),
            decreases results@.len() - i,
        {
            let healthy = results[i].1;
            if !healthy {
                overall_healthy = false;
            }
            let status = if healthy {
                HealthStatus::Healthy
            } else {
                HealthStatus::Unhealthy
            };
            let entry = (results[i].0.clone(), status);
            assert(results@.take(i + 1).drop_last() =~= results@.take(i as int));
            match status_position(&checks, entry.0.as_str()) {
                Some(k) => {
                    proof {
                        assert(check_names(checks@)[k as int] == entry.0@);
                        lemma_keyed_update(check_names(checks@), check_statuses(checks@), k as int, status);
                        assert(check_names(checks@.update(k as int, entry)) =~= check_names(checks@));
                        assert(check_statuses(checks@.update(k as int, entry)) =~= check_statuses(checks@).update(k as int, status));
                    }
                    checks.set(k, entry);
                },
                None => {
                    proof {
                        lemma_keyed_push(check_names(checks@), check_statuses(checks@), entry.0@, status);
                        assert(check_names(checks@.push(entry)) =~= check_names(checks@).push(entry.0@));
                        assert(check_statuses(checks@.push(entry)) =~= check_statuses(checks@).push(status));
                    }
                    checks.push(entry);
                },
            }
            proof {
                let t = results@.take(i + 1);
                assert(t.last() == results@[i as int]);
                assert(all_healthy(t) == (all_healthy(results@.take(i as int)) && results@[i as int].1)) by {
                    if all_healthy(results@.take(i as int)) && results@[i as int].1 {
                        assert forall|k: int| 0 <= k < t.len() implies (#[trigger] t[k]).1 by {
                            if k < i {
                                assert(t[k] == results@.take(i as int)[k]);
                            }
                        }
                    }
                    if all_healthy(t) {
                        assert(t[i as int].1);
                        assert forall|k: int| 0 <= k < i implies (#[trigger] results@.take(i as int)[k]).1 by {
                            assert(t[k] == results@.take(i as int)[k]);
                        }
                    }
                }
            }
            i = i + 1;
        }
        assert(results@.take(results@.len() as int) =~= results@);
        HealthCheck {
            status: if overall_healthy {
                HealthStatus::Healthy
            } else {
                HealthStatus::Unhealthy
            },
            checks,
        }
    }

    /// The status of the component `name`, if it was checked.
    pub fn check(&self, name: &str) -> (r: Option<HealthStatus>)
        ensures
            match r {
                Some(s) => self.checks_view().contains_key(name@) && self.checks_view()[name@] == s,
                None => !self.checks_view().contains_key(name@),
            },
    {
        proof {
            use_type_invariant(self);
        }
        let key = name.to_owned();
        let mut j: usize = 0;
        while j < self.checks.len()
            invariant
                0 <= j <= self.checks@.len(),
                key@ == name@,
                check_names(self.checks@).no_duplicates(),
                forall|k: int| 0 <= k < j ==> (#[trigger] self.checks@[k]).0@ != name@,
            decreases self.checks@.len() - j,
        {
            if self.checks[j].0 == key {
                proof {
                    assert(check_names(self.checks@)[j as int] == name@);
                    lemma_keyed_lookup(check_names(self.checks@), check_statuses(self.checks@), j as int);
                }
                return Some(self.checks[j].1);
            }
            j = j + 1;
        }
        proof {
            if check_names(self.checks@).contains(name@) {
                let w = check_names(self.checks@).index_of(name@);
                assert(self.checks@[w].0@ == name@);
            }
        }
        None
    }

    /// Every checked component with its status, each name once.
    pub fn checks(&self) -> (r: &[(String, HealthStatus)])
        ensures
            check_names(r@).no_duplicates(),
            keyed_table(check_names(r@), check_statuses(r@)) == self.checks_view(),
    {
        proof {
            use_type_invariant(self);
        }
        self.checks.as_slice()
    }
}

/// The position of the status named `name` in `checks`, if it is there.
fn status_position(checks: &Vec<(String, HealthStatus)>, name: &str) -> (r: Option<usize>)
    ensures
        match r {
            Some(i) => i < checks@.len() && checks@[i as int].0@ == name@,
            None => !check_names(checks@).contains(name@),
        },
{
    let key = name.to_owned();
    let mut i: usize = 0;
    while i < checks.len()
        invariant
            0 <= i <= checks@.len(),
            key@ == name@,
            forall|j: int| 0 <= j < i ==> (#[trigger] checks@[j]).0@ != name@,
        decreases checks@.len() - i,
    {
        if checks[i].0 == key {
            return Some(i);
        }
        i = i + 1;
    }
    proof {
        if check_names(checks@).contains(name@) {
            let j = check_names(checks@).index_of(name@);
            assert(checks@[j].0@ == name@);
        }
    }
    None
}

/// A component whose health can be checked, known by its name; running the
/// check itself is asynchronous and belongs to the caller.
pub trait HealthChecker: Send + Sync {
    /// The name of this checker.
    spec fn checker_name(&self) -> Seq<char>;

    /// The name of this checker.
    fn name(&self) -> (n: &str)
        ensures
            n@ == self.checker_name(),
    ;
}

/// A component check given by a name and the function that runs it.
pub struct FunctionHealthChecker<F> {
    name: String,
    check_fn: F,
}

impl<F> FunctionHealthChecker<F> {
    /// A checker named `name` that runs `check_fn`.
    pub fn new(name: &str, check_fn: F) -> (c: FunctionHealthChecker<F>)
        ensures
            c.spec_name() == name@,
            c.spec_check_fn() == check_fn,
    {
        FunctionHealthChecker { name: name.to_owned(), check_fn }
    }

    /// The name of the checker.
    pub closed spec fn spec_name(&self) -> Seq<char> {
        self.name@
    }

    /// The function that runs the check.
    pub closed spec fn spec_check_fn(&self) -> F {
        self.check_fn
    }

    /// The function that runs the check.
    pub fn check_fn(&self) -> (f: &F)
        ensures
            *f == self.spec_check_fn(),
    {
        &self.check_fn
    }
}

impl<F: Send + Sync> HealthChecker for FunctionHealthChecker<F> {
    open spec fn checker_name(&self) -> Seq<char> {
        self.spec_name()
    }

    fn name(&self) -> (n: &str) {
        self.name.as_str()
    }
}

/// The registered health checkers, in the order they were added.
pub struct CheckerList<C> {
    checkers: Vec<C>,
}

impl<C> View for CheckerList<C> {
    type V = Seq<C>;

    closed spec fn view(&self) -> Seq<C> {
        self.checkers@
    }
}

/// The names of a list of checkers.
pub open spec fn checker_names<C: HealthChecker>(s: Seq<C>) -> Seq<Seq<char>> {
    s.map_values(|c: C| c.checker_name())
}

/// Whether a checker has a name other than `name`.
pub open spec fn named_otherwise<C: HealthChecker>(name: Seq<char>) -> spec_fn(C) -> bool {
    |c: C| c.checker_name() != name
}

/// The checkers of `s` not named `name`, in order.
pub open spec fn without_name<C: HealthChecker>(s: Seq<C>, name: Seq<char>) -> Seq<C> {
    s.filter(named_otherwise(name))
}

impl<C: HealthChecker> CheckerList<C> {
    /// An empty list.
    pub fn new() -> (l: CheckerList<C>)
        ensures
            l@ == Seq::<C>::empty(),
    {
        CheckerList { checkers: Vec::new() }
    }

    /// Adds `checker` at the end.
    pub fn register(&mut self, checker: C)
        ensures
            final(self)@ == old(self)@.push(checker),
    {
        self.checkers.push(checker);
    }

    /// Removes every checker named `name`, keeping the order of the others;
    /// says whether one was removed.
    pub fn unregister(&mut self, name: &str) -> (removed: bool)
        ensures
            final(self)@ == without_name(old(self)@, name@),
            removed == checker_names(old(self)@).contains(name@),
    {
        let ghost start = self@;
        let mut rest: Vec<C> = Vec::new();
        std::mem::swap(&mut rest, &mut self.checkers);
        let mut stack: Vec<C> = Vec::new();
        while rest.len() > 0
            invariant
                rest@.len() + stack@.len() == start.len(),
                rest@ == start.take(rest@.len() as int),
                forall|i: int| 0 <= i < stack@.len() ==> #[trigger] stack@[i] == start[start.len() - 1 - i],
            decreases rest@.len(),
        {
            let c = rest.pop().unwrap();
            stack.push(c);
        }
        let mut removed = false;
        proof {
            reveal(Seq::filter);
        }
        assert(self.checkers@ =~= without_name(start.take(0), name@));
        while stack.len() > 0
            invariant
                stack@.len() <= start.len(),
                forall|i: int| 0 <= i < stack@.len() ==> #[trigger] stack@[i] == start[start.len() - 1 - i],
                self.checkers@ == without_name(start.take(start.len() - stack@.len()), name@),
                removed == checker_names(start.take(start.len() - stack@.len())).contains(name@),
            decreases stack@.len(),
        {
            let ghost k = start.len() - stack@.len();
            let c = stack.pop().unwrap();
            assert(c == start[k]);
            assert(start.take(k + 1).drop_last() =~= start.take(k));
            assert(start.take(k + 1).last() == start[k]);
            assert(checker_names(start.take(k + 1)) =~= checker_names(start.take(k)).push(c.checker_name()));
            let ghost names_before = checker_names(start.take(k));
            let ghost s1 = start.take(k + 1);
            proof {
                reveal(Seq::filter);
            }
            assert(s1.filter(named_otherwise(name@)) == if named_otherwise(name@)(s1.last()) {
                s1.drop_last().filter(named_otherwise(name@)).push(s1.last())
            } else {
                s1.drop_last().filter(named_otherwise(name@))
            });
            assert(without_name(start.take(k + 1), name@) == if c.checker_name() != name@ {
                without_name(start.take(k), name@).push(c)
            } else {
                without_name(start.take(k), name@)
            });
            if same_text(c.name(), name) {
                assert(names_before.push(c.checker_name())[names_before.len() as int] == name@);
                removed = true;
            } else {
                assert(names_before.push(c.checker_name()).contains(name@) ==> names_before.contains(name@)) by {
                    if names_before.push(c.checker_name()).contains(name@) {
                        let j = choose|j: int| 0 <= j < names_before.len() + 1 && names_before.push(c.checker_name())[j] == name@;
                        assert(j < names_before.len());
                        assert(names_before[j] == name@);
                    }
                }
                assert(names_before.contains(name@) ==> names_before.push(c.checker_name()).contains(name@)) by {
                    if names_before.contains(name@) {
                        let j = choose|j: int| 0 <= j < names_before.len() && names_before[j] == name@;
                        assert(names_before.push(c.checker_name())[j] == name@);
                    }
                }
                self.checkers.push(c);
            }
        }
        assert(start.take(start.len() as int) =~= start);
        removed
    }

    /// The number of registered checkers.
    pub fn len(&self) -> (n: usize)
        ensures
            n == self@.len(),
    {
        self.checkers.len()
    }

    /// Whether no checker is registered.
    pub fn is_empty(&self) -> (b: bool)
        ensures
            b == (self@.len() == 0),
    {
        self.checkers.len() == 0
    }

    /// The registered checkers, in the order they were added.
    pub fn checkers(&self) -> (r: &[C])
        ensures
            r@ == self@,
    {
        self.checkers.as_slice()
    }
}

/// The health endpoints.
#[derive(Clone, Copy, Debug, PartialEq, Eq, Structural)]
pub enum HealthEndpoint {
    /// `/healthz` and `/healthz/live`: the process is alive.
    Live,
    /// `/healthz/ready`: every component check passes.
    Ready,
    /// `/healthz/deep`: the status of every component.
    Deep,
    /// Any other path.
    NotFound,
}

/// The endpoint that serves `path`.
pub open spec fn endpoint_of(path: Seq<char>) -> HealthEndpoint {
    if path == "/healthz"@ || path == "/healthz/live"@ {
        HealthEndpoint::Live
    } else if path == "/healthz/ready"@ {
        HealthEndpoint::Ready
    } else if path == "/healthz/deep"@ {
        HealthEndpoint::Deep
    } else {
        HealthEndpoint::NotFound
    }
}

/// The endpoint that serves `path`.
pub fn endpoint_for(path: &str) -> (e: HealthEndpoint)
    ensures
        e == endpoint_of(path@),
{
    if same_text(path, "/healthz") || same_text(path, "/healthz/live") {
        HealthEndpoint::Live
    } else if same_text(path, "/healthz/ready") {
        HealthEndpoint::Ready
    } else if same_text(path, "/healthz/deep") {
        HealthEndpoint::Deep
    } else {
        HealthEndpoint::NotFound
    }
}

/// Whether an endpoint runs the component checks.
pub fn needs_checks(e: HealthEndpoint) -> (b: bool)
    ensures
        b == (e == HealthEndpoint::Ready || e == HealthEndpoint::Deep),
{
    match e {
        HealthEndpoint::Ready | HealthEndpoint::Deep => true,
        _ => false,
    }
}

/// The body of a health reply.
#[derive(Clone, Copy, Debug, PartialEq, Eq, Structural)]
pub enum ReplyBody {
    /// `ok`
    Fine,
    /// `not ready`
    NotReady,
    /// `not found`
    NotFound,
    /// The health check result in JSON.
    Report,
}

/// The content type of a health reply.
#[derive(Clone, Copy, Debug, PartialEq, Eq, Structural)]
pub enum ReplyContent {
    /// `text/plain`
    PlainText,
    /// `application/json`
    Json,
    /// No content type header.
    Unspecified,
}

/// A health reply: status code, content type and body.
#[derive(Clone, Copy, Debug, PartialEq, Eq, Structural)]
pub struct HealthReply {
    /// The HTTP status code.
    pub status_code: u16,
    /// The content type.
    pub content: ReplyContent,
    /// The body.
    pub body: ReplyBody,
}

/// The reply of `endpoint` when the overall status of the component checks
/// is `overall` (used only by the endpoints that run them).
pub open spec fn reply_of(endpoint: HealthEndpoint, overall: HealthStatus) -> HealthReply {
    let code: u16 = if overall == HealthStatus::Healthy {
        200
    } else {
        503
    };
    match endpoint {
        HealthEndpoint::Live => HealthReply {
            status_code: 200,
            content: ReplyContent::PlainText,
            body: ReplyBody::Fine,
        },
        HealthEndpoint::Ready => HealthReply {
            status_code: code,
            content: ReplyContent::PlainText,
            body: if overall == HealthStatus::Healthy {
                ReplyBody::Fine
            } else {
                ReplyBody::NotReady
            },
        },
        HealthEndpoint::Deep => HealthReply {
            status_code: code,
            content: ReplyContent::Json,
            body: ReplyBody::Report,
        },
        HealthEndpoint::NotFound => HealthReply {
            status_code: 404,
            content: ReplyContent::Unspecified,
            body: ReplyBody::NotFound,
        },
    }
}

/// The reply of `endpoint` when the overall status of the component checks
/// is `overall`.
pub fn health_reply(endpoint: HealthEndpoint, overall: HealthStatus) -> (r: HealthReply)
    ensures
        r == reply_of(endpoint, overall),
{
    let code: u16 = match overall {
        HealthStatus::Healthy => 200,
        HealthStatus::Unhealthy => 503,
    };
    match endpoint {
        HealthEndpoint::Live => HealthReply {
            status_code: 200,
            content: ReplyContent::PlainText,
            body: ReplyBody::Fine,
        },
        HealthEndpoint::Ready => HealthReply {
            status_code: code,
            content: ReplyContent::PlainText,
            body: match overall {
                HealthStatus::Healthy => ReplyBody::Fine,
                HealthStatus::Unhealthy => ReplyBody::NotReady,
            },
        },
        HealthEndpoint::Deep => HealthReply {
            status_code: code,
            content: ReplyContent::Json,
            body: ReplyBody::Report,
        },
        HealthEndpoint::NotFound => HealthReply {
            status_code: 404,
            content: ReplyContent::Unspecified,
            body: ReplyBody::NotFound,
        },
    }
}

/// The text of a reply body other than the report.
pub fn body_text(body: ReplyBody) -> (t: &'static str)
    requires
        body != ReplyBody::Report,
    ensures
        body == ReplyBody::Fine ==> t@ == "ok"@,
        body == ReplyBody::NotReady ==> t@ == "not ready"@,
        body == ReplyBody::NotFound ==> t@ == "not found"@,
{
    match body {
        ReplyBody::Fine => "ok",
        ReplyBody::NotReady => "not ready",
        _ => "not found",
    }
}

/// Once the checkers named `name` are removed none of that name is left, every
/// other checker stays, and a list without that name is left as it was.
pub proof fn law_unregister_removes_only_that_name<C: HealthChecker>(s: Seq<C>, name: Seq<char>)
    ensures
        !checker_names(without_name(s, name)).contains(name),
        forall|i: int|
            0 <= i < s.len() && (#[trigger] s[i]).checker_name() != name ==> without_name(
                s,
                name,
            ).contains(s[i]),
        !checker_names(s).contains(name) ==> without_name(s, name) == s,
    decreases s.len(),
{
    reveal(Seq::filter);
    if s.len() > 0 {
        let rest = s.drop_last();
        law_unregister_removes_only_that_name(rest, name);
        let kept = without_name(rest, name);
        assert(checker_names(s) =~= checker_names(rest).push(s.last().checker_name()));
        if s.last().checker_name() != name {
            assert(without_name(s, name) == kept.push(s.last()));
            assert(checker_names(kept.push(s.last())) =~= checker_names(kept).push(s.last().checker_name()));
            assert(kept.push(s.last())[kept.len() as int] == s.last());
            assert forall|i: int|
                0 <= i < s.len() && (#[trigger] s[i]).checker_name() != name implies without_name(
                    s,
                    name,
                ).contains(s[i]) by {
                if i < s.len() - 1 {
                    assert(rest[i] == s[i]);
                    let j = choose|j: int| 0 <= j < kept.len() && kept[j] == rest[i];
                    assert(kept.push(s.last())[j] == s[i]);
                }
            }
            if !checker_names(s).contains(name) {
                assert(checker_names(s)[s.len() - 1] == s.last().checker_name());
                assert forall|j: int| 0 <= j < checker_names(rest).len() implies checker_names(rest)[j] != name by {
                    assert(checker_names(s)[j] == checker_names(rest)[j]);
                }
                assert(kept == rest);
                assert(s =~= rest.push(s.last()));
            }
        } else {
            assert(without_name(s, name) == kept);
            assert(checker_names(s)[s.len() - 1] == name);
            assert forall|i: int|
                0 <= i < s.len() && (#[trigger] s[i]).checker_name() != name implies without_name(
                    s,
                    name,
                ).contains(s[i]) by {
                assert(i < s.len() - 1);
                assert(rest[i] == s[i]);
            }
        }
    }
}

/// The readiness endpoint answers 200 exactly when every component check
/// passes, and 503 otherwise; the liveness endpoint always answers 200.
pub proof fn law_ready_only_when_all_healthy(results: Seq<(String, bool)>, overall: HealthStatus)
    requires
        overall == status_of(all_healthy(results)),
    ensures
        reply_of(HealthEndpoint::Ready, overall).status_code == 200 <==> all_healthy(results),
        reply_of(HealthEndpoint::Ready, overall).status_code == 503 <==> !all_healthy(results),
        reply_of(HealthEndpoint::Live, overall).status_code == 200,
{
}

/// With no component checks the overall status is healthy.
pub proof fn law_no_checks_is_healthy()
    ensures
        status_of(all_healthy(Seq::<(String, bool)>::empty())) == HealthStatus::Healthy,
        result_table(Seq::<(String, bool)>::empty()) == Map::<Seq<char>, HealthStatus>::empty(),
{
}


/// The deep endpoint answers as the readiness endpoint does: 200 exactly when
/// every component check passes and 503 otherwise, with the report as JSON;
/// the liveness endpoint always answers 200 with `ok`, and any other path 404.
pub proof fn law_deep_answers_like_ready(results: Seq<(String, bool)>, overall: HealthStatus)
    requires
        overall == status_of(all_healthy(results)),
    ensures
        reply_of(HealthEndpoint::Deep, overall).status_code == reply_of(
            HealthEndpoint::Ready,
            overall,
        ).status_code,
        reply_of(HealthEndpoint::Deep, overall).status_code == 200 <==> all_healthy(results),
        reply_of(HealthEndpoint::Deep, overall).status_code == 503 <==> !all_healthy(results),
        reply_of(HealthEndpoint::Deep, overall).content == ReplyContent::Json,
        reply_of(HealthEndpoint::Deep, overall).body == ReplyBody::Report,
        reply_of(HealthEndpoint::Ready, overall).body == if all_healthy(results) {
            ReplyBody::Fine
        } else {
            ReplyBody::NotReady
        },
        reply_of(HealthEndpoint::Live, overall).body == ReplyBody::Fine,
        reply_of(HealthEndpoint::NotFound, overall).status_code == 404,
{
}


/// `/healthz` and `/healthz/live` are the liveness endpoint, `/healthz/ready`
/// the readiness endpoint, `/healthz/deep` the detailed one, and every other
/// path is not found; the overall status is healthy exactly when every
/// result is.
pub proof fn law_endpoint_paths(path: Seq<char>, results: Seq<(String, bool)>)
    ensures
        endpoint_of("/healthz"@) == HealthEndpoint::Live,
        endpoint_of("/healthz/live"@) == HealthEndpoint::Live,
        endpoint_of("/healthz/ready"@) == HealthEndpoint::Ready,
        endpoint_of("/healthz/deep"@) == HealthEndpoint::Deep,
        path != "/healthz"@ && path != "/healthz/live"@ && path != "/healthz/ready"@ && path
            != "/healthz/deep"@ ==> endpoint_of(path) == HealthEndpoint::NotFound,
        status_of(all_healthy(results)) == HealthStatus::Healthy <==> forall|i: int|
            0 <= i < results.len() ==> (#[trigger] results[i]).1,
{
    reveal_strlit("/healthz");
    reveal_strlit("/healthz/live");
    reveal_strlit("/healthz/ready");
    reveal_strlit("/healthz/deep");
    assert("/healthz"@.len() == 8);
    assert("/healthz/live"@.len() == 13);
    assert("/healthz/ready"@.len() == 14);
    assert("/healthz/deep"@.len() == 13);
    assert("/healthz/ready"@ != "/healthz"@ && "/healthz/ready"@ != "/healthz/live"@);
    assert("/healthz/deep"@ != "/healthz"@);
    assert("/healthz/deep"@ != "/healthz/live"@) by {
        assert("/healthz/deep"@[9] != "/healthz/live"@[9]);
    }
    assert("/healthz/deep"@ != "/healthz/ready"@);
}

} // verus!
