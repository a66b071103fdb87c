//! SmartTimeout middleware: a timeout for requests, except for those under certain paths.
//!
//! Useful for long-running requests like audio streaming that should not be subject to the same
//! timeout as short API calls.

use crate::error::{Error, MiddlewareError};
use http::Uri;
use std::time::Duration;
use vstd::prelude::*;

verus! {

/// `http::Uri`, carried through to have its path read.
#[verifier::external_type_specification]
#[verifier::external_body]
pub struct ExUri(Uri);

/// The path of a URI, as `Uri::path` gives it.
pub uninterp spec fn uri_path(uri: Uri) -> Seq<char>;

/// `Uri::path` gives the path of the URI, without its query.
pub assume_specification[ Uri::path ](uri: &Uri) -> (path: &str)
    ensures
        path@ == uri_path(*uri),
;

/// Calls `str::starts_with` with a string pattern: true exactly where the string begins with the
/// characters of the pattern.
#[verifier::external_body]
fn str_starts_with(text: &str, prefix: &str) -> (starts: bool)
    ensures
        starts == prefix@.is_prefix_of(text@),
{
    text.starts_with(prefix)
}

/// How a request is to be handled.
pub enum TimeoutPlan {
    /// Pass it on, however long it takes.
    PassThrough,
    /// Pass it on, and give it up after this long.
    Limit(Duration),
}

/// Middleware that applies a timeout to requests, with path-based exemptions.
///
/// Requests whose URI path starts with any of the configured exempt prefixes
/// are passed through without a timeout. All other requests are subject to
/// the configured duration limit.
pub struct SmartTimeout {
    /// How long a request may take.
    pub duration: Duration,
    /// The path prefixes of requests that may take any time.
    pub exempt_prefixes: Vec<String>,
}

impl SmartTimeout {
    /// One of the exempt prefixes starts `path`.
    pub open spec fn exempts(self, path: Seq<char>) -> bool {
        exists|i: int|
            0 <= i < self.exempt_prefixes@.len() && (#[trigger] self.exempt_prefixes@[i])@.is_prefix_of(
                path,
            )
    }

    /// Construct a new SmartTimeout middleware with the given duration.
    pub fn new(duration: Duration) -> (timeout: Self)
        ensures
            timeout.duration == duration,
            timeout.exempt_prefixes@ == Seq::<String>::empty(),
    {
        SmartTimeout { duration, exempt_prefixes: Vec::new() }
    }

    /// Add a URI path prefix that should be exempt from timeout enforcement.
    pub fn exempt_prefix(self, prefix: impl Into<String>) -> (timeout: Self)
        ensures
            timeout.duration == self.duration,
            exists|text: String|
                #![trigger self.exempt_prefixes@.push(text)]
                call_ensures(Into::<String>::into, (prefix,), text) && timeout.exempt_prefixes@
                    == self.exempt_prefixes@.push(text),
    {
        let text: String = prefix.into();
        self.with_exempt_prefix(text)
    }

    /// Adds `prefix` to the exempt prefixes, after those added before.
    pub fn with_exempt_prefix(self, prefix: String) -> (timeout: Self)
        ensures
            timeout.duration == self.duration,
            timeout.exempt_prefixes@ == self.exempt_prefixes@.push(prefix),
    {
        let mut exempt_prefixes = self.exempt_prefixes;
        exempt_prefixes.push(prefix);
        SmartTimeout { duration: self.duration, exempt_prefixes }
    }

    /// Whether a request for `path` may take any time.
    pub fn is_exempt(&self, path: &str) -> (exempt: bool)
        ensures
            exempt == self.exempts(path@),
    {
        let mut i: usize = 0;
        while i < self.exempt_prefixes.len()
            invariant
                i <= self.exempt_prefixes@.len(),
                forall|j: int|
                    0 <= j < i ==> !(#[trigger] self.exempt_prefixes@[j])@.is_prefix_of(path@),
            decreases self.exempt_prefixes@.len() - i,
        {
            if str_starts_with(path, self.exempt_prefixes[i].as_str()) {
                return true;
            }
            i += 1;
        }
        false
    }

    /// How to handle a request for `path`.
    pub fn plan_for_path(&self, path: &str) -> (plan: TimeoutPlan)
        ensures
            plan == if self.exempts(path@) {
                TimeoutPlan::PassThrough
            } else {
                TimeoutPlan::Limit(self.duration)
            },
    {
        if self.is_exempt(path) {
            TimeoutPlan::PassThrough
        } else {
            TimeoutPlan::Limit(self.duration)
        }
    }

    /// How to handle a request for `uri`.
    pub fn plan(&self, uri: &Uri) -> (plan: TimeoutPlan)
        ensures
            plan == if self.exempts(uri_path(*uri)) {
                TimeoutPlan::PassThrough
            } else {
                TimeoutPlan::Limit(self.duration)
            },
    {
        self.plan_for_path(uri.path())
    }
}

/// The result of a request that was given a limit: what came of it in time, or, where the limit
/// passed first (`None`), a timeout.
pub fn limited_result<R, E>(outcome: Option<Result<R, Error<E>>>) -> (result: Result<R, Error<E>>)
    ensures
        result == match outcome {
            Some(in_time) => in_time,
            None => Err(Error::Middleware(MiddlewareError::Timeout)),
        },
{
    match outcome {
        Some(result) => result,
        None => Err(Error::Middleware(MiddlewareError::Timeout)),
    }
}

/// Without exempt prefixes no path is exempt.
pub proof fn law_nothing_is_exempt_at_first(timeout: SmartTimeout, path: Seq<char>)
    requires
        timeout.exempt_prefixes@ == Seq::<String>::empty(),
    ensures
        !timeout.exempts(path),
{
}

/// Adding a prefix exempts exactly the paths that it starts, besides those exempt before.
pub proof fn law_added_prefix_exempts_its_paths(
    before: SmartTimeout,
    prefix: String,
    after: SmartTimeout,
    path: Seq<char>,
)
    requires
        after.exempt_prefixes@ == before.exempt_prefixes@.push(prefix),
    ensures
        after.exempts(path) <==> before.exempts(path) || prefix@.is_prefix_of(path),
{
    let n = before.exempt_prefixes@.len() as int;
    if before.exempts(path) {
        let i = choose|i: int|
            0 <= i < n && (#[trigger] before.exempt_prefixes@[i])@.is_prefix_of(path);
        assert(after.exempt_prefixes@[i]@.is_prefix_of(path));
    }
    if prefix@.is_prefix_of(path) {
        assert(after.exempt_prefixes@[n]@.is_prefix_of(path));
    }
    if after.exempts(path) {
        let i = choose|i: int|
            0 <= i < n + 1 && (#[trigger] after.exempt_prefixes@[i])@.is_prefix_of(path);
        if i < n {
            assert(before.exempt_prefixes@[i]@.is_prefix_of(path));
        }
    }
}

/// What starts with an exempt path is exempt too.
pub proof fn law_exemption_covers_longer_paths(
    timeout: SmartTimeout,
    path: Seq<char>,
    rest: Seq<char>,
)
    requires
        timeout.exempts(path),
    ensures
        timeout.exempts(path + rest),
{
    let i = choose|i: int|
        0 <= i < timeout.exempt_prefixes@.len()
            && (#[trigger] timeout.exempt_prefixes@[i])@.is_prefix_of(path);
    let prefix = timeout.exempt_prefixes@[i]@;
    assert(prefix =~= (path + rest).subrange(0, prefix.len() as int));
    assert(timeout.exempt_prefixes@[i]@.is_prefix_of(path + rest));
}

/// A new middleware has the given duration and limits every request to it.
pub proof fn law_new_timeout_limits_every_path(
    duration: Duration,
    timeout: SmartTimeout,
    path: &str,
    plan: TimeoutPlan,
)
    requires
        call_ensures(SmartTimeout::new, (duration,), timeout),
        call_ensures(SmartTimeout::plan_for_path, (&timeout, path), plan),
    ensures
        plan == TimeoutPlan::Limit(duration),
{
}

/// A request is passed through exactly where its path starts with one of the exempt prefixes, and is
/// limited to the configured duration otherwise; by its path or by its URI, which counts by its
/// path alone.
pub proof fn law_exempt_paths_pass_through(
    timeout: SmartTimeout,
    path: &str,
    exempt: bool,
    plan: TimeoutPlan,
    uri: Uri,
    uri_plan: TimeoutPlan,
)
    requires
        call_ensures(SmartTimeout::is_exempt, (&timeout, path), exempt),
        call_ensures(SmartTimeout::plan_for_path, (&timeout, path), plan),
        call_ensures(SmartTimeout::plan, (&timeout, &uri), uri_plan),
    ensures
        exempt <==> exists|i: int|
            0 <= i < timeout.exempt_prefixes@.len() && (
            #[trigger] timeout.exempt_prefixes@[i])@.is_prefix_of(path@),
        plan is PassThrough <==> exempt,
        plan is Limit ==> plan == TimeoutPlan::Limit(timeout.duration),
        uri_path(uri) == path@ ==> uri_plan == plan,
{
}

/// A prefix that was added exempts every path that it starts, exempts no other that was limited
/// before, and keeps what was exempt; the duration stays.
pub proof fn law_added_prefix_changes_only_its_paths(
    before: SmartTimeout,
    prefix: String,
    after: SmartTimeout,
    path: &str,
    plan_before: TimeoutPlan,
    plan_after: TimeoutPlan,
)
    requires
        call_ensures(SmartTimeout::with_exempt_prefix, (before, prefix), after),
        call_ensures(SmartTimeout::plan_for_path, (&before, path), plan_before),
        call_ensures(SmartTimeout::plan_for_path, (&after, path), plan_after),
    ensures
        prefix@.is_prefix_of(path@) ==> plan_after is PassThrough,
        !prefix@.is_prefix_of(path@) ==> plan_after == plan_before,
        plan_before is PassThrough ==> plan_after is PassThrough,
        after.duration == before.duration,
{
    law_added_prefix_exempts_its_paths(before, prefix, after, path@);
}

/// A prefix in whatever form is added as its text, behind those added before.
pub proof fn law_prefix_is_added_as_its_text<T: Into<String>>(
    before: SmartTimeout,
    prefix: T,
    after: SmartTimeout,
)
    requires
        call_ensures(SmartTimeout::exempt_prefix, (before, prefix), after),
    ensures
        after.duration == before.duration,
        after.exempt_prefixes@.len() == before.exempt_prefixes@.len() + 1,
        after.exempt_prefixes@.drop_last() == before.exempt_prefixes@,
        call_ensures(Into::<String>::into, (prefix,), after.exempt_prefixes@.last()),
{
}

/// What came in time is the result as it is, a failure too; a timeout comes exactly where the limit
/// passed first.
pub proof fn law_timeout_comes_only_late<R, E>(
    outcome: Option<Result<R, Error<E>>>,
    result: Result<R, Error<E>>,
)
    requires
        call_ensures(limited_result::<R, E>, (outcome,), result),
    ensures
        outcome matches Some(in_time) ==> result == in_time,
        outcome is None ==> (result matches Err(error) && error == Error::<E>::Middleware(
            MiddlewareError::Timeout,
        )),
{
}

} // verus!
