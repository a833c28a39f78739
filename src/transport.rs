use vstd::prelude::*;
use crate::error::TrendsError;

verus! {

/// Status of a successful response.
pub const STATUS_OK: u16 = 200;

/// Status of a rate-limited response.
pub const STATUS_TOO_MANY_REQUESTS: u16 = 429;

/// Length of the guard text before the JSON of an explore response.
pub const EXPLORE_GUARD_LEN: usize = 4;

/// Length of the guard text before the JSON of a widget-data response.
pub const WIDGET_GUARD_LEN: usize = 5;

/// The name=value pair of a `Set-Cookie` header: the text before its first
/// `;`, or all of it where there is none.
pub open spec fn cookie_pair(header: Seq<char>) -> Seq<char>
    decreases header.len(),
{
    if header.len() == 0 {
        header
    } else if header[0] == ';' {
        Seq::empty()
    } else {
        seq![header[0]] + cookie_pair(header.drop_first())
    }
}

proof fn lemma_cookie_pair_prefix(header: Seq<char>, i: int)
    requires
        0 <= i <= header.len(),
        forall|j: int| 0 <= j < i ==> header[j] != ';',
        i == header.len() || header[i] == ';',
    ensures
        cookie_pair(header) == header.subrange(0, i),
    decreases i,
{
    if i == 0 {
        assert(header.subrange(0, 0) =~= Seq::<char>::empty());
        if header.len() != 0 {
            assert(header[0] == ';');
        }
    } else {
        let rest = header.drop_first();
        assert forall|j: int| 0 <= j < i - 1 implies rest[j] != ';' by {
            assert(rest[j] == header[j + 1]);
        }
        if i < header.len() {
            assert(rest[i - 1] == header[i]);
        }
        lemma_cookie_pair_prefix(rest, i - 1);
        assert(header.subrange(0, i) =~= seq![header[0]] + rest.subrange(0, i - 1));
    }
}

/// The cookie to send back for a `Set-Cookie` header: its name=value pair,
/// without attributes such as `Path` or `Expires`.
pub fn cookie_from_header(header: &str) -> (r: &str)
    ensures
        r@ == cookie_pair(header@),
{
    let n = header.unicode_len();
    let mut i: usize = 0;
    while i < n
        invariant
            n == header@.len(),
            i <= n,
            forall|j: int| 0 <= j < i ==> header@[j] != ';',
        ensures
            i <= n,
            i == n || header@[i as int] == ';',
            forall|j: int| 0 <= j < i ==> header@[j] != ';',
        decreases n - i,
    {
        if header.get_char(i) == ';' {
            break;
        }
        i = i + 1;
    }
    proof {
        lemma_cookie_pair_prefix(header@, i as int);
    }
    header.substring_char(0, i)
}

/// Where a request stands in the rate-limit recovery: not yet retried, or
/// already retried once.
#[derive(Debug, Clone, Copy, PartialEq, Eq, Structural)]
pub enum RetryPhase {
    Initial,
    RetriedOnce,
}

/// What to do with a response.
#[derive(Debug)]
pub enum RetryStep {
    /// Hand the response to the caller as it is.
    Deliver,
    /// Send the original request again once, with this `Cookie` header
    /// replacing any it had.
    Retry { cookie: String },
    /// Fail with an unexpected-response error that carries the body text.
    Fail,
}

impl RetryPhase {
    /// Decides what to do with a response of status `status` whose
    /// `Set-Cookie` header, if any, is `set_cookie`. A first response of
    /// status 200 is delivered; a first rate-limited response is retried once
    /// with the cookie it set, where it set one; a retried response is
    /// delivered whatever its status; anything else fails.
    pub fn next_step(&self, status: u16, set_cookie: Option<&str>) -> (r: RetryStep)
        ensures
            *self == RetryPhase::RetriedOnce ==> r is Deliver,
            *self == RetryPhase::Initial && status == STATUS_OK ==> r is Deliver,
            *self == RetryPhase::Initial && status == STATUS_TOO_MANY_REQUESTS
                && set_cookie is Some ==> (r matches RetryStep::Retry { cookie } && cookie@
                == cookie_pair(set_cookie->0@)),
            *self == RetryPhase::Initial && status != STATUS_OK && !(status
                == STATUS_TOO_MANY_REQUESTS && set_cookie is Some) ==> r is Fail,
    {
        match self {
            RetryPhase::RetriedOnce => RetryStep::Deliver,
            RetryPhase::Initial => {
                if status == STATUS_OK {
                    RetryStep::Deliver
                } else if status == STATUS_TOO_MANY_REQUESTS {
                    match set_cookie {
                        Some(header) => RetryStep::Retry {
                            cookie: cookie_from_header(header).to_owned(),
                        },
                        None => RetryStep::Fail,
                    }
                } else {
                    RetryStep::Fail
                }
            },
        }
    }

    /// The phase after this one's step was taken; a retried request stays
    /// retried.
    pub fn advance(&self) -> (r: RetryPhase)
        ensures
            r == RetryPhase::RetriedOnce,
    {
        RetryPhase::RetriedOnce
    }
}

/// The body text after its guard prefix of `guard_len` characters; fails
/// with `TruncatedBody` where the body is shorter than the guard.
pub fn strip_guard(body: &str, guard_len: usize) -> (r: Result<&str, TrendsError>)
    ensures
        r is Ok <==> guard_len <= body@.len(),
        r matches Ok(t) ==> t@ == body@.skip(guard_len as int),
        r matches Err(e) ==> e is TruncatedBody,
{
    let n = body.unicode_len();
    if guard_len <= n {
        let t = body.substring_char(guard_len, n);
        assert(t@ =~= body@.skip(guard_len as int));
        Ok(t)
    } else {
        Err(TrendsError::TruncatedBody)
    }
}

/// The JSON text of an explore response body.
pub fn strip_explore_guard(body: &str) -> (r: Result<&str, TrendsError>)
    ensures
        r is Ok <==> EXPLORE_GUARD_LEN <= body@.len(),
        r matches Ok(t) ==> t@ == body@.skip(EXPLORE_GUARD_LEN as int),
        r matches Err(e) ==> e is TruncatedBody,
{
    strip_guard(body, EXPLORE_GUARD_LEN)
}

/// The JSON text of a widget-data response body.
pub fn strip_widget_guard(body: &str) -> (r: Result<&str, TrendsError>)
    ensures
        r is Ok <==> WIDGET_GUARD_LEN <= body@.len(),
        r matches Ok(t) ==> t@ == body@.skip(WIDGET_GUARD_LEN as int),
        r matches Err(e) ==> e is TruncatedBody,
{
    strip_guard(body, WIDGET_GUARD_LEN)
}

} // verus!
