//! Failures of storage calls: what kind the store's error is, what was being
//! done, and whether the credential was at fault.

use crate::text::chars_of;
use crate::text::found_at;
use crate::text::occurs_at;
use hyper::header::InvalidHeaderValue;
use vstd::prelude::*;

verus! {

/// The kind of a store's error.
#[derive(Clone, Copy, Debug, PartialEq, Eq, Structural)]
pub enum ErrorKind {
    /// No kind of its own.
    Generic,
    /// There is no such object.
    NotFound,
    /// The store named an object by an invalid path.
    InvalidPath,
    /// A spawned task failed.
    JoinError,
    /// The store does not support the operation.
    NotSupported,
    /// The object is there already (status 409).
    AlreadyExists,
    /// The request's precondition did not hold (status 412).
    Precondition,
    /// The object has not been modified.
    NotModified,
    /// The client does not implement the operation.
    NotImplemented,
    /// The credential lacks a permission (status 403).
    PermissionDenied,
    /// The credential is not accepted (status 401).
    Unauthenticated,
    /// A configuration key is unknown.
    UnknownConfigurationKey,
}

/// A store's error, with its kind.
#[derive(Debug)]
pub struct StoreError<E> {
    pub kind: ErrorKind,
    pub error: E,
}

/// An error and what was being done when it came.
#[derive(Debug)]
pub struct Failure<E> {
    pub context: String,
    pub error: E,
}

/// Why a bucket was not opened.
#[derive(Debug)]
pub enum StorageError {
    /// The application's label is no header text.
    UserAgent(Failure<InvalidHeaderValue>),
    /// A client could not be built.
    Client(Failure<object_store::Error>),
}

/// One error in a chain of causes: its kind, where it is a store's error, and
/// its message.
#[derive(Debug)]
pub struct Cause {
    pub kind: Option<ErrorKind>,
    pub text: String,
}

/// What a cause says.
pub struct CauseModel {
    pub kind: Option<ErrorKind>,
    pub text: Seq<char>,
}

impl View for Cause {
    type V = CauseModel;

    open spec fn view(&self) -> CauseModel {
        CauseModel { kind: self.kind, text: self.text@ }
    }
}

/// What the causes of a chain say, outermost first.
pub open spec fn chain_of(causes: Seq<Cause>) -> Seq<CauseModel> {
    causes.map_values(|cause: Cause| cause@)
}

/// The error kinds that reject the credential itself.
pub open spec fn rejects_credential(kind: ErrorKind) -> bool {
    kind is PermissionDenied || kind is Unauthenticated
}

/// Status 401 or 403 is named at a position.
pub open spec fn reports_at(text: Seq<char>, at: int) -> bool {
    occurs_at(text, "status 403"@, at) || occurs_at(text, "status 401"@, at)
}

/// A message that names status 401 or 403.
pub open spec fn reports_unauthorized(text: Seq<char>) -> bool {
    exists|at: int| reports_at(text, at)
}

/// The verbs that the contexts of a bucket's calls start with.
pub open spec fn is_verb(verb: Seq<char>) -> bool {
    ||| verb == "read"@
    ||| verb == "read body"@
    ||| verb == "head"@
    ||| verb == "write"@
    ||| verb == "conditional write"@
    ||| verb == "delete"@
    ||| verb == "list"@
    ||| verb == "validate"@
}

/// ` s3://` stands at a position.
pub open spec fn locates_at(text: Seq<char>, at: int) -> bool {
    occurs_at(text, " s3://"@, at)
}

/// A message that starts as the contexts of a bucket's calls do: with a verb
/// and a location.
pub open spec fn starts_as_context(text: Seq<char>) -> bool {
    exists|n: int| #[trigger] locates_at(text, n) && is_verb(text.take(n))
}

/// A cause that is the context of a bucket's call: it is no store's error, it
/// starts as such a context does, and it stands above another cause. What
/// follows the location in it is a bucket's name and a key.
pub open spec fn is_call_context(chain: Seq<CauseModel>, at: int) -> bool {
    &&& at + 1 < chain.len()
    &&& chain[at].kind is None
    &&& starts_as_context(chain[at].text)
}

/// A cause that shows that the credential was rejected: by its kind or, where
/// it has no kind that says what it is, by its message. Where a listing fails,
/// the status is found in a message alone. The context of a bucket's call shows
/// nothing: a key or a bucket's name can read like a status.
pub open spec fn shows_unauthorized(chain: Seq<CauseModel>, at: int) -> bool {
    let cause = chain[at];
    ||| (cause.kind matches Some(kind) && rejects_credential(kind))
    ||| {
        &&& cause.kind is None || cause.kind == Some(ErrorKind::Generic)
        &&& reports_unauthorized(cause.text)
        &&& !is_call_context(chain, at)
    }
}

/// A chain with a cause that shows that the credential was rejected.
pub open spec fn chain_unauthorized(chain: Seq<CauseModel>) -> bool {
    exists|at: int| 0 <= at < chain.len() && #[trigger] shows_unauthorized(chain, at)
}

/// Whether a message names status 401 or 403.
fn reports(text: &Vec<char>) -> (found: bool)
    ensures
        found == reports_unauthorized(text@),
{
    let forbidden = chars_of("status 403");
    let unauthorized = chars_of("status 401");
    let mut at: usize = 0;
    while at < text.len()
        invariant
            forbidden@ == "status 403"@,
            unauthorized@ == "status 401"@,
            at <= text@.len(),
            forall|k: int| k < at ==> !(#[trigger] reports_at(text@, k)),
        decreases text@.len() - at,
    {
        if found_at(text, &forbidden, at) || found_at(text, &unauthorized, at) {
            assert(reports_at(text@, at as int));
            return true;
        }
        at = at + 1;
    }
    proof {
        reveal_strlit("status 403");
        reveal_strlit("status 401");
    }
    false
}

/// Whether a message starts with `verb` and a location.
fn starts_with(text: &Vec<char>, verb: &str) -> (found: bool)
    ensures
        found == (occurs_at(text@, verb@, 0) && locates_at(text@, verb@.len() as int)),
{
    let verb = chars_of(verb);
    found_at(text, &verb, 0) && found_at(text, &chars_of(" s3://"), verb.len())
}

/// Whether a message starts as the contexts of a bucket's calls do.
fn starts_with_any(text: &Vec<char>) -> (found: bool)
    ensures
        found == starts_as_context(text@),
{
    let found = starts_with(text, "read") || starts_with(text, "read body") || starts_with(
        text,
        "head",
    ) || starts_with(text, "write") || starts_with(text, "conditional write") || starts_with(
        text,
        "delete",
    ) || starts_with(text, "list") || starts_with(text, "validate");
    proof {
        assert forall|verb: Seq<char>|
            is_verb(verb) && #[trigger] occurs_at(text@, verb, 0) && locates_at(
                text@,
                verb.len() as int,
            ) implies starts_as_context(text@) by {
            assert(text@.take(verb.len() as int) =~= verb);
        }
        if starts_as_context(text@) {
            let n = choose|n: int| #[trigger] locates_at(text@, n) && is_verb(text@.take(n));
            assert(text@.subrange(0, n) =~= text@.take(n));
            assert(occurs_at(text@, text@.take(n), 0));
        }
    }
    found
}

/// Was this a 401 or a 403, the credential itself rejected? Tells a revoked
/// credential from a flaky bucket. `causes` is the chain of an error, outermost
/// first. A key or a bucket's name that reads like a status, in the context of
/// a call, is no such report.
pub fn is_unauthorized(causes: &Vec<Cause>) -> (unauthorized: bool)
    ensures
        unauthorized == chain_unauthorized(chain_of(causes@)),
{
    let ghost chain = chain_of(causes@);
    let mut i: usize = 0;
    while i < causes.len()
        invariant
            i <= causes@.len(),
            chain == chain_of(causes@),
            forall|k: int| 0 <= k < i ==> !(#[trigger] shows_unauthorized(chain, k)),
        decreases causes@.len() - i,
    {
        let cause = &causes[i];
        assert(chain[i as int] == cause@);
        let text = chars_of(cause.text.as_str());
        let shows = match cause.kind {
            Some(ErrorKind::PermissionDenied) | Some(ErrorKind::Unauthenticated) => true,
            Some(ErrorKind::Generic) => reports(&text),
            None => reports(&text) && !(i < causes.len() - 1 && starts_with_any(&text)),
            _ => false,
        };
        assert(shows == shows_unauthorized(chain, i as int));
        if shows {
            return true;
        }
        i = i + 1;
    }
    false
}

/// The chain of a failure: its context, then the chain of its error.
pub open spec fn failure_chain(context: Seq<char>, error: Seq<CauseModel>) -> Seq<CauseModel> {
    seq![CauseModel { kind: None, text: context }] + error
}

/// A context that names no status, or that is the context of a bucket's call,
/// changes nothing of whether the credential was rejected: the verdict on the
/// failure is that on its error.
pub proof fn law_context_keeps_verdict(context: Seq<char>, error: Seq<CauseModel>)
    requires
        !reports_unauthorized(context) || (starts_as_context(context) && error.len() > 0),
    ensures
        chain_unauthorized(failure_chain(context, error)) <==> chain_unauthorized(error),
{
    let chain = failure_chain(context, error);
    assert(chain[0] == (CauseModel { kind: None, text: context }));
    assert(!shows_unauthorized(chain, 0));
    assert forall|at: int| 0 <= at < error.len() implies shows_unauthorized(chain, at + 1)
        == #[trigger] shows_unauthorized(error, at) by {
        assert(chain[at + 1] == error[at]);
    }
    if chain_unauthorized(error) {
        let at = choose|at: int| 0 <= at < error.len() && #[trigger] shows_unauthorized(error, at);
        assert(shows_unauthorized(chain, at + 1));
    }
    if chain_unauthorized(chain) {
        let at = choose|at: int| 0 <= at < chain.len() && #[trigger] shows_unauthorized(chain, at);
        assert(shows_unauthorized(error, at - 1));
    }
}

/// A status that the root cause names is found, whatever else its message
/// holds, unless the root is a store's error of a kind that says otherwise.
pub proof fn law_root_status_is_found(chain: Seq<CauseModel>)
    requires
        chain.len() > 0,
        chain.last().kind is None || chain.last().kind == Some(ErrorKind::Generic),
        reports_unauthorized(chain.last().text),
    ensures
        chain_unauthorized(chain),
{
    assert(shows_unauthorized(chain, chain.len() - 1));
}

/// A status that a message names is found wherever in the chain the message
/// stands, unless it starts as the contexts of a bucket's calls do or is that of
/// a store's error of a kind that says otherwise.
pub proof fn law_status_is_found(chain: Seq<CauseModel>, at: int)
    requires
        0 <= at < chain.len(),
        chain[at].kind is None || chain[at].kind == Some(ErrorKind::Generic),
        reports_unauthorized(chain[at].text),
        !starts_as_context(chain[at].text),
    ensures
        chain_unauthorized(chain),
{
    assert(shows_unauthorized(chain, at));
}

/// An error of kind permission-denied or unauthenticated is found wherever in
/// the chain it stands, whatever its message.
pub proof fn law_rejection_is_found(chain: Seq<CauseModel>, at: int)
    requires
        0 <= at < chain.len(),
        chain[at].kind matches Some(kind) && rejects_credential(kind),
    ensures
        chain_unauthorized(chain),
{
    assert(shows_unauthorized(chain, at));
}

/// An error of kind permission-denied or unauthenticated rejects the credential,
/// wherever in the chain it stands and whatever the messages read like.
pub proof fn law_denial_is_found(causes: Seq<Cause>, at: int)
    requires
        0 <= at < causes.len(),
        causes[at].kind == Some(ErrorKind::PermissionDenied) || causes[at].kind == Some(
            ErrorKind::Unauthenticated,
        ),
    ensures
        chain_unauthorized(chain_of(causes)),
{
    assert(chain_of(causes)[at] == causes[at]@);
    assert(shows_unauthorized(chain_of(causes), at));
}

/// A message that names status 401 or 403 anywhere rejects the credential. The
/// exceptions are the message of a store's error whose kind says what it is, and
/// one above another cause that starts with a verb of a bucket's calls and
/// ` s3://`.
pub proof fn law_named_status_is_found(causes: Seq<Cause>, at: int, from: int)
    requires
        0 <= at < causes.len(),
        causes[at].kind is None || causes[at].kind == Some(ErrorKind::Generic),
        0 <= from <= causes[at].text@.len() - 10,
        causes[at].text@.subrange(from, from + 10) == "status 401"@
            || causes[at].text@.subrange(from, from + 10) == "status 403"@,
        at + 1 == causes.len() || causes[at].kind is Some || forall|n: int|
            0 <= n <= causes[at].text@.len() - 6 && #[trigger] causes[at].text@.subrange(n, n + 6)
                == " s3://"@ ==> {
                let verb = causes[at].text@.take(n);
                &&& verb != "read"@
                &&& verb != "read body"@
                &&& verb != "head"@
                &&& verb != "write"@
                &&& verb != "conditional write"@
                &&& verb != "delete"@
                &&& verb != "list"@
                &&& verb != "validate"@
            },
    ensures
        chain_unauthorized(chain_of(causes)),
{
    let chain = chain_of(causes);
    let text = causes[at].text@;
    reveal_strlit("status 401");
    reveal_strlit("status 403");
    reveal_strlit(" s3://");
    assert(chain[at] == causes[at]@);
    assert(reports_at(text, from));
    if is_call_context(chain, at) {
        let n = choose|n: int| #[trigger] locates_at(text, n) && is_verb(text.take(n));
        assert(text.subrange(n, n + 6) == " s3://"@);
    }
    assert(shows_unauthorized(chain, at));
}

/// Nothing but a kind or a named status rejects the credential: where no cause
/// is of kind permission-denied or unauthenticated, and no message holds
/// `status 401` or `status 403` at any position, the credential stands.
pub proof fn law_no_denial_and_no_status_reject_nothing(causes: Seq<Cause>)
    requires
        forall|i: int|
            0 <= i < causes.len() ==> (#[trigger] causes[i]).kind != Some(
                ErrorKind::PermissionDenied,
            ) && causes[i].kind != Some(ErrorKind::Unauthenticated),
        forall|i: int, from: int|
            0 <= i < causes.len() && 0 <= from <= causes[i].text@.len() - 10 ==> (
            #[trigger] causes[i].text@.subrange(from, from + 10)) != "status 401"@
                && causes[i].text@.subrange(from, from + 10) != "status 403"@,
    ensures
        !chain_unauthorized(chain_of(causes)),
{
    let chain = chain_of(causes);
    reveal_strlit("status 401");
    reveal_strlit("status 403");
    assert forall|at: int| 0 <= at < chain.len() implies !(#[trigger] shows_unauthorized(
        chain,
        at,
    )) by {
        assert(chain[at] == causes[at]@);
        let text = causes[at].text@;
        if reports_unauthorized(text) {
            let from = choose|from: int| reports_at(text, from);
            assert(causes[at].text@.subrange(from, from + 10) == "status 401"@
                || causes[at].text@.subrange(from, from + 10) == "status 403"@);
        }
    }
}

/// A key, a bucket's name or a path that reads like a status rejects nothing:
/// where each cause is a store's error whose kind says that it is another
/// failure, or stands above another cause and starts with a verb of a bucket's
/// calls and ` s3://`, or names no status, the credential stands.
pub proof fn law_names_that_read_like_a_status_reject_nothing(causes: Seq<Cause>)
    requires
        forall|i: int|
            0 <= i < causes.len() ==> {
                let cause = #[trigger] causes[i];
                ||| (cause.kind matches Some(kind) && !(kind is Generic || kind is PermissionDenied
                    || kind is Unauthenticated))
                ||| {
                    &&& i + 1 < causes.len()
                    &&& cause.kind is None
                    &&& exists|n: int|
                        {
                            &&& 0 <= n <= cause.text@.len() - 6
                            &&& #[trigger] cause.text@.subrange(n, n + 6) == " s3://"@
                            &&& {
                                let verb = cause.text@.take(n);
                                ||| verb == "read"@
                                ||| verb == "read body"@
                                ||| verb == "head"@
                                ||| verb == "write"@
                                ||| verb == "conditional write"@
                                ||| verb == "delete"@
                                ||| verb == "list"@
                                ||| verb == "validate"@
                            }
                        }
                }
                ||| {
                    &&& cause.kind is None || cause.kind == Some(ErrorKind::Generic)
                    &&& forall|from: int|
                        0 <= from <= cause.text@.len() - 10 ==> (#[trigger] cause.text@.subrange(
                            from,
                            from + 10,
                        )) != "status 401"@ && cause.text@.subrange(from, from + 10)
                            != "status 403"@
                }
            },
    ensures
        !chain_unauthorized(chain_of(causes)),
{
    let chain = chain_of(causes);
    reveal_strlit("status 401");
    reveal_strlit("status 403");
    reveal_strlit(" s3://");
    assert forall|at: int| 0 <= at < chain.len() implies !(#[trigger] shows_unauthorized(
        chain,
        at,
    )) by {
        let cause = causes[at];
        assert(chain[at] == cause@);
        let text = cause.text@;
        if shows_unauthorized(chain, at) {
            let from = choose|from: int| reports_at(text, from);
            assert(text.subrange(from, from + 10) == "status 401"@ || text.subrange(from, from + 10)
                == "status 403"@);
            let n = choose|n: int|
                {
                    &&& 0 <= n <= text.len() - 6
                    &&& #[trigger] text.subrange(n, n + 6) == " s3://"@
                    &&& is_verb(text.take(n))
                };
            assert(locates_at(text, n));
        }
    }
}

} // verus!
