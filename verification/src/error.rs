//! The error handle, its payloads, and the context-attachment protocol.
//!
//! An [`Error`] is a one-word handle: one reference-counted allocation
//! holding a payload and an optional causal predecessor.  Leaf constructors
//! build an error with no cause; [`ErrorContext::context`] links a fresh
//! consequent error to an existing cause.  The chain is a simple list, never
//! a tree: a consequent that already carries a cause is a programming-contract
//! violation, since its cause would otherwise be silently discarded.
//!
//! The specification model of an error is the sequence of its segment texts,
//! outermost consequence first; rendering joins them with `": "`.

use std::sync::Arc;
use vstd::prelude::*;
use vstd::string::StringExecFns;
use crate::render::int_text;
use crate::render::nat_text;
use crate::render::i128_text;
use crate::render::u128_text;

verus! {

/// The chain of a leaf error holding the single segment `message`.
pub open spec fn adhoc_chain(message: Seq<char>) -> Seq<Seq<char>> {
    seq![message]
}

/// Exact report text for an unsigned value outside a signed interval.
pub open spec fn unsigned_range_text(what: Seq<char>, given: nat, min: int, max: int) -> Seq<
    char,
> {
    "parameter '"@ + what + "' with value "@ + nat_text(given)
        + " is not in the required range of "@ + int_text(min) + "..="@ + int_text(max)
}

/// Exact report text for a signed value outside a signed interval.
pub open spec fn signed_range_text(what: Seq<char>, given: int, min: int, max: int) -> Seq<
    char,
> {
    "parameter '"@ + what + "' with value "@ + int_text(given)
        + " is not in the required range of "@ + int_text(min) + "..="@ + int_text(max)
}

/// Exact report text for a categorically illegal value.
pub open spec fn specific_text(what: Seq<char>, given: int) -> Seq<char> {
    "parameter '"@ + what + "' with value "@ + int_text(given) + " is illegal"@
}

/// Exact report text for a failed time zone lookup.
pub open spec fn time_zone_lookup_text(name: Seq<char>) -> Seq<char> {
    "failed to find timezone '"@ + name + "' in time zone database"@
}

/// Rendering of a whole chain: the segments joined by `": "`, the outermost
/// consequence first and the original cause last.
pub open spec fn chain_text(chain: Seq<Seq<char>>) -> Seq<char>
    decreases chain.len(),
{
    if chain.len() == 0 {
        Seq::empty()
    } else if chain.len() == 1 {
        chain[0]
    } else {
        chain[0] + ": "@ + chain_text(chain.drop_first())
    }
}

/// A numeric-bound violation: the parameter at fault, the value given and,
/// for the two interval shapes, the allowed bounds.  Values are widened to
/// 128 bits so one shape serves every numeric field in the library.
#[derive(Debug)]
pub struct RangeError {
    kind: Box<RangeErrorKind>,
}

#[derive(Debug)]
enum RangeErrorKind {
    Positive { what: &'static str, given: u128, min: i128, max: i128 },
    Negative { what: &'static str, given: i128, min: i128, max: i128 },
    Specific { what: &'static str, given: i128 },
}

impl RangeError {
    /// The exact report text of this violation.
    pub closed spec fn text(&self) -> Seq<char> {
        match *self.kind {
            RangeErrorKind::Positive { what, given, min, max } => unsigned_range_text(
                what@,
                given as nat,
                min as int,
                max as int,
            ),
            RangeErrorKind::Negative { what, given, min, max } => signed_range_text(
                what@,
                given as int,
                min as int,
                max as int,
            ),
            RangeErrorKind::Specific { what, given } => specific_text(what@, given as int),
        }
    }

    /// Reports the unsigned value `given` of parameter `what` as outside
    /// `min..=max`.  Detecting the violation is the caller's business; this
    /// only records it.
    pub fn unsigned(what: &'static str, given: u128, min: i128, max: i128) -> (r: RangeError)
        ensures
            r.text() == unsigned_range_text(what@, given as nat, min as int, max as int),
    {
        RangeError { kind: Box::new(RangeErrorKind::Positive { what, given, min, max }) }
    }

    /// Reports the signed value `given` of parameter `what` as outside
    /// `min..=max`.
    pub fn signed(what: &'static str, given: i128, min: i128, max: i128) -> (r: RangeError)
        ensures
            r.text() == signed_range_text(what@, given as int, min as int, max as int),
    {
        RangeError { kind: Box::new(RangeErrorKind::Negative { what, given, min, max }) }
    }

    /// Reports the value `given` of parameter `what` as categorically
    /// illegal, rather than merely outside an interval.
    pub fn specific(what: &'static str, given: i128) -> (r: RangeError)
        ensures
            r.text() == specific_text(what@, given as int),
    {
        RangeError { kind: Box::new(RangeErrorKind::Specific { what, given }) }
    }

    /// The report text, as a string.
    pub fn display_string(&self) -> (s: String)
        ensures
            s@ == self.text(),
    {
        match &*self.kind {
            RangeErrorKind::Positive { what, given, min, max } => {
                let mut s = "parameter '".to_owned();
                s.append(what);
                s.append("' with value ");
                let given_text = u128_text(*given);
                s.append(given_text.as_str());
                s.append(" is not in the required range of ");
                let min_text = i128_text(*min);
                s.append(min_text.as_str());
                s.append("..=");
                let max_text = i128_text(*max);
                s.append(max_text.as_str());
                s
            },
            RangeErrorKind::Negative { what, given, min, max } => {
                let mut s = "parameter '".to_owned();
                s.append(what);
                s.append("' with value ");
                let given_text = i128_text(*given);
                s.append(given_text.as_str());
                s.append(" is not in the required range of ");
                let min_text = i128_text(*min);
                s.append(min_text.as_str());
                s.append("..=");
                let max_text = i128_text(*max);
                s.append(max_text.as_str());
                s
            },
            RangeErrorKind::Specific { what, given } => {
                let mut s = "parameter '".to_owned();
                s.append(what);
                s.append("' with value ");
                let given_text = i128_text(*given);
                s.append(given_text.as_str());
                s.append(" is illegal");
                s
            },
        }
    }
}

/// An opaque, preformatted message.
#[derive(Debug)]
struct AdhocError {
    message: String,
}

/// A time zone name that was not found in the time zone database.
#[derive(Debug)]
struct TimeZoneLookupError {
    name: String,
}

/// The path a failing file operation was about.  The variant itself carries
/// no explanation: the cause attached to it says why the operation failed.
#[derive(Debug)]
struct FilePathError {
    path: String,
}

/// The rendered text of an operating-system error.  The handle stores the
/// text rather than the live error value, so the payload stays plain data;
/// the layer that actually talks to the operating system converts.
#[derive(Debug)]
struct IOError {
    message: String,
}

/// The payload of one error: a closed union, so rendering can match
/// exhaustively.
#[derive(Debug)]
enum ErrorKind {
    Adhoc(AdhocError),
    Range(RangeError),
    TimeZoneLookup(TimeZoneLookupError),
    FilePath(FilePathError),
    IO(IOError),
}

impl ErrorKind {
    /// The segment text this payload renders as.
    spec fn text(&self) -> Seq<char> {
        match *self {
            ErrorKind::Adhoc(AdhocError { message }) => message@,
            ErrorKind::Range(range) => range.text(),
            ErrorKind::TimeZoneLookup(TimeZoneLookupError { name }) => time_zone_lookup_text(
                name@,
            ),
            ErrorKind::FilePath(FilePathError { path }) => path@,
            ErrorKind::IO(IOError { message }) => message@,
        }
    }
}

/// An equal payload.  All payloads are plain data, so the copy carries the
/// very same field values.
fn clone_kind(kind: &ErrorKind) -> (r: ErrorKind)
    ensures
        r == *kind,
{
    match kind {
        ErrorKind::Adhoc(a) => ErrorKind::Adhoc(AdhocError { message: a.message.clone() }),
        ErrorKind::Range(range) => {
            let copy = match &*range.kind {
                RangeErrorKind::Positive { what, given, min, max } => RangeErrorKind::Positive {
                    what: *what,
                    given: *given,
                    min: *min,
                    max: *max,
                },
                RangeErrorKind::Negative { what, given, min, max } => RangeErrorKind::Negative {
                    what: *what,
                    given: *given,
                    min: *min,
                    max: *max,
                },
                RangeErrorKind::Specific { what, given } => RangeErrorKind::Specific {
                    what: *what,
                    given: *given,
                },
            };
            ErrorKind::Range(RangeError { kind: Box::new(copy) })
        },
        ErrorKind::TimeZoneLookup(t) => ErrorKind::TimeZoneLookup(
            TimeZoneLookupError { name: t.name.clone() },
        ),
        ErrorKind::FilePath(p) => ErrorKind::FilePath(FilePathError { path: p.path.clone() }),
        ErrorKind::IO(e) => ErrorKind::IO(IOError { message: e.message.clone() }),
    }
}

/// The segment text of one payload, as a string.
fn kind_text_string(kind: &ErrorKind) -> (s: String)
    ensures
        s@ == kind.text(),
{
    match kind {
        ErrorKind::Adhoc(a) => a.message.clone(),
        ErrorKind::Range(range) => range.display_string(),
        ErrorKind::TimeZoneLookup(t) => {
            let mut s = "failed to find timezone '".to_owned();
            s.append(t.name.as_str());
            s.append("' in time zone database");
            s
        },
        ErrorKind::FilePath(p) => p.path.clone(),
        ErrorKind::IO(e) => e.message.clone(),
    }
}

/// A cheaply cloneable error handle: one word in memory, shared ownership of
/// an immutable record holding a payload and an optional cause.
#[derive(Debug)]
pub struct Error {
    inner: Arc<ErrorInner>,
}

#[derive(Debug)]
struct ErrorInner {
    kind: ErrorKind,
    cause: Option<Error>,
}

/// Relies on std's `Arc::clone`: the returned handle points to the same
/// allocation, hence to the very same record.
#[verifier::external_body]
fn arc_clone<T>(arc: &Arc<T>) -> (r: Arc<T>)
    ensures
        r == *arc,
{
    Arc::clone(arc)
}

impl Clone for Error {
    /// Another handle to the same record: the clone's chain is this chain.
    /// The record is shared, not copied, so cloning is cheap whatever the
    /// payload.
    fn clone(&self) -> (r: Error)
        ensures
            r == *self,
    {
        Error { inner: arc_clone(&self.inner) }
    }
}

impl Error {
    /// The texts of the chain's segments, this error's own segment first,
    /// the original cause's last.
    pub closed spec fn chain(self) -> Seq<Seq<char>>
        decreases self,
    {
        match (*self.inner).cause {
            Option::None => seq![(*self.inner).kind.text()],
            Option::Some(cause) => seq![(*self.inner).kind.text()] + cause.chain(),
        }
    }
}

impl View for Error {
    type V = Seq<Seq<char>>;

    closed spec fn view(&self) -> Seq<Seq<char>> {
        (*self).chain()
    }
}

/// Every error chain has at least its own segment.
pub proof fn lemma_chain_nonempty(e: Error)
    ensures
        e@.len() >= 1,
{
}

/// A leaf error holding `kind`.
fn from_kind(kind: ErrorKind) -> (e: Error)
    ensures
        e@ == seq![kind.text()],
{
    Error { inner: Arc::new(ErrorInner { kind, cause: Option::None }) }
}

impl Error {
    /// A leaf error that wraps an already rendered message.  Never fails and
    /// never carries a cause.
    pub fn adhoc(message: String) -> (e: Error)
        ensures
            e@ == adhoc_chain(message@),
    {
        from_kind(ErrorKind::Adhoc(AdhocError { message }))
    }

    /// A leaf error reporting the unsigned value `given` of parameter `what`
    /// as outside `min..=max`.
    pub fn unsigned(what: &'static str, given: u128, min: i128, max: i128) -> (e: Error)
        ensures
            e@ == seq![unsigned_range_text(what@, given as nat, min as int, max as int)],
    {
        from_kind(ErrorKind::Range(RangeError::unsigned(what, given, min, max)))
    }

    /// A leaf error reporting the signed value `given` of parameter `what`
    /// as outside `min..=max`.
    pub fn signed(what: &'static str, given: i128, min: i128, max: i128) -> (e: Error)
        ensures
            e@ == seq![signed_range_text(what@, given as int, min as int, max as int)],
    {
        from_kind(ErrorKind::Range(RangeError::signed(what, given, min, max)))
    }

    /// A leaf error reporting the value `given` of parameter `what` as
    /// categorically illegal.
    pub fn specific(what: &'static str, given: i128) -> (e: Error)
        ensures
            e@ == seq![specific_text(what@, given as int)],
    {
        from_kind(ErrorKind::Range(RangeError::specific(what, given)))
    }

    /// A leaf error reporting that `name` was not found in the time zone
    /// database.
    pub fn time_zone_lookup(name: String) -> (e: Error)
        ensures
            e@ == seq![time_zone_lookup_text(name@)],
    {
        from_kind(ErrorKind::TimeZoneLookup(TimeZoneLookupError { name }))
    }

    /// A leaf error wrapping the rendered text of an operating-system error.
    /// Callers are expected to attach context, such as a file path.
    pub fn io(message: String) -> (e: Error)
        ensures
            e@ == adhoc_chain(message@),
    {
        from_kind(ErrorKind::IO(IOError { message }))
    }

    /// Contextualizes this error with the file path it was about: the path
    /// becomes the outermost segment, this error the cause.
    pub fn path(self, path: String) -> (e: Error)
        ensures
            e@ == seq![path@] + self@,
    {
        let consequent = from_kind(ErrorKind::FilePath(FilePathError { path }));
        self.context(consequent)
    }

    /// An operating-system error associated with the file path it arose on:
    /// the path is the outermost segment, the error text the cause.
    pub fn fs(path: String, message: String) -> (e: Error)
        ensures
            e@ == seq![path@, message@],
    {
        let e = Error::io(message).path(path);
        proof {
            assert(e@ =~= seq![path@, message@]);
        }
        e
    }

    /// Renders the full causal chain, walking it iteratively front to back:
    /// the outermost consequence first, `": "` before each cause.
    pub fn display_string(&self) -> (r: String)
        ensures
            r@ == chain_text(self@),
    {
        let mut out = String::new();
        let mut cur: &Error = self;
        proof {
            assert(out@ + chain_text(cur@) =~= chain_text(self@));
        }
        loop
            invariant_except_break
                chain_text(self@) == out@ + chain_text(cur@),
            ensures
                out@ == chain_text(self@),
            decreases cur@.len(),
        {
            let segment = kind_text_string(&cur.inner.kind);
            out.append(segment.as_str());
            match &cur.inner.cause {
                Option::None => {
                    proof {
                        assert(cur@ =~= seq![(*cur.inner).kind.text()]);
                        assert(chain_text(cur@) == cur@[0]);
                    }
                    break ;
                },
                Option::Some(cause) => {
                    out.append(": ");
                    proof {
                        lemma_chain_nonempty(*cause);
                        assert(cur@.drop_first() =~= cause@);
                        assert(chain_text(cur@) == cur@[0] + ": "@ + chain_text(cause@));
                        assert(chain_text(self@) == out@ + chain_text(cause@));
                    }
                    cur = cause;
                },
            }
        }
        out
    }
}

/// Conversion into [`Error`]: an existing error converts to itself; text
/// converts to a leaf ad hoc error holding that text.
pub trait IntoError: Sized {
    /// The chain of the error this value converts into.
    spec fn error_chain(&self) -> Seq<Seq<char>>;

    /// Converts this value into an [`Error`].
    fn into_error(self) -> (e: Error)
        ensures
            e@ == self.error_chain(),
    ;
}

impl IntoError for Error {
    open spec fn error_chain(&self) -> Seq<Seq<char>> {
        (*self)@
    }

    fn into_error(self) -> (e: Error) {
        self
    }
}

impl IntoError for &'static str {
    open spec fn error_chain(&self) -> Seq<Seq<char>> {
        adhoc_chain((*self)@)
    }

    fn into_error(self) -> (e: Error) {
        Error::adhoc(self.to_owned())
    }
}

impl IntoError for String {
    open spec fn error_chain(&self) -> Seq<Seq<char>> {
        adhoc_chain((*self)@)
    }

    fn into_error(self) -> (e: Error) {
        Error::adhoc(self)
    }
}

/// Context attachment, over an [`Error`] itself and over `Result<_, Error>`:
/// on a result it touches only the failure case and passes success through
/// unchanged.
pub trait ErrorContext: Sized {
    /// Whether this value carries an error.
    spec fn failed(&self) -> bool;

    /// The chain of the carried error (meaningful only when `failed()`).
    spec fn failure_chain(&self) -> Seq<Seq<char>>;

    /// Makes `consequent` the outermost error, caused by the error carried
    /// here.  The consequent must be a leaf: attaching a cause to an error
    /// that already has one would silently discard the earlier cause, so it
    /// is a programming-contract violation, not a recoverable condition.
    fn context<C: IntoError>(self, consequent: C) -> (r: Self)
        requires
            self.failed() ==> consequent.error_chain().len() == 1,
        ensures
            self.failed() ==> r.failed() && r.failure_chain() == consequent.error_chain()
                + self.failure_chain(),
            !self.failed() ==> r == self,
    ;

    /// Like `context`, but builds the consequent lazily: on a value that
    /// carries no error the producer is never run, so the cost of building
    /// the wrapping error is skipped on the success path.
    fn with_context<E: IntoError, F: FnOnce() -> E>(self, consequent: F) -> (r: Self)
        requires
            self.failed() ==> call_requires(consequent, ()),
            self.failed() ==> forall|c: E|
                #[trigger] call_ensures(consequent, (), c) ==> c.error_chain().len() == 1,
        ensures
            self.failed() ==> r.failed() && exists|c: E|
                #[trigger] call_ensures(consequent, (), c) && r.failure_chain()
                    == c.error_chain() + self.failure_chain(),
            !self.failed() ==> r == self,
    ;
}

impl ErrorContext for Error {
    open spec fn failed(&self) -> bool {
        true
    }

    open spec fn failure_chain(&self) -> Seq<Seq<char>> {
        (*self)@
    }

    fn context<C: IntoError>(self, consequent: C) -> (r: Error) {
        let consequent_error = consequent.into_error();
        let kind = clone_kind(&consequent_error.inner.kind);
        if consequent_error.inner.cause.is_some() {
            proof {
                let cause = (*consequent_error.inner).cause->Some_0;
                lemma_chain_nonempty(cause);
                assert(consequent_error@.len() >= 2);
            }
            vstd::pervasive::unreached()
        } else {
            let e = Error { inner: Arc::new(ErrorInner { kind, cause: Option::Some(self) }) };
            proof {
                assert(consequent_error@ =~= seq![kind.text()]);
                assert(e@ =~= consequent_error@ + self@);
            }
            e
        }
    }

    fn with_context<E: IntoError, F: FnOnce() -> E>(self, consequent: F) -> (r: Error) {
        let c = consequent();
        self.context(c)
    }
}

impl<T> ErrorContext for Result<T, Error> {
    open spec fn failed(&self) -> bool {
        (*self) is Err
    }

    open spec fn failure_chain(&self) -> Seq<Seq<char>> {
        (*self)->Err_0@
    }

    fn context<C: IntoError>(self, consequent: C) -> (r: Result<T, Error>) {
        match self {
            Result::Ok(value) => Result::Ok(value),
            Result::Err(e) => Result::Err(e.context(consequent)),
        }
    }

    fn with_context<E: IntoError, F: FnOnce() -> E>(self, consequent: F) -> (r: Result<T, Error>) {
        match self {
            Result::Ok(value) => Result::Ok(value),
            Result::Err(e) => Result::Err(e.with_context(consequent)),
        }
    }
}

/// Law: an error whose chain is a single segment — as every leaf
/// constructor's is — renders as exactly that segment; no `": "` separator
/// is added.
pub proof fn lemma_leaf_renders_single(e: Error)
    requires
        e@.len() == 1,
    ensures
        chain_text(e@) == e@[0],
{
}

/// Law: rendering keeps the chain's order.  The part in front — the
/// consequents attached later — renders first, then `": "`, then the causes.
/// So `a.context(b)` renders as `b-text: a-text`, and a second attachment
/// renders before both.
pub proof fn lemma_chain_text_order(front: Seq<Seq<char>>, back: Seq<Seq<char>>)
    requires
        front.len() >= 1,
        back.len() >= 1,
    ensures
        chain_text(front + back) == chain_text(front) + ": "@ + chain_text(back),
    decreases front.len(),
{
    if front.len() == 1 {
        assert((front + back)[0] == front[0]);
        assert((front + back).drop_first() =~= back);
        if back.len() == 1 {
            assert(chain_text(front + back) == front[0] + ": "@ + back[0]);
        }
    } else {
        lemma_chain_text_order(front.drop_first(), back);
        assert((front + back)[0] == front[0]);
        assert((front + back).drop_first() =~= front.drop_first() + back);
        assert(front[0] + ": "@ + (chain_text(front.drop_first()) + ": "@ + chain_text(back))
            =~= (front[0] + ": "@ + chain_text(front.drop_first())) + ": "@ + chain_text(back));
    }
}

/// Law: attaching context keeps the causal order in the rendering.  When
/// `context` wraps `cause` with a one-segment consequent — its result's chain
/// is the consequent's segment followed by the cause's chain — the result
/// renders as the consequent's text, `": "`, then the cause's rendering.
pub proof fn lemma_context_renders_in_order(cause: Error, consequent_segment: Seq<char>, result: Error)
    requires
        result@ == seq![consequent_segment] + cause@,
    ensures
        chain_text(result@) == consequent_segment + ": "@ + chain_text(cause@),
{
    lemma_chain_nonempty(cause);
    lemma_chain_text_order(seq![consequent_segment], cause@);
}

/// Law: a static text used as a `context` argument converts into exactly the
/// chain of [`Error::adhoc`] on the same text — a single segment holding it —
/// so both render identically.
pub proof fn lemma_into_error_round_trip(text: &'static str)
    ensures
        text.error_chain() == adhoc_chain(text@),
{
}

/// Law: an owned text converts the same way.
pub proof fn lemma_owned_into_error_round_trip(text: String)
    ensures
        text.error_chain() == adhoc_chain(text@),
{
}

} // verus!
