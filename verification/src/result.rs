use vstd::prelude::*;
use vstd::arithmetic::div_mod::{lemma_add_mod_noop, lemma_mod_equivalence, lemma_small_mod};
use vstd::string::StringExecFns;

verus! {

/// What a `DbResult` says about the call that produced it.
#[derive(Debug, Clone, Copy, PartialEq, Eq, Structural)]
pub enum Kind {
    Success,
    Done,
    BufferTooSmall,
    ArgumentNull,
    InternalError,
}

/// The result of making a call across an FFI boundary.
///
/// The result may indicate success or an error. If an error is returned,
/// the last result recorded in the `ResultContext` can be inspected for
/// more details. A success or a done result always carries identifier 0.
#[derive(Debug, Clone, Copy, PartialEq, Eq, Structural)]
pub struct DbResult {
    kind: Kind,
    id: u32,
}

/// The identifier that follows `id`; identifiers wrap around after `u32::MAX`.
pub open spec fn succ_id(id: u32) -> u32 {
    if id == u32::MAX {
        0
    } else {
        (id + 1) as u32
    }
}

/// Whether a result of this kind is an error.
pub open spec fn is_error_kind(kind: Kind) -> bool {
    !(kind == Kind::Success || kind == Kind::Done)
}

/// The message that describes a result of this kind, if it is an error.
pub open spec fn err_message(kind: Kind) -> Option<Seq<char>> {
    match kind {
        Kind::Success => None,
        Kind::Done => None,
        Kind::ArgumentNull => Some("a required argument was null"@),
        Kind::BufferTooSmall => Some("a supplied buffer was too small"@),
        Kind::InternalError => Some("an internal error occurred"@),
    }
}

pub open spec fn opt_str_view(o: Option<&str>) -> Option<Seq<char>> {
    match o {
        Some(s) => Some(s@),
        None => None,
    }
}

pub open spec fn opt_string_view(o: Option<String>) -> Option<Seq<char>> {
    match o {
        Some(s) => Some(s@),
        None => None,
    }
}

/// `a` if it holds a value, else `b`.
pub open spec fn or_else(a: Option<Seq<char>>, b: Option<Seq<char>>) -> Option<Seq<char>> {
    if a is Some {
        a
    } else {
        b
    }
}

/// The source of error identifiers, shared by every call that makes an
/// error result.
pub struct ErrorIds {
    next_id: u32,
}

impl View for ErrorIds {
    type V = u32;

    /// The identifier that the next error takes.
    closed spec fn view(&self) -> u32 {
        self.next_id
    }
}

impl ErrorIds {
    /// A fresh source: the first error takes identifier 0.
    pub fn new() -> (ids: Self)
        ensures
            ids@ == 0,
    {
        ErrorIds { next_id: 0 }
    }
}

/// Hands out the next error identifier and advances the counter, wrapping
/// around after `u32::MAX`.
pub fn next_err_id(ids: &mut ErrorIds) -> (id: u32)
    ensures
        id == old(ids)@,
        final(ids)@ == succ_id(id),
{
    let id = ids.next_id;
    ids.next_id = ids.next_id.wrapping_add(1);
    id
}

impl DbResult {
    /// Success and done results carry identifier 0.
    #[verifier::type_invariant]
    spec fn well_formed(self) -> bool {
        !is_error_kind(self.kind) ==> self.id == 0
    }

    pub closed spec fn kind(&self) -> Kind {
        self.kind
    }

    pub closed spec fn id(&self) -> u32 {
        self.id
    }

    /// Two results are equal exactly when their kinds and identifiers are.
    pub proof fn lemma_eq(a: DbResult, b: DbResult)
        ensures
            (a == b) <==> (a.kind() == b.kind() && a.id() == b.id()),
    {
    }

    pub fn ok() -> (r: Self)
        ensures
            r.kind() == Kind::Success,
            r.id() == 0,
    {
        DbResult { kind: Kind::Success, id: 0 }
    }

    /// Whether this is a success; a success is always the one that `ok`
    /// makes, with identifier 0.
    pub fn is_ok(&self) -> (b: bool)
        ensures
            b == (self.kind() == Kind::Success),
            b ==> self.id() == 0,
    {
        proof {
            use_type_invariant(self);
        }
        matches!(self.kind, Kind::Success)
    }

    pub fn done() -> (r: Self)
        ensures
            r.kind() == Kind::Done,
            r.id() == 0,
    {
        DbResult { kind: Kind::Done, id: 0 }
    }

    /// Whether this is a done result; it is always the one that `done`
    /// makes, with identifier 0.
    pub fn is_done(&self) -> (b: bool)
        ensures
            b == (self.kind() == Kind::Done),
            b ==> self.id() == 0,
    {
        proof {
            use_type_invariant(self);
        }
        matches!(self.kind, Kind::Done)
    }

    /// A `BufferTooSmall` error, which takes the next error identifier.
    pub fn buffer_too_small(ids: &mut ErrorIds) -> (r: Self)
        ensures
            r.kind() == Kind::BufferTooSmall,
            r.id() == old(ids)@,
            final(ids)@ == succ_id(old(ids)@),
    {
        DbResult { kind: Kind::BufferTooSmall, id: next_err_id(ids) }
    }

    pub fn is_buffer_too_small(&self) -> (b: bool)
        ensures
            b == (self.kind() == Kind::BufferTooSmall),
    {
        matches!(self.kind, Kind::BufferTooSmall)
    }

    /// An `ArgumentNull` error, which takes the next error identifier.
    pub fn argument_null(ids: &mut ErrorIds) -> (r: Self)
        ensures
            r.kind() == Kind::ArgumentNull,
            r.id() == old(ids)@,
            final(ids)@ == succ_id(old(ids)@),
    {
        DbResult { kind: Kind::ArgumentNull, id: next_err_id(ids) }
    }

    pub fn is_argument_null(&self) -> (b: bool)
        ensures
            b == (self.kind() == Kind::ArgumentNull),
    {
        matches!(self.kind, Kind::ArgumentNull)
    }

    /// An `InternalError`, which takes the next error identifier.
    pub fn internal_error(ids: &mut ErrorIds) -> (r: Self)
        ensures
            r.kind() == Kind::InternalError,
            r.id() == old(ids)@,
            final(ids)@ == succ_id(old(ids)@),
    {
        DbResult { kind: Kind::InternalError, id: next_err_id(ids) }
    }

    pub fn is_internal_error(&self) -> (b: bool)
        ensures
            b == (self.kind() == Kind::InternalError),
    {
        matches!(self.kind, Kind::InternalError)
    }

    /// The kind of this result.
    pub fn kind_value(&self) -> (k: Kind)
        ensures
            k == self.kind(),
    {
        self.kind
    }

    /// The identifier of this result: 0 for a success or done result.
    pub fn error_id(&self) -> (id: u32)
        ensures
            id == self.id(),
            !is_error_kind(self.kind()) ==> id == 0,
    {
        proof {
            use_type_invariant(self);
        }
        self.id
    }

    /// The message that describes this result, if it is an error.
    pub fn as_err(&self) -> (r: Option<&'static str>)
        ensures
            opt_str_view(r) == err_message(self.kind()),
    {
        match self.kind {
            Kind::Success => None,
            Kind::Done => None,
            Kind::ArgumentNull => Some("a required argument was null"),
            Kind::BufferTooSmall => Some("a supplied buffer was too small"),
            Kind::InternalError => Some("an internal error occurred"),
        }
    }
}

/// A recorded result and the message attached to it, seen as values.
pub struct LastResultView {
    pub value: DbResult,
    pub err: Option<Seq<char>>,
}

/// A recorded result and the message attached to it.
struct LastResult {
    value: DbResult,
    err: Option<String>,
}

impl View for LastResult {
    type V = LastResultView;

    closed spec fn view(&self) -> LastResultView {
        LastResultView { value: self.value, err: opt_string_view(self.err) }
    }
}

/// The last result recorded for the calls made on one thread, with the
/// message attached to it.
pub struct ResultContext {
    last: Option<LastResult>,
}

impl View for ResultContext {
    type V = Option<LastResultView>;

    closed spec fn view(&self) -> Option<LastResultView> {
        match self.last {
            Some(l) => Some(l@),
            None => None,
        }
    }
}

impl ResultContext {
    /// A fresh context: nothing is recorded.
    pub fn new() -> (ctx: Self)
        ensures
            ctx@ is None,
    {
        ResultContext { last: None }
    }
}

/// The description of an error and of the errors that caused it, as text:
/// each cause as it displays, the error itself first, and the backtrace
/// that it carries, if any.
pub struct ErrorChain {
    pub causes: Vec<String>,
    pub backtrace: Option<String>,
}

pub open spec fn causes_view(causes: Seq<String>) -> Seq<Seq<char>> {
    causes.map_values(|s: String| s@)
}

/// The line that reports the cause at position `index` of a chain.
pub open spec fn cause_line(index: int, cause: Seq<char>) -> Seq<char> {
    if index == 0 {
        cause + ".\n"@
    } else {
        "   caused by: "@ + cause + "\n"@
    }
}

/// The lines that report a chain of causes, in order.
pub open spec fn causes_text(causes: Seq<Seq<char>>) -> Seq<char>
    decreases causes.len(),
{
    if causes.len() == 0 {
        Seq::empty()
    } else {
        causes_text(causes.drop_last()) + cause_line(causes.len() - 1, causes.last())
    }
}

pub open spec fn backtrace_text(backtrace: Option<Seq<char>>) -> Seq<char> {
    match backtrace {
        Some(b) => "backtrace: "@ + b + "\n"@,
        None => Seq::empty(),
    }
}

/// The text that reports an error chain.
pub open spec fn error_text(e: ErrorChain) -> Seq<char> {
    causes_text(causes_view(e.causes@)) + backtrace_text(opt_string_view(e.backtrace))
}

/// Formats an error, its causes and its backtrace as the text that is
/// recorded for a failed call.
pub fn format_error(e: &ErrorChain) -> (text: String)
    ensures
        text@ == error_text(*e),
        // The backtrace line closes the text whenever there is a backtrace,
        // whatever the number of causes.
        e.backtrace matches Some(b) ==> text@ == causes_text(causes_view(e.causes@)) + ("backtrace: "@ + b@
            + "\n"@),
        e.backtrace is None ==> text@ == causes_text(causes_view(e.causes@)),
{
    let ghost causes = causes_view(e.causes@);
    let mut text = String::new();
    let n = e.causes.len();
    let mut i: usize = 0;
    while i < n
        invariant
            n == e.causes@.len(),
            causes == causes_view(e.causes@),
            i <= n,
            text@ == causes_text(causes.take(i as int)),
        decreases n - i,
    {
        if i == 0 {
            text.append(e.causes[i].as_str());
            text.append(".\n");
        } else {
            text.append("   caused by: ");
            text.append(e.causes[i].as_str());
            text.append("\n");
        }
        assert(causes.take(i + 1).drop_last() =~= causes.take(i as int));
        i = i + 1;
    }
    assert(causes.take(n as int) =~= causes);
    match &e.backtrace {
        Some(b) => {
            text.append("backtrace: ");
            text.append(b.as_str());
            text.append("\n");
        },
        None => {},
    }
    text
}

/// What a call that was run under `catch` did: returned a result, or
/// panicked, with the panic's message where it carries text.
pub enum CallOutcome {
    Returned(DbResult),
    Panicked(Option<String>),
}

/// The text recorded for a panic with the given message.
pub open spec fn panic_message(payload: Option<Seq<char>>) -> Option<Seq<char>> {
    match payload {
        Some(p) => Some("internal panic with '"@ + p + "'"@),
        None => None,
    }
}

/// How `catch` relates the identifier source and the record before, the
/// outcome of the call, the result returned, and the identifier source and
/// the record after.
pub open spec fn catch_post(
    pre_id: u32,
    pre: Option<LastResultView>,
    outcome: CallOutcome,
    r: DbResult,
    post_id: u32,
    post: Option<LastResultView>,
) -> bool {
    match outcome {
        CallOutcome::Returned(value) => {
            let err = match pre {
                Some(l) => or_else(l.err, err_message(value.kind())),
                None => err_message(value.kind()),
            };
            &&& r == value
            &&& post_id == pre_id
            &&& post == Some(LastResultView { value, err })
        },
        CallOutcome::Panicked(payload) => {
            let msg = panic_message(opt_string_view(payload));
            match pre {
                Some(l) => {
                    &&& r == l.value
                    &&& post_id == pre_id
                    &&& post == Some(LastResultView { value: l.value, err: or_else(l.err, msg) })
                },
                None => {
                    &&& r.kind() == Kind::InternalError
                    &&& r.id() == pre_id
                    &&& post_id == succ_id(pre_id)
                    &&& post == Some(LastResultView { value: r, err: msg })
                },
            }
        },
    }
}

/// The record that `context` leaves: the error, with the text of the chain.
pub open spec fn context_record(value: DbResult, e: ErrorChain) -> Option<LastResultView> {
    Some(LastResultView { value, err: Some(error_text(e)) })
}

/// What the last recorded result reports: the result, and its message
/// where the result is an error.
pub open spec fn last_report(c: Option<LastResultView>) -> Option<(DbResult, Option<Seq<char>>)> {
    match c {
        None => None,
        Some(l) => Some(
            (l.value, if is_error_kind(l.value.kind()) {
                l.err
            } else {
                None
            }),
        ),
    }
}

pub open spec fn report_view(r: Option<(DbResult, Option<&str>)>) -> Option<(DbResult, Option<Seq<char>>)> {
    match r {
        None => None,
        Some((v, m)) => Some((v, opt_str_view(m))),
    }
}

/// The text recorded for a panic with the given message.
fn panic_text(payload: &String) -> (text: String)
    ensures
        Some(text@) == panic_message(Some(payload@)),
{
    let mut text = String::new();
    text.append("internal panic with '");
    text.append(payload.as_str());
    text.append("'");
    text
}

/// The message of an error result as an owned string.
fn owned_message(value: DbResult) -> (m: Option<String>)
    ensures
        opt_string_view(m) == err_message(value.kind()),
{
    match value.as_err() {
        Some(s) => Some(s.to_owned()),
        None => None,
    }
}

impl DbResult {
    /// Attaches the text of an error chain to this error result: it becomes
    /// the last recorded result, with that text as its message.
    pub fn context(self, ctx: &mut ResultContext, e: &ErrorChain) -> (r: Self)
        requires
            is_error_kind(self.kind()),
        ensures
            r == self,
            final(ctx)@ == context_record(self, *e),
            final(ctx)@ == Some(LastResultView { value: self, err: Some(error_text(*e)) }),
    {
        let err = Some(format_error(e));
        ctx.last = Some(LastResult { value: self, err });
        self
    }

    /// The result for a call that failed with the given error: an internal
    /// error, recorded with the error's text.
    pub fn from_error(ids: &mut ErrorIds, ctx: &mut ResultContext, e: &ErrorChain) -> (r: Self)
        ensures
            r.kind() == Kind::InternalError,
            r.id() == old(ids)@,
            final(ids)@ == succ_id(old(ids)@),
            final(ctx)@ == context_record(r, *e),
            final(ctx)@ == Some(LastResultView { value: r, err: Some(error_text(*e)) }),
    {
        DbResult::internal_error(ids).context(ctx, e)
    }

    /// The result of a call made under `catch`, once the call has returned
    /// or panicked; the last recorded result is set so that it matches what
    /// is returned. Where the call recorded no message of its own, the
    /// message is that of the result, or of the panic.
    pub fn catch(ids: &mut ErrorIds, ctx: &mut ResultContext, outcome: CallOutcome) -> (r: Self)
        ensures
            catch_post(old(ids)@, old(ctx)@, outcome, r, final(ids)@, final(ctx)@),
            final(ctx)@ matches Some(l) && l.value == r,
            // A call that returns hands back exactly what it returned, takes no
            // identifier, and keeps text recorded during the call; otherwise
            // the result's own message is recorded.
            outcome matches CallOutcome::Returned(v) ==> {
                &&& r == v
                &&& final(ids)@ == old(ids)@
                &&& final(ctx)@ == Some(LastResultView {
                    value: v,
                    err: if old(ctx)@ is Some && old(ctx)@.unwrap().err is Some {
                        old(ctx)@.unwrap().err
                    } else {
                        err_message(v.kind())
                    },
                })
            },
            // A call that panics after recording a result hands that result
            // back; otherwise it is a fresh internal error. The panic's text
            // is recorded only where no text was recorded.
            outcome matches CallOutcome::Panicked(p) ==> {
                let msg = match p {
                    Some(t) => Some("internal panic with '"@ + t@ + "'"@),
                    None => None,
                };
                if old(ctx)@ is Some {
                    &&& r == old(ctx)@.unwrap().value
                    &&& final(ids)@ == old(ids)@
                    &&& final(ctx)@ == Some(LastResultView {
                        value: r,
                        err: if old(ctx)@.unwrap().err is Some {
                            old(ctx)@.unwrap().err
                        } else {
                            msg
                        },
                    })
                } else {
                    &&& r.kind() == Kind::InternalError
                    &&& r.id() == old(ids)@
                    &&& final(ids)@ == succ_id(old(ids)@)
                    &&& final(ctx)@ == Some(LastResultView { value: r, err: msg })
                }
            },
    {
        match outcome {
            CallOutcome::Returned(value) => {
                let extracted = owned_message(value);
                let err = match ctx.last.take() {
                    Some(l) => if l.err.is_some() {
                        l.err
                    } else {
                        extracted
                    },
                    None => extracted,
                };
                ctx.last = Some(LastResult { value, err });
                value
            },
            CallOutcome::Panicked(payload) => {
                let msg = match &payload {
                    Some(p) => Some(panic_text(p)),
                    None => None,
                };
                match ctx.last.take() {
                    Some(l) => {
                        let err = if l.err.is_some() {
                            l.err
                        } else {
                            msg
                        };
                        let value = l.value;
                        ctx.last = Some(LastResult { value, err });
                        value
                    },
                    None => {
                        let value = DbResult::internal_error(ids);
                        ctx.last = Some(LastResult { value, err: msg });
                        value
                    },
                }
            },
        }
    }
}

impl ResultContext {
    /// Forgets the last recorded result; `catch` starts every call so.
    pub fn begin_catch(&mut self)
        ensures
            final(self)@ is None,
    {
        self.last = None;
    }

    /// The last recorded result, with its message where it is an error.
    pub fn last_result(&self) -> (r: Option<(DbResult, Option<&str>)>)
        ensures
            report_view(r) == last_report(self@),
    {
        match &self.last {
            None => None,
            Some(l) => {
                let msg = if l.value.as_err().is_some() {
                    match &l.err {
                        Some(m) => Some(m.as_str()),
                        None => None,
                    }
                } else {
                    None
                };
                Some((l.value, msg))
            },
        }
    }

    /// Hands the last recorded result to `f`, as `last_result` gives it.
    pub fn with_last_result<R, F: FnOnce(Option<(DbResult, Option<&str>)>) -> R>(&self, f: F) -> (r: R)
        requires
            forall|a: Option<(DbResult, Option<&str>)>|
                report_view(a) == last_report(self@) ==> #[trigger] f.requires((a,)),
        ensures
            exists|a: Option<(DbResult, Option<&str>)>|
                report_view(a) == last_report(self@) && #[trigger] f.ensures((a,), r),
    {
        let a = self.last_result();
        let r = f(a);
        r
    }
}

/// The identifier handed out `k` calls after `id`.
pub open spec fn advance_id(id: u32, k: nat) -> u32
    decreases k,
{
    if k == 0 {
        id
    } else {
        succ_id(advance_id(id, (k - 1) as nat))
    }
}

proof fn lemma_advance_id_mod(id: u32, k: nat)
    ensures
        advance_id(id, k) as int == (id + k) % 0x1_0000_0000,
    decreases k,
{
    if k == 0 {
        lemma_small_mod(id as nat, 0x1_0000_0000);
    } else {
        lemma_advance_id_mod(id, (k - 1) as nat);
        let prev = advance_id(id, (k - 1) as nat);
        lemma_add_mod_noop(id + k - 1, 1, 0x1_0000_0000);
        lemma_small_mod(1, 0x1_0000_0000);
        if prev < u32::MAX {
            lemma_small_mod((prev + 1) as nat, 0x1_0000_0000);
        }
    }
}

/// Error identifiers are fresh: any two of fewer than 2^32 identifiers
/// handed out one after the other differ.
pub proof fn lemma_ids_distinct(id: u32, i: nat, j: nat)
    requires
        i < j < 0x1_0000_0000,
    ensures
        advance_id(id, i) != advance_id(id, j),
{
    lemma_advance_id_mod(id, i);
    lemma_advance_id_mod(id, j);
    lemma_mod_equivalence(id + j, id + i, 0x1_0000_0000);
    lemma_small_mod((j - i) as nat, 0x1_0000_0000);
    assert((id + j) - (id + i) == j - i);
}

proof fn lemma_successive_ids_advance(states: Seq<u32>, k: int)
    requires
        0 <= k < states.len(),
        forall|i: int| 0 <= i < states.len() - 1 ==> states[i + 1] == #[trigger] succ_id(states[i]),
    ensures
        states[k] == advance_id(states[0], k as nat),
    decreases k,
{
    if k > 0 {
        lemma_successive_ids_advance(states, k - 1);
        assert(states[k] == succ_id(states[k - 1]));
    }
}

/// Successive calls of `next_err_id` hand out successive identifiers:
/// where each state of the counter is the successor of the one before (as
/// `next_err_id` leaves it), the `k`-th state is `advance_id` of the first,
/// and any two of them fewer than 2^32 calls apart differ.
pub proof fn lemma_successive_ids(states: Seq<u32>)
    requires
        states.len() > 0,
        forall|i: int| 0 <= i < states.len() - 1 ==> states[i + 1] == #[trigger] succ_id(states[i]),
    ensures
        forall|k: int| 0 <= k < states.len() ==> #[trigger] states[k] == advance_id(states[0], k as nat),
        forall|i: int, j: int|
            0 <= i < j < states.len() && j - i < 0x1_0000_0000 ==> #[trigger] states[i] != #[trigger] states[j],
{
    assert forall|k: int| 0 <= k < states.len() implies #[trigger] states[k] == advance_id(states[0], k as nat) by {
        lemma_successive_ids_advance(states, k);
    }
    assert forall|i: int, j: int|
        0 <= i < j < states.len() && j - i < 0x1_0000_0000 implies #[trigger] states[i] != #[trigger] states[j] by {
        lemma_successive_ids_advance(states, i);
        lemma_successive_ids_advance(states, j);
        lemma_advance_id_mod(states[0], i as nat);
        lemma_advance_id_mod(states[0], j as nat);
        lemma_advance_id_mod(advance_id(states[0], i as nat), (j - i) as nat);
        lemma_ids_distinct(advance_id(states[0], i as nat), 0, (j - i) as nat);
        lemma_advance_id_mod(advance_id(states[0], i as nat), 0);
        lemma_add_mod_noop(states[0] + i, j - i, 0x1_0000_0000);
        lemma_small_mod((j - i) as nat, 0x1_0000_0000);
    }
}

/// A call that returns under `catch` has exactly its own result handed
/// back, whatever its kind, and no identifier is taken. With nothing
/// recorded before, the record is that result with its own message; text
/// recorded during the call is kept over that message.
pub proof fn lemma_catch_returns_what_call_returned(
    pre_id: u32,
    pre: Option<LastResultView>,
    value: DbResult,
    r: DbResult,
    post_id: u32,
    post: Option<LastResultView>,
)
    requires
        catch_post(pre_id, pre, CallOutcome::Returned(value), r, post_id, post),
    ensures
        r == value,
        post_id == pre_id,
        pre is None ==> post == Some(LastResultView { value, err: err_message(value.kind()) }),
        pre matches Some(l) && l.err is Some ==> post == Some(LastResultView { value, err: pre.unwrap().err }),
        pre matches Some(l) && l.err is None ==> post == Some(LastResultView { value, err: err_message(value.kind()) }),
{
}

/// Each kind's message, which `as_err` gives and `catch` records: none for
/// a success or a done result, and a fixed text for each error.
pub proof fn lemma_error_messages(kind: Kind)
    ensures
        kind == Kind::Success || kind == Kind::Done ==> err_message(kind) is None,
        kind == Kind::ArgumentNull ==> err_message(kind) == Some("a required argument was null"@),
        kind == Kind::BufferTooSmall ==> err_message(kind) == Some("a supplied buffer was too small"@),
        kind == Kind::InternalError ==> err_message(kind) == Some("an internal error occurred"@),
{
}

/// The text of an error chain is the text of its causes followed by the
/// backtrace line where there is a backtrace, whatever the number of causes.
pub proof fn lemma_error_text_ends_with_backtrace(e: ErrorChain)
    ensures
        e.backtrace matches Some(b) ==> error_text(e) == causes_text(causes_view(e.causes@)) + (
        "backtrace: "@ + b@ + "\n"@),
        e.backtrace is None ==> error_text(e) == causes_text(causes_view(e.causes@)),
{
    assert(causes_text(causes_view(e.causes@)) + Seq::<char>::empty() =~= causes_text(causes_view(e.causes@)));
}

/// A single cause is reported as itself followed by a full stop, and each
/// further cause adds one "caused by" line at the end.
pub proof fn lemma_causes_text_lines(causes: Seq<Seq<char>>, cause: Seq<char>)
    ensures
        causes.len() == 0 ==> causes_text(causes.push(cause)) == cause + ".\n"@,
        causes.len() > 0 ==> causes_text(causes.push(cause)) == causes_text(causes) + ("   caused by: "@
            + cause + "\n"@),
{
    assert(causes.push(cause).drop_last() =~= causes);
    if causes.len() == 0 {
        assert(causes_text(causes) == Seq::<char>::empty());
        assert(Seq::<char>::empty() + (cause + ".\n"@) =~= cause + ".\n"@);
    }
}

/// What the record reports, for every record: nothing where nothing is
/// recorded; otherwise the recorded result, with its message where it is an
/// error and no message where it is not.
pub proof fn lemma_last_report_cases(value: DbResult, err: Option<Seq<char>>)
    ensures
        last_report(None) is None,
        is_error_kind(value.kind()) ==> last_report(Some(LastResultView { value, err })) == Some((value, err)),
        !is_error_kind(value.kind()) ==> last_report(Some(LastResultView { value, err })) == Some(
            (value, None::<Seq<char>>),
        ),
{
}

/// A result has a message exactly when it is an error.
pub proof fn lemma_message_iff_error(kind: Kind)
    ensures
        err_message(kind) is Some <==> is_error_kind(kind),
{
}

/// A recorded result that is not an error is reported without a message.
pub proof fn lemma_report_message_only_for_errors(c: Option<LastResultView>)
    ensures
        last_report(c) matches Some((v, m)) ==> (m is Some ==> is_error_kind(v.kind())),
{
}

/// The text that `context` attaches to an error is what the record reports
/// (and `last_result` and `with_last_result` hand over) until the record is
/// next written, by `context`, `from_error`, `catch` or `begin_catch`.
pub proof fn lemma_context_is_reported(e: DbResult, chain: ErrorChain)
    requires
        is_error_kind(e.kind()),
    ensures
        last_report(context_record(e, chain)) == Some((e, Some(error_text(chain)))),
{
}

/// `catch` is a function of what it is given: the same identifier source,
/// record and outcome give the same result, identifier source and record.
pub proof fn lemma_catch_deterministic(
    pre_id: u32,
    pre: Option<LastResultView>,
    outcome: CallOutcome,
    r1: DbResult,
    id1: u32,
    post1: Option<LastResultView>,
    r2: DbResult,
    id2: u32,
    post2: Option<LastResultView>,
)
    requires
        catch_post(pre_id, pre, outcome, r1, id1, post1),
        catch_post(pre_id, pre, outcome, r2, id2, post2),
    ensures
        r1 == r2,
        id1 == id2,
        post1 == post2,
{
    match outcome {
        CallOutcome::Returned(_) => {},
        CallOutcome::Panicked(_) => {
            if pre is None {
                DbResult::lemma_eq(r1, r2);
            }
        },
    }
}

/// Nothing recorded before a call leaks into what `catch` makes of it: a
/// call starts with `begin_catch`, which leaves nothing recorded, so a call
/// that leaves the record alone gives the same result, identifiers and
/// record whatever was recorded before `begin_catch`.
pub proof fn lemma_catch_forgets_stale_record(
    begun1: Option<LastResultView>,
    begun2: Option<LastResultView>,
    pre_id: u32,
    outcome: CallOutcome,
    r1: DbResult,
    id1: u32,
    post1: Option<LastResultView>,
    r2: DbResult,
    id2: u32,
    post2: Option<LastResultView>,
)
    requires
        begun1 is None,
        begun2 is None,
        catch_post(pre_id, begun1, outcome, r1, id1, post1),
        catch_post(pre_id, begun2, outcome, r2, id2, post2),
    ensures
        r1 == r2,
        id1 == id2,
        post1 == post2,
{
    lemma_catch_deterministic(pre_id, None, outcome, r1, id1, post1, r2, id2, post2);
}

/// After `catch`, the last recorded result is the one that `catch` returned.
pub proof fn lemma_catch_reports_its_result(
    pre_id: u32,
    pre: Option<LastResultView>,
    outcome: CallOutcome,
    r: DbResult,
    post_id: u32,
    post: Option<LastResultView>,
)
    requires
        catch_post(pre_id, pre, outcome, r, post_id, post),
    ensures
        last_report(post) matches Some((v, _)) && v == r,
{
}

/// An error that `catch` returns is reported with a message, unless the
/// call panicked with a payload that is not text and no message had been
/// recorded.
pub proof fn lemma_catch_error_has_message(
    pre_id: u32,
    pre: Option<LastResultView>,
    outcome: CallOutcome,
    r: DbResult,
    post_id: u32,
    post: Option<LastResultView>,
)
    requires
        catch_post(pre_id, pre, outcome, r, post_id, post),
        is_error_kind(r.kind()),
        ({
            ||| outcome is Returned
            ||| (outcome matches CallOutcome::Panicked(p) && p is Some)
            ||| (pre matches Some(l) && l.err is Some)
        }),
    ensures
        last_report(post) matches Some((v, m)) && v == r && m is Some,
{
}

/// The text that `context` attaches to an error during a call is what is
/// reported after `catch`, whether the call then returns that error or
/// panics.
pub proof fn lemma_context_survives_catch(
    pre_id: u32,
    e: DbResult,
    chain: ErrorChain,
    outcome: CallOutcome,
    r: DbResult,
    post_id: u32,
    post: Option<LastResultView>,
)
    requires
        is_error_kind(e.kind()),
        outcome == CallOutcome::Returned(e) || outcome is Panicked,
        catch_post(pre_id, context_record(e, chain), outcome, r, post_id, post),
    ensures
        r == e,
        post_id == pre_id,
        last_report(post) == Some((e, Some(error_text(chain)))),
{
}

/// The reported text of an error chain starts with the error itself.
pub proof fn lemma_error_text_starts_with_error(causes: Seq<Seq<char>>)
    requires
        causes.len() > 0,
    ensures
        causes_text(causes).len() >= cause_line(0, causes[0]).len(),
        causes_text(causes).subrange(0, cause_line(0, causes[0]).len() as int) == cause_line(0, causes[0]),
    decreases causes.len(),
{
    let line = cause_line(0, causes[0]);
    if causes.len() == 1 {
        assert(causes.drop_last() =~= Seq::<Seq<char>>::empty());
        assert(causes_text(causes.drop_last()) == Seq::<char>::empty());
        assert(causes.last() == causes[0]);
        assert(causes_text(causes) =~= line);
    } else {
        let rest = causes.drop_last();
        lemma_error_text_starts_with_error(rest);
        assert(rest[0] == causes[0]);
        let whole = causes_text(causes);
        assert(whole == causes_text(rest) + cause_line(causes.len() - 1, causes.last()));
        assert(whole.subrange(0, line.len() as int) =~= causes_text(rest).subrange(0, line.len() as int));
    }
}

} // verus!
