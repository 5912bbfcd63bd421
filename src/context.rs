use vstd::prelude::*;

verus! {

/// The kind of operation on a path that a failure is annotated with.
#[derive(Clone, Copy, Debug, PartialEq, Eq, Structural)]
pub enum IoOp {
    Read,
    Write,
    Append,
}

/// The word or words naming an operation in a message.
pub open spec fn verb(op: IoOp) -> Seq<char> {
    match op {
        IoOp::Read => "read"@,
        IoOp::Write => "write"@,
        IoOp::Append => "append to"@,
    }
}

/// The text placed in front of the path: "failed to <verb> ".
pub open spec fn message_prefix(op: IoOp) -> Seq<char> {
    "failed to "@ + verb(op) + " "@
}

/// The message that annotates a failure of `op` on `path`.
pub open spec fn context_text(op: IoOp, path: Seq<char>) -> Seq<char> {
    message_prefix(op) + path
}

/// `needle` occurs in `hay` as a contiguous run of characters.
pub open spec fn contains(hay: Seq<char>, needle: Seq<char>) -> bool {
    exists|i: int| 0 <= i <= hay.len() - needle.len() && #[trigger] hay.subrange(i, i + needle.len()) == needle
}

/// Builds the message that annotates a failure of `op` on `path`.
pub fn context_message(op: IoOp, path: &str) -> (r: String)
    ensures
        r@ == context_text(op, path@),
{
    let prefix: &str = match op {
        IoOp::Read => "failed to read ",
        IoOp::Write => "failed to write ",
        IoOp::Append => "failed to append to ",
    };
    proof {
        reveal_strlit("failed to read ");
        reveal_strlit("failed to write ");
        reveal_strlit("failed to append to ");
        reveal_strlit("failed to ");
        reveal_strlit("read");
        reveal_strlit("write");
        reveal_strlit("append to");
        reveal_strlit(" ");
        assert(prefix@ =~= message_prefix(op));
    }
    let mut r = prefix.to_owned();
    r.append(path);
    r
}

/// Every annotation message names the operation and holds the path unchanged.
pub proof fn lemma_message_names_verb_and_path(op: IoOp, path: Seq<char>)
    ensures
        contains(context_text(op, path), verb(op)),
        contains(context_text(op, path), path),
        context_text(op, path).subrange(0, message_prefix(op).len() as int) == message_prefix(op),
{
    let t = context_text(op, path);
    let p = message_prefix(op);
    reveal_strlit("failed to ");
    reveal_strlit(" ");
    assert(t.subrange(10, 10 + verb(op).len() as int) =~= verb(op));
    assert(t.subrange(p.len() as int, (p.len() + path.len()) as int) =~= path);
    assert(t.subrange(0, p.len() as int) =~= p);
}

/// A failure annotated with the operation and path it happened on: `message`
/// says what was being done, `cause` is the failure underneath it.
pub struct ContextError<E> {
    pub message: String,
    pub cause: E,
}

/// `after` is `before` annotated for `op` on `path`: a success is kept as it
/// is, a failure becomes one whose message is the annotation and whose cause is
/// the original failure.
pub open spec fn annotated<T, E>(
    before: Result<T, E>,
    after: Result<T, ContextError<E>>,
    op: IoOp,
    path: Seq<char>,
) -> bool {
    match before {
        Ok(v) => after == Ok::<T, ContextError<E>>(v),
        Err(e) => match after {
            Ok(_) => false,
            Err(c) => c.message@ == context_text(op, path) && c.cause == e,
        },
    }
}

/// Annotates a failure of `op` on `path`; a success passes through and no
/// message is built for it.
pub fn annotate<T, E>(res: Result<T, E>, op: IoOp, path: &str) -> (r: Result<T, ContextError<E>>)
    ensures
        annotated(res, r, op, path@),
{
    match res {
        Ok(v) => Ok(v),
        Err(e) => Err(ContextError { message: context_message(op, path), cause: e }),
    }
}

/// Attaches to a fallible value a message naming the operation (read, write,
/// append) and the path that it failed on.
pub trait IoContext<T, E>: Sized {
    /// The outcome that is annotated.
    spec fn outcome(&self) -> Result<T, E>;

    fn context_read(self, path: &str) -> (r: Result<T, ContextError<E>>)
        ensures
            annotated(self.outcome(), r, IoOp::Read, path@),
    ;

    fn context_write(self, path: &str) -> (r: Result<T, ContextError<E>>)
        ensures
            annotated(self.outcome(), r, IoOp::Write, path@),
    ;

    fn context_append(self, path: &str) -> (r: Result<T, ContextError<E>>)
        ensures
            annotated(self.outcome(), r, IoOp::Append, path@),
    ;
}

impl<T, E> IoContext<T, E> for Result<T, E> {
    open spec fn outcome(&self) -> Result<T, E> {
        *self
    }

    fn context_read(self, path: &str) -> (r: Result<T, ContextError<E>>) {
        annotate(self, IoOp::Read, path)
    }

    fn context_write(self, path: &str) -> (r: Result<T, ContextError<E>>) {
        annotate(self, IoOp::Write, path)
    }

    fn context_append(self, path: &str) -> (r: Result<T, ContextError<E>>) {
        annotate(self, IoOp::Append, path)
    }
}

/// A failure annotated for any operation carries a message that names the
/// operation and holds the path, and keeps the original failure as its cause.
pub proof fn lemma_annotated_failure_names_verb_and_path<T, E>(
    e: E,
    after: Result<T, ContextError<E>>,
    op: IoOp,
    path: Seq<char>,
)
    requires
        annotated(Err::<T, E>(e), after, op, path),
    ensures
        after matches Err(c) && c.cause == e && contains(c.message@, verb(op)) && contains(
            c.message@,
            path,
        ),
{
    lemma_message_names_verb_and_path(op, path);
}

#[verifier::external_type_specification]
#[verifier::external_body]
pub struct ExAnyhowError(anyhow::Error);

/// Relies on anyhow::Error::new: wraps a standard error, keeping it as the
/// head of the chain of causes.
#[verifier::external_body]
fn anyhow_new<E: std::error::Error + Send + Sync + 'static>(cause: E) -> anyhow::Error {
    anyhow::Error::new(cause)
}

/// Relies on anyhow::Error::context: puts `message` above the error, which
/// stays reachable as its source.
#[verifier::external_body]
fn anyhow_context(err: anyhow::Error, message: String) -> anyhow::Error {
    err.context(message)
}

impl<E: std::error::Error + Send + Sync + 'static> ContextError<E> {
    /// Turns the annotated failure into an `anyhow::Error` whose message is the
    /// annotation and whose source is the original cause.
    pub fn into_anyhow(self) -> anyhow::Error {
        let ContextError { message, cause } = self;
        anyhow_context(anyhow_new(cause), message)
    }
}

} // verus!
