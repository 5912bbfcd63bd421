use vstd::prelude::*;

use crate::context::{
    contains, context_text, lemma_message_names_verb_and_path, ContextError, IoContext, IoOp,
};

verus! {

#[verifier::external_type_specification]
#[verifier::external_body]
pub struct ExStdin(std::io::Stdin);

#[verifier::external_type_specification]
#[verifier::external_body]
pub struct ExIoError(std::io::Error);

#[verifier::external_type_specification]
#[verifier::external_body]
#[verifier::reject_recursive_types(R)]
pub struct ExBufReader<R: ?Sized>(std::io::BufReader<R>);

/// Relies on std::io::stdin: a handle to the process's standard input.
pub assume_specification[ std::io::stdin ]() -> std::io::Stdin;

/// Relies on std::io::BufReader::new: wraps a reader in a buffer, reading
/// nothing yet.
#[verifier::external_body]
fn buffer_reader<R: std::io::Read>(inner: R) -> std::io::BufReader<R> {
    std::io::BufReader::new(inner)
}

/// A source of bytes: an opened file, or the process's standard input.
pub enum Input<R> {
    File(R),
    Stdin(std::io::Stdin),
}

impl<R> Input<R> {
    /// Resolves an optional path into a source. With a path, `open` is called
    /// on it once, and a failure is annotated as a failed read of that path;
    /// without one, standard input is taken and `open` is never called.
    pub fn default_stdin<F: FnOnce(&str) -> Result<R, std::io::Error>>(
        path: Option<&str>,
        open: F,
    ) -> (r: Result<Input<R>, ContextError<std::io::Error>>)
        requires
            path matches Some(p) ==> open.requires((p,)),
        ensures
            path is None ==> r matches Ok(Input::Stdin(_)),
            path matches Some(p) ==> exists|opened: Result<R, std::io::Error>|
                #[trigger] open.ensures((p,), opened) && opened_as(opened, r, p@),
    {
        match path {
            Some(p) => {
                let opened = open(p);
                let annotated_open = opened.context_read(p);
                let r = match annotated_open {
                    Ok(f) => Ok(Input::File(f)),
                    Err(e) => Err(e),
                };
                assert(opened_as(opened, r, p@));
                r
            },
            None => Ok(Input::Stdin(std::io::stdin())),
        }
    }

    /// Hands the active handle to the conversion for its variant, so that
    /// either variant comes out as the same type.
    pub fn into_dyn_read<D, F: FnOnce(R) -> D, G: FnOnce(std::io::Stdin) -> D>(
        self,
        from_file: F,
        from_stdin: G,
    ) -> (d: D)
        requires
            self matches Input::File(f) ==> from_file.requires((f,)),
            self matches Input::Stdin(i) ==> from_stdin.requires((i,)),
        ensures
            self matches Input::File(f) ==> from_file.ensures((f,), d),
            self matches Input::Stdin(i) ==> from_stdin.ensures((i,), d),
    {
        match self {
            Input::File(f) => from_file(f),
            Input::Stdin(i) => from_stdin(i),
        }
    }
}

impl<R: std::io::Read> Input<R> {
    /// Puts a buffer in front of a file; standard input passes through as it
    /// is. Nothing is read.
    pub fn buffered(self) -> (r: Input<std::io::BufReader<R>>)
        ensures
            self is File <==> r is File,
            self matches Input::Stdin(i) ==> r == Input::<std::io::BufReader<R>>::Stdin(i),
    {
        match self {
            Input::File(f) => Input::File(buffer_reader(f)),
            Input::Stdin(i) => Input::Stdin(i),
        }
    }
}

/// `r` is what resolving `path` gives when opening it gave `opened`: the
/// opened handle as a file source, or the failure annotated as a failed read.
pub open spec fn opened_as<R>(
    opened: Result<R, std::io::Error>,
    r: Result<Input<R>, ContextError<std::io::Error>>,
    path: Seq<char>,
) -> bool {
    match opened {
        Ok(f) => r matches Ok(Input::File(g)) && g == f,
        Err(e) => match r {
            Ok(_) => false,
            Err(c) => c.message@ == context_text(IoOp::Read, path) && c.cause == e,
        },
    }
}

/// When opening a path fails, resolving it fails with a message that holds the
/// word "read" and the path, and with the open failure as its cause.
pub proof fn lemma_open_failure_names_path<R>(
    e: std::io::Error,
    r: Result<Input<R>, ContextError<std::io::Error>>,
    path: Seq<char>,
)
    requires
        opened_as(Err::<R, std::io::Error>(e), r, path),
    ensures
        r matches Err(c) && c.cause == e && contains(c.message@, "read"@) && contains(c.message@, path),
{
    lemma_message_names_verb_and_path(IoOp::Read, path);
}

} // verus!
