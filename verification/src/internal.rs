//! The steps shared by both visualizations: checking the source files before
//! they are written, collecting what writing them gave, building the
//! `sol2uml` command line and judging how the tool finished.

use vstd::prelude::*;
use vstd::utf8::{decode_utf8, valid_utf8};
use crate::platform::{decode_text, has_root, path_has_root, plainly_relative};

verus! {

/// A failure of a visualization step.
#[derive(Debug, Clone, PartialEq, Eq)]
pub enum Error {
    /// The service itself failed (a file could not be written, a task was
    /// lost, the tool's output was unreadable); holds the cause's text.
    Internal(String),
    /// `sol2uml` refused the sources; holds what it printed.
    Sol2Uml(String),
}

/// The text of a refused source path.
pub open spec fn relative_path_message() -> Seq<char> {
    "Error. All paths should be relative."@
}

/// The text of an error.
pub open spec fn error_message(e: Error) -> Seq<char> {
    match e {
        Error::Internal(m) => "internal error: "@ + m@,
        Error::Sol2Uml(m) => "sol2uml call failed: "@ + m@,
    }
}

impl Error {
    /// The error's text.
    pub fn message(&self) -> (r: String)
        ensures
            r@ == error_message(*self),
    {
        match self {
            Error::Internal(m) => String::from_str("internal error: ").concat(m.as_str()),
            Error::Sol2Uml(m) => String::from_str("sol2uml call failed: ").concat(m.as_str()),
        }
    }
}

/// Checks the path under which a source file is to be written: it must be
/// relative to the directory that receives the sources. A refused path
/// gives the text of the refusal.
pub fn check_source_path(name: &str) -> (r: Result<(), String>)
    ensures
        r is Err <==> path_has_root(name@),
        r matches Err(m) ==> m@ == relative_path_message(),
        name@.len() > 0 && name@[0] == '/' ==> r is Err,
        plainly_relative(name@) ==> r is Ok,
{
    if has_root(name) {
        Err(String::from_str("Error. All paths should be relative."))
    } else {
        Ok(())
    }
}

/// What happened to one source file when it was written.
#[derive(Debug, Clone, PartialEq, Eq)]
pub enum FileOutcome {
    /// The file was written.
    Written,
    /// Writing failed, or the path was refused; holds the cause's text.
    Failed(String),
    /// The task that wrote the file did not finish; holds the cause's text.
    Aborted(String),
}

/// The first outcome, in the order of the source files, that is not a
/// written file.
pub open spec fn first_failure(outcomes: Seq<FileOutcome>) -> Option<FileOutcome>
    decreases outcomes.len(),
{
    if outcomes.len() == 0 {
        None
    } else if outcomes[0] is Written {
        first_failure(outcomes.drop_first())
    } else {
        Some(outcomes[0])
    }
}

/// The text that an outcome that is not a written file carries.
pub open spec fn failure_text(outcome: FileOutcome) -> Seq<char> {
    match outcome {
        FileOutcome::Written => Seq::empty(),
        FileOutcome::Failed(m) => m@,
        FileOutcome::Aborted(m) => m@,
    }
}

/// There is a first failure exactly when some file was not written, and it
/// is one of the outcomes.
pub proof fn lemma_first_failure(outcomes: Seq<FileOutcome>)
    ensures
        first_failure(outcomes) is None <==> forall|i: int|
            0 <= i < outcomes.len() ==> #[trigger] outcomes[i] is Written,
        first_failure(outcomes) matches Some(f) ==> f !is Written && outcomes.contains(f),
    decreases outcomes.len(),
{
    if outcomes.len() > 0 {
        lemma_first_failure(outcomes.drop_first());
        if outcomes[0] is Written {
            assert forall|i: int| 0 <= i < outcomes.len() && (forall|j: int|
                0 <= j < outcomes.drop_first().len()
                    ==> #[trigger] outcomes.drop_first()[j] is Written) implies
                #[trigger] outcomes[i] is Written by {
                if i > 0 {
                    assert(outcomes.drop_first()[i - 1] == outcomes[i]);
                }
            }
            match first_failure(outcomes) {
                Some(f) => {
                    let k = choose|k: int|
                        0 <= k < outcomes.drop_first().len() && outcomes.drop_first()[k] == f;
                    assert(outcomes[k + 1] == f);
                },
                None => {},
            }
        }
    }
}

/// Finds the first outcome, in the order of the source files, that is not a
/// written file: its position, or none when every file was written.
pub fn find_first_failure(outcomes: &Vec<FileOutcome>) -> (r: Option<usize>)
    ensures
        match r {
            None => first_failure(outcomes@) is None,
            Some(i) => i < outcomes.len() && first_failure(outcomes@) == Some(outcomes@[i as int])
                && outcomes@[i as int] !is Written,
        },
{
    let mut i: usize = 0;
    assert(outcomes@.skip(0) =~= outcomes@);
    while i < outcomes.len()
        invariant
            0 <= i <= outcomes.len(),
            first_failure(outcomes@) == first_failure(outcomes@.skip(i as int)),
        decreases outcomes.len() - i,
    {
        let ghost rest = outcomes@.skip(i as int);
        assert(rest[0] == outcomes@[i as int]);
        assert(rest.drop_first() =~= outcomes@.skip(i + 1));
        if !matches!(outcomes[i], FileOutcome::Written) {
            return Some(i);
        }
        i = i + 1;
    }
    assert(outcomes@.skip(i as int).len() == 0);
    None
}

/// Collects what writing the source files gave: success when every file was
/// written, otherwise an internal error with the text of the first failure.
pub fn save_files_result(outcomes: &Vec<FileOutcome>) -> (r: Result<(), Error>)
    ensures
        match first_failure(outcomes@) {
            None => r is Ok,
            Some(f) => r matches Err(Error::Internal(m)) && m@ == failure_text(f),
        },
{
    match find_first_failure(outcomes) {
        None => Ok(()),
        Some(i) => match &outcomes[i] {
            FileOutcome::Written => Ok(()),
            FileOutcome::Failed(m) => Err(Error::Internal(m.clone())),
            FileOutcome::Aborted(m) => Err(Error::Internal(m.clone())),
        },
    }
}

/// What a `sol2uml` run amounts to: success when the tool exited
/// successfully and printed nothing on its error stream; otherwise what it
/// printed, or an internal error when that is not valid UTF-8.
pub open spec fn sol2uml_verdict(success: bool, stderr: Seq<u8>) -> Option<Result<Seq<char>, ()>> {
    if success && stderr.len() == 0 {
        None
    } else if valid_utf8(stderr) {
        Some(Ok(decode_utf8(stderr)))
    } else {
        Some(Err(()))
    }
}

/// Judges a finished `sol2uml` run from its exit status and its error
/// stream.
pub fn sol2uml_result(success: bool, stderr: &[u8]) -> (r: Result<(), Error>)
    ensures
        match sol2uml_verdict(success, stderr@) {
            None => r is Ok,
            Some(Ok(text)) => r matches Err(Error::Sol2Uml(m)) && m@ == text,
            Some(Err(())) => r matches Err(Error::Internal(_)),
        },
{
    if success && stderr.len() == 0 {
        Ok(())
    } else {
        match decode_text(stderr) {
            Ok(text) => Err(Error::Sol2Uml(text)),
            Err(cause) => Err(Error::Internal(cause)),
        }
    }
}

/// A `sol2uml` command line under construction.
#[derive(Debug, Clone, PartialEq, Eq)]
pub struct Sol2Uml {
    args: Vec<String>,
}

impl View for Sol2Uml {
    type V = Seq<Seq<char>>;

    closed spec fn view(&self) -> Seq<Seq<char>> {
        self.args@.map_values(|a: String| a@)
    }
}

impl Sol2Uml {
    /// A command line with no arguments yet.
    pub fn new() -> (r: Sol2Uml)
        ensures
            r@ == Seq::<Seq<char>>::empty(),
    {
        let r = Sol2Uml { args: Vec::new() };
        assert(r@ =~= Seq::<Seq<char>>::empty());
        r
    }

    /// Appends one argument.
    pub fn arg(self, arg: &str) -> (r: Sol2Uml)
        ensures
            r@ == self@.push(arg@),
    {
        let mut args = self.args;
        args.push(String::from_str(arg));
        let r = Sol2Uml { args };
        assert(r@ =~= self@.push(arg@));
        r
    }

    /// Appends several arguments, in order.
    pub fn args(self, more: &[&str]) -> (r: Sol2Uml)
        ensures
            r@ == self@ + more@.map_values(|a: &str| a@),
    {
        let mut r = self;
        let ghost start = r@;
        let mut i: usize = 0;
        while i < more.len()
            invariant
                0 <= i <= more.len(),
                r@ == start + more@.take(i as int).map_values(|a: &str| a@),
            decreases more.len() - i,
        {
            let ghost before = r@;
            r = r.arg(more[i]);
            assert(more@.take(i + 1).map_values(|a: &str| a@) =~= more@.take(
                i as int,
            ).map_values(|a: &str| a@).push(more@[i as int]@));
            i = i + 1;
        }
        assert(more@.take(more.len() as int) =~= more@);
        r
    }

    /// The arguments, in order.
    pub fn arguments(&self) -> (r: &Vec<String>)
        ensures
            r@.map_values(|a: String| a@) == self@,
    {
        &self.args
    }
}

/// The answer to writing the sources is the first file, in their order,
/// that was not written: every file before it was written.
pub proof fn lemma_first_failure_is_first(outcomes: Seq<FileOutcome>)
    ensures
        first_failure(outcomes) matches Some(f) ==> exists|k: int|
            0 <= k < outcomes.len() && #[trigger] outcomes[k] == f && forall|j: int|
                0 <= j < k ==> (#[trigger] outcomes[j]) is Written,
    decreases outcomes.len(),
{
    if outcomes.len() > 0 && outcomes[0] is Written {
        let rest = outcomes.drop_first();
        lemma_first_failure_is_first(rest);
        if let Some(f) = first_failure(outcomes) {
            let k = choose|k: int|
                0 <= k < rest.len() && #[trigger] rest[k] == f && forall|j: int|
                    0 <= j < k ==> (#[trigger] rest[j]) is Written;
            assert(outcomes[k + 1] == f);
            assert forall|j: int| 0 <= j < k + 1 implies (#[trigger] outcomes[j]) is Written by {
                if j > 0 {
                    assert(outcomes[j] == rest[j - 1]);
                }
            }
        }
    }
}

/// A failed write answers with the failure's own text.
pub proof fn lemma_failure_text(m: String)
    ensures
        failure_text(FileOutcome::Failed(m)) == m@,
        failure_text(FileOutcome::Aborted(m)) == m@,
{
}

/// A run succeeds exactly when `sol2uml` exited successfully and printed
/// nothing on its error stream; otherwise its complaint is the text it
/// printed, when that is UTF-8.
pub proof fn lemma_sol2uml_verdict(success: bool, stderr: Seq<u8>)
    ensures
        sol2uml_verdict(success, stderr) is None <==> (success && stderr.len() == 0),
        sol2uml_verdict(success, stderr) matches Some(Ok(text)) ==> valid_utf8(stderr) && text
            == decode_utf8(stderr),
        sol2uml_verdict(success, stderr) matches Some(Err(_)) ==> !valid_utf8(stderr),
        sol2uml_verdict(success, stderr) is Some && valid_utf8(stderr) ==> sol2uml_verdict(
            success,
            stderr,
        ) is Some && sol2uml_verdict(success, stderr)->0 is Ok,
{
}

/// The text of an error names its kind and then carries its cause.
pub proof fn lemma_error_message(m: String)
    ensures
        error_message(Error::Internal(m)) == "internal error: "@ + m@,
        error_message(Error::Sol2Uml(m)) == "sol2uml call failed: "@ + m@,
{
}

/// The text of a refused source path.
pub proof fn lemma_relative_path_message()
    ensures
        relative_path_message() == "Error. All paths should be relative."@,
{
}

} // verus!
