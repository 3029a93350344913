//! The decisions of the UML service's two endpoints: how the outcome of
//! writing the sources and of running `sol2uml` becomes an answer, and which
//! command line each endpoint runs.

use vstd::prelude::*;
use crate::internal::{
    failure_text, find_first_failure, first_failure, sol2uml_verdict, FileOutcome, Sol2Uml,
};
use crate::platform::{decode_text, ends_with_parent_dir, file_name, path_file_name, plain_file_name};
use crate::types::SolToStorageRequest;

verus! {

/// An answer that is not a diagram: a client error or a server error, with
/// its text.
#[derive(Debug, Clone, PartialEq, Eq)]
pub enum ServiceError {
    BadRequest(String),
    InternalServerError(String),
}

impl ServiceError {
    /// The HTTP status of the answer.
    pub fn status_code(&self) -> (r: u16)
        ensures
            r == (match *self {
                ServiceError::BadRequest(_) => 400u16,
                ServiceError::InternalServerError(_) => 500u16,
            }),
    {
        match self {
            ServiceError::BadRequest(_) => 400,
            ServiceError::InternalServerError(_) => 500,
        }
    }

    /// The text of the answer.
    pub fn message(&self) -> (r: String)
        ensures
            r@ == (match *self {
                ServiceError::BadRequest(m) => m@,
                ServiceError::InternalServerError(m) => m@,
            }),
    {
        match self {
            ServiceError::BadRequest(m) => m.clone(),
            ServiceError::InternalServerError(m) => m.clone(),
        }
    }
}

/// The answer to a storage request whose main contract path names no file.
pub open spec fn missing_file_name_message() -> Seq<char> {
    "Error. Main contract filename should contain filename."@
}

/// Collects what writing the source files gave: success when every file was
/// written; otherwise the first failure in the order of the files answers,
/// a lost writing task as a server error, a refused path or a failed write
/// as a client error.
pub fn save_files_result(outcomes: &Vec<FileOutcome>) -> (r: Result<(), ServiceError>)
    ensures
        match first_failure(outcomes@) {
            None => r is Ok,
            Some(FileOutcome::Aborted(m)) => r matches Err(ServiceError::InternalServerError(e))
                && e@ == m@,
            Some(f) => r matches Err(ServiceError::BadRequest(e)) && e@ == failure_text(f),
        },
{
    match find_first_failure(outcomes) {
        None => Ok(()),
        Some(i) => match &outcomes[i] {
            FileOutcome::Written => Ok(()),
            FileOutcome::Failed(m) => Err(ServiceError::BadRequest(m.clone())),
            FileOutcome::Aborted(m) => Err(ServiceError::InternalServerError(m.clone())),
        },
    }
}

/// Judges a finished `sol2uml` run: success when the tool exited
/// successfully and printed nothing on its error stream; otherwise a client
/// error with what it printed (when that is not valid UTF-8, with the text
/// of the decoding error).
pub fn sol2uml_result(success: bool, stderr: &[u8]) -> (r: Result<(), ServiceError>)
    ensures
        match sol2uml_verdict(success, stderr@) {
            None => r is Ok,
            Some(Ok(text)) => r matches Err(ServiceError::BadRequest(m)) && m@ == text,
            Some(Err(())) => r matches Err(ServiceError::BadRequest(_)),
        },
{
    if success && stderr.len() == 0 {
        Ok(())
    } else {
        match decode_text(stderr) {
            Ok(text) => Err(ServiceError::BadRequest(text)),
            Err(cause) => Err(ServiceError::BadRequest(cause)),
        }
    }
}

/// The `sol2uml` arguments that draw the class diagram of the sources in
/// `contract_dir` into `uml_path`.
pub open spec fn uml_args(contract_dir: Seq<char>, uml_path: Seq<char>) -> Seq<Seq<char>> {
    seq!["class"@, contract_dir, "--hideFilename"@, "-o"@, uml_path]
}

/// The `sol2uml` arguments that draw the storage layout of `main_contract`,
/// found in the file `file_name`, among the sources in `contract_dir`, into
/// `storage_path`.
pub open spec fn storage_args(
    contract_dir: Seq<char>,
    main_contract: Seq<char>,
    file_name: Seq<char>,
    storage_path: Seq<char>,
) -> Seq<Seq<char>> {
    seq!["storage"@, contract_dir, "-c"@, main_contract, "-cf"@, file_name, "-o"@, storage_path]
}

/// The class diagram endpoint draws the folder the sources were written to:
/// `class`, then that folder, `--hideFilename`, and `-o` followed by the
/// output file, and nothing else.
pub proof fn lemma_uml_args(contract_dir: Seq<char>, uml_path: Seq<char>)
    ensures
        uml_args(contract_dir, uml_path).len() == 5,
        uml_args(contract_dir, uml_path)[0] == "class"@,
        uml_args(contract_dir, uml_path)[1] == contract_dir,
        uml_args(contract_dir, uml_path)[2] == "--hideFilename"@,
        uml_args(contract_dir, uml_path)[3] == "-o"@,
        uml_args(contract_dir, uml_path)[4] == uml_path,
{
}

/// The storage layout endpoint names the main contract verbatim after `-c`,
/// its file name after `-cf` and the output file after `-o`, reading the
/// folder the sources were written to, and nothing else.
pub proof fn lemma_storage_args(
    contract_dir: Seq<char>,
    main_contract: Seq<char>,
    file_name: Seq<char>,
    storage_path: Seq<char>,
)
    ensures
        storage_args(contract_dir, main_contract, file_name, storage_path).len() == 8,
        storage_args(contract_dir, main_contract, file_name, storage_path)[0] == "storage"@,
        storage_args(contract_dir, main_contract, file_name, storage_path)[1] == contract_dir,
        storage_args(contract_dir, main_contract, file_name, storage_path)[2] == "-c"@,
        storage_args(contract_dir, main_contract, file_name, storage_path)[3] == main_contract,
        storage_args(contract_dir, main_contract, file_name, storage_path)[4] == "-cf"@,
        storage_args(contract_dir, main_contract, file_name, storage_path)[5] == file_name,
        storage_args(contract_dir, main_contract, file_name, storage_path)[6] == "-o"@,
        storage_args(contract_dir, main_contract, file_name, storage_path)[7] == storage_path,
{
}

/// The command line of the class diagram endpoint.
pub fn uml_command(contract_dir: &str, uml_path: &str) -> (r: Sol2Uml)
    ensures
        r@ == uml_args(contract_dir@, uml_path@),
{
    let command = Sol2Uml::new().arg("class").arg(contract_dir).arg("--hideFilename").arg(
        "-o",
    ).arg(uml_path);
    assert(command@ =~= uml_args(contract_dir@, uml_path@));
    command
}

/// The command line of the storage layout endpoint, or a client error when
/// the main contract's path names no file.
pub fn storage_command(request: &SolToStorageRequest, contract_dir: &str, storage_path: &str) -> (r:
    Result<Sol2Uml, ServiceError>)
    ensures
        match path_file_name(request.main_contract_filename@) {
            None => r matches Err(ServiceError::BadRequest(m)) && m@
                == missing_file_name_message(),
            Some(name) => r matches Ok(command) && command@ == storage_args(
                contract_dir@,
                request.main_contract@,
                name,
                storage_path@,
            ),
        },
        ends_with_parent_dir(request.main_contract_filename@) ==> r matches Err(
            ServiceError::BadRequest(_),
        ),
        plain_file_name(request.main_contract_filename@) matches Some(n) ==> (r matches Ok(command)
                && command@ == storage_args(contract_dir@, request.main_contract@, n, storage_path@)),
{
    match file_name(request.main_contract_filename.as_str()) {
        None => Err(
            ServiceError::BadRequest(
                String::from_str("Error. Main contract filename should contain filename."),
            ),
        ),
        Some(name) => {
            let command = Sol2Uml::new().arg("storage").arg(contract_dir).arg("-c").arg(
                request.main_contract.as_str(),
            ).arg("-cf").arg(name.as_str()).arg("-o").arg(storage_path);
            assert(command@ =~= storage_args(
                contract_dir@,
                request.main_contract@,
                name@,
                storage_path@,
            ));
            Ok(command)
        },
    }
}

/// Where an answer of the UML service stands.
#[derive(Debug, Clone, Copy, PartialEq, Eq, Structural)]
pub enum AnswerStage {
    /// The sources are being written.
    WritingSources,
    /// `sol2uml` is drawing the diagram.
    RunningTool,
    /// The diagram is being read.
    ReadingDiagram,
    /// The answer has been given.
    Finished,
}

/// How the last action of an answer went.
#[derive(Debug)]
pub enum AnswerEvent<E> {
    /// What writing each source file gave, in the order of the files.
    SourcesWritten(Vec<FileOutcome>),
    /// `sol2uml` exited (whether it succeeded, and what it printed on its
    /// error stream), or could not be started.
    ToolFinished(Result<(bool, Vec<u8>), E>),
    /// The diagram's text, or why it could not be read.
    DiagramRead(Result<String, E>),
}

/// Whether an event reports on the action of the given stage.
pub open spec fn answer_event_fits<E>(stage: AnswerStage, event: AnswerEvent<E>) -> bool {
    match event {
        AnswerEvent::SourcesWritten(_) => stage == AnswerStage::WritingSources,
        AnswerEvent::ToolFinished(_) => stage == AnswerStage::RunningTool,
        AnswerEvent::DiagramRead(_) => stage == AnswerStage::ReadingDiagram,
    }
}

/// Why an answer is not a diagram: the service's own refusal, or a failure
/// of the system it runs on.
#[derive(Debug)]
pub enum AnswerError<E> {
    Service(ServiceError),
    System(E),
}

/// What to do next.
#[derive(Debug)]
pub enum AnswerAction<E> {
    /// Write the sources into the working directory.
    WriteSources,
    /// Run `sol2uml` with this command line.
    RunTool(Sol2Uml),
    /// Read the diagram `sol2uml` drew.
    ReadDiagram,
    /// Answer with the diagram's text or the error, and stop.
    Reply(Result<String, AnswerError<E>>),
}

/// An answer as a value: its stage and the command line it runs.
pub struct AnswerState {
    pub stage: AnswerStage,
    pub command: Seq<Seq<char>>,
}

/// An answer of the UML service under way: the sources are written, then
/// `sol2uml` runs, then its diagram is read; the first failure is the answer.
pub struct AnswerJob {
    stage: AnswerStage,
    command: Option<Sol2Uml>,
    planned: Ghost<Seq<Seq<char>>>,
}

impl View for AnswerJob {
    type V = AnswerState;

    closed spec fn view(&self) -> AnswerState {
        AnswerState { stage: self.stage, command: self.planned@ }
    }
}

impl AnswerJob {
    /// The job holds its command line until it has run it.
    pub closed spec fn wf(&self) -> bool {
        self.stage == AnswerStage::WritingSources ==> (self.command matches Some(c) && c@
            == self.planned@)
    }

    /// Starts an answer: a request whose command line could not be made is
    /// answered at once with that refusal, and nothing is written or run;
    /// otherwise the first action is to write the sources.
    pub fn start<E>(command: Result<Sol2Uml, ServiceError>) -> (r: (AnswerJob, AnswerAction<E>))
        ensures
            r.0.wf(),
            match command {
                Ok(c) => r.0@.stage == AnswerStage::WritingSources && r.0@.command == c@
                    && r.1 is WriteSources,
                Err(e) => {
                    &&& r.0@.stage == AnswerStage::Finished
                    &&& r.1 matches AnswerAction::Reply(Err(AnswerError::Service(f))) && f == e
                },
            },
    {
        match command {
            Ok(c) => {
                let ghost planned = c@;
                (
                    AnswerJob {
                        stage: AnswerStage::WritingSources,
                        command: Some(c),
                        planned: Ghost(planned),
                    },
                    AnswerAction::WriteSources,
                )
            },
            Err(e) => (
                AnswerJob {
                    stage: AnswerStage::Finished,
                    command: None,
                    planned: Ghost(Seq::empty()),
                },
                AnswerAction::Reply(Err(AnswerError::Service(e))),
            ),
        }
    }

    /// Where the answer stands.
    pub fn current_stage(&self) -> (r: AnswerStage)
        ensures
            r == self@.stage,
    {
        self.stage
    }

    /// Takes the outcome of the last action and gives the next one. Written
    /// sources lead to running the command line, and only when every file
    /// was written (otherwise the first failure answers, as
    /// `save_files_result` says); a finished run leads to reading the
    /// diagram, and only when `sol2uml` succeeded (otherwise its complaint
    /// answers, as `sol2uml_result` says); the diagram read is the answer.
    /// A failure of the system answers as itself.
    pub fn step<E>(&mut self, event: AnswerEvent<E>) -> (r: AnswerAction<E>)
        requires
            old(self).wf(),
            answer_event_fits(old(self)@.stage, event),
        ensures
            final(self).wf(),
            final(self)@.command == old(self)@.command,
            match event {
                AnswerEvent::SourcesWritten(outcomes) => match first_failure(outcomes@) {
                    None => {
                        &&& final(self)@.stage == AnswerStage::RunningTool
                        &&& r matches AnswerAction::RunTool(c) && c@ == old(self)@.command
                    },
                    Some(FileOutcome::Aborted(m)) => {
                        &&& final(self)@.stage == AnswerStage::Finished
                        &&& r matches AnswerAction::Reply(
                            Err(AnswerError::Service(ServiceError::InternalServerError(e))),
                        ) && e@ == m@
                    },
                    Some(f) => {
                        &&& final(self)@.stage == AnswerStage::Finished
                        &&& r matches AnswerAction::Reply(
                            Err(AnswerError::Service(ServiceError::BadRequest(e))),
                        ) && e@ == failure_text(f)
                    },
                },
                AnswerEvent::ToolFinished(Err(e)) => {
                    &&& final(self)@.stage == AnswerStage::Finished
                    &&& r matches AnswerAction::Reply(Err(AnswerError::System(f))) && f == e
                },
                AnswerEvent::ToolFinished(Ok((success, stderr))) => match sol2uml_verdict(
                    success,
                    stderr@,
                ) {
                    None => final(self)@.stage == AnswerStage::ReadingDiagram && r is ReadDiagram,
                    Some(Ok(text)) => {
                        &&& final(self)@.stage == AnswerStage::Finished
                        &&& r matches AnswerAction::Reply(
                            Err(AnswerError::Service(ServiceError::BadRequest(m))),
                        ) && m@ == text
                    },
                    Some(Err(())) => {
                        &&& final(self)@.stage == AnswerStage::Finished
                        &&& r matches AnswerAction::Reply(
                            Err(AnswerError::Service(ServiceError::BadRequest(_))),
                        )
                    },
                },
                AnswerEvent::DiagramRead(Ok(text)) => {
                    &&& final(self)@.stage == AnswerStage::Finished
                    &&& r matches AnswerAction::Reply(Ok(t)) && t == text
                },
                AnswerEvent::DiagramRead(Err(e)) => {
                    &&& final(self)@.stage == AnswerStage::Finished
                    &&& r matches AnswerAction::Reply(Err(AnswerError::System(f))) && f == e
                },
            },
    {
        match event {
            AnswerEvent::SourcesWritten(outcomes) => match save_files_result(&outcomes) {
                Err(e) => {
                    self.stage = AnswerStage::Finished;
                    AnswerAction::Reply(Err(AnswerError::Service(e)))
                },
                Ok(()) => {
                    let command = self.command.take();
                    self.stage = AnswerStage::RunningTool;
                    match command {
                        Some(c) => AnswerAction::RunTool(c),
                        None => AnswerAction::RunTool(Sol2Uml::new()),
                    }
                },
            },
            AnswerEvent::ToolFinished(Err(e)) => {
                self.stage = AnswerStage::Finished;
                AnswerAction::Reply(Err(AnswerError::System(e)))
            },
            AnswerEvent::ToolFinished(Ok((success, stderr))) => match sol2uml_result(
                success,
                stderr.as_slice(),
            ) {
                Err(e) => {
                    self.stage = AnswerStage::Finished;
                    AnswerAction::Reply(Err(AnswerError::Service(e)))
                },
                Ok(()) => {
                    self.stage = AnswerStage::ReadingDiagram;
                    AnswerAction::ReadDiagram
                },
            },
            AnswerEvent::DiagramRead(Ok(text)) => {
                self.stage = AnswerStage::Finished;
                AnswerAction::Reply(Ok(text))
            },
            AnswerEvent::DiagramRead(Err(e)) => {
                self.stage = AnswerStage::Finished;
                AnswerAction::Reply(Err(AnswerError::System(e)))
            },
        }
    }
}

/// The text of a refused main contract path.
pub proof fn lemma_missing_file_name_message()
    ensures
        missing_file_name_message() == "Error. Main contract filename should contain filename."@,
{
}

} // verus!
