//! The course of a visualization: write the sources, run `sol2uml` once for
//! each drawing wanted, read each drawing it made, reply. The caller performs
//! each action and reports how it went; the job decides what comes next.

use vstd::prelude::*;
use crate::internal::Sol2Uml;
use crate::response::{mask_selects, Response, ResponseFieldMask};
use crate::visualize::{drawing_kinds, lemma_wanted_kinds, wanted_kinds, Drawing};

verus! {

/// Where a visualization stands.
#[derive(Debug, Clone, Copy, PartialEq, Eq, Structural)]
pub enum Stage {
    /// The sources are being written.
    WritingSources,
    /// `sol2uml` is making a drawing.
    RunningTool,
    /// The drawing just made is being read.
    ReadingDrawing,
    /// The reply has been given.
    Finished,
}

/// How the last action went; a failure carries the error to reply with.
#[derive(Debug, PartialEq, Eq)]
pub enum Event<E> {
    /// The sources were written, or why not.
    SourcesWritten(Result<(), E>),
    /// `sol2uml` finished, and how.
    ToolFinished(Result<(), E>),
    /// The drawing's bytes, or why they could not be read.
    DrawingRead(Result<Vec<u8>, E>),
}

/// Whether an event reports on the action of the given stage.
pub open spec fn event_fits<E>(stage: Stage, event: Event<E>) -> bool {
    match event {
        Event::SourcesWritten(_) => stage == Stage::WritingSources,
        Event::ToolFinished(_) => stage == Stage::RunningTool,
        Event::DrawingRead(_) => stage == Stage::ReadingDrawing,
    }
}

/// What to do next.
#[derive(Debug, PartialEq, Eq)]
pub enum Action<E> {
    /// Write the sources into the working directory.
    WriteSources,
    /// Run `sol2uml` with this command line.
    RunTool(Sol2Uml),
    /// Read the drawing in this file.
    ReadDrawing(String),
    /// Reply, and stop.
    Reply(Result<Response, E>),
}

/// A visualization as a value: its stage, the drawings still to make, the
/// kind and file of the drawing under way, the drawings read so far, the
/// kinds read so far, and the kinds planned at the start.
pub struct RenderState {
    pub stage: Stage,
    pub pending: Seq<Drawing>,
    pub current_kind: ResponseFieldMask,
    pub current_file: String,
    pub svg: Option<Vec<u8>>,
    pub png: Option<Vec<u8>>,
    pub read: Seq<ResponseFieldMask>,
    pub planned: Seq<ResponseFieldMask>,
}

/// The kind under way, as a list: one kind while a drawing is being made or
/// read, none otherwise.
pub open spec fn in_progress(s: RenderState) -> Seq<ResponseFieldMask> {
    if s.stage == Stage::RunningTool || s.stage == Stage::ReadingDrawing {
        seq![s.current_kind]
    } else {
        Seq::empty()
    }
}

/// A visualization that has not finished has planned exactly the kinds it
/// has read, is making, and has still to make, and holds a drawing of a kind
/// exactly when it has read one.
pub open spec fn render_wf(s: RenderState) -> bool {
    s.stage != Stage::Finished ==> {
        &&& s.planned == s.read + in_progress(s) + drawing_kinds(s.pending)
        &&& (s.svg is Some <==> s.read.contains(ResponseFieldMask::Svg))
        &&& (s.png is Some <==> s.read.contains(ResponseFieldMask::Png))
        &&& s.stage == Stage::WritingSources ==> s.read.len() == 0
    }
}

/// The state with another stage.
pub open spec fn at_stage(s: RenderState, stage: Stage) -> RenderState {
    RenderState { stage, ..s }
}

/// Goes on to the next drawing, or replies with the drawings read when none
/// is left.
pub open spec fn advance<E>(s: RenderState) -> (RenderState, Action<E>) {
    if s.pending.len() > 0 {
        (
            RenderState {
                stage: Stage::RunningTool,
                pending: s.pending.drop_first(),
                current_kind: s.pending[0].kind,
                current_file: s.pending[0].output_file,
                ..s
            },
            Action::RunTool(s.pending[0].command),
        )
    } else {
        (
            RenderState { stage: Stage::Finished, svg: None, png: None, ..s },
            Action::Reply(Ok(Response { svg: s.svg, png: s.png })),
        )
    }
}

/// Keeps the drawing just read under the kind under way.
pub open spec fn store(s: RenderState, bytes: Vec<u8>) -> RenderState {
    RenderState {
        svg: if s.current_kind == ResponseFieldMask::Svg {
            Some(bytes)
        } else {
            s.svg
        },
        png: if s.current_kind == ResponseFieldMask::Png {
            Some(bytes)
        } else {
            s.png
        },
        read: s.read.push(s.current_kind),
        ..s
    }
}

/// The next state and action of a visualization in state `s` on `event`: a
/// failure replies with its error; written sources start the first drawing;
/// a finished tool run leads to reading its drawing; a drawing read is kept
/// and the next one started, until none is left and the drawings are the
/// reply.
pub open spec fn render_transition<E>(s: RenderState, event: Event<E>) -> (RenderState, Action<E>) {
    match event {
        Event::SourcesWritten(Err(e)) => (at_stage(s, Stage::Finished), Action::Reply(Err(e))),
        Event::SourcesWritten(Ok(())) => advance(s),
        Event::ToolFinished(Err(e)) => (at_stage(s, Stage::Finished), Action::Reply(Err(e))),
        Event::ToolFinished(Ok(())) => (
            at_stage(s, Stage::ReadingDrawing),
            Action::ReadDrawing(s.current_file),
        ),
        Event::DrawingRead(Err(e)) => (at_stage(s, Stage::Finished), Action::Reply(Err(e))),
        Event::DrawingRead(Ok(bytes)) => advance(store(s, bytes)),
    }
}

/// How many events a visualization still awaits at most.
pub open spec fn events_left(s: RenderState) -> int {
    match s.stage {
        Stage::WritingSources => 1 + 2 * (s.pending.len() as int),
        Stage::RunningTool => 2 + 2 * (s.pending.len() as int),
        Stage::ReadingDrawing => 1 + 2 * (s.pending.len() as int),
        Stage::Finished => 0,
    }
}

/// A visualization under way.
pub struct RenderJob {
    stage: Stage,
    pending: Vec<Drawing>,
    current_kind: ResponseFieldMask,
    current_file: String,
    svg: Option<Vec<u8>>,
    png: Option<Vec<u8>>,
    read: Ghost<Seq<ResponseFieldMask>>,
    planned: Ghost<Seq<ResponseFieldMask>>,
}

impl View for RenderJob {
    type V = RenderState;

    closed spec fn view(&self) -> RenderState {
        RenderState {
            stage: self.stage,
            pending: self.pending@,
            current_kind: self.current_kind,
            current_file: self.current_file,
            svg: self.svg,
            png: self.png,
            read: self.read@,
            planned: self.planned@,
        }
    }
}

impl RenderJob {
    /// Starts a visualization that makes `drawings`, in order: the first
    /// action is always to write the sources.
    pub fn start<E>(drawings: Vec<Drawing>) -> (r: (RenderJob, Action<E>))
        ensures
            r.0@.stage == Stage::WritingSources,
            r.0@.pending == drawings@,
            r.0@.planned == drawing_kinds(drawings@),
            r.0@.read == Seq::<ResponseFieldMask>::empty(),
            r.0@.svg is None,
            r.0@.png is None,
            render_wf(r.0@),
            r.1 == Action::<E>::WriteSources,
    {
        let ghost planned = drawing_kinds(drawings@);
        let job = RenderJob {
            stage: Stage::WritingSources,
            pending: drawings,
            current_kind: ResponseFieldMask::Svg,
            current_file: String::new(),
            svg: None,
            png: None,
            read: Ghost(Seq::empty()),
            planned: Ghost(planned),
        };
        assert(job@.planned =~= job@.read + in_progress(job@) + drawing_kinds(job@.pending));
        (job, Action::WriteSources)
    }

    /// Where the job stands.
    pub fn current_stage(&self) -> (r: Stage)
        ensures
            r == self@.stage,
    {
        self.stage
    }

    fn advance<E>(&mut self) -> (r: Action<E>)
        ensures
            (final(self)@, r) == advance::<E>(old(self)@),
    {
        if self.pending.len() > 0 {
            let drawing = self.pending.remove(0);
            self.stage = Stage::RunningTool;
            self.current_kind = drawing.kind;
            self.current_file = drawing.output_file;
            assert(self.pending@ =~= old(self)@.pending.drop_first());
            Action::RunTool(drawing.command)
        } else {
            self.stage = Stage::Finished;
            let svg = self.svg.take();
            let png = self.png.take();
            Action::Reply(Ok(Response { svg, png }))
        }
    }

    /// Decides the next action from how the last one went.
    pub fn step<E>(&mut self, event: Event<E>) -> (r: Action<E>)
        requires
            render_wf(old(self)@),
            event_fits(old(self)@.stage, event),
        ensures
            (final(self)@, r) == render_transition(old(self)@, event),
            render_wf(final(self)@),
    {
        proof {
            lemma_render_course(self@, event);
        }
        match event {
            Event::SourcesWritten(Err(e)) => {
                self.stage = Stage::Finished;
                Action::Reply(Err(e))
            },
            Event::SourcesWritten(Ok(())) => self.advance(),
            Event::ToolFinished(Err(e)) => {
                self.stage = Stage::Finished;
                Action::Reply(Err(e))
            },
            Event::ToolFinished(Ok(())) => {
                self.stage = Stage::ReadingDrawing;
                Action::ReadDrawing(self.current_file.clone())
            },
            Event::DrawingRead(Err(e)) => {
                self.stage = Stage::Finished;
                Action::Reply(Err(e))
            },
            Event::DrawingRead(Ok(bytes)) => {
                match self.current_kind {
                    ResponseFieldMask::Svg => {
                        self.svg = Some(bytes);
                    },
                    ResponseFieldMask::Png => {
                        self.png = Some(bytes);
                    },
                }
                self.read = Ghost(self.read@.push(self.current_kind));
                self.advance()
            },
        }
    }
}

/// Each step keeps a visualization well formed and its plan unchanged,
/// leaves it fewer events to await (so it replies after at most one event
/// per source write, tool run and drawing read), runs `sol2uml` only once
/// the sources are written, replies exactly when it finishes, and, when it
/// replies with drawings, holds a drawing of each kind it planned and of no
/// other kind.
pub proof fn lemma_render_course<E>(s: RenderState, event: Event<E>)
    requires
        render_wf(s),
        event_fits(s.stage, event),
    ensures
        ({
            let (next, action) = render_transition(s, event);
            &&& render_wf(next)
            &&& next.planned == s.planned
            &&& events_left(next) < events_left(s)
            &&& action is RunTool ==> ((event matches Event::SourcesWritten(Ok(_)))
                || s.stage == Stage::ReadingDrawing)
            &&& action is Reply <==> next.stage == Stage::Finished
            &&& action matches Action::Reply(Ok(response)) ==> {
                &&& response.svg is Some <==> s.planned.contains(ResponseFieldMask::Svg)
                &&& response.png is Some <==> s.planned.contains(ResponseFieldMask::Png)
            }
        }),
{
    match event {
        Event::SourcesWritten(Ok(_)) => {
            if s.pending.len() > 0 {
                let (next, _) = advance::<E>(s);
                assert(drawing_kinds(s.pending) =~= seq![s.pending[0].kind] + drawing_kinds(
                    next.pending,
                ));
                assert(next.planned =~= next.read + in_progress(next) + drawing_kinds(
                    next.pending,
                ));
            } else {
                assert(s.planned =~= s.read + in_progress(s) + drawing_kinds(s.pending));
            }
        },
        Event::ToolFinished(Ok(_)) => {
            let (next, _) = render_transition(s, event);
            assert(in_progress(next) == in_progress(s));
        },
        Event::DrawingRead(Ok(bytes)) => {
            let t = store(s, bytes);
            assert(t.read.contains(s.current_kind)) by {
                assert(t.read[t.read.len() - 1] == s.current_kind);
            }
            assert forall|k: ResponseFieldMask| #[trigger] t.read.contains(k) && k != s.current_kind
                implies s.read.contains(k) by {
                let i = choose|i: int| 0 <= i < t.read.len() && t.read[i] == k;
                assert(s.read[i] == k);
            }
            assert forall|k: ResponseFieldMask| #[trigger] s.read.contains(k) implies t.read.contains(
                k,
            ) by {
                let i = choose|i: int| 0 <= i < s.read.len() && s.read[i] == k;
                assert(t.read[i] == k);
            }
            if t.pending.len() > 0 {
                let (next, _) = advance::<E>(t);
                assert(drawing_kinds(t.pending) =~= seq![t.pending[0].kind] + drawing_kinds(
                    next.pending,
                ));
                assert(next.planned =~= next.read + in_progress(next) + drawing_kinds(
                    next.pending,
                ));
            } else {
                assert(t.planned =~= t.read);
            }
        },
        _ => {},
    }
}

/// A visualization planned from a mask replies, when it replies with
/// drawings, with a drawing of each kind the mask selects (every kind for
/// an empty mask) and of no other kind.
pub proof fn lemma_reply_follows_mask<E>(
    s: RenderState,
    event: Event<E>,
    mask: Set<ResponseFieldMask>,
)
    requires
        render_wf(s),
        event_fits(s.stage, event),
        s.planned == wanted_kinds(mask),
    ensures
        render_transition(s, event).1 matches Action::Reply(Ok(response)) ==> {
            &&& response.svg is Some <==> mask_selects(mask, ResponseFieldMask::Svg)
            &&& response.png is Some <==> mask_selects(mask, ResponseFieldMask::Png)
        },
{
    lemma_render_course(s, event);
    lemma_wanted_kinds(mask, ResponseFieldMask::Svg);
    lemma_wanted_kinds(mask, ResponseFieldMask::Png);
}

/// Every drawing lands in its own field: a drawing read is held under the
/// kind that was being made (SVG bytes under `svg`, PNG bytes under `png`)
/// and the other kind's drawing is kept; any other event keeps the drawings
/// held; and a reply with drawings carries exactly the drawings held.
pub proof fn lemma_drawings_land_in_their_fields<E>(s: RenderState, event: Event<E>)
    ensures
        ({
            let (next, action) = render_transition(s, event);
            let svg = match event {
                Event::DrawingRead(Ok(bytes)) => if s.current_kind == ResponseFieldMask::Svg {
                    Some(bytes)
                } else {
                    s.svg
                },
                _ => s.svg,
            };
            let png = match event {
                Event::DrawingRead(Ok(bytes)) => if s.current_kind == ResponseFieldMask::Png {
                    Some(bytes)
                } else {
                    s.png
                },
                _ => s.png,
            };
            &&& action matches Action::Reply(Ok(response)) ==> response.svg == svg
                && response.png == png
            &&& action !is Reply ==> next.svg == svg && next.png == png
        }),
{
}

/// Each drawing is made by its own command line and read back from its own
/// file: a tool run is the next pending drawing's command, after which the
/// job is making that drawing's kind into that drawing's file; a finished
/// run leads to reading exactly that file, for the same kind.
pub proof fn lemma_drawing_made_and_read<E>(s: RenderState, event: Event<E>)
    ensures
        ({
            let (next, action) = render_transition(s, event);
            &&& action matches Action::RunTool(command) ==> {
                &&& s.pending.len() > 0
                &&& command == s.pending[0].command
                &&& next.current_kind == s.pending[0].kind
                &&& next.current_file == s.pending[0].output_file
                &&& next.pending == s.pending.drop_first()
            }
            &&& action matches Action::ReadDrawing(file) ==> file == s.current_file
                && next.current_kind == s.current_kind
        }),
{
}

/// A failed step is the reply: the job finishes and replies with the very
/// error the failed action gave.
pub proof fn lemma_failure_is_the_reply<E>(s: RenderState, event: Event<E>)
    ensures
        ({
            let (next, action) = render_transition(s, event);
            &&& event matches Event::SourcesWritten(Err(e)) ==> action == Action::<E>::Reply(Err(e))
                && next.stage == Stage::Finished
            &&& event matches Event::ToolFinished(Err(e)) ==> action == Action::<E>::Reply(Err(e))
                && next.stage == Stage::Finished
            &&& event matches Event::DrawingRead(Err(e)) ==> action == Action::<E>::Reply(Err(e))
                && next.stage == Stage::Finished
        }),
{
}

} // verus!
