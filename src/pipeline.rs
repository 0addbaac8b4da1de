//! The per-request pipeline: extraction, rewriting, chunking, then speech
//! synthesis and delivery of each chunk in order.
//!
//! The pipeline decides; its driver acts. Each call of [`Pipeline::step`]
//! takes the outcome of the previous action and returns the next action. The
//! first failure is reported once, labelled with its stage, and ends the
//! request.
use vstd::prelude::*;
use vstd::string::StringExecFns;
use crate::chunker::{chunks_of, chunk_text_by_lines};
use crate::lines::views;
use crate::text::{decimal, decimal_text};

verus! {

/// The largest chunk, in characters, that is sent to speech synthesis.
pub const MAX_CHUNK_SIZE: usize = 4096;

/// The stage of a request at which a failure happened.
#[derive(Clone, Copy, PartialEq, Eq, Structural, Debug)]
pub enum Stage {
    Extraction,
    Rewrite,
    /// Speech synthesis of the chunk with this index.
    Synthesis(usize),
    /// Delivery of the audio of the chunk with this index.
    Delivery(usize),
}

/// A failure at one stage, with the underlying error's detail.
#[derive(Debug)]
pub struct StageError {
    pub stage: Stage,
    pub detail: String,
}

/// The label that names a stage in an error message.
pub open spec fn stage_label(stage: Stage) -> Seq<char> {
    match stage {
        Stage::Extraction => "Error retrieving blog text"@,
        Stage::Rewrite => "Error editing text"@,
        Stage::Synthesis(i) => "Error converting part "@ + decimal(i as nat) + " to speech"@,
        Stage::Delivery(i) => "Error sending part "@ + decimal(i as nat),
    }
}

/// The message that reports a failure: `Error: <label> <detail>`.
pub open spec fn error_text(stage: Stage, detail: Seq<char>) -> Seq<char> {
    "Error: "@ + stage_label(stage) + " "@ + detail
}

/// The file name under which the audio of chunk `i` is delivered.
pub open spec fn part_name(i: nat) -> Seq<char> {
    "part_"@ + decimal(i) + ".mp3"@
}

fn label_text(stage: Stage) -> (r: String)
    ensures
        r@ == stage_label(stage),
{
    match stage {
        Stage::Extraction => String::from_str("Error retrieving blog text"),
        Stage::Rewrite => String::from_str("Error editing text"),
        Stage::Synthesis(i) => {
            let mut s = String::from_str("Error converting part ");
            let n = decimal_text(i);
            s.append(n.as_str());
            s.append(" to speech");
            s
        },
        Stage::Delivery(i) => {
            let mut s = String::from_str("Error sending part ");
            let n = decimal_text(i);
            s.append(n.as_str());
            s
        },
    }
}

impl StageError {
    /// The message that reports this failure to the requester.
    pub fn message(&self) -> (r: String)
        ensures
            r@ == error_text(self.stage, self.detail@),
    {
        let mut s = String::from_str("Error: ");
        let label = label_text(self.stage);
        s.append(label.as_str());
        s.append(" ");
        s.append(self.detail.as_str());
        s
    }
}

/// Renders the file name of the audio of chunk `i`.
pub fn part_file_name(i: usize) -> (r: String)
    ensures
        r@ == part_name(i as nat),
{
    let mut s = String::from_str("part_");
    let n = decimal_text(i);
    s.append(n.as_str());
    s.append(".mp3");
    s
}

/// Where a request stands.
#[derive(Clone, Copy, PartialEq, Eq, Structural, Debug)]
pub enum Phase {
    /// Created, nothing done yet.
    Received,
    /// The acknowledgement is being sent.
    Acknowledging,
    /// The page text is being extracted.
    Extracting,
    /// The extracted text is being rewritten.
    Rewriting,
    /// The chunk at `next` is being converted to speech.
    Synthesizing,
    /// The audio of the chunk at `next` is being delivered.
    Delivering,
    /// Every chunk was delivered.
    Done,
    /// A stage failed and the failure was reported.
    Failed,
}

/// The outcome of the previous action, handed to the pipeline by its driver.
pub enum Event {
    /// The request arrived.
    Started,
    /// The acknowledgement went out, or failed to: it gates nothing.
    Acknowledged,
    /// The page text, or the extraction error's detail.
    Extracted(Result<String, String>),
    /// The rewritten text, or the rewrite error's detail.
    Rewritten(Result<String, String>),
    /// The audio of the current chunk, or the synthesis error's detail.
    Synthesized(Result<Vec<u8>, String>),
    /// The delivery of the current chunk's audio, or its error's detail.
    Delivered(Result<(), String>),
}

/// What the driver is to do next.
pub enum Action {
    /// Send the acknowledgement to the requester.
    Acknowledge,
    /// Extract the article text of the page at this URL.
    Extract(String),
    /// Rewrite this text.
    Rewrite(String),
    /// Convert the chunk with this index and text to speech.
    Synthesize(usize, String),
    /// Deliver this audio of the chunk with this index under this file name.
    Deliver(usize, String, Vec<u8>),
    /// Send this error message to the requester; the request is over.
    Report(String),
    /// The request is complete.
    Finish,
    /// The event does not fit the phase: nothing to do.
    Ignore,
}

/// The state of one request.
pub struct Pipeline {
    pub phase: Phase,
    /// The URL of the page to read.
    pub url: String,
    /// The chunks of the rewritten text, once it is known.
    pub chunks: Vec<String>,
    /// The index of the chunk being synthesized or delivered.
    pub next: usize,
}

impl Pipeline {
    /// The current chunk exists while one is synthesized or delivered.
    pub open spec fn wf(&self) -> bool {
        (self.phase == Phase::Synthesizing || self.phase == Phase::Delivering) ==> self.next
            < self.chunks@.len()
    }

    /// Whether the request is over.
    pub open spec fn spec_finished(&self) -> bool {
        self.phase == Phase::Done || self.phase == Phase::Failed
    }
}

/// `post` has failed at `stage` with `detail`, and `a` reports it.
pub open spec fn fails_with(
    pre: Pipeline,
    post: Pipeline,
    a: Action,
    stage: Stage,
    detail: Seq<char>,
) -> bool {
    &&& post.phase == Phase::Failed
    &&& post.url == pre.url
    &&& post.chunks == pre.chunks
    &&& post.next == pre.next
    &&& a matches Action::Report(m) && m@ == error_text(stage, detail)
}

/// `post` moves on to synthesize chunk `i` of its chunks, or finishes when
/// there is none, and `a` says so.
pub open spec fn goes_to_chunk(post: Pipeline, a: Action, i: nat) -> bool {
    &&& post.next == i
    &&& if i < post.chunks@.len() {
        &&& post.phase == Phase::Synthesizing
        &&& a matches Action::Synthesize(k, c) && k == i && c@ == post.chunks@[i as int]@
    } else {
        &&& post.phase == Phase::Done
        &&& a == Action::Finish
    }
}

/// One step of a request: from `pre`, on event `ev`, to `post`, with action
/// `a`. An event that does not fit the phase changes nothing.
pub open spec fn transition(pre: Pipeline, ev: Event, post: Pipeline, a: Action) -> bool {
    let keeps = post.url == pre.url && post.chunks == pre.chunks;
    match ev {
        Event::Started if pre.phase == Phase::Received => {
            &&& keeps
            &&& post.next == pre.next
            &&& post.phase == Phase::Acknowledging
            &&& a == Action::Acknowledge
        },
        Event::Acknowledged if pre.phase == Phase::Acknowledging => {
            &&& keeps
            &&& post.next == pre.next
            &&& post.phase == Phase::Extracting
            &&& a matches Action::Extract(u) && u@ == pre.url@
        },
        Event::Extracted(Ok(t)) if pre.phase == Phase::Extracting => {
            &&& keeps
            &&& post.next == pre.next
            &&& post.phase == Phase::Rewriting
            &&& a == Action::Rewrite(t)
        },
        Event::Extracted(Err(d)) if pre.phase == Phase::Extracting => {
            fails_with(pre, post, a, Stage::Extraction, d@)
        },
        Event::Rewritten(Ok(t)) if pre.phase == Phase::Rewriting => {
            &&& post.url == pre.url
            &&& views(post.chunks@) == chunks_of(t@, MAX_CHUNK_SIZE as nat)
            &&& goes_to_chunk(post, a, 0)
        },
        Event::Rewritten(Err(d)) if pre.phase == Phase::Rewriting => {
            fails_with(pre, post, a, Stage::Rewrite, d@)
        },
        Event::Synthesized(Ok(audio)) if pre.phase == Phase::Synthesizing => {
            &&& keeps
            &&& post.next == pre.next
            &&& post.phase == Phase::Delivering
            &&& a matches Action::Deliver(k, name, b) && k == pre.next && name@ == part_name(
                pre.next as nat,
            ) && b == audio
        },
        Event::Synthesized(Err(d)) if pre.phase == Phase::Synthesizing => {
            fails_with(pre, post, a, Stage::Synthesis(pre.next), d@)
        },
        Event::Delivered(Ok(())) if pre.phase == Phase::Delivering => {
            &&& keeps
            &&& goes_to_chunk(post, a, (pre.next + 1) as nat)
        },
        Event::Delivered(Err(d)) if pre.phase == Phase::Delivering => {
            fails_with(pre, post, a, Stage::Delivery(pre.next), d@)
        },
        _ => post == pre && a == Action::Ignore,
    }
}

impl Pipeline {
    /// A new request for the page at `url`.
    pub fn new(url: String) -> (r: Pipeline)
        ensures
            r.phase == Phase::Received,
            r.url == url,
            r.chunks@.len() == 0,
            r.next == 0,
            r.wf(),
    {
        Pipeline { phase: Phase::Received, url, chunks: Vec::new(), next: 0 }
    }

    /// Whether the request is over, done or failed.
    pub fn is_finished(&self) -> (r: bool)
        ensures
            r == self.spec_finished(),
    {
        self.phase == Phase::Done || self.phase == Phase::Failed
    }

    fn fail(&mut self, stage: Stage, detail: String) -> (a: Action)
        ensures
            fails_with(*old(self), *final(self), a, stage, detail@),
    {
        self.phase = Phase::Failed;
        let e = StageError { stage, detail };
        Action::Report(e.message())
    }

    fn start_chunk(&mut self, i: usize) -> (a: Action)
        requires
            i <= old(self).chunks@.len(),
        ensures
            final(self).url == old(self).url,
            final(self).chunks == old(self).chunks,
            goes_to_chunk(*final(self), a, i as nat),
    {
        self.next = i;
        if i < self.chunks.len() {
            self.phase = Phase::Synthesizing;
            Action::Synthesize(i, self.chunks[i].clone())
        } else {
            self.phase = Phase::Done;
            Action::Finish
        }
    }

    /// Takes the outcome of the previous action and returns the next action.
    pub fn step(&mut self, event: Event) -> (a: Action)
        requires
            old(self).wf(),
        ensures
            final(self).wf(),
            transition(*old(self), event, *final(self), a),
    {
        match event {
            Event::Started => {
                if self.phase == Phase::Received {
                    self.phase = Phase::Acknowledging;
                    Action::Acknowledge
                } else {
                    Action::Ignore
                }
            },
            Event::Acknowledged => {
                if self.phase == Phase::Acknowledging {
                    self.phase = Phase::Extracting;
                    Action::Extract(self.url.clone())
                } else {
                    Action::Ignore
                }
            },
            Event::Extracted(outcome) => {
                if self.phase == Phase::Extracting {
                    match outcome {
                        Ok(t) => {
                            self.phase = Phase::Rewriting;
                            Action::Rewrite(t)
                        },
                        Err(d) => self.fail(Stage::Extraction, d),
                    }
                } else {
                    Action::Ignore
                }
            },
            Event::Rewritten(outcome) => {
                if self.phase == Phase::Rewriting {
                    match outcome {
                        Ok(t) => {
                            self.chunks = chunk_text_by_lines(t.as_str(), MAX_CHUNK_SIZE);
                            self.start_chunk(0)
                        },
                        Err(d) => self.fail(Stage::Rewrite, d),
                    }
                } else {
                    Action::Ignore
                }
            },
            Event::Synthesized(outcome) => {
                if self.phase == Phase::Synthesizing {
                    match outcome {
                        Ok(audio) => {
                            self.phase = Phase::Delivering;
                            Action::Deliver(self.next, part_file_name(self.next), audio)
                        },
                        Err(d) => self.fail(Stage::Synthesis(self.next), d),
                    }
                } else {
                    Action::Ignore
                }
            },
            Event::Delivered(outcome) => {
                if self.phase == Phase::Delivering {
                    match outcome {
                        Ok(()) => {
                            let n = self.chunks.len();
                            assert(self.next < n);
                            self.start_chunk(self.next + 1)
                        },
                        Err(d) => self.fail(Stage::Delivery(self.next), d),
                    }
                } else {
                    Action::Ignore
                }
            },
        }
    }
}

} // verus!
