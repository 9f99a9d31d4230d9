use crate::commands::{detect_command, detect_spec, strings_view, CommandDetection};
use crate::error::LocaltypeError;
use crate::text::{lower_of, trim_spec};
use vstd::prelude::*;
use vstd::string::*;

verus! {

/// The single global state of a pipeline instance.
#[derive(Debug, Clone, Copy, PartialEq, Eq, Structural)]
pub enum PipelineState {
    Idle,
    Recording,
    Transcribing,
    Processing,
    Done,
    Error,
}

impl Default for PipelineState {
    fn default() -> (r: Self)
        ensures
            r == PipelineState::Idle,
    {
        PipelineState::Idle
    }
}

/// A pipeline that is busy with a session cannot start another one.
pub open spec fn is_busy(s: PipelineState) -> bool {
    s == PipelineState::Recording || s == PipelineState::Transcribing || s
        == PipelineState::Processing
}

/// The state after a `start`: a busy pipeline refuses, any other one records
/// (a finished one being reset to idle first).
pub open spec fn start_spec(s: PipelineState) -> Result<PipelineState, ()> {
    if is_busy(s) {
        Err(())
    } else {
        Ok(PipelineState::Recording)
    }
}

/// The state after a partial transcription: the first non-empty one moves a
/// recording pipeline to transcribing.
pub open spec fn partial_spec(s: PipelineState, text: Seq<char>) -> PipelineState {
    if s == PipelineState::Recording && text.len() > 0 {
        PipelineState::Transcribing
    } else {
        s
    }
}

/// The decisions of the pipeline, apart from the work they start.
pub struct PipelineMachine {
    state: PipelineState,
}

impl PipelineMachine {
    pub closed spec fn state_spec(&self) -> PipelineState {
        self.state
    }

    pub fn new() -> (r: Self)
        ensures
            r.state_spec() == PipelineState::Idle,
    {
        PipelineMachine { state: PipelineState::Idle }
    }

    pub fn state(&self) -> (r: PipelineState)
        ensures
            r == self.state_spec(),
    {
        self.state
    }

    /// Begins a session. Fails with `InvalidState`, changing nothing, while a
    /// session is recording, transcribing or processing.
    pub fn start(&mut self) -> (r: Result<(), LocaltypeError>)
        ensures
            is_busy(old(self).state_spec()) <==> r is Err,
            r is Err ==> r->Err_0 is InvalidState && final(self).state_spec() == old(
                self,
            ).state_spec(),
            r is Ok ==> final(self).state_spec() == PipelineState::Recording,
            start_spec(old(self).state_spec()) == (match r {
                Ok(_) => Ok(final(self).state_spec()),
                Err(_) => Err(()),
            }),
    {
        match self.state {
            PipelineState::Recording | PipelineState::Transcribing | PipelineState::Processing => {
                return Err(
                    LocaltypeError::InvalidState(
                        String::from_str("Cannot start pipeline while a session is active"),
                    ),
                );
            },
            PipelineState::Done | PipelineState::Error => {
                self.state = PipelineState::Idle;
            },
            PipelineState::Idle => {},
        }
        self.state = PipelineState::Recording;
        Ok(())
    }

    /// Notes a partial transcription.
    pub fn on_partial(&mut self, text: &str)
        ensures
            final(self).state_spec() == partial_spec(old(self).state_spec(), text@),
    {
        if self.state == PipelineState::Recording && text.unicode_len() > 0 {
            self.state = PipelineState::Transcribing;
        }
    }

    /// Ends the transcription stage. An empty transcription returns the pipeline
    /// to idle and asks for no processing; otherwise the pipeline is processing the
    /// returned command.
    pub fn finish_transcription(&mut self, transcript: &str, dictionary_terms: Vec<String>) -> (r:
        Option<CommandDetection>)
        ensures
            transcript@.len() == 0 <==> r is None,
            r is None ==> final(self).state_spec() == PipelineState::Idle,
            r matches Some(d) ==> final(self).state_spec() == PipelineState::Processing && d@
                == detect_spec(
                trim_spec(transcript@),
                lower_of(trim_spec(transcript@)),
                strings_view(dictionary_terms@),
            ),
    {
        if transcript.unicode_len() == 0 {
            self.state = PipelineState::Idle;
            None
        } else {
            self.state = PipelineState::Processing;
            Some(detect_command(transcript, dictionary_terms))
        }
    }

    /// Ends the processing stage and returns the text to deliver: the model's
    /// output, or on its failure the raw transcription, which ends in `Error`.
    pub fn finish_processing(&mut self, raw: String, outcome: Result<String, String>) -> (r: String)
        ensures
            outcome matches Ok(t) ==> r == t && final(self).state_spec() == PipelineState::Done,
            outcome is Err ==> r == raw && final(self).state_spec() == PipelineState::Error,
    {
        match outcome {
            Ok(t) => {
                self.state = PipelineState::Done;
                t
            },
            Err(_) => {
                self.state = PipelineState::Error;
                raw
            },
        }
    }
}

/// A second `start` with no `stop` in between is refused.
pub proof fn lemma_start_twice_fails(s: PipelineState)
    requires
        start_spec(s) is Ok,
    ensures
        start_spec(start_spec(s)->Ok_0) is Err,
{
}

/// Starting from `Done` or `Error` goes on to `Recording`.
pub proof fn lemma_start_after_finish(s: PipelineState)
    requires
        s == PipelineState::Done || s == PipelineState::Error,
    ensures
        start_spec(s) == Ok::<PipelineState, ()>(PipelineState::Recording),
{
}

} // verus!
