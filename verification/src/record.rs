//! The wire records of the generation backend: the request payload sent
//! to it and the per-line response record it streams back.

use vstd::prelude::*;

verus! {

/// What a generation call asks for: which model, and the prompt.
#[derive(Clone, Debug)]
pub struct GenerationRequest {
    pub model: String,
    pub prompt: String,
}

impl GenerationRequest {
    pub fn new(model: String, prompt: String) -> (request: GenerationRequest)
        ensures
            request.model@ == model@,
            request.prompt@ == prompt@,
    {
        GenerationRequest { model, prompt }
    }
}

/// The mathematical content of one generation record.
pub ghost struct RecordView {
    pub model: Seq<char>,
    pub created_at: Seq<char>,
    pub response: Seq<char>,
    pub done: bool,
    pub total_duration: Option<u64>,
    pub load_duration: Option<u64>,
    pub prompt_eval_count: Option<u64>,
    pub prompt_eval_duration: Option<u64>,
    pub eval_count: Option<u64>,
    pub eval_duration: Option<u64>,
    pub thinking: Option<Seq<char>>,
}

/// One record of the generation stream: one line of the response body.
#[derive(Clone, Debug)]
pub struct GenerationResponse {
    /// The name of the model used for the completion.
    pub model: String,
    /// The creation time of the completion, kept as an opaque string.
    pub created_at: String,
    /// The completion text: the whole completion, or one fragment of it
    /// when the completion is streaming.
    pub response: String,
    /// Whether the completion is done; while streaming, false until the
    /// last record.
    pub done: bool,
    /// Time spent generating the response, in nanoseconds.
    pub total_duration: Option<u64>,
    /// Time spent loading the model, in nanoseconds.
    pub load_duration: Option<u64>,
    /// Number of tokens in the prompt.
    pub prompt_eval_count: Option<u64>,
    /// Time spent evaluating the prompt, in nanoseconds.
    pub prompt_eval_duration: Option<u64>,
    /// Number of tokens in the response.
    pub eval_count: Option<u64>,
    /// Time spent generating the response, in nanoseconds.
    pub eval_duration: Option<u64>,
    /// Text that stood inside thinking tags of the raw model output.
    pub thinking: Option<String>,
}

/// The record contents carried by a vector of records.
pub open spec fn record_views(records: Seq<GenerationResponse>) -> Seq<RecordView> {
    records.map_values(|record: GenerationResponse| record@)
}

impl View for GenerationResponse {
    type V = RecordView;

    open spec fn view(&self) -> RecordView {
        RecordView {
            model: self.model@,
            created_at: self.created_at@,
            response: self.response@,
            done: self.done,
            total_duration: self.total_duration,
            load_duration: self.load_duration,
            prompt_eval_count: self.prompt_eval_count,
            prompt_eval_duration: self.prompt_eval_duration,
            eval_count: self.eval_count,
            eval_duration: self.eval_duration,
            thinking: match self.thinking {
                Some(ref text) => Some(text@),
                None => None,
            },
        }
    }
}

} // verus!
