use vstd::prelude::*;

use crate::cache::Cache;
use crate::context::ShellContext;
use crate::context::spec_prompt_context;
use crate::fingerprint::spec_generate_key;
use crate::mode::RequestMode;
use crate::mode::spec_mode_id;
use crate::prompt::PromptBuilder;
use crate::prompt::spec_build;
use crate::prompt::spec_instructions_for;
use crate::prompt::spec_max_tokens_for;
use crate::provider::ProviderConfig;
use crate::provider::ProviderError;

verus! {

/// What one pass of the pipeline decided after the cache check: either
/// the cached text is the answer and all provider work is skipped, or
/// exactly one provider call remains, fully prepared.
pub enum PreparedRequest {
    /// The cache already holds the answer for this request.
    CacheHit { text: String },
    /// The provider must be called with these prepared values; the
    /// result is then handed to `complete` under the same key.
    ProviderCall { key: String, instructions: String, prompt: String, max_tokens: u32 },
}

/// Drives one request through its states: derive the key, check the
/// cache, and on a miss prepare the single provider call whose outcome
/// is written back.  One pass per invocation; nothing is persisted but
/// the cache entry.
pub struct RequestOrchestrator {
    pub cache: Cache,
    pub config: ProviderConfig,
    pub context: ShellContext,
}

impl RequestOrchestrator {
    /// The cache key of a request: input text, OS identifier, shell
    /// identifier and mode identifier, in that fixed order.  The working
    /// directory is deliberately not hashed, although the prompt embeds
    /// it: two directories with otherwise identical requests share a
    /// cache entry.
    pub open spec fn request_key(self, input: Seq<char>, mode: RequestMode) -> Seq<char> {
        spec_generate_key(
            input,
            self.context.operating_system@,
            self.context.shell_name@,
            spec_mode_id(mode),
        )
    }

    /// The context block embedded in this orchestrator's prompts.
    pub open spec fn context_block(self) -> Seq<char> {
        spec_prompt_context(
            self.context.operating_system@,
            self.context.shell_name@,
            self.context.working_directory@,
        )
    }

    pub fn new(cache: Cache, config: ProviderConfig, context: ShellContext) -> (r:
        RequestOrchestrator)
        ensures
            r.cache == cache,
            r.config == config,
            r.context == context,
    {
        RequestOrchestrator { cache, config, context }
    }

    /// Derives the key and checks the cache.  On a hit the cached text is
    /// terminal and every provider step is skipped; on a miss the one
    /// provider call is prepared: instructions and budget for the mode,
    /// and the prompt built from the context block and the tagged input.
    pub fn prepare(&self, input: &str, mode: RequestMode) -> (r: PreparedRequest)
        ensures
            match r {
                PreparedRequest::CacheHit { text } => self.cache.contents().contains_pair(
                    self.request_key(input@, mode),
                    text@,
                ),
                PreparedRequest::ProviderCall { key, instructions, prompt, max_tokens } => {
                    &&& key@ == self.request_key(input@, mode)
                    &&& instructions@ == spec_instructions_for(mode)
                    &&& prompt@ == spec_build(self.context_block(), input@, mode)
                    &&& max_tokens == spec_max_tokens_for(mode)
                },
            },
            self.cache.reliable() && self.cache.contents().contains_key(
                self.request_key(input@, mode),
            ) ==> (r matches PreparedRequest::CacheHit { text } && text@
                == self.cache.contents()[self.request_key(input@, mode)]),
            self.cache.reliable() && !self.cache.contents().contains_key(
                self.request_key(input@, mode),
            ) ==> r matches PreparedRequest::ProviderCall { .. },
    {
        let key = Cache::generate_key(
            input,
            self.context.operating_system.as_str(),
            self.context.shell_name.as_str(),
            mode.id(),
        );
        match self.cache.get(key.as_str()) {
            Option::Some(text) => PreparedRequest::CacheHit { text },
            Option::None => {
                let instructions = PromptBuilder::instructions_for(mode);
                let prompt = PromptBuilder::build(&self.context, input, mode);
                let max_tokens = PromptBuilder::max_tokens_for(mode);
                PreparedRequest::ProviderCall { key, instructions, prompt, max_tokens }
            },
        }
    }

    /// Finishes a request after the provider call: a success is written
    /// back under the derived key and returned; a failure is terminal,
    /// writes nothing, and is surfaced unchanged to the caller.
    pub fn complete(&mut self, key: String, outcome: Result<String, ProviderError>) -> (r: Result<
        String,
        ProviderError,
    >)
        ensures
            final(self).config == old(self).config,
            final(self).context == old(self).context,
            final(self).cache.reliable() == old(self).cache.reliable(),
            match outcome {
                Result::Ok(text) => {
                    &&& (r matches Result::Ok(t) && t == text)
                    &&& (final(self).cache.contents() == old(self).cache.contents().insert(
                        key@,
                        text@,
                    ) || final(self).cache.contents() == old(self).cache.contents())
                    &&& (old(self).cache.reliable() ==> final(self).cache.contents() == old(
                        self,
                    ).cache.contents().insert(key@, text@))
                },
                Result::Err(e) => {
                    &&& (r matches Result::Err(e2) && e2 == e)
                    &&& final(self).cache.contents() == old(self).cache.contents()
                },
            },
    {
        match outcome {
            Result::Ok(text) => {
                self.cache.insert(key, text.clone());
                Result::Ok(text)
            },
            Result::Err(e) => Result::Err(e),
        }
    }
}

/// A hit replays exactly what was stored: once the contents hold the
/// derived key, a reliable cache makes `prepare` return the stored text
/// and skip the provider call entirely.
pub proof fn lemma_replay_after_write(
    contents: Map<Seq<char>, Seq<char>>,
    key: Seq<char>,
    text: Seq<char>,
)
    ensures
        contents.insert(key, text).contains_key(key),
        contents.insert(key, text)[key] == text,
{
}

} // verus!
