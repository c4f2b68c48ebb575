use vstd::prelude::*;

verus! {

/// A request mode selects the instruction template, the output token
/// budget, and the textual tag appended to the prompt.  Exactly one mode
/// is active per request and it never changes during the request.
#[derive(Clone, Copy, PartialEq, Eq, Structural, Debug)]
pub enum RequestMode {
    Standard,
    Verbose,
    Alt,
    Explain,
}

/// The identifier hashed into the cache key for a mode.  Distinct modes
/// have distinct identifiers, so the mode axis always distinguishes keys.
pub open spec fn spec_mode_id(mode: RequestMode) -> Seq<char> {
    match mode {
        RequestMode::Standard => "standard"@,
        RequestMode::Verbose => "verbose"@,
        RequestMode::Alt => "alt"@,
        RequestMode::Explain => "explain"@,
    }
}

/// The tag appended to the user request inside the prompt: empty for
/// Standard and Explain, a bracketed marker for Verbose and Alt.
pub open spec fn spec_mode_tag(mode: RequestMode) -> Seq<char> {
    match mode {
        RequestMode::Standard => ""@,
        RequestMode::Verbose => " [verbose]"@,
        RequestMode::Alt => " [alt]"@,
        RequestMode::Explain => ""@,
    }
}

impl RequestMode {
    /// The stable textual identifier of this mode, used as the fourth
    /// component of the cache key.
    pub fn id(self) -> (r: &'static str)
        ensures
            r@ == spec_mode_id(self),
    {
        match self {
            RequestMode::Standard => "standard",
            RequestMode::Verbose => "verbose",
            RequestMode::Alt => "alt",
            RequestMode::Explain => "explain",
        }
    }

    /// The tag appended to the request text inside the prompt.
    pub fn tag(self) -> (r: &'static str)
        ensures
            r@ == spec_mode_tag(self),
    {
        match self {
            RequestMode::Standard => "",
            RequestMode::Verbose => " [verbose]",
            RequestMode::Alt => " [alt]",
            RequestMode::Explain => "",
        }
    }
}

/// Distinct modes always carry distinct identifiers, so two requests that
/// differ only in mode never share a cache key material.
pub proof fn lemma_mode_ids_distinct(m1: RequestMode, m2: RequestMode)
    requires
        m1 != m2,
    ensures
        spec_mode_id(m1) != spec_mode_id(m2),
{
    reveal_strlit("standard");
    reveal_strlit("verbose");
    reveal_strlit("alt");
    reveal_strlit("explain");
    assert(spec_mode_id(m1).len() != spec_mode_id(m2).len() || spec_mode_id(m1)[0]
        != spec_mode_id(m2)[0]);
}

} // verus!
