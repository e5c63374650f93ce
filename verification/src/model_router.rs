//! Arch model selection: Auto / Profile / Exact with fast|balanced|deep|vision.

use vstd::prelude::*;

use crate::text::{
    ascii_lower, ascii_lowercase, chars_of, contains_str, eq_str, has_prefix, has_substring,
    lemma_ascii_lower_idempotent, lemma_trim_lower_commute, starts_with_str, trim, trim_chars, TrimSet,
};

verus! {

/// How the user (or UI) selected a model.
#[derive(Debug, Clone, PartialEq, Eq)]
pub enum ModelMode {
    /// Hybrid router picks profile + reasoning from the prompt/task text.
    Auto,
    /// Explicit profile (still maps to a model family + default reasoning).
    Profile(ModelProfile),
    /// Exact model slug (and optional reasoning left to caller).
    Exact { model: String, reasoning: Option<ReasoningChoice> },
}

/// Named Arch model profiles.
#[derive(Debug, Clone, Copy, PartialEq, Eq, Hash)]
pub enum ModelProfile {
    Fast,
    Balanced,
    Deep,
    Vision,
}

#[derive(Debug, Clone, Copy, PartialEq, Eq, Hash)]
pub enum ReasoningChoice {
    Low,
    Medium,
    High,
    XHigh,
}

/// The name a profile is shown and parsed by.
pub open spec fn profile_name(p: ModelProfile) -> Seq<char> {
    match p {
        ModelProfile::Fast => "fast"@,
        ModelProfile::Balanced => "balanced"@,
        ModelProfile::Deep => "deep"@,
        ModelProfile::Vision => "vision"@,
    }
}

/// The canonical model slug family of a profile.
pub open spec fn profile_slug(p: ModelProfile) -> Seq<char> {
    match p {
        ModelProfile::Fast => "grok-3-mini"@,
        ModelProfile::Balanced => "grok-3"@,
        ModelProfile::Deep => "grok-4"@,
        ModelProfile::Vision => "grok-2-vision"@,
    }
}

/// The reasoning level a profile runs at unless told otherwise.
pub open spec fn profile_reasoning(p: ModelProfile) -> ReasoningChoice {
    match p {
        ModelProfile::Fast => ReasoningChoice::Low,
        ModelProfile::Balanced => ReasoningChoice::Medium,
        ModelProfile::Deep => ReasoningChoice::High,
        ModelProfile::Vision => ReasoningChoice::Low,
    }
}

pub open spec fn reasoning_name(r: ReasoningChoice) -> Seq<char> {
    match r {
        ReasoningChoice::Low => "low"@,
        ReasoningChoice::Medium => "medium"@,
        ReasoningChoice::High => "high"@,
        ReasoningChoice::XHigh => "xhigh"@,
    }
}

/// What `ModelProfile::parse` accepts: the trimmed, ASCII-lowercased text must
/// be one of the profile names or their aliases.
pub open spec fn parse_profile(s: Seq<char>) -> Option<ModelProfile> {
    let t = ascii_lower(trim(s, TrimSet::Whitespace));
    if t == "fast"@ {
        Some(ModelProfile::Fast)
    } else if t == "balanced"@ || t == "default"@ {
        Some(ModelProfile::Balanced)
    } else if t == "deep"@ || t == "thinking"@ {
        Some(ModelProfile::Deep)
    } else if t == "vision"@ || t == "image"@ || t == "multimodal"@ {
        Some(ModelProfile::Vision)
    } else {
        None
    }
}

impl ModelProfile {
    pub fn as_str(self) -> (r: &'static str)
        ensures
            r@ == profile_name(self),
    {
        match self {
            ModelProfile::Fast => "fast",
            ModelProfile::Balanced => "balanced",
            ModelProfile::Deep => "deep",
            ModelProfile::Vision => "vision",
        }
    }

    pub fn parse(s: &str) -> (r: Option<Self>)
        ensures
            r == parse_profile(s@),
    {
        let t = ascii_lowercase(&trim_chars(&chars_of(s), TrimSet::Whitespace));
        if eq_str(&t, "fast") {
            Some(ModelProfile::Fast)
        } else if eq_str(&t, "balanced") || eq_str(&t, "default") {
            Some(ModelProfile::Balanced)
        } else if eq_str(&t, "deep") || eq_str(&t, "thinking") {
            Some(ModelProfile::Deep)
        } else if eq_str(&t, "vision") || eq_str(&t, "image") || eq_str(&t, "multimodal") {
            Some(ModelProfile::Vision)
        } else {
            None
        }
    }

    /// Canonical model slug family for this profile (testable fixed map).
    pub fn model_slug(self) -> (r: &'static str)
        ensures
            r@ == profile_slug(self),
    {
        match self {
            ModelProfile::Fast => "grok-3-mini",
            ModelProfile::Balanced => "grok-3",
            ModelProfile::Deep => "grok-4",
            ModelProfile::Vision => "grok-2-vision",
        }
    }

    pub fn default_reasoning(self) -> (r: ReasoningChoice)
        ensures
            r == profile_reasoning(self),
    {
        match self {
            ModelProfile::Fast => ReasoningChoice::Low,
            ModelProfile::Balanced => ReasoningChoice::Medium,
            ModelProfile::Deep => ReasoningChoice::High,
            ModelProfile::Vision => ReasoningChoice::Low,
        }
    }
}

impl ReasoningChoice {
    pub fn as_str(self) -> (r: &'static str)
        ensures
            r@ == reasoning_name(self),
    {
        match self {
            ReasoningChoice::Low => "low",
            ReasoningChoice::Medium => "medium",
            ReasoningChoice::High => "high",
            ReasoningChoice::XHigh => "xhigh",
        }
    }
}

/// Result of routing for UI + SwitchModel.
#[derive(Debug, Clone, PartialEq, Eq)]
pub struct RouteDecision {
    pub profile: ModelProfile,
    pub model_slug: String,
    pub reasoning: ReasoningChoice,
    pub mode: &'static str,
}

/// A routing decision as plain values: profile, slug, reasoning, mode name.
pub type RouteView = (ModelProfile, Seq<char>, ReasoningChoice, Seq<char>);

impl View for RouteDecision {
    type V = RouteView;

    open spec fn view(&self) -> RouteView {
        (self.profile, self.model_slug@, self.reasoning, self.mode@)
    }
}

/// Vision keywords in the (lowercased) prompt.
pub open spec fn vision_hint(p: Seq<char>) -> bool {
    ||| has_substring(p, "screenshot"@)
    ||| has_substring(p, "image"@)
    ||| has_substring(p, "png"@)
    ||| has_substring(p, "jpg"@)
    ||| has_substring(p, "vision"@)
    ||| has_substring(p, "ui mock"@)
    ||| has_substring(p, "pixel art"@)
}

/// Deep-reasoning keywords in the (lowercased) prompt.
pub open spec fn deep_hint(p: Seq<char>) -> bool {
    ||| has_substring(p, "architect"@)
    ||| has_substring(p, "design a system"@)
    ||| has_substring(p, "root cause"@)
    ||| has_substring(p, "refactor the whole"@)
    ||| has_substring(p, "security audit"@)
    ||| has_substring(p, "trade-off"@)
    ||| has_substring(p, "tradeoff"@)
    ||| has_substring(p, "migrate the monorepo"@)
}

/// Small-task keywords in the (lowercased) prompt.
pub open spec fn fast_hint(p: Seq<char>) -> bool {
    ||| has_substring(p, "quick"@)
    ||| has_substring(p, "typo"@)
    ||| has_substring(p, "rename"@)
    ||| has_substring(p, "one-liner"@)
    ||| has_substring(p, "one liner"@)
    ||| has_substring(p, "fix the nits"@)
    ||| has_prefix(p, "fix "@)
    ||| has_substring(p, "lint error"@)
}

/// The profile Auto routing picks: vision beats deep beats fast; otherwise balanced.
pub open spec fn auto_profile(prompt: Seq<char>) -> ModelProfile {
    let p = ascii_lower(prompt);
    if vision_hint(p) {
        ModelProfile::Vision
    } else if deep_hint(p) {
        ModelProfile::Deep
    } else if fast_hint(p) {
        ModelProfile::Fast
    } else {
        ModelProfile::Balanced
    }
}

/// The decision a profile stands for, under a given mode name.
pub open spec fn profile_route(p: ModelProfile, mode: Seq<char>) -> RouteView {
    (p, profile_slug(p), profile_reasoning(p), mode)
}

/// What `route` decides for a selection mode and prompt.
pub open spec fn route_view(mode: ModelMode, prompt: Seq<char>) -> RouteView {
    match mode {
        ModelMode::Exact { model, reasoning } => {
            let profile = match parse_profile(model@) {
                Some(p) => p,
                None => ModelProfile::Balanced,
            };
            let r = match reasoning {
                Some(r) => r,
                None => profile_reasoning(profile),
            };
            (profile, model@, r, "exact"@)
        },
        ModelMode::Profile(p) => profile_route(p, "profile"@),
        ModelMode::Auto => profile_route(auto_profile(prompt), "auto"@),
    }
}

fn profile_decision(p: ModelProfile, mode: &'static str) -> (d: RouteDecision)
    ensures
        d@ == profile_route(p, mode@),
{
    RouteDecision {
        profile: p,
        model_slug: String::from_str(p.model_slug()),
        reasoning: p.default_reasoning(),
        mode,
    }
}

/// Resolve the active selection mode into a concrete decision.
/// Exact and Profile win over Auto.
pub fn route(mode: &ModelMode, prompt: &str) -> (d: RouteDecision)
    ensures
        d@ == route_view(*mode, prompt@),
{
    match mode {
        ModelMode::Exact { model, reasoning } => {
            let profile = match ModelProfile::parse(model.as_str()) {
                Some(p) => p,
                None => ModelProfile::Balanced,
            };
            let r = match reasoning {
                Some(r) => *r,
                None => profile.default_reasoning(),
            };
            RouteDecision { profile, model_slug: model.clone(), reasoning: r, mode: "exact" }
        },
        ModelMode::Profile(p) => profile_decision(*p, "profile"),
        ModelMode::Auto => {
            let mut d = route_auto(prompt);
            d.mode = "auto";
            d
        },
    }
}

/// Fixed, testable Auto routing rules over prompt/task text.
pub fn route_auto(prompt: &str) -> (d: RouteDecision)
    ensures
        d@ == profile_route(auto_profile(prompt@), "auto"@),
{
    let p = ascii_lowercase(&chars_of(prompt));
    let profile = if looks_like_vision(&p) {
        ModelProfile::Vision
    } else if looks_like_deep(&p) {
        ModelProfile::Deep
    } else if looks_like_fast(&p) {
        ModelProfile::Fast
    } else {
        ModelProfile::Balanced
    };
    profile_decision(profile, "auto")
}

fn looks_like_vision(p: &Vec<char>) -> (r: bool)
    ensures
        r == vision_hint(p@),
{
    contains_str(p, "screenshot") || contains_str(p, "image") || contains_str(p, "png")
        || contains_str(p, "jpg") || contains_str(p, "vision") || contains_str(p, "ui mock")
        || contains_str(p, "pixel art")
}

fn looks_like_deep(p: &Vec<char>) -> (r: bool)
    ensures
        r == deep_hint(p@),
{
    contains_str(p, "architect") || contains_str(p, "design a system") || contains_str(
        p,
        "root cause",
    ) || contains_str(p, "refactor the whole") || contains_str(p, "security audit")
        || contains_str(p, "trade-off") || contains_str(p, "tradeoff") || contains_str(
        p,
        "migrate the monorepo",
    )
}

fn looks_like_fast(p: &Vec<char>) -> (r: bool)
    ensures
        r == fast_hint(p@),
{
    contains_str(p, "quick") || contains_str(p, "typo") || contains_str(p, "rename")
        || contains_str(p, "one-liner") || contains_str(p, "one liner") || contains_str(
        p,
        "fix the nits",
    ) || starts_with_str(p, "fix ") || contains_str(p, "lint error")
}

/// In Profile mode the prompt plays no part: two prompts get the same decision.
pub proof fn law_profile_mode_ignores_prompt(p: ModelProfile, a: Seq<char>, b: Seq<char>)
    ensures
        route_view(ModelMode::Profile(p), a) == route_view(ModelMode::Profile(p), b),
        route_view(ModelMode::Profile(p), a) == profile_route(p, "profile"@),
{
}

/// Exact mode wins over the Auto heuristics: the slug is the one given, and so
/// is the reasoning when one is given, whatever the prompt says.
pub proof fn law_exact_mode_wins(model: String, reasoning: Option<ReasoningChoice>, prompt: Seq<char>)
    ensures
        route_view(ModelMode::Exact { model, reasoning }, prompt).1 == model@,
        reasoning matches Some(r) ==> route_view(ModelMode::Exact { model, reasoning }, prompt).2 == r,
        route_view(ModelMode::Exact { model, reasoning }, prompt).3 == "exact"@,
{
}

/// Auto routing always picks the slug and reasoning of the profile it chose.
pub proof fn law_auto_follows_profile(prompt: Seq<char>)
    ensures
        route_view(ModelMode::Auto, prompt).1 == profile_slug(route_view(ModelMode::Auto, prompt).0),
        route_view(ModelMode::Auto, prompt).2 == profile_reasoning(route_view(ModelMode::Auto, prompt).0),
        route_view(ModelMode::Auto, prompt).3 == "auto"@,
{
}

proof fn lemma_plain_word(s: Seq<char>)
    requires
        s.len() > 0,
        forall|k: int| 0 <= k < s.len() ==> 'a' <= #[trigger] s[k] <= 'z',
    ensures
        ascii_lower(trim(s, TrimSet::Whitespace)) == s,
{
    assert(crate::text::trim_start(s, TrimSet::Whitespace) == s);
    assert(crate::text::trim_end(s, TrimSet::Whitespace) == s);
    assert(ascii_lower(s) =~= s);
}

/// A profile's name parses back to that profile.
pub proof fn law_profile_name_parses(p: ModelProfile)
    ensures
        parse_profile(profile_name(p)) == Some(p),
{
    reveal_strlit("fast");
    reveal_strlit("balanced");
    reveal_strlit("default");
    reveal_strlit("deep");
    reveal_strlit("thinking");
    reveal_strlit("vision");
    reveal_strlit("image");
    reveal_strlit("multimodal");
    lemma_plain_word(profile_name(p));
}

/// Parsing a profile ignores ASCII case: two texts that lowercase alike parse
/// alike.
pub proof fn law_parse_ignores_ascii_case(s: Seq<char>, u: Seq<char>)
    requires
        ascii_lower(s) == ascii_lower(u),
    ensures
        parse_profile(s) == parse_profile(u),
{
    lemma_trim_lower_commute(s);
    lemma_trim_lower_commute(u);
    lemma_ascii_lower_idempotent(trim(s, TrimSet::Whitespace));
    lemma_ascii_lower_idempotent(trim(u, TrimSet::Whitespace));
}

/// A profile's name in any ASCII case (such as `VISION` or `Deep`) parses
/// back to that profile.
pub proof fn law_profile_name_parses_any_case(p: ModelProfile, s: Seq<char>)
    requires
        ascii_lower(s) == profile_name(p),
    ensures
        parse_profile(s) == Some(p),
{
    law_profile_name_parses(p);
    assert(ascii_lower(profile_name(p)) =~= profile_name(p)) by {
        reveal_strlit("fast");
        reveal_strlit("balanced");
        reveal_strlit("deep");
        reveal_strlit("vision");
    }
    law_parse_ignores_ascii_case(s, profile_name(p));
}

/// Auto routing sends every prompt that mentions a vision keyword
/// (`screenshot`, `image`, `png`, `jpg`, `vision`, `ui mock`, `pixel art`, in
/// any ASCII case) to the Vision profile: model `grok-2-vision` at low
/// reasoning.
pub proof fn law_vision_keywords_route_to_vision(prompt: Seq<char>)
    requires
        ({
            let p = ascii_lower(prompt);
            ||| has_substring(p, "screenshot"@)
            ||| has_substring(p, "image"@)
            ||| has_substring(p, "png"@)
            ||| has_substring(p, "jpg"@)
            ||| has_substring(p, "vision"@)
            ||| has_substring(p, "ui mock"@)
            ||| has_substring(p, "pixel art"@)
        }),
    ensures
        auto_profile(prompt) == ModelProfile::Vision,
        route_view(ModelMode::Auto, prompt).0 == ModelProfile::Vision,
        route_view(ModelMode::Auto, prompt).1 == "grok-2-vision"@,
        route_view(ModelMode::Auto, prompt).2 == ReasoningChoice::Low,
{
}

} // verus!
