//! Token pricing catalog for Arch: which price tier a model slug bills at.
//!
//! The prices themselves (USD per million tokens, fractional) and the cost
//! arithmetic live with the renderer; this module decides the tier.

use vstd::prelude::*;

use crate::model_router::{profile_slug, ModelProfile};
use crate::text::{ascii_lower, ascii_lowercase, chars_of, contains_str, has_substring, occurs_at};

verus! {

/// The price families of the built-in catalog.
#[derive(Debug, Clone, Copy, PartialEq, Eq, Hash, Structural)]
pub enum PriceTier {
    /// `mini` / `fast` models.
    Mini,
    /// Vision models.
    Vision,
    /// `grok-4` / deep-reasoning models.
    Deep,
    /// `grok-3` / `grok-build` models.
    Standard,
}

/// The tier a slug bills at: the first family whose marker occurs in the
/// ASCII-lowercased slug, in the order mini/fast, vision, grok-4/deep,
/// grok-3/grok-build; none for an unknown model.
pub open spec fn price_tier(slug: Seq<char>) -> Option<PriceTier> {
    let s = ascii_lower(slug);
    if has_substring(s, "mini"@) || has_substring(s, "fast"@) {
        Some(PriceTier::Mini)
    } else if has_substring(s, "vision"@) {
        Some(PriceTier::Vision)
    } else if has_substring(s, "grok-4"@) || has_substring(s, "deep"@) {
        Some(PriceTier::Deep)
    } else if has_substring(s, "grok-3"@) || has_substring(s, "grok-build"@) {
        Some(PriceTier::Standard)
    } else {
        None
    }
}

/// Built-in Arch catalog: the price tier of a model slug, if it has one.
pub fn price_tier_for_model(slug: &str) -> (r: Option<PriceTier>)
    ensures
        r == price_tier(slug@),
{
    let s = ascii_lowercase(&chars_of(slug));
    // Match slug families used by the router.
    if contains_str(&s, "mini") || contains_str(&s, "fast") {
        return Some(PriceTier::Mini);
    }
    if contains_str(&s, "vision") {
        return Some(PriceTier::Vision);
    }
    if contains_str(&s, "grok-4") || contains_str(&s, "deep") {
        return Some(PriceTier::Deep);
    }
    if contains_str(&s, "grok-3") || contains_str(&s, "grok-build") {
        return Some(PriceTier::Standard);
    }
    None
}

/// Every model the router can pick has a price.
pub proof fn law_router_slugs_are_priced(p: ModelProfile)
    ensures
        price_tier(profile_slug(p)) is Some,
{
    reveal_strlit("grok-3-mini");
    reveal_strlit("grok-3");
    reveal_strlit("grok-4");
    reveal_strlit("grok-2-vision");
    reveal_strlit("mini");
    reveal_strlit("vision");
    reveal_strlit("grok-4");
    reveal_strlit("grok-3");
    let s = ascii_lower(profile_slug(p));
    match p {
        ModelProfile::Fast => {
            assert(s =~= "grok-3-mini"@);
            assert(s.subrange(7, 11) =~= "mini"@);
            assert(occurs_at(s, "mini"@, 7));
        },
        ModelProfile::Balanced => {
            assert(s =~= "grok-3"@);
            assert(s.subrange(0, 6) =~= "grok-3"@);
            assert(occurs_at(s, "grok-3"@, 0));
        },
        ModelProfile::Deep => {
            assert(s =~= "grok-4"@);
            assert(s.subrange(0, 6) =~= "grok-4"@);
            assert(occurs_at(s, "grok-4"@, 0));
        },
        ModelProfile::Vision => {
            assert(s =~= "grok-2-vision"@);
            assert(s.subrange(7, 13) =~= "vision"@);
            assert(occurs_at(s, "vision"@, 7));
        },
    }
}

/// No substring of `h` is `n` when some character of `n` occurs nowhere in `h`.
proof fn lemma_missing_char_no_substring(h: Seq<char>, n: Seq<char>, j: int)
    requires
        0 <= j < n.len(),
        forall|k: int| 0 <= k < h.len() ==> h[k] != n[j],
    ensures
        !has_substring(h, n),
{
    assert forall|i: int| !#[trigger] occurs_at(h, n, i) by {
        if occurs_at(h, n, i) {
            assert(h.subrange(i, i + n.len())[j] == h[i + j]);
        }
    }
}

proof fn lemma_fast_slug_tier()
    ensures
        price_tier(profile_slug(ModelProfile::Fast)) == Some(PriceTier::Mini),
{
    reveal_strlit("grok-3-mini");
    reveal_strlit("mini");
    let s = ascii_lower("grok-3-mini"@);
    assert(s =~= "grok-3-mini"@);
    assert(s.subrange(7, 11) =~= "mini"@);
    assert(occurs_at(s, "mini"@, 7));
}

proof fn lemma_balanced_slug_tier()
    ensures
        price_tier(profile_slug(ModelProfile::Balanced)) == Some(PriceTier::Standard),
{
    reveal_strlit("grok-3");
    reveal_strlit("mini");
    reveal_strlit("fast");
    reveal_strlit("vision");
    reveal_strlit("grok-4");
    reveal_strlit("deep");
    let s = ascii_lower("grok-3"@);
    assert(s =~= "grok-3"@);
    lemma_missing_char_no_substring(s, "mini"@, 0);
    lemma_missing_char_no_substring(s, "fast"@, 0);
    lemma_missing_char_no_substring(s, "vision"@, 0);
    lemma_missing_char_no_substring(s, "grok-4"@, 5);
    lemma_missing_char_no_substring(s, "deep"@, 0);
    assert(s.subrange(0, 6) =~= "grok-3"@);
    assert(occurs_at(s, "grok-3"@, 0));
}

proof fn lemma_deep_slug_tier()
    ensures
        price_tier(profile_slug(ModelProfile::Deep)) == Some(PriceTier::Deep),
{
    reveal_strlit("grok-4");
    reveal_strlit("mini");
    reveal_strlit("fast");
    reveal_strlit("vision");
    let s = ascii_lower("grok-4"@);
    assert(s =~= "grok-4"@);
    lemma_missing_char_no_substring(s, "mini"@, 0);
    lemma_missing_char_no_substring(s, "fast"@, 0);
    lemma_missing_char_no_substring(s, "vision"@, 0);
    assert(s.subrange(0, 6) =~= "grok-4"@);
    assert(occurs_at(s, "grok-4"@, 0));
}

proof fn lemma_vision_slug_tier()
    ensures
        price_tier(profile_slug(ModelProfile::Vision)) == Some(PriceTier::Vision),
{
    reveal_strlit("grok-2-vision");
    reveal_strlit("mini");
    reveal_strlit("fast");
    let s = ascii_lower("grok-2-vision"@);
    assert(s =~= "grok-2-vision"@);
    lemma_missing_char_no_substring(s, "mini"@, 0);
    lemma_missing_char_no_substring(s, "fast"@, 0);
    reveal_strlit("vision");
    assert(s.subrange(7, 13) =~= "vision"@);
    assert(occurs_at(s, "vision"@, 7));
}

/// Each model the router picks bills at its own tier: `grok-3-mini` at Mini,
/// `grok-3` at Standard, `grok-4` at Deep and `grok-2-vision` at Vision.
pub proof fn law_router_slug_tiers()
    ensures
        price_tier(profile_slug(ModelProfile::Fast)) == Some(PriceTier::Mini),
        price_tier(profile_slug(ModelProfile::Balanced)) == Some(PriceTier::Standard),
        price_tier(profile_slug(ModelProfile::Deep)) == Some(PriceTier::Deep),
        price_tier(profile_slug(ModelProfile::Vision)) == Some(PriceTier::Vision),
{
    lemma_fast_slug_tier();
    lemma_balanced_slug_tier();
    lemma_deep_slug_tier();
    lemma_vision_slug_tier();
}

/// A slug that, lowercased, names `grok-3` or `grok-build` and none of the
/// earlier families (`mini`, `fast`, `vision`, `grok-4`, `deep`) bills at the
/// Standard tier.
pub proof fn law_grok3_family_is_standard(slug: Seq<char>)
    requires
        has_substring(ascii_lower(slug), "grok-3"@) || has_substring(ascii_lower(slug), "grok-build"@),
        !has_substring(ascii_lower(slug), "mini"@),
        !has_substring(ascii_lower(slug), "fast"@),
        !has_substring(ascii_lower(slug), "vision"@),
        !has_substring(ascii_lower(slug), "grok-4"@),
        !has_substring(ascii_lower(slug), "deep"@),
    ensures
        price_tier(slug) == Some(PriceTier::Standard),
{
}

} // verus!
