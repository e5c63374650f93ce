use grok_arch::pricing::{price_tier_for_model, PriceTier};

#[test]
fn catalog_covers_router_slugs() {
    for slug in ["grok-3-mini", "grok-3", "grok-4", "grok-4.5", "grok-2-vision"] {
        assert!(price_tier_for_model(slug).is_some(), "missing price for {slug}");
    }
    assert!(price_tier_for_model("totally-unknown-model-xyz").is_none());
}

#[test]
fn tiers_follow_catalog_order() {
    assert_eq!(price_tier_for_model("grok-3-mini"), Some(PriceTier::Mini));
    assert_eq!(price_tier_for_model("GROK-2-VISION"), Some(PriceTier::Vision));
    assert_eq!(price_tier_for_model("grok-4"), Some(PriceTier::Deep));
    assert_eq!(price_tier_for_model("deep"), Some(PriceTier::Deep));
    assert_eq!(price_tier_for_model("grok-build-1"), Some(PriceTier::Standard));
    assert_eq!(price_tier_for_model("grok-4-fast"), Some(PriceTier::Mini));
}
