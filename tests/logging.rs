use cargo_flatpak::logging::{default_filter, filter_tier, FilterTier};

#[test]
fn verbosity_selects_tier() {
    assert_eq!(filter_tier(0), FilterTier::Warn);
    assert_eq!(filter_tier(1), FilterTier::Info);
    assert_eq!(filter_tier(2), FilterTier::Debug);
    assert_eq!(filter_tier(3), FilterTier::Debug);
    assert_eq!(filter_tier(255), FilterTier::Debug);
}

#[test]
fn tiers_never_get_quieter() {
    let rank = |t: FilterTier| match t {
        FilterTier::Warn => 0,
        FilterTier::Info => 1,
        FilterTier::Debug => 2,
    };
    for v in 0..=254u8 {
        assert!(rank(filter_tier(v)) <= rank(filter_tier(v + 1)));
    }
}

#[test]
fn default_filters() {
    assert_eq!(default_filter(0), "warn");
    assert_eq!(
        default_filter(1),
        "warn,cargo_flatpak=info,bossy=info,hit=info"
    );
    assert_eq!(
        default_filter(7),
        "info,cargo_flatpak=debug,bossy=debug,hit=debug"
    );
    assert_eq!(FilterTier::Warn.default_filter(), "warn");
}

#[test]
fn filters_name_the_tool_itself() {
    assert!(default_filter(1).contains("cargo_flatpak=info"));
    assert!(default_filter(2).contains("cargo_flatpak=debug"));
    assert!(default_filter(1).starts_with("warn"));
    assert!(FilterTier::Debug.default_filter().starts_with("info,"));
}
