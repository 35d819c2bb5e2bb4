use vstd::prelude::*;

verus! {

/// How much the tool logs.
#[derive(Clone, Copy, Debug, PartialEq, Eq, Structural)]
pub enum FilterTier {
    Warn,
    Info,
    Debug,
}

/// The place of a tier in the order from quiet to verbose.
pub open spec fn tier_rank(t: FilterTier) -> int {
    match t {
        FilterTier::Warn => 0,
        FilterTier::Info => 1,
        FilterTier::Debug => 2,
    }
}

pub open spec fn tier_of(verbosity: u8) -> FilterTier {
    if verbosity == 0 {
        FilterTier::Warn
    } else if verbosity == 1 {
        FilterTier::Info
    } else {
        FilterTier::Debug
    }
}

/// Log levels by verbosity, in the order the logger compares them.
pub open spec fn level_name(rank: int) -> Seq<char> {
    if rank <= 2 {
        "warn"@
    } else if rank == 3 {
        "info"@
    } else {
        "debug"@
    }
}

/// The most verbose level a tier lets through for targets outside the tool.
pub open spec fn default_rank(t: FilterTier) -> int {
    match t {
        FilterTier::Warn => 2,
        FilterTier::Info => 2,
        FilterTier::Debug => 3,
    }
}

/// The most verbose level a tier lets through for the tool's own components.
pub open spec fn own_rank(t: FilterTier) -> int {
    match t {
        FilterTier::Warn => 2,
        FilterTier::Info => 3,
        FilterTier::Debug => 4,
    }
}

pub open spec fn starts_with(s: Seq<char>, prefix: Seq<char>) -> bool {
    prefix.len() <= s.len() && s.take(prefix.len() as int) == prefix
}

/// A log target of the tool's own components: the tool's crate and the
/// library it runs subprocesses with. A directive names a target by prefix.
pub open spec fn is_own_target(target: Seq<char>) -> bool {
    starts_with(target, "cargo_flatpak"@) || starts_with(target, "bossy"@) || starts_with(
        target,
        "hit"@,
    )
}

/// The most verbose level a tier lets through for `target`.
pub open spec fn max_rank(t: FilterTier, target: Seq<char>) -> int {
    if is_own_target(target) {
        own_rank(t)
    } else {
        default_rank(t)
    }
}

/// The logging filter that a tier stands for: the default level, then a
/// directive for each of the tool's own components where it differs.
pub open spec fn filter_text(t: FilterTier) -> Seq<char> {
    let own = level_name(own_rank(t));
    if own_rank(t) == default_rank(t) {
        level_name(default_rank(t))
    } else {
        level_name(default_rank(t)) + ",cargo_flatpak="@ + own + ",bossy="@ + own + ",hit="@ + own
    }
}

/// The tier selected by a count of `-v` flags.
pub fn filter_tier(verbosity: u8) -> (r: FilterTier)
    ensures
        r == tier_of(verbosity),
{
    match verbosity {
        0 => FilterTier::Warn,
        1 => FilterTier::Info,
        _ => FilterTier::Debug,
    }
}

impl FilterTier {
    /// The filter used when the environment sets none.
    pub fn default_filter(&self) -> (r: &'static str)
        ensures
            r@ == filter_text(*self),
    {
        proof {
            reveal_strlit("warn");
            reveal_strlit("info");
            reveal_strlit("debug");
            reveal_strlit(",cargo_flatpak=");
            reveal_strlit(",bossy=");
            reveal_strlit(",hit=");
        }
        match self {
            FilterTier::Warn => "warn",
            FilterTier::Info => {
                let r = "warn,cargo_flatpak=info,bossy=info,hit=info";
                proof {
                    reveal_strlit("warn,cargo_flatpak=info,bossy=info,hit=info");
                }
                assert(r@ =~= filter_text(*self));
                r
            },
            FilterTier::Debug => {
                let r = "info,cargo_flatpak=debug,bossy=debug,hit=debug";
                proof {
                    reveal_strlit("info,cargo_flatpak=debug,bossy=debug,hit=debug");
                }
                assert(r@ =~= filter_text(*self));
                r
            },
        }
    }
}

/// The default logging filter for a count of `-v` flags.
pub fn default_filter(verbosity: u8) -> (r: &'static str)
    ensures
        r@ == filter_text(tier_of(verbosity)),
{
    filter_tier(verbosity).default_filter()
}

/// The tiers are warn for no `-v`, info for one and debug for two or more;
/// the tool's own components are logged at that level, and more `-v` flags
/// never let less through for any target.
pub proof fn filter_tier_monotonic(a: u8, b: u8)
    requires
        a <= b,
    ensures
        tier_rank(tier_of(a)) <= tier_rank(tier_of(b)),
        tier_of(a) == (if a == 0 {
            FilterTier::Warn
        } else if a == 1 {
            FilterTier::Info
        } else {
            FilterTier::Debug
        }),
        own_rank(tier_of(a)) == 2 + tier_rank(tier_of(a)),
        default_rank(tier_of(a)) >= 2,
        forall|target: Seq<char>| #[trigger]
            max_rank(tier_of(a), target) <= max_rank(tier_of(b), target),
{
}

} // verus!
