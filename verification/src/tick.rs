//! The decisions of one scheduling pulse.
//!
//! A pulse re-expands every configured source list against the current
//! filesystem (nothing is cached across ticks), builds the pool for the
//! appearance reported this tick, and selects the next wallpaper. Failures
//! are contained to their tick: the caller reports them and the next pulse
//! starts from scratch.

use vstd::prelude::*;
use crate::config::{Config, Order};
use crate::expand::{expand_sources, expandable, ExpandError};
use crate::pool::{build_pool, pool_view};
use crate::scheme::ColorScheme;
use crate::select::{select, selected_from, EmptyPoolError};

verus! {

/// Why a tick produced no wallpaper.
#[derive(Debug, Clone, Copy, PartialEq, Eq, Structural)]
pub enum TickError {
    /// A source list could not be expanded this tick.
    Expand(ExpandError),
    /// Every configured pattern expanded, but the pool came out empty.
    EmptyPool,
}

/// Chooses the wallpaper for one tick from a snapshot of the filesystem: the
/// three expanded source lists, the appearance answer (`None` when the
/// desktop could not be asked), and the ordering policy. It fails exactly
/// when the pool for that answer is empty, and never fabricates a path.
pub fn choose_wallpaper(
    default: Vec<String>,
    light: Vec<String>,
    dark: Vec<String>,
    scheme: Option<ColorScheme>,
    order: Order,
) -> (r: Result<String, EmptyPoolError>)
    ensures
        r is Ok <==> pool_view(
            default.deep_view(),
            light.deep_view(),
            dark.deep_view(),
            scheme,
        ).len() > 0,
        r matches Ok(choice) ==> selected_from(
            choice@,
            pool_view(default.deep_view(), light.deep_view(), dark.deep_view(), scheme),
        ),
        r matches Ok(choice) ==> (order == Order::alphabetical ==> choice@ == pool_view(
            default.deep_view(),
            light.deep_view(),
            dark.deep_view(),
            scheme,
        )[0]),
{
    let pool = build_pool(default, light, dark, scheme);
    select(&pool, order)
}

/// Runs the decisions of one pulse: re-expand the three source lists, build
/// the pool, select. A configuration with no source list at all necessarily
/// ends in an empty pool, and one whose lists cannot fail to expand never
/// fails with an expansion error.
pub fn run_tick(config: &Config, scheme: Option<ColorScheme>) -> (r: Result<String, TickError>)
    ensures
        config.sources is None && config.sources_light is None && config.sources_dark is None
            ==> (r matches Err(e) && e == TickError::EmptyPool),
        expandable(config.sources) && expandable(config.sources_light) && expandable(
            config.sources_dark,
        ) ==> (r matches Err(e) ==> e == TickError::EmptyPool),
{
    let default = match expand_sources(&config.sources) {
        Ok(v) => v,
        Err(e) => {
            return Err(TickError::Expand(e));
        },
    };
    let light = match expand_sources(&config.sources_light) {
        Ok(v) => v,
        Err(e) => {
            return Err(TickError::Expand(e));
        },
    };
    let dark = match expand_sources(&config.sources_dark) {
        Ok(v) => v,
        Err(e) => {
            return Err(TickError::Expand(e));
        },
    };
    match choose_wallpaper(default, light, dark, scheme, config.order) {
        Ok(path) => Ok(path),
        Err(_) => Err(TickError::EmptyPool),
    }
}

} // verus!
