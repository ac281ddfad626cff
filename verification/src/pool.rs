//! Building the active candidate pool for one tick.

use vstd::prelude::*;
use crate::scheme::ColorScheme;

verus! {

/// The candidate pool a tick works with: the default paths, followed by the
/// dark-mode paths when dark is preferred and by the light-mode paths on
/// every other answer (no preference, light preferred, or no answer at all).
pub open spec fn pool_view(
    default: Seq<Seq<char>>,
    light: Seq<Seq<char>>,
    dark: Seq<Seq<char>>,
    scheme: Option<ColorScheme>,
) -> Seq<Seq<char>> {
    if scheme == Some(ColorScheme::PreferDark) {
        default + dark
    } else {
        default + light
    }
}

/// Combines the default paths with the appearance-conditional ones. The
/// default paths are a baseline present in both modes; the mode-specific
/// paths are purely additive, and the set for the other mode is never
/// consulted.
pub fn build_pool(
    default: Vec<String>,
    light: Vec<String>,
    dark: Vec<String>,
    scheme: Option<ColorScheme>,
) -> (pool: Vec<String>)
    ensures
        pool.deep_view() == pool_view(
            default.deep_view(),
            light.deep_view(),
            dark.deep_view(),
            scheme,
        ),
{
    let ghost default_paths = default.deep_view();
    let mut pool = default;
    let mut conditional = match scheme {
        Some(ColorScheme::PreferDark) => dark,
        _ => light,
    };
    let ghost conditional_paths = conditional.deep_view();
    pool.append(&mut conditional);
    proof {
        assert(pool.deep_view() =~= default_paths + conditional_paths);
    }
    pool
}

/// The pool of a tick is empty exactly when nothing resolved for its mode:
/// as long as one configured pattern resolved to one file that counts for
/// the active appearance, there is something to select.
pub proof fn lemma_pool_empty_only_without_files(
    default: Seq<Seq<char>>,
    light: Seq<Seq<char>>,
    dark: Seq<Seq<char>>,
    scheme: Option<ColorScheme>,
)
    ensures
        pool_view(default, light, dark, scheme).len() == 0 <==> default.len() == 0 && (if scheme
            == Some(ColorScheme::PreferDark) {
            dark
        } else {
            light
        }).len() == 0,
{
}

/// Under a dark preference the pool draws on the default and dark sets only:
/// a path of the light set that stands in neither never appears in it.
pub proof fn lemma_dark_pool_ignores_light(
    default: Seq<Seq<char>>,
    light: Seq<Seq<char>>,
    dark: Seq<Seq<char>>,
    path: Seq<char>,
)
    requires
        !default.contains(path),
        !dark.contains(path),
    ensures
        !pool_view(default, light, dark, Some(ColorScheme::PreferDark)).contains(path),
{
    let pool = pool_view(default, light, dark, Some(ColorScheme::PreferDark));
    if pool.contains(path) {
        let i = choose|i: int| 0 <= i < pool.len() && pool[i] == path;
        if i < default.len() {
            assert(default[i] == path);
        } else {
            assert(dark[i - default.len()] == path);
        }
    }
}

/// Outside a dark preference the pool draws on the default and light sets
/// only: a path of the dark set that stands in neither never appears in it.
pub proof fn lemma_light_pool_ignores_dark(
    default: Seq<Seq<char>>,
    light: Seq<Seq<char>>,
    dark: Seq<Seq<char>>,
    path: Seq<char>,
    scheme: Option<ColorScheme>,
)
    requires
        scheme != Some(ColorScheme::PreferDark),
        !default.contains(path),
        !light.contains(path),
    ensures
        !pool_view(default, light, dark, scheme).contains(path),
{
    let pool = pool_view(default, light, dark, scheme);
    if pool.contains(path) {
        let i = choose|i: int| 0 <= i < pool.len() && pool[i] == path;
        if i < default.len() {
            assert(default[i] == path);
        } else {
            assert(light[i - default.len()] == path);
        }
    }
}

} // verus!
