//! What a canvas shows, as mathematics.
//!
//! A canvas is a map from pixel coordinates to colours. Filling a rectangle
//! overwrites the pixels it covers; composing a list of windows shows, at
//! every pixel, the last window in the list that covers it, or the background
//! where none does.

use vstd::prelude::*;
use crate::color::Color;
use crate::rect::Rect;

verus! {

/// The canvas `canvas` after `r` has been filled with `c`.
///
/// The canvas keeps its coordinates, so whatever part of `r` lies outside of
/// it is clipped away. Inside, the pixels that `r` covers take the colour `c`
/// and all others keep theirs.
pub open spec fn fill(canvas: Map<(int, int), Color>, r: Rect, c: Color) -> Map<(int, int), Color> {
    Map::new(
        |p: (int, int)| canvas.dom().contains(p),
        |p: (int, int)| if r.covers(p.0, p.1) { c } else { canvas[p] },
    )
}

/// A canvas over the coordinates `area` with every pixel of colour `c`.
pub open spec fn uniform(area: Set<(int, int)>, c: Color) -> Map<(int, int), Color> {
    Map::new(|p: (int, int)| area.contains(p), |p: (int, int)| c)
}

/// The colour that the pixel `(x, y)` shows once `windows` have been painted
/// back to front over the background: that of the last window covering it.
pub open spec fn top_color(windows: Seq<(Rect, Color)>, x: int, y: int) -> Color
    decreases windows.len(),
{
    if windows.len() == 0 {
        Color::spec_background()
    } else if windows.last().0.covers(x, y) {
        windows.last().1
    } else {
        top_color(windows.drop_last(), x, y)
    }
}

/// The finished canvas over the coordinates `area` for the scene `windows`.
pub open spec fn scene(area: Set<(int, int)>, windows: Seq<(Rect, Color)>) -> Map<(int, int), Color> {
    Map::new(|p: (int, int)| area.contains(p), |p: (int, int)| top_color(windows, p.0, p.1))
}

/// Filling never changes which coordinates a canvas has, paints exactly the
/// covered pixels among them, and leaves the rest untouched.
pub proof fn lemma_fill_clips(canvas: Map<(int, int), Color>, r: Rect, c: Color)
    ensures
        fill(canvas, r, c).dom() == canvas.dom(),
        forall|x: int, y: int| #[trigger]
            canvas.dom().contains((x, y)) ==> fill(canvas, r, c)[(x, y)] == if r.covers(x, y) {
                c
            } else {
                canvas[(x, y)]
            },
{
    assert(fill(canvas, r, c).dom() =~= canvas.dom());
}

/// A rectangle of zero or negative width or height paints nothing.
pub proof fn lemma_fill_degenerate(canvas: Map<(int, int), Color>, r: Rect, c: Color)
    requires
        r.w <= 0 || r.h <= 0,
    ensures
        fill(canvas, r, c) == canvas,
{
    assert(fill(canvas, r, c) =~= canvas);
}

/// With no windows the scene is the background colour everywhere.
pub proof fn lemma_scene_empty(area: Set<(int, int)>)
    ensures
        scene(area, Seq::empty()) == uniform(area, Color::spec_background()),
{
    assert(scene(area, Seq::empty()) =~= uniform(area, Color::spec_background()));
}

/// Adding a window at the end of the list is filling its rectangle on top of
/// the scene so far. Together with `lemma_scene_empty` this says that the
/// scene is what clearing to the background and then filling each window in
/// order produces.
pub proof fn lemma_scene_push(area: Set<(int, int)>, windows: Seq<(Rect, Color)>, window: (Rect, Color))
    ensures
        scene(area, windows.push(window)) == fill(scene(area, windows), window.0, window.1),
{
    let longer = windows.push(window);
    assert(longer.last() == window);
    assert(longer.drop_last() =~= windows);
    assert(scene(area, longer) =~= fill(scene(area, windows), window.0, window.1));
}

/// Later windows win: a pixel shows the colour of window `i` when that window
/// covers it and no later one does.
pub proof fn lemma_top_color_last_wins(windows: Seq<(Rect, Color)>, i: int, x: int, y: int)
    requires
        0 <= i < windows.len(),
        windows[i].0.covers(x, y),
        forall|j: int| i < j < windows.len() ==> !(#[trigger] windows[j]).0.covers(x, y),
    ensures
        top_color(windows, x, y) == windows[i].1,
    decreases windows.len(),
{
    if i < windows.len() - 1 {
        assert(!windows[windows.len() - 1].0.covers(x, y));
        lemma_top_color_last_wins(windows.drop_last(), i, x, y);
    }
}

/// A pixel that no window covers shows the background.
pub proof fn lemma_top_color_uncovered(windows: Seq<(Rect, Color)>, x: int, y: int)
    requires
        forall|j: int| 0 <= j < windows.len() ==> !(#[trigger] windows[j]).0.covers(x, y),
    ensures
        top_color(windows, x, y) == Color::spec_background(),
    decreases windows.len(),
{
    if windows.len() > 0 {
        assert(!windows[windows.len() - 1].0.covers(x, y));
        lemma_top_color_uncovered(windows.drop_last(), x, y);
    }
}

/// Composing is idempotent: the scene for `windows`, composed once more with
/// the same `windows`, is pixel for pixel the same canvas.
pub proof fn lemma_scene_idempotent(area: Set<(int, int)>, windows: Seq<(Rect, Color)>)
    ensures
        scene(scene(area, windows).dom(), windows) == scene(area, windows),
{
    assert(scene(scene(area, windows).dom(), windows) =~= scene(area, windows));
}

} // verus!
