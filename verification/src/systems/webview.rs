//! What the host does about its webviews each tick: which to build, and
//! which rectangles to give them when the window is resized.
//!
//! The functions here decide; the host builds the webviews and calls them.

use crate::components::bounds::{resolved_bounds, to_webview_bounds, Bounds};
use crate::components::webview::{Source, WebViewBundle, WebViews};
use crate::dpi::{LogicalSize, Rect, ScaleFactor, Size as WrySize};
use vstd::prelude::*;

verus! {

/// A webview to build: its name, what it shows, and where.
#[derive(Clone, Debug, PartialEq, Eq)]
pub struct NewWebView {
    pub name: String,
    /// The rectangle to build the webview with.
    pub rect: Rect,
    /// The bounds to register the webview with.
    pub bounds: Bounds,
    pub source: Source,
    pub transparent: bool,
}

impl NewWebView {
    /// This is the webview that `bundle` asks for, in a window of size
    /// `window_size`.
    pub open spec fn builds(
        self,
        bundle: WebViewBundle,
        window_size: WrySize,
        scale_factor: ScaleFactor,
    ) -> bool {
        &&& self.name@ == bundle.webview.webview_name@
        &&& self.rect == resolved_bounds(
            bundle.anchor,
            bundle.position.0,
            bundle.size.0,
            window_size,
            scale_factor,
        )
        &&& self.bounds == (Bounds::Relative {
            anchor: bundle.anchor,
            bounds: Rect { position: bundle.position.0, size: bundle.size.0 },
        })
        &&& self.source.same_as(bundle.source)
        &&& self.transparent == bundle.transparency.0
    }
}

/// For each bundle that has no webview yet, the webview to build, in the
/// same order.
pub fn create_webviews(
    webview_entities: &Vec<WebViewBundle>,
    window_size: WrySize,
    scale_factor: ScaleFactor,
) -> (webviews: Vec<NewWebView>)
    ensures
        webviews.len() == webview_entities.len(),
        forall|i: int|
            0 <= i < webviews.len() ==> (#[trigger] webviews[i]).builds(
                webview_entities[i],
                window_size,
                scale_factor,
            ),
{
    let mut webviews: Vec<NewWebView> = Vec::new();
    let mut i: usize = 0;
    while i < webview_entities.len()
        invariant
            i <= webview_entities.len(),
            webviews.len() == i,
            forall|j: int|
                0 <= j < i ==> (#[trigger] webviews[j]).builds(
                    webview_entities[j],
                    window_size,
                    scale_factor,
                ),
        decreases webview_entities.len() - i,
    {
        let bundle = &webview_entities[i];
        let rect = to_webview_bounds(
            bundle.anchor,
            bundle.position.0,
            bundle.size.0,
            window_size,
            scale_factor,
        );
        webviews.push(
            NewWebView {
                name: bundle.webview.webview_name.clone(),
                rect,
                bounds: Bounds::Relative {
                    anchor: bundle.anchor,
                    bounds: Rect { position: bundle.position.0, size: bundle.size.0 },
                },
                source: bundle.source.duplicate(),
                transparent: bundle.transparency.0,
            },
        );
        i += 1;
    }
    webviews
}

/// A window has a new size, in logical units.
#[derive(Clone, Copy, Debug, PartialEq, Eq, Structural)]
pub struct WindowResized {
    pub window: u64,
    pub width: u32,
    pub height: u32,
}

impl WindowResized {
    /// The size that the window now has.
    pub open spec fn size(self) -> WrySize {
        WrySize::Logical(LogicalSize { width: self.width, height: self.height })
    }
}

/// A rectangle to give to a webview.
#[derive(Clone, Debug, PartialEq, Eq)]
pub struct BoundsUpdate {
    pub webview: String,
    pub bounds: Rect,
}

/// The updates as plain values: the name of each webview and its rectangle.
pub open spec fn plain_updates(updates: Seq<BoundsUpdate>) -> Seq<(Seq<char>, Rect)> {
    Seq::new(updates.len(), |i: int| (updates[i].webview@, updates[i].bounds))
}

/// The updates for the webviews named in `names`, in that order, in a window
/// of size `window_size`: each gets the rectangle that its bounds come to.
/// A webview with absolute bounds gets none: its rectangle does not depend on
/// the window.
pub open spec fn updates_for_names<H>(
    webviews: WebViews<H>,
    names: Seq<Seq<char>>,
    window_size: WrySize,
    scale_factor: ScaleFactor,
) -> Seq<(Seq<char>, Rect)>
    decreases names.len(),
{
    if names.len() == 0 {
        Seq::empty()
    } else {
        let earlier = updates_for_names(webviews, names.drop_last(), window_size, scale_factor);
        let bounds = webviews@[names.last()].bounds;
        if bounds is Absolute {
            earlier
        } else {
            earlier.push((names.last(), bounds.resolved(window_size, scale_factor)))
        }
    }
}

/// The updates for every registered webview in a window of size
/// `window_size`, in the order of the registry's names.
pub open spec fn updates_for_size<H>(
    webviews: WebViews<H>,
    window_size: WrySize,
    scale_factor: ScaleFactor,
) -> Seq<(Seq<char>, Rect)> {
    updates_for_names(webviews, webviews.names(), window_size, scale_factor)
}

/// The updates that a run of resize events calls for: for each event of the
/// primary window, in turn, the updates for the new size. An event of another
/// window calls for none.
pub open spec fn updates_for_events<H>(
    resize_events: Seq<WindowResized>,
    webviews: WebViews<H>,
    primary_window: u64,
    scale_factor: ScaleFactor,
) -> Seq<(Seq<char>, Rect)>
    decreases resize_events.len(),
{
    if resize_events.len() == 0 {
        Seq::empty()
    } else {
        let earlier = updates_for_events(
            resize_events.drop_last(),
            webviews,
            primary_window,
            scale_factor,
        );
        let event = resize_events.last();
        if event.window == primary_window {
            earlier + updates_for_size(webviews, event.size(), scale_factor)
        } else {
            earlier
        }
    }
}

/// The rectangles to give to the webviews after the resize events of a tick:
/// for each resize of the primary window, in turn, one for every registered
/// webview whose bounds are not absolute. Without a scale factor there is
/// nothing to do.
pub fn keep_webviews_in_bounds<H>(
    resize_events: &Vec<WindowResized>,
    webviews: &WebViews<H>,
    primary_window: u64,
    scale_factor: Option<ScaleFactor>,
) -> (updates: Vec<BoundsUpdate>)
    ensures
        plain_updates(updates@) == (match scale_factor {
            Some(scale_factor) => updates_for_events(
                resize_events@,
                *webviews,
                primary_window,
                scale_factor,
            ),
            None => Seq::empty(),
        }),
{
    let mut updates: Vec<BoundsUpdate> = Vec::new();
    let scale_factor = match scale_factor {
        Some(scale_factor) => scale_factor,
        None => {
            assert(plain_updates(updates@) =~= Seq::empty());
            return updates;
        },
    };
    let webviews_and_bounds = webviews.get_all_bounds();
    let mut e: usize = 0;
    assert(resize_events@.take(0) =~= Seq::empty());
    assert(plain_updates(updates@) =~= Seq::empty());
    while e < resize_events.len()
        invariant
            e <= resize_events.len(),
            webviews_and_bounds.len() == webviews.names().len(),
            forall|i: int|
                0 <= i < webviews_and_bounds.len() ==> webviews@.contains_key(
                    #[trigger] webviews.names()[i],
                ) && webviews_and_bounds[i].0@ == webviews.names()[i] && webviews_and_bounds[i].1
                    == webviews@[webviews.names()[i]].bounds,
            plain_updates(updates@) == updates_for_events(
                resize_events@.take(e as int),
                *webviews,
                primary_window,
                scale_factor,
            ),
        decreases resize_events.len() - e,
    {
        let event = resize_events[e];
        let ghost before = plain_updates(updates@);
        if event.window == primary_window {
            let window_size = WrySize::Logical(LogicalSize::new(event.width, event.height));
            let ghost names = webviews.names();
            let mut i: usize = 0;
            assert(names.take(0) =~= Seq::empty());
            assert(plain_updates(updates@) =~= before + Seq::empty());
            while i < webviews_and_bounds.len()
                invariant
                    i <= webviews_and_bounds.len(),
                    window_size == event.size(),
                    names == webviews.names(),
                    webviews_and_bounds.len() == names.len(),
                    forall|i: int|
                        0 <= i < webviews_and_bounds.len() ==> webviews@.contains_key(
                            #[trigger] webviews.names()[i],
                        ) && webviews_and_bounds[i].0@ == webviews.names()[i]
                            && webviews_and_bounds[i].1 == webviews@[webviews.names()[i]].bounds,
                    plain_updates(updates@) == before + updates_for_names(
                        *webviews,
                        names.take(i as int),
                        window_size,
                        scale_factor,
                    ),
                decreases webviews_and_bounds.len() - i,
            {
                let ghost so_far = plain_updates(updates@);
                let ghost earlier = updates_for_names(
                    *webviews,
                    names.take(i as int),
                    window_size,
                    scale_factor,
                );
                proof {
                    assert(webviews@.contains_key(webviews.names()[i as int]));
                    assert(names.take(i + 1).drop_last() =~= names.take(i as int));
                }
                match webviews_and_bounds[i].1 {
                    Bounds::Absolute(_) => {},
                    bounds => {
                        let rect = bounds.to_webview_bounds(window_size, scale_factor);
                        updates.push(
                            BoundsUpdate { webview: webviews_and_bounds[i].0.clone(), bounds: rect },
                        );
                        assert(plain_updates(updates@) =~= so_far.push((names[i as int], rect)));
                        assert(before + earlier.push((names[i as int], rect)) =~= (before
                            + earlier).push((names[i as int], rect)));
                    },
                }
                i += 1;
            }
            assert(names.take(i as int) =~= names);
        } else {
            assert(plain_updates(updates@) =~= before);
        }
        assert(resize_events@.take(e + 1).drop_last() =~= resize_events@.take(e as int));
        e += 1;
    }
    assert(resize_events@.take(e as int) =~= resize_events@);
    updates
}

/// A resize of a window that is not the primary one gives no update.
pub proof fn lemma_other_windows_give_no_update<H>(
    resize_events: Seq<WindowResized>,
    webviews: WebViews<H>,
    primary_window: u64,
    scale_factor: ScaleFactor,
)
    requires
        forall|i: int| 0 <= i < resize_events.len() ==> resize_events[i].window != primary_window,
    ensures
        updates_for_events(resize_events, webviews, primary_window, scale_factor) == Seq::<
            (Seq<char>, Rect),
        >::empty(),
    decreases resize_events.len(),
{
    if resize_events.len() > 0 {
        lemma_other_windows_give_no_update(
            resize_events.drop_last(),
            webviews,
            primary_window,
            scale_factor,
        );
    }
}

/// Among the webviews named in `names`, each one whose bounds are not
/// absolute gets an update with the rectangle that its bounds come to, every
/// update is of that kind, and the updates keep the order of the names.
pub proof fn lemma_updates_are_for_the_movable<H>(
    webviews: WebViews<H>,
    names: Seq<Seq<char>>,
    window_size: WrySize,
    scale_factor: ScaleFactor,
)
    ensures
        ({
            let updates = updates_for_names(webviews, names, window_size, scale_factor);
            &&& updates.len() <= names.len()
            &&& forall|j: int|
                0 <= j < names.len() && !(webviews@[#[trigger] names[j]].bounds is Absolute)
                    ==> updates.contains(
                    (names[j], webviews@[names[j]].bounds.resolved(window_size, scale_factor)),
                )
            &&& forall|i: int|
                0 <= i < updates.len() ==> names.contains((#[trigger] updates[i]).0) && !(
                webviews@[updates[i].0].bounds is Absolute) && updates[i].1
                    == webviews@[updates[i].0].bounds.resolved(window_size, scale_factor)
        }),
    decreases names.len(),
{
    let updates = updates_for_names(webviews, names, window_size, scale_factor);
    if names.len() > 0 {
        let shorter = names.drop_last();
        let earlier = updates_for_names(webviews, shorter, window_size, scale_factor);
        lemma_updates_are_for_the_movable(webviews, shorter, window_size, scale_factor);
        let last = names.last();
        let bounds = webviews@[last].bounds;
        assert forall|j: int|
            0 <= j < names.len() && !(webviews@[#[trigger] names[j]].bounds is Absolute)
                implies updates.contains(
            (names[j], webviews@[names[j]].bounds.resolved(window_size, scale_factor)),
        ) by {
            let wanted = (names[j], webviews@[names[j]].bounds.resolved(window_size, scale_factor));
            if j < names.len() - 1 {
                assert(shorter[j] == names[j]);
                let k = choose|k: int| 0 <= k < earlier.len() && earlier[k] == wanted;
                assert(updates[k] == wanted);
            } else {
                assert(updates[updates.len() - 1] == wanted);
            }
        }
        assert forall|i: int| 0 <= i < updates.len() implies names.contains(
            (#[trigger] updates[i]).0,
        ) && !(webviews@[updates[i].0].bounds is Absolute) && updates[i].1
            == webviews@[updates[i].0].bounds.resolved(window_size, scale_factor) by {
            if i < earlier.len() {
                assert(updates[i] == earlier[i]);
                let j = choose|j: int| 0 <= j < shorter.len() && shorter[j] == earlier[i].0;
                assert(names[j] == updates[i].0);
            } else {
                assert(names[names.len() - 1] == updates[i].0);
            }
        }
    }
}

/// One resize of the primary window moves the webviews whose place depends
/// on the window, and no others: a registered webview with relative or
/// full-screen bounds gets the rectangle that they come to at the new size,
/// and a webview with absolute bounds gets no update at all.
pub proof fn lemma_resize_moves_what_depends_on_the_window<H>(
    event: WindowResized,
    webviews: WebViews<H>,
    scale_factor: ScaleFactor,
)
    requires
        webviews.wf(),
    ensures
        ({
            let updates = updates_for_events(seq![event], webviews, event.window, scale_factor);
            &&& forall|name: Seq<char>|
                webviews@.contains_key(name) && !(webviews@[name].bounds is Absolute)
                    ==> #[trigger] updates.contains(
                    (name, webviews@[name].bounds.resolved(event.size(), scale_factor)),
                )
            &&& forall|i: int|
                0 <= i < updates.len() ==> webviews@.contains_key((#[trigger] updates[i]).0) && !(
                webviews@[updates[i].0].bounds is Absolute) && updates[i].1
                    == webviews@[updates[i].0].bounds.resolved(event.size(), scale_factor)
        }),
{
    let events = seq![event];
    let names = webviews.names();
    assert(events.drop_last() =~= Seq::empty());
    assert(updates_for_events(events.drop_last(), webviews, event.window, scale_factor)
        =~= Seq::empty());
    let updates = updates_for_events(events, webviews, event.window, scale_factor);
    assert(updates =~= updates_for_size(webviews, event.size(), scale_factor));
    webviews.lemma_names_list_the_webviews();
    lemma_updates_are_for_the_movable(webviews, names, event.size(), scale_factor);
    assert forall|name: Seq<char>|
        webviews@.contains_key(name) && !(webviews@[name].bounds is Absolute)
            implies #[trigger] updates.contains(
        (name, webviews@[name].bounds.resolved(event.size(), scale_factor)),
    ) by {
        assert(names.contains(name));
        let j = choose|j: int| 0 <= j < names.len() && names[j] == name;
        assert(!(webviews@[names[j]].bounds is Absolute));
    }
}

} // verus!
