//! The components of a webview, the builder of their bundle, and the registry
//! that holds the webviews of a window by name.

use super::bounds::{Anchor, Bounds, Position, Size};
use super::name_index::{slots, NameIndex};
use crate::dpi::{
    LogicalPosition, LogicalSize, Position as WryPosition, Rect, ScaleFactor, Size as WrySize,
};
use crate::error::Error;
use vstd::prelude::*;

verus! {

#[derive(Clone, Debug, PartialEq, Eq)]
pub struct WebViewComponent {
    pub webview_name: String,
}

impl WebViewComponent {
    pub fn new(name: String) -> (component: Self)
        ensures
            component.webview_name@ == name@,
    {
        Self { webview_name: name }
    }
}

#[derive(Clone, Debug, PartialEq, Eq)]
pub enum Source {
    Html(String),
    Url(String),
}

impl Source {
    /// What the webview shows.
    pub open spec fn content(self) -> Seq<char> {
        match self {
            Source::Html(html) => html@,
            Source::Url(url) => url@,
        }
    }

    /// The same kind of source with the same content.
    pub open spec fn same_as(self, other: Source) -> bool {
        &&& self is Html <==> other is Html
        &&& self.content() == other.content()
    }

    pub fn duplicate(&self) -> (source: Source)
        ensures
            source.same_as(*self),
    {
        match self {
            Source::Html(html) => Source::Html(html.clone()),
            Source::Url(url) => Source::Url(url.clone()),
        }
    }
}

#[derive(Clone, Copy, Debug, PartialEq, Eq, Structural)]
pub struct Transparency(pub bool);

#[derive(Clone, Copy, Debug, PartialEq, Eq, Structural)]
pub struct Fullscreen(pub bool);

#[derive(Clone, Debug, PartialEq, Eq)]
pub struct WebViewBundle {
    pub webview: WebViewComponent,
    pub anchor: Anchor,
    pub position: Position,
    pub size: Size,
    pub source: Source,
    pub transparency: Transparency,
}

#[derive(Debug)]
pub struct WebViewBundleBuilder {
    /// Main webview component
    webview: WebViewComponent,
    /// Webview size. Default: 0x0
    size: Option<Size>,
    /// Webview position. Default: 0, 0
    position: Option<Position>,
    /// Webview anchor. Default [Anchor::FullScreen]
    anchor: Option<Anchor>,
    /// Webview source. Either Html or Url. Default: Source::Html("")
    source: Option<Source>,
    /// Transparent webview. Default: false
    transparent: Option<bool>,
}

impl WebViewBundleBuilder {
    /// The name that the builder was made with.
    pub closed spec fn name(self) -> Seq<char> {
        self.webview.webview_name@
    }

    /// The size that was set, if any.
    pub closed spec fn size(self) -> Option<Size> {
        self.size
    }

    /// The position that was set, if any.
    pub closed spec fn position(self) -> Option<Position> {
        self.position
    }

    /// The anchor that was set, if any.
    pub closed spec fn anchor(self) -> Option<Anchor> {
        self.anchor
    }

    /// The source that was set, if any.
    pub closed spec fn source(self) -> Option<Source> {
        self.source
    }

    /// The transparency that was set, if any.
    pub closed spec fn transparent(self) -> Option<bool> {
        self.transparent
    }

    pub fn new(name: String) -> (builder: Self)
        ensures
            builder.name() == name@,
            builder.size() is None,
            builder.position() is None,
            builder.anchor() is None,
            builder.source() is None,
            builder.transparent() is None,
    {
        Self {
            webview: WebViewComponent::new(name),
            size: None,
            position: None,
            anchor: None,
            source: None,
            transparent: None,
        }
    }

    /// Set size. Default: 0x0
    pub fn with_size(self, size: WrySize) -> (builder: Self)
        ensures
            builder.size() == Some(Size(size)),
            builder.name() == self.name(),
            builder.position() == self.position(),
            builder.anchor() == self.anchor(),
            builder.source() == self.source(),
            builder.transparent() == self.transparent(),
    {
        let mut builder = self;
        builder.size = Some(Size(size));
        builder
    }

    /// Set position. Default: 0, 0
    pub fn with_position(self, position: WryPosition) -> (builder: Self)
        ensures
            builder.position() == Some(Position(position)),
            builder.name() == self.name(),
            builder.size() == self.size(),
            builder.anchor() == self.anchor(),
            builder.source() == self.source(),
            builder.transparent() == self.transparent(),
    {
        let mut builder = self;
        builder.position = Some(Position(position));
        builder
    }

    /// Set Anchor. Default: [Anchor::FullScreen]
    pub fn with_anchor(self, anchor: Anchor) -> (builder: Self)
        ensures
            builder.anchor() == Some(anchor),
            builder.name() == self.name(),
            builder.size() == self.size(),
            builder.position() == self.position(),
            builder.source() == self.source(),
            builder.transparent() == self.transparent(),
    {
        let mut builder = self;
        builder.anchor = Some(anchor);
        builder
    }

    /// Set webview source to Url
    pub fn with_url(self, url: String) -> (builder: Self)
        ensures
            builder.source() == Some(Source::Url(url)),
            builder.name() == self.name(),
            builder.size() == self.size(),
            builder.position() == self.position(),
            builder.anchor() == self.anchor(),
            builder.transparent() == self.transparent(),
    {
        let mut builder = self;
        builder.source = Some(Source::Url(url));
        builder
    }

    /// Set webview source to Html
    pub fn with_html(self, html: String) -> (builder: Self)
        ensures
            builder.source() == Some(Source::Html(html)),
            builder.name() == self.name(),
            builder.size() == self.size(),
            builder.position() == self.position(),
            builder.anchor() == self.anchor(),
            builder.transparent() == self.transparent(),
    {
        let mut builder = self;
        builder.source = Some(Source::Html(html));
        builder
    }

    /// Set transparency
    pub fn with_transparent(self, transparent: bool) -> (builder: Self)
        ensures
            builder.transparent() == Some(transparent),
            builder.name() == self.name(),
            builder.size() == self.size(),
            builder.position() == self.position(),
            builder.anchor() == self.anchor(),
            builder.source() == self.source(),
    {
        let mut builder = self;
        builder.transparent = Some(transparent);
        builder
    }

    /// The bundle: each part as it was set, and its default where it was not.
    pub fn build(self) -> (bundle: WebViewBundle)
        ensures
            bundle.webview.webview_name@ == self.name(),
            bundle.position == (match self.position() {
                Some(position) => position,
                None => Position(WryPosition::Logical(LogicalPosition { x: 0, y: 0 })),
            }),
            bundle.size == (match self.size() {
                Some(size) => size,
                None => Size(WrySize::Logical(LogicalSize { width: 0, height: 0 })),
            }),
            match self.source() {
                Some(source) => bundle.source == source,
                None => bundle.source is Html && bundle.source.content() == Seq::<char>::empty(),
            },
            bundle.transparency == Transparency(
                match self.transparent() {
                    Some(transparent) => transparent,
                    None => false,
                },
            ),
            bundle.anchor == (match self.anchor() {
                Some(anchor) => anchor,
                None => Anchor::FullScreen,
            }),
    {
        let position = match self.position {
            Some(position) => position,
            None => Position(WryPosition::Logical(LogicalPosition::new(0, 0))),
        };
        let size = match self.size {
            Some(size) => size,
            None => Size(WrySize::Logical(LogicalSize::new(0, 0))),
        };
        let source = match self.source {
            Some(source) => source,
            None => Source::Html(String::new()),
        };
        let transparency = Transparency(
            match self.transparent {
                Some(transparent) => transparent,
                None => false,
            },
        );
        let anchor = match self.anchor {
            Some(anchor) => anchor,
            None => Anchor::FullScreen,
        };

        WebViewBundle { webview: self.webview, position, size, source, transparency, anchor }
    }
}

/// Marks a webview that has been created.
#[derive(Clone, Copy, Debug, PartialEq, Eq, Structural)]
pub struct Initialized;

/// A webview and where it sits.
#[derive(Clone, Debug, PartialEq, Eq)]
pub struct WebviewWrapper<H> {
    pub webview: H,
    pub bounds: Bounds,
}

/// The registry as it is after `wrapper` was offered under `name`: where the
/// name is taken, nothing changes.
pub open spec fn with_webview<H>(
    webviews: Map<Seq<char>, WebviewWrapper<H>>,
    name: Seq<char>,
    wrapper: WebviewWrapper<H>,
) -> Map<Seq<char>, WebviewWrapper<H>> {
    if webviews.contains_key(name) {
        webviews
    } else {
        webviews.insert(name, wrapper)
    }
}

/// The names of a registry after `name` left it: the last name takes its
/// place.
pub open spec fn without_name(names: Seq<Seq<char>>, name: Seq<char>) -> Seq<Seq<char>> {
    names.update(names.index_of(name), names.last()).drop_last()
}

/// The bounds that `bounds` become when they are given the anchor `anchor`:
/// only relative bounds can take one.
pub open spec fn reanchored(bounds: Bounds, anchor: Anchor) -> Option<Bounds> {
    match bounds {
        Bounds::Relative { anchor: _, bounds: rect } => Some(
            Bounds::Relative { anchor, bounds: rect },
        ),
        _ => None,
    }
}

/// The webviews of a window, by name. No two share a name.
pub struct WebViews<H> {
    index: NameIndex,
    names: Vec<String>,
    entries: Vec<WebviewWrapper<H>>,
}

impl<H> View for WebViews<H> {
    type V = Map<Seq<char>, WebviewWrapper<H>>;

    /// The registered webviews, by name.
    closed spec fn view(&self) -> Map<Seq<char>, WebviewWrapper<H>> {
        Map::new(
            |name: Seq<char>| slots(self.index).contains_key(name),
            |name: Seq<char>| self.entries[slots(self.index)[name] as int],
        )
    }
}

impl<H> WebViews<H> {
    /// The index, the names and the entries agree: the entry of a name is in
    /// the slot that the index gives for it, and each slot has one name.
    #[verifier::type_invariant]
    pub closed spec fn wf(self) -> bool {
        &&& self.names.len() == self.entries.len()
        &&& forall|i: int|
            0 <= i < self.names.len() ==> slots(self.index).contains_key(#[trigger] self.names[i]@)
                && slots(self.index)[self.names[i]@] == i
        &&& forall|name: Seq<char>| #[trigger]
            slots(self.index).contains_key(name) ==> slots(self.index)[name] < self.names.len()
                && self.names[slots(self.index)[name] as int]@ == name
    }

    /// The registered names, in the order in which the registry walks them.
    pub closed spec fn names(self) -> Seq<Seq<char>> {
        Seq::new(self.names.len() as nat, |i: int| self.names[i]@)
    }

    /// The names list each registered webview once.
    pub proof fn lemma_names_list_the_webviews(self)
        requires
            self.wf(),
        ensures
            self.names().no_duplicates(),
            forall|name: Seq<char>| self.names().contains(name) <==> self@.contains_key(name),
            forall|i: int|
                0 <= i < self.names().len() ==> self.names().index_of(#[trigger] self.names()[i])
                    == i,
    {
        let names = self.names();
        assert forall|name: Seq<char>| names.contains(name) <==> self@.contains_key(name) by {
            if self@.contains_key(name) {
                assert(names[slots(self.index)[name] as int] == name);
            }
        }
        assert forall|i: int| 0 <= i < names.len() implies names.index_of(#[trigger] names[i])
            == i by {
            let j = names.index_of(names[i]);
            assert(names.contains(names[i]));
            assert(self.names[j]@ == self.names[i]@);
        }
    }

    /// `all` holds the webview of each name, in the order of `names`.
    pub open spec fn lists_webviews(self, all: Seq<&H>) -> bool {
        &&& all.len() == self.names().len()
        &&& forall|i: int|
            0 <= i < all.len() ==> self@.contains_key(#[trigger] self.names()[i]) && *all[i]
                == self@[self.names()[i]].webview
    }

    /// `all` holds the webview and the bounds of each name, in the order of
    /// `names`.
    pub open spec fn lists_webviews_with_bounds(self, all: Seq<(&H, &Bounds)>) -> bool {
        &&& all.len() == self.names().len()
        &&& forall|i: int|
            0 <= i < all.len() ==> self@.contains_key(#[trigger] self.names()[i]) && *all[i].0
                == self@[self.names()[i]].webview && *all[i].1 == self@[self.names()[i]].bounds
    }

    pub fn new() -> (webviews: Self)
        ensures
            webviews@ == Map::<Seq<char>, WebviewWrapper<H>>::empty(),
            webviews.names() == Seq::<Seq<char>>::empty(),
    {
        let webviews = WebViews { index: NameIndex::new(), names: Vec::new(), entries: Vec::new() };
        assert(webviews@ =~= Map::<Seq<char>, WebviewWrapper<H>>::empty());
        assert(webviews.names() =~= Seq::<Seq<char>>::empty());
        webviews
    }

    pub fn len(&self) -> (len: usize)
        ensures
            len == self.names().len(),
    {
        self.names.len()
    }

    pub fn is_empty(&self) -> (empty: bool)
        ensures
            empty <==> self.names().len() == 0,
    {
        self.names.len() == 0
    }

    /// Whether a webview is registered under `name`.
    pub fn contains(&self, name: &String) -> (found: bool)
        ensures
            found == self@.contains_key(name@),
    {
        self.index.contains_key(name)
    }

    /// Registers `webview` under `name`, unless the name is taken: then the
    /// registry stays as it is, and the answer is `false`.
    pub fn insert(&mut self, name: String, webview: H, bounds: Bounds) -> (inserted: bool)
        ensures
            inserted == !old(self)@.contains_key(name@),
            final(self)@ == with_webview(old(self)@, name@, WebviewWrapper { webview, bounds }),
            final(self).names() == (if inserted {
                old(self).names().push(name@)
            } else {
                old(self).names()
            }),
    {
        proof {
            use_type_invariant(&*self);
        }
        if self.index.contains_key(&name) {
            return false;
        }
        let mut taken = WebViews::new();
        core::mem::swap(self, &mut taken);
        let WebViews { mut index, mut names, mut entries } = taken;
        let slot = names.len();
        let _ = index.insert(name.clone(), slot);
        names.push(name);
        entries.push(WebviewWrapper { webview, bounds });
        *self = WebViews { index, names, entries };
        assert(final(self)@ =~= old(self)@.insert(name@, WebviewWrapper { webview, bounds }));
        assert(final(self).names() =~= old(self).names().push(name@));
        true
    }

    pub fn get_webview(&self, name: &String) -> (webview: Option<&H>)
        ensures
            webview == (if self@.contains_key(name@) {
                Some(&self@[name@].webview)
            } else {
                None
            }),
    {
        proof {
            use_type_invariant(self);
        }
        match self.index.get(name) {
            Some(slot) => Some(&self.entries[slot].webview),
            None => None,
        }
    }

    pub fn get_bounds(&self, name: &String) -> (bounds: Option<&Bounds>)
        ensures
            bounds == (if self@.contains_key(name@) {
                Some(&self@[name@].bounds)
            } else {
                None
            }),
    {
        proof {
            use_type_invariant(self);
        }
        match self.index.get(name) {
            Some(slot) => Some(&self.entries[slot].bounds),
            None => None,
        }
    }

    /// The webview and the bounds under `name`, to change: what the caller
    /// leaves in them is what the registry holds under that name.
    pub fn get_webview_with_bounds_mut(&mut self, name: &String) -> (found: Option<
        (&mut H, &mut Bounds),
    >)
        ensures
            found is Some == old(self)@.contains_key(name@),
            found matches Some(pair) ==> *pair.0 == old(self)@[name@].webview && *pair.1 == old(
                self,
            )@[name@].bounds && final(self)@ == old(self)@.insert(
                name@,
                WebviewWrapper { webview: *final(pair.0), bounds: *final(pair.1) },
            ),
            found is None ==> final(self)@ == old(self)@,
            final(self).names() == old(self).names(),
    {
        proof {
            use_type_invariant(&*self);
        }
        match self.index.get(name) {
            Some(slot) => {
                let entry = &mut self.entries[slot];
                Some((&mut entry.webview, &mut entry.bounds))
            },
            None => None,
        }
    }

    /// Every webview, in the order of `names`.
    pub fn get_all_webviews(&self) -> (all: Vec<&H>)
        ensures
            self.lists_webviews(all@),
    {
        proof {
            use_type_invariant(self);
        }
        let mut all: Vec<&H> = Vec::new();
        let mut i: usize = 0;
        while i < self.entries.len()
            invariant
                self.wf(),
                i <= self.entries.len(),
                all.len() == i,
                forall|j: int|
                    0 <= j < i ==> self@.contains_key(#[trigger] self.names()[j]) && *all[j]
                        == self@[self.names()[j]].webview,
            decreases self.entries.len() - i,
        {
            all.push(&self.entries[i].webview);
            i += 1;
        }
        all
    }

    /// Every webview, in the order of `names`.
    pub fn get_all(&self) -> (all: Vec<&H>)
        ensures
            self.lists_webviews(all@),
    {
        self.get_all_webviews()
    }

    /// Every webview with its bounds, in the order of `names`.
    pub fn get_all_webviews_with_bounds(&self) -> (all: Vec<(&H, &Bounds)>)
        ensures
            self.lists_webviews_with_bounds(all@),
    {
        proof {
            use_type_invariant(self);
        }
        let mut all: Vec<(&H, &Bounds)> = Vec::new();
        let mut i: usize = 0;
        while i < self.entries.len()
            invariant
                self.wf(),
                i <= self.entries.len(),
                all.len() == i,
                forall|j: int|
                    0 <= j < i ==> self@.contains_key(#[trigger] self.names()[j]) && *all[j].0
                        == self@[self.names()[j]].webview && *all[j].1
                        == self@[self.names()[j]].bounds,
            decreases self.entries.len() - i,
        {
            all.push((&self.entries[i].webview, &self.entries[i].bounds));
            i += 1;
        }
        all
    }

    /// Every name with the bounds under it, in the order of `names`.
    pub fn get_all_bounds(&self) -> (all: Vec<(String, Bounds)>)
        ensures
            all.len() == self.names().len(),
            forall|i: int|
                0 <= i < all.len() ==> self@.contains_key(#[trigger] self.names()[i]) && all[i].0@
                    == self.names()[i] && all[i].1 == self@[self.names()[i]].bounds,
    {
        proof {
            use_type_invariant(self);
        }
        let mut all: Vec<(String, Bounds)> = Vec::new();
        let mut i: usize = 0;
        while i < self.entries.len()
            invariant
                self.wf(),
                i <= self.entries.len(),
                all.len() == i,
                forall|j: int|
                    0 <= j < i ==> self@.contains_key(#[trigger] self.names()[j]) && all[j].0@
                        == self.names()[j] && all[j].1 == self@[self.names()[j]].bounds,
            decreases self.entries.len() - i,
        {
            all.push((self.names[i].clone(), self.entries[i].bounds));
            i += 1;
        }
        all
    }

    /// Every registered name, in the order of `names`.
    pub fn get_all_names(&self) -> (all: Vec<String>)
        ensures
            all.len() == self.names().len(),
            forall|i: int| 0 <= i < all.len() ==> (#[trigger] all[i])@ == self.names()[i],
    {
        let mut all: Vec<String> = Vec::new();
        let mut i: usize = 0;
        while i < self.names.len()
            invariant
                i <= self.names.len(),
                all.len() == i,
                forall|j: int| 0 <= j < i ==> (#[trigger] all[j])@ == self.names()[j],
            decreases self.names.len() - i,
        {
            all.push(self.names[i].clone());
            i += 1;
        }
        all
    }

    /// Takes the webview under `name` out of the registry and lets go of it.
    pub fn remove_webview(&mut self, name: &String) -> (removed: Result<(), Error>)
        ensures
            removed is Ok <==> old(self)@.contains_key(name@),
            removed is Ok ==> final(self)@ == old(self)@.remove(name@) && final(self).names()
                == without_name(old(self).names(), name@) && final(self).names().len() + 1 == old(
                self,
            ).names().len(),
            removed is Err ==> {
                &&& final(self)@ == old(self)@
                &&& final(self).names() == old(self).names()
                &&& removed->Err_0 is FailedToGetWebview
                &&& removed->Err_0->FailedToGetWebview_0@ == name@
            },
    {
        proof {
            use_type_invariant(&*self);
            self.lemma_names_list_the_webviews();
        }
        let slot = match self.index.get(name) {
            Some(slot) => slot,
            None => {
                return Err(Error::FailedToGetWebview(name.clone()));
            },
        };
        assert(old(self).names()[slot as int] == name@);
        let mut taken = WebViews::new();
        core::mem::swap(self, &mut taken);
        let WebViews { mut index, mut names, mut entries } = taken;
        let _ = index.remove(name);
        let _ = names.swap_remove(slot);
        let _ = entries.swap_remove(slot);
        if slot < names.len() {
            let _ = index.insert(names[slot].clone(), slot);
        }
        *self = WebViews { index, names, entries };
        assert(final(self)@ =~= old(self)@.remove(name@));
        assert(final(self).names() =~= without_name(old(self).names(), name@));
        Ok(())
    }

    /// Gives the webview under `name` the anchor `anchor`, and returns the
    /// rectangle that it then takes in a window of size `window_size`. Only
    /// relative bounds have an anchor: with others the registry stays as it is.
    pub fn update_anchor(
        &mut self,
        name: &String,
        anchor: Anchor,
        window_size: WrySize,
        scale_factor: ScaleFactor,
    ) -> (updated: Result<Rect, Error>)
        ensures
            final(self).names() == old(self).names(),
            !old(self)@.contains_key(name@) ==> {
                &&& final(self)@ == old(self)@
                &&& updated is Err
                &&& updated->Err_0 is FailedToGetWebview
                &&& updated->Err_0->FailedToGetWebview_0@ == name@
            },
            old(self)@.contains_key(name@) ==> (match reanchored(old(self)@[name@].bounds, anchor) {
                Some(bounds) => {
                    &&& final(self)@ == old(self)@.insert(
                        name@,
                        WebviewWrapper { webview: old(self)@[name@].webview, bounds },
                    )
                    &&& updated is Ok
                    &&& updated->Ok_0 == bounds.resolved(window_size, scale_factor)
                },
                None => {
                    &&& final(self)@ == old(self)@
                    &&& updated is Err
                    &&& updated->Err_0 is FailedToUpdateAnchor
                },
            }),
    {
        proof {
            use_type_invariant(&*self);
        }
        let slot = match self.index.get(name) {
            Some(slot) => slot,
            None => {
                return Err(Error::FailedToGetWebview(name.clone()));
            },
        };
        let rect = match self.entries[slot].bounds {
            Bounds::Relative { anchor: _, bounds } => bounds,
            _ => {
                return Err(Error::FailedToUpdateAnchor);
            },
        };
        let bounds = Bounds::Relative { anchor, bounds: rect };
        self.entries[slot].bounds = bounds;
        assert(final(self)@ =~= old(self)@.insert(
            name@,
            WebviewWrapper { webview: old(self)@[name@].webview, bounds },
        ));
        assert(final(self).names() =~= old(self).names());
        Ok(bounds.to_webview_bounds(window_size, scale_factor))
    }
}

impl<H> Default for WebViews<H> {
    fn default() -> (webviews: Self)
        ensures
            webviews@ == Map::<Seq<char>, WebviewWrapper<H>>::empty(),
            webviews.names() == Seq::<Seq<char>>::empty(),
    {
        WebViews::new()
    }
}

/// A name that is taken keeps its webview: a second insert under the name
/// changes nothing, and a lookup still finds the first.
pub proof fn lemma_second_insert_keeps_the_first<H>(
    webviews: Map<Seq<char>, WebviewWrapper<H>>,
    name: Seq<char>,
    first: WebviewWrapper<H>,
    second: WebviewWrapper<H>,
)
    ensures
        with_webview(with_webview(webviews, name, first), name, second) == with_webview(
            webviews,
            name,
            first,
        ),
        !webviews.contains_key(name) ==> with_webview(
            with_webview(webviews, name, first),
            name,
            second,
        )[name] == first,
        webviews.contains_key(name) ==> with_webview(webviews, name, second) == webviews,
{
}

/// Bounds that are not relative take no anchor, whichever it is; relative
/// bounds take any anchor and keep their rectangle.
pub proof fn lemma_only_relative_bounds_take_an_anchor(bounds: Bounds, anchor: Anchor)
    ensures
        reanchored(bounds, anchor) is Some <==> bounds is Relative,
        bounds matches Bounds::Relative { anchor: _, bounds: rect } ==> reanchored(bounds, anchor)
            == Some(Bounds::Relative { anchor, bounds: rect }),
{
}

} // verus!
