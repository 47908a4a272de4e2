//! Which version applies: an override first, then the nearest pin on the way
//! up from the working directory, then the global default.

use crate::paths::{ancestor_dirs, ancestors, join_path, joined};
use crate::text::trim;
use crate::text::trimmed;
use crate::version::{canonical, normalize};
use vstd::prelude::*;

verus! {

/// The name of the marker file that pins a version for a directory and all
/// that lies below it.
pub const PIN_FILE_NAME: &'static str = ".go-version";

/// The name of the environment variable that overrides every marker.
pub const OVERRIDE_VARIABLE: &'static str = "GOVM_VERSION";

/// A place where a pin may stand, with what was read there. `content` is
/// `None` where there is no marker file or it cannot be read.
#[derive(Debug)]
pub struct PinFile {
    pub path: String,
    pub content: Option<String>,
}

/// The mathematical value of a [`PinFile`].
pub struct PinFileView {
    pub path: Seq<char>,
    pub content: Option<Seq<char>>,
}

impl View for PinFile {
    type V = PinFileView;

    open spec fn view(&self) -> PinFileView {
        PinFileView { path: self.path@, content: self.content.deep_view() }
    }
}

impl DeepView for PinFile {
    type V = PinFileView;

    open spec fn deep_view(&self) -> PinFileView {
        self@
    }
}

/// All that the choice of a version depends on.
#[derive(Debug)]
pub struct Context {
    /// The value of the override, where one is set.
    pub override_value: Option<String>,
    /// What was found at the places of the pins, from the working directory
    /// upwards: the working directory first, the root last (see
    /// [`pin_paths`]).
    pub pins: Vec<PinFile>,
    /// What the global marker holds; `None` where it is missing or cannot be
    /// read.
    pub global: Option<String>,
}

/// The mathematical value of a [`Context`].
pub struct ContextView {
    pub override_value: Option<Seq<char>>,
    pub pins: Seq<PinFileView>,
    pub global: Option<Seq<char>>,
}

impl View for Context {
    type V = ContextView;

    open spec fn view(&self) -> ContextView {
        ContextView {
            override_value: self.override_value.deep_view(),
            pins: self.pins.deep_view(),
            global: self.global.deep_view(),
        }
    }
}

impl DeepView for Context {
    type V = ContextView;

    open spec fn deep_view(&self) -> ContextView {
        self@
    }
}

/// Where the version that applies comes from.
#[derive(Debug)]
pub enum SelectionSource {
    /// The override.
    Override,
    /// The marker file at `path`.
    ScopedPin { path: String },
    /// The global marker.
    GlobalDefault,
    /// Nowhere: no version applies.
    Unset,
}

/// The mathematical value of a [`SelectionSource`].
pub enum SourceView {
    Override,
    ScopedPin { path: Seq<char> },
    GlobalDefault,
    Unset,
}

impl View for SelectionSource {
    type V = SourceView;

    open spec fn view(&self) -> SourceView {
        match self {
            SelectionSource::Override => SourceView::Override,
            SelectionSource::ScopedPin { path } => SourceView::ScopedPin { path: path@ },
            SelectionSource::GlobalDefault => SourceView::GlobalDefault,
            SelectionSource::Unset => SourceView::Unset,
        }
    }
}

impl DeepView for SelectionSource {
    type V = SourceView;

    open spec fn deep_view(&self) -> SourceView {
        self@
    }
}

/// The places where a pin may stand for the working directory `cwd`: the
/// marker file in it, then that in each directory on the way up, the
/// nearest first.
pub open spec fn pin_places(cwd: Seq<char>) -> Seq<Seq<char>> {
    Seq::new(ancestors(cwd).len(), |i: int| joined(ancestors(cwd)[i], PIN_FILE_NAME@))
}

/// The version that an override names: its canonical form, unless that is
/// empty.
pub open spec fn override_version(value: Option<Seq<char>>) -> Option<Seq<char>> {
    match value {
        Some(v) => if canonical(v).len() > 0 {
            Some(canonical(v))
        } else {
            None
        },
        None => None,
    }
}

/// The version that a marker file names: the canonical form of its content
/// without the white space around it, unless that is empty. A file that is
/// missing, unreadable, empty or blank names none.
pub open spec fn marker_version(content: Option<Seq<char>>) -> Option<Seq<char>> {
    match content {
        Some(c) => if canonical(trimmed(c)).len() > 0 {
            Some(canonical(trimmed(c)))
        } else {
            None
        },
        None => None,
    }
}

/// Whether the pin at index `i` is the one that counts: it names a version
/// and none nearer to the working directory does.
pub open spec fn is_nearest_pin(pins: Seq<PinFileView>, i: int) -> bool {
    &&& 0 <= i < pins.len()
    &&& marker_version(pins[i].content) is Some
    &&& forall|j: int| 0 <= j < i ==> marker_version(#[trigger] pins[j].content) is None
}

/// Whether no pin names a version.
pub open spec fn no_pin(pins: Seq<PinFileView>) -> bool {
    forall|j: int| 0 <= j < pins.len() ==> marker_version(#[trigger] pins[j].content) is None
}

/// The index of the pin that counts, looking from index `from` on.
pub open spec fn nearest_pin_from(pins: Seq<PinFileView>, from: int) -> Option<int>
    decreases pins.len() - from,
{
    if from < 0 || from >= pins.len() {
        None
    } else if marker_version(pins[from].content) is Some {
        Some(from)
    } else {
        nearest_pin_from(pins, from + 1)
    }
}

/// The index of the pin that counts.
pub open spec fn nearest_pin(pins: Seq<PinFileView>) -> Option<int> {
    nearest_pin_from(pins, 0)
}

/// The version that the pins give.
pub open spec fn local_version(pins: Seq<PinFileView>) -> Option<Seq<char>> {
    match nearest_pin(pins) {
        Some(i) => marker_version(pins[i].content),
        None => None,
    }
}

/// The path of the marker file that gives [`local_version`].
pub open spec fn local_pin_path(pins: Seq<PinFileView>) -> Option<Seq<char>> {
    match nearest_pin(pins) {
        Some(i) => Some(pins[i].path),
        None => None,
    }
}

/// The version that applies in `ctx`, if any.
pub open spec fn resolved(ctx: ContextView) -> Option<Seq<char>> {
    if override_version(ctx.override_value) is Some {
        override_version(ctx.override_value)
    } else if local_version(ctx.pins) is Some {
        local_version(ctx.pins)
    } else {
        marker_version(ctx.global)
    }
}

/// Where [`resolved`] takes its version from.
pub open spec fn resolved_source(ctx: ContextView) -> SourceView {
    if override_version(ctx.override_value) is Some {
        SourceView::Override
    } else if local_version(ctx.pins) is Some {
        SourceView::ScopedPin { path: local_pin_path(ctx.pins)->0 }
    } else if marker_version(ctx.global) is Some {
        SourceView::GlobalDefault
    } else {
        SourceView::Unset
    }
}

/// The search from `from` on finds the first pin at or after `from` that
/// names a version, and finds none only where there is none.
pub proof fn nearest_pin_from_is_first(pins: Seq<PinFileView>, from: int)
    requires
        0 <= from,
    ensures
        match nearest_pin_from(pins, from) {
            Some(i) => {
                &&& from <= i < pins.len()
                &&& marker_version(pins[i].content) is Some
                &&& forall|j: int|
                    from <= j < i ==> marker_version(#[trigger] pins[j].content) is None
            },
            None => forall|j: int|
                from <= j < pins.len() ==> marker_version(#[trigger] pins[j].content) is None,
        },
    decreases pins.len() - from,
{
    if from < pins.len() && marker_version(pins[from].content) is None {
        nearest_pin_from_is_first(pins, from + 1);
    }
}

/// The pin that counts is the nearest that names a version: a nearer pin
/// always shadows a farther one, and a pin is found however far up it
/// stands, as long as none nearer names a version.
pub proof fn nearest_pin_shadows(pins: Seq<PinFileView>, i: int)
    ensures
        is_nearest_pin(pins, i) <==> nearest_pin(pins) == Some(i),
        no_pin(pins) <==> nearest_pin(pins) is None,
        is_nearest_pin(pins, i) ==> local_version(pins) == marker_version(pins[i].content)
            && local_pin_path(pins) == Some(pins[i].path),
{
    nearest_pin_from_is_first(pins, 0);
    if is_nearest_pin(pins, i) {
        match nearest_pin(pins) {
            Some(k) => {
                if k < i {
                    assert(marker_version(pins[k].content) is None);
                } else if i < k {
                    assert(marker_version(pins[i].content) is None);
                }
            },
            None => {
                assert(marker_version(pins[i].content) is None);
            },
        }
    }
}

/// The source that is reported is the one that the version was taken from:
/// a version applies exactly when a source is named, and a pin that is
/// named is the nearest pin that names a version, the one that was read.
pub proof fn source_agrees_with_version(ctx: ContextView)
    ensures
        resolved(ctx) is None <==> resolved_source(ctx) is Unset,
        resolved_source(ctx) is Override ==> resolved(ctx) == override_version(
            ctx.override_value,
        ),
        resolved_source(ctx) is GlobalDefault ==> resolved(ctx) == marker_version(ctx.global),
        resolved_source(ctx) matches SourceView::ScopedPin { path } ==> exists|i: int|
            #![trigger ctx.pins[i]]
            is_nearest_pin(ctx.pins, i) && ctx.pins[i].path == path && resolved(ctx)
                == marker_version(ctx.pins[i].content),
{
    nearest_pin_from_is_first(ctx.pins, 0);
    if resolved_source(ctx) is ScopedPin {
        let i = nearest_pin(ctx.pins)->0;
        assert(is_nearest_pin(ctx.pins, i));
        assert(ctx.pins[i].path == local_pin_path(ctx.pins)->0);
    }
}

/// The paths of the marker files to read for the working directory `cwd`,
/// in the order in which [`Context::pins`] wants what was found there.
pub fn pin_paths(cwd: &str) -> (paths: Vec<String>)
    ensures
        paths.deep_view() == pin_places(cwd@),
{
    let dirs = ancestor_dirs(cwd);
    let mut paths: Vec<String> = Vec::new();
    let mut i: usize = 0;
    while i < dirs.len()
        invariant
            i <= dirs.len(),
            paths.len() == i,
            dirs.deep_view() == ancestors(cwd@),
            forall|k: int|
                0 <= k < i ==> (#[trigger] paths@[k])@ == joined(dirs@[k]@, PIN_FILE_NAME@),
        decreases dirs.len() - i,
    {
        paths.push(join_path(dirs[i].as_str(), PIN_FILE_NAME));
        i += 1;
    }
    assert(paths.deep_view() =~= pin_places(cwd@)) by {
        assert forall|k: int| 0 <= k < paths.len() implies paths.deep_view()[k] == pin_places(
            cwd@,
        )[k] by {
            assert(dirs.deep_view()[k] == dirs@[k]@);
        }
    }
    paths
}

/// Reads the version out of what a marker file holds.
pub fn get_global_version(content: &Option<String>) -> (version: Option<String>)
    ensures
        version.deep_view() == marker_version(content.deep_view()),
{
    match content {
        Some(c) => {
            let v = normalize(trim(c.as_str()));
            if v.as_str().unicode_len() > 0 {
                Some(v)
            } else {
                None
            }
        },
        None => None,
    }
}

/// The index of the pin that counts.
fn find_pin(pins: &Vec<PinFile>) -> (found: Option<usize>)
    ensures
        match found {
            Some(i) => nearest_pin(pins.deep_view()) == Some(i as int) && i < pins.len(),
            None => nearest_pin(pins.deep_view()) is None,
        },
{
    let mut i: usize = 0;
    while i < pins.len()
        invariant
            i <= pins.len(),
            nearest_pin(pins.deep_view()) == nearest_pin_from(pins.deep_view(), i as int),
        decreases pins.len() - i,
    {
        let v = get_global_version(&pins[i].content);
        assert(pins.deep_view()[i as int] == pins@[i as int]@);
        if v.is_some() {
            return Some(i);
        }
        i += 1;
    }
    None
}

/// Looks for a pin from the working directory upwards and gives the version
/// of the nearest that names one.
pub fn find_local_version(pins: &Vec<PinFile>) -> (version: Option<String>)
    ensures
        version.deep_view() == local_version(pins.deep_view()),
{
    match find_pin(pins) {
        Some(i) => {
            assert(pins.deep_view()[i as int] == pins@[i as int]@);
            get_global_version(&pins[i].content)
        },
        None => None,
    }
}

/// The path of the marker file that [`find_local_version`] takes its version
/// from.
pub fn locate_scoped_pin(pins: &Vec<PinFile>) -> (path: Option<String>)
    ensures
        path.deep_view() == local_pin_path(pins.deep_view()),
{
    match find_pin(pins) {
        Some(i) => {
            assert(pins.deep_view()[i as int] == pins@[i as int]@);
            Some(pins[i].path.clone())
        },
        None => None,
    }
}

/// Reads the version out of the value of the override.
pub fn get_override_version(value: &Option<String>) -> (version: Option<String>)
    ensures
        version.deep_view() == override_version(value.deep_view()),
{
    match value {
        Some(v) => {
            let v = normalize(v.as_str());
            if v.as_str().unicode_len() > 0 {
                Some(v)
            } else {
                None
            }
        },
        None => None,
    }
}

/// The version that applies: the override if it names one, else the nearest
/// pin that names one, else the global default, else none.
pub fn resolve(ctx: &Context) -> (version: Option<String>)
    ensures
        version.deep_view() == resolved(ctx@),
{
    let forced = get_override_version(&ctx.override_value);
    if forced.is_some() {
        return forced;
    }
    let local = find_local_version(&ctx.pins);
    if local.is_some() {
        return local;
    }
    get_global_version(&ctx.global)
}

/// Where the version that applies comes from; it names the very marker file
/// that [`resolve`] read.
pub fn resolve_source(ctx: &Context) -> (source: SelectionSource)
    ensures
        source@ == resolved_source(ctx@),
{
    if get_override_version(&ctx.override_value).is_some() {
        return SelectionSource::Override;
    }
    match locate_scoped_pin(&ctx.pins) {
        Some(path) => {
            proof {
                nearest_pin_from_is_first(ctx.pins.deep_view(), 0);
            }
            SelectionSource::ScopedPin { path }
        },
        None => {
            if get_global_version(&ctx.global).is_some() {
                SelectionSource::GlobalDefault
            } else {
                SelectionSource::Unset
            }
        },
    }
}

} // verus!
