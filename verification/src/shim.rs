//! Shims: small scripts, one for each toolchain binary, that hand every call
//! on to the manager, which picks the version.

use crate::paths::{join_path, joined};
use crate::text::{contains, occurs_at, occurs_in, same_text};
use vstd::prelude::*;
use vstd::string::StringExecFns;

verus! {

/// The start of a shim, up to the first mention of the binary's name.
pub const SHIM_HEAD: &'static str =
    "#!/bin/sh\n# Shim created by govm - DO NOT EDIT\n# This shim intercepts calls to '";

/// What stands between the binary's name and the manager's path.
pub const SHIM_BEFORE_MANAGER: &'static str =
    "' and delegates to the appropriate Go version\n\nexec \"";

/// What stands between the manager's path and the binary's name as the
/// first argument.
pub const SHIM_BEFORE_BINARY: &'static str = "\" exec \"";

/// The end of a shim: all arguments are handed on.
pub const SHIM_TAIL: &'static str = "\" \"$@\"\n";

/// The permission bits of a shim: the owner may read, write and run it, all
/// others read and run it.
pub const SHIM_MODE: u32 = 0o755;

/// A shim as it was found. `content` is `None` where the file is missing or
/// cannot be read.
#[derive(Debug)]
pub struct ShimFile {
    pub name: String,
    pub content: Option<String>,
}

/// The mathematical value of a [`ShimFile`].
pub struct ShimFileView {
    pub name: Seq<char>,
    pub content: Option<Seq<char>>,
}

impl View for ShimFile {
    type V = ShimFileView;

    open spec fn view(&self) -> ShimFileView {
        ShimFileView { name: self.name@, content: self.content.deep_view() }
    }
}

impl DeepView for ShimFile {
    type V = ShimFileView;

    open spec fn deep_view(&self) -> ShimFileView {
        self@
    }
}

/// A shim to write: the whole file at `path` becomes `content`, and its
/// permission bits become `mode`.
#[derive(Debug)]
pub struct Shim {
    pub path: String,
    pub content: String,
    pub mode: u32,
}

/// The mathematical value of a [`Shim`].
pub struct ShimView {
    pub path: Seq<char>,
    pub content: Seq<char>,
    pub mode: u32,
}

impl View for Shim {
    type V = ShimView;

    open spec fn view(&self) -> ShimView {
        ShimView { path: self.path@, content: self.content@, mode: self.mode }
    }
}

impl DeepView for Shim {
    type V = ShimView;

    open spec fn deep_view(&self) -> ShimView {
        self@
    }
}

/// The names of the binaries that get a shim.
pub open spec fn managed_binaries() -> Seq<Seq<char>> {
    seq!["go"@, "gofmt"@]
}

/// The names of the binaries that get a shim.
pub fn go_binaries() -> (names: Vec<String>)
    ensures
        names.deep_view() == managed_binaries(),
{
    let mut names: Vec<String> = Vec::new();
    names.push(String::from_str("go"));
    names.push(String::from_str("gofmt"));
    assert(names.deep_view() =~= managed_binaries());
    names
}

/// The text of the shim for `binary` that calls the manager at `govm`: a
/// shell script that runs the manager's `exec` with the binary's name first
/// and all its own arguments after it.
pub open spec fn shim_text(binary: Seq<char>, govm: Seq<char>) -> Seq<char> {
    SHIM_HEAD@ + binary + SHIM_BEFORE_MANAGER@ + govm + SHIM_BEFORE_BINARY@ + binary + SHIM_TAIL@
}

/// The shim for `binary` in `shims_dir` that calls the manager at `govm`.
pub open spec fn shim_for(binary: Seq<char>, govm: Seq<char>, shims_dir: Seq<char>) -> ShimView {
    ShimView {
        path: joined(shims_dir, binary),
        content: shim_text(binary, govm),
        mode: SHIM_MODE,
    }
}

/// What was found of the shim called `name`, looking from index `from` on:
/// the content of the first entry of that name.
pub open spec fn content_from(observed: Seq<ShimFileView>, name: Seq<char>, from: int) -> Option<
    Seq<char>,
>
    decreases observed.len() - from,
{
    if from < 0 || from >= observed.len() {
        None
    } else if observed[from].name == name {
        observed[from].content
    } else {
        content_from(observed, name, from + 1)
    }
}

/// Whether a shim with this content, if any, must be written anew for the
/// manager at `govm`: it is missing, or its text does not hold the manager's
/// path.
pub open spec fn is_stale(content: Option<Seq<char>>, govm: Seq<char>) -> bool {
    match content {
        Some(c) => !occurs_in(govm, c),
        None => true,
    }
}

/// The shims to write so that each of `names` has a current one, in the
/// order of `names`.
pub open spec fn needed_shims(
    shims_dir: Seq<char>,
    govm: Seq<char>,
    names: Seq<Seq<char>>,
    observed: Seq<ShimFileView>,
) -> Seq<ShimView>
    decreases names.len(),
{
    if names.len() == 0 {
        Seq::empty()
    } else {
        let before = needed_shims(shims_dir, govm, names.drop_last(), observed);
        if is_stale(content_from(observed, names.last(), 0), govm) {
            before.push(shim_for(names.last(), govm, shims_dir))
        } else {
            before
        }
    }
}

/// The shims of all of `names`, in their order.
pub open spec fn all_shims(shims_dir: Seq<char>, govm: Seq<char>, names: Seq<Seq<char>>) -> Seq<
    ShimView,
> {
    Seq::new(names.len(), |i: int| shim_for(names[i], govm, shims_dir))
}

/// What is found of the shims of `names` once [`needed_shims`] are written.
pub open spec fn observed_after(
    govm: Seq<char>,
    names: Seq<Seq<char>>,
    observed: Seq<ShimFileView>,
) -> Seq<ShimFileView> {
    Seq::new(
        names.len(),
        |i: int|
            ShimFileView {
                name: names[i],
                content: if is_stale(content_from(observed, names[i], 0), govm) {
                    Some(shim_text(names[i], govm))
                } else {
                    content_from(observed, names[i], 0)
                },
            },
    )
}

/// The owner of a shim may run it.
pub proof fn shim_mode_lets_owner_run()
    ensures
        SHIM_MODE & 0o100 == 0o100,
{
    assert(0o755u32 & 0o100u32 == 0o100u32) by (bit_vector);
}

/// A shim holds the path of the manager it was made for.
pub proof fn shim_text_holds_manager(binary: Seq<char>, govm: Seq<char>)
    ensures
        occurs_in(govm, shim_text(binary, govm)),
        !is_stale(Some(shim_text(binary, govm)), govm),
{
    let at: int = (SHIM_HEAD@.len() + binary.len() + SHIM_BEFORE_MANAGER@.len()) as int;
    let text = shim_text(binary, govm);
    assert(text.subrange(at, at + govm.len()) =~= govm);
    assert(occurs_at(govm, text, at));
}

/// A shim made for another manager is stale exactly when its text does not
/// happen to hold the path of this one.
pub proof fn foreign_shim_is_stale(binary: Seq<char>, other: Seq<char>, govm: Seq<char>)
    ensures
        is_stale(Some(shim_text(binary, other)), govm) <==> !occurs_in(
            govm,
            shim_text(binary, other),
        ),
        govm.len() > shim_text(binary, other).len() ==> is_stale(
            Some(shim_text(binary, other)),
            govm,
        ),
{
    let text = shim_text(binary, other);
    if govm.len() > text.len() && occurs_in(govm, text) {
        let i = choose|i: int| occurs_at(govm, text, i);
        assert(occurs_at(govm, text, i));
    }
}

proof fn found_content_is_current(
    observed: Seq<ShimFileView>,
    name: Seq<char>,
    govm: Seq<char>,
    from: int,
)
    requires
        0 <= from,
        exists|k: int| from <= k < observed.len() && observed[k].name == name,
        forall|k: int|
            0 <= k < observed.len() && observed[k].name == name ==> !is_stale(
                #[trigger] observed[k].content,
                govm,
            ),
    ensures
        !is_stale(content_from(observed, name, from), govm),
    decreases observed.len() - from,
{
    if from < observed.len() && observed[from].name != name {
        let k = choose|k: int| from <= k < observed.len() && observed[k].name == name;
        assert(from + 1 <= k);
        found_content_is_current(observed, name, govm, from + 1);
    }
}

proof fn nothing_needed_when_current(
    shims_dir: Seq<char>,
    govm: Seq<char>,
    names: Seq<Seq<char>>,
    observed: Seq<ShimFileView>,
)
    requires
        forall|i: int|
            0 <= i < names.len() ==> !is_stale(content_from(observed, #[trigger] names[i], 0), govm),
    ensures
        needed_shims(shims_dir, govm, names, observed) == Seq::<ShimView>::empty(),
    decreases names.len(),
{
    if names.len() > 0 {
        let front = names.drop_last();
        assert forall|i: int| 0 <= i < front.len() implies !is_stale(
            content_from(observed, #[trigger] front[i], 0),
            govm,
        ) by {
            assert(front[i] == names[i]);
        }
        nothing_needed_when_current(shims_dir, govm, front, observed);
        assert(names.last() == names[names.len() - 1]);
    }
}

/// Once the needed shims are written, none is needed: bringing the shims up
/// to date a second time writes nothing.
pub proof fn ensure_twice_writes_once(
    shims_dir: Seq<char>,
    govm: Seq<char>,
    names: Seq<Seq<char>>,
    observed: Seq<ShimFileView>,
)
    ensures
        needed_shims(shims_dir, govm, names, observed_after(govm, names, observed)) == Seq::<
            ShimView,
        >::empty(),
{
    let after = observed_after(govm, names, observed);
    assert forall|k: int| 0 <= k < after.len() implies !is_stale(
        #[trigger] after[k].content,
        govm,
    ) by {
        shim_text_holds_manager(names[k], govm);
    }
    assert forall|i: int| 0 <= i < names.len() implies !is_stale(
        content_from(after, #[trigger] names[i], 0),
        govm,
    ) by {
        assert(after[i].name == names[i]);
        found_content_is_current(after, names[i], govm, 0);
    }
    nothing_needed_when_current(shims_dir, govm, names, after);
}

/// The shim for `binary`, to stand in `shims_dir` and call the manager at
/// `govm_path`.
pub fn create_shim(binary: &str, govm_path: &str, shims_dir: &str) -> (shim: Shim)
    ensures
        shim@ == shim_for(binary@, govm_path@, shims_dir@),
{
    let mut content = String::from_str(SHIM_HEAD);
    content.append(binary);
    content.append(SHIM_BEFORE_MANAGER);
    content.append(govm_path);
    content.append(SHIM_BEFORE_BINARY);
    content.append(binary);
    content.append(SHIM_TAIL);
    Shim { path: join_path(shims_dir, binary), content, mode: SHIM_MODE }
}

/// What was found of the shim called `name`.
fn find_content<'a>(observed: &'a Vec<ShimFile>, name: &str) -> (content: &'a Option<String>)
    ensures
        content.deep_view() == content_from(observed.deep_view(), name@, 0),
{
    let mut i: usize = 0;
    while i < observed.len()
        invariant
            i <= observed.len(),
            content_from(observed.deep_view(), name@, 0) == content_from(
                observed.deep_view(),
                name@,
                i as int,
            ),
        decreases observed.len() - i,
    {
        assert(observed.deep_view()[i as int] == observed@[i as int]@);
        if same_text(observed[i].name.as_str(), name) {
            return &observed[i].content;
        }
        i += 1;
    }
    &None
}

/// Whether a shim with this content, if any, must be written anew.
pub fn needs_update(content: &Option<String>, govm_path: &str) -> (stale: bool)
    ensures
        stale == is_stale(content.deep_view(), govm_path@),
{
    match content {
        Some(c) => !contains(c.as_str(), govm_path),
        None => true,
    }
}

/// The shims to write so that each of `binary_names` has one that calls the
/// manager at `govm_path`: those that are missing or stale, and no other.
pub fn ensure_current(
    shims_dir: &str,
    govm_path: &str,
    binary_names: &Vec<String>,
    observed: &Vec<ShimFile>,
) -> (shims: Vec<Shim>)
    ensures
        shims.deep_view() == needed_shims(
            shims_dir@,
            govm_path@,
            binary_names.deep_view(),
            observed.deep_view(),
        ),
{
    let mut shims: Vec<Shim> = Vec::new();
    let ghost names = binary_names.deep_view();
    let mut i: usize = 0;
    assert(shims.deep_view() =~= Seq::<ShimView>::empty());
    assert(names.take(0) =~= Seq::<Seq<char>>::empty());
    while i < binary_names.len()
        invariant
            i <= binary_names.len(),
            names == binary_names.deep_view(),
            shims.deep_view() == needed_shims(
                shims_dir@,
                govm_path@,
                names.take(i as int),
                observed.deep_view(),
            ),
        decreases binary_names.len() - i,
    {
        let name = binary_names[i].as_str();
        assert(names[i as int] == name@);
        assert(names.take(i + 1).drop_last() =~= names.take(i as int));
        assert(names.take(i + 1).last() == name@);
        if needs_update(find_content(observed, name), govm_path) {
            let ghost before = shims.deep_view();
            let shim = create_shim(name, govm_path, shims_dir);
            shims.push(shim);
            assert(shims.deep_view() =~= before.push(shim@));
        }
        i += 1;
    }
    assert(names.take(i as int) =~= names);
    shims
}

/// The shims of all of `binary_names`, whatever is there already.
pub fn force_regenerate(shims_dir: &str, govm_path: &str, binary_names: &Vec<String>) -> (shims:
    Vec<Shim>)
    ensures
        shims.deep_view() == all_shims(shims_dir@, govm_path@, binary_names.deep_view()),
{
    let mut shims: Vec<Shim> = Vec::new();
    let mut i: usize = 0;
    while i < binary_names.len()
        invariant
            i <= binary_names.len(),
            shims.len() == i,
            forall|k: int|
                0 <= k < i ==> (#[trigger] shims@[k])@ == shim_for(
                    binary_names@[k]@,
                    govm_path@,
                    shims_dir@,
                ),
        decreases binary_names.len() - i,
    {
        let shim = create_shim(binary_names[i].as_str(), govm_path, shims_dir);
        shims.push(shim);
        i += 1;
    }
    assert(shims.deep_view() =~= all_shims(shims_dir@, govm_path@, binary_names.deep_view()));
    shims
}

/// The shims to write so that every toolchain binary has a current one.
pub fn ensure_shims(shims_dir: &str, govm_path: &str, observed: &Vec<ShimFile>) -> (shims: Vec<
    Shim,
>)
    ensures
        shims.deep_view() == needed_shims(
            shims_dir@,
            govm_path@,
            managed_binaries(),
            observed.deep_view(),
        ),
{
    let names = go_binaries();
    ensure_current(shims_dir, govm_path, &names, observed)
}

/// The shims of every toolchain binary, whatever is there already.
pub fn create_all_shims(shims_dir: &str, govm_path: &str) -> (shims: Vec<Shim>)
    ensures
        shims.deep_view() == all_shims(shims_dir@, govm_path@, managed_binaries()),
{
    let names = go_binaries();
    force_regenerate(shims_dir, govm_path, &names)
}

} // verus!
