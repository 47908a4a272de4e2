//! The installed versions, read off a listing of the versions directory.

use crate::key::{
    key_less, key_less_asymmetric, key_less_irreflexive, key_less_total, key_less_transitive,
    lex_less, lex_less_irreflexive, lex_less_total, lex_less_transitive, text_less, VersionKey,
};
use crate::text::{chars_of, same_text};
use crate::version::{is_bare, key_of, parse};
use vstd::prelude::*;

verus! {

/// One entry of a directory listing. `name` is `None` where the name is not
/// text.
#[derive(Debug)]
pub struct DirEntry {
    pub name: Option<String>,
    pub is_dir: bool,
}

/// The mathematical value of a [`DirEntry`].
pub struct DirEntryView {
    pub name: Option<Seq<char>>,
    pub is_dir: bool,
}

impl View for DirEntry {
    type V = DirEntryView;

    open spec fn view(&self) -> DirEntryView {
        DirEntryView { name: self.name.deep_view(), is_dir: self.is_dir }
    }
}

impl DeepView for DirEntry {
    type V = DirEntryView;

    open spec fn deep_view(&self) -> DirEntryView {
        self@
    }
}

/// Whether `name` can be the name of an installed version: it is not empty
/// and is in canonical form.
pub open spec fn is_version_name(name: Seq<char>) -> bool {
    name.len() > 0 && is_bare(name)
}

/// Whether an entry stands for an installed version: it is a directory
/// whose name can be the name of one.
pub open spec fn is_install(entry: DirEntryView) -> bool {
    entry.is_dir && entry.name is Some && is_version_name(entry.name->0)
}

/// The names of the installed versions, in the order of the listing.
pub open spec fn install_names(entries: Seq<DirEntryView>) -> Seq<Seq<char>>
    decreases entries.len(),
{
    if entries.len() == 0 {
        Seq::empty()
    } else {
        let before = install_names(entries.drop_last());
        if is_install(entries.last()) {
            before.push(entries.last().name->0)
        } else {
            before
        }
    }
}

/// Whether `version` is installed: the listing has a directory of that name.
pub open spec fn is_installed(entries: Seq<DirEntryView>, version: Seq<char>) -> bool {
    exists|i: int|
        0 <= i < entries.len() && is_install(#[trigger] entries[i]) && entries[i].name == Some(
            version,
        )
}

/// The order in which versions are listed, lowest first: by key, and by
/// name where the keys are equal.
pub open spec fn name_less(a: Seq<char>, b: Seq<char>) -> bool {
    key_less(key_of(a), key_of(b)) || (key_of(a) == key_of(b) && lex_less(a, b))
}

/// Whether `names` run from the highest version to the lowest.
pub open spec fn is_descending(names: Seq<Seq<char>>) -> bool {
    forall|i: int, j: int| 0 <= i < j < names.len() ==> !name_less(names[i], names[j])
}

/// Where `name` goes among `names`, looking from index `from` on: before
/// the first that is listed below it, or at the end.
pub open spec fn place_from(names: Seq<Seq<char>>, name: Seq<char>, from: int) -> int
    decreases names.len() - from,
{
    if from < 0 || from >= names.len() {
        names.len() as int
    } else if name_less(names[from], name) {
        from
    } else {
        place_from(names, name, from + 1)
    }
}

/// `names` with `name` put in its place.
pub open spec fn with_version(names: Seq<Seq<char>>, name: Seq<char>) -> Seq<Seq<char>> {
    names.insert(place_from(names, name, 0), name)
}

/// The installed versions as they are listed: each name of the listing put
/// in its place, so that they run from the highest version to the lowest.
pub open spec fn listed(entries: Seq<DirEntryView>) -> Seq<Seq<char>>
    decreases entries.len(),
{
    if entries.len() == 0 {
        Seq::empty()
    } else {
        let before = listed(entries.drop_last());
        if is_install(entries.last()) {
            with_version(before, entries.last().name->0)
        } else {
            before
        }
    }
}

/// The place of a name is after all that are not below it and before one
/// that is.
pub proof fn place_from_is_first(names: Seq<Seq<char>>, name: Seq<char>, from: int)
    requires
        0 <= from <= names.len(),
    ensures
        from <= place_from(names, name, from) <= names.len(),
        forall|k: int|
            from <= k < place_from(names, name, from) ==> !name_less(#[trigger] names[k], name),
        place_from(names, name, from) < names.len() ==> name_less(
            names[place_from(names, name, from)],
            name,
        ),
    decreases names.len() - from,
{
    if from < names.len() && !name_less(names[from], name) {
        place_from_is_first(names, name, from + 1);
    }
}

/// The installed versions are listed from the highest to the lowest.
pub proof fn listed_is_descending(entries: Seq<DirEntryView>)
    ensures
        is_descending(listed(entries)),
    decreases entries.len(),
{
    if entries.len() > 0 {
        listed_is_descending(entries.drop_last());
        if is_install(entries.last()) {
            let before = listed(entries.drop_last());
            let name = entries.last().name->0;
            place_from_is_first(before, name, 0);
            inserted_stays_descending(before, place_from(before, name, 0), name);
        }
    }
}

/// The list of installed versions holds the names of the installed
/// versions, each as often as the listing has it, and nothing else.
pub proof fn listed_is_permutation(entries: Seq<DirEntryView>)
    ensures
        listed(entries).to_multiset() == install_names(entries).to_multiset(),
        listed(entries).len() == install_names(entries).len(),
    decreases entries.len(),
{
    if entries.len() > 0 {
        listed_is_permutation(entries.drop_last());
        if is_install(entries.last()) {
            let before = listed(entries.drop_last());
            let name = entries.last().name->0;
            place_from_is_first(before, name, 0);
            inserted_to_multiset(before, place_from(before, name, 0), name);
            vstd::seq_lib::to_multiset_build(install_names(entries.drop_last()), name);
        }
    }
}

/// A version is in the list of installed versions exactly when it is
/// installed.
pub proof fn listed_are_installed(entries: Seq<DirEntryView>, version: Seq<char>)
    ensures
        listed(entries).contains(version) <==> is_installed(entries, version),
{
    listed_is_permutation(entries);
    installed_names_are_installed(entries, version);
    listed(entries).to_multiset_ensures();
    install_names(entries).to_multiset_ensures();
    assert(listed(entries).contains(version) <==> listed(entries).to_multiset().count(version)
        > 0);
    assert(install_names(entries).contains(version) <==> install_names(
        entries,
    ).to_multiset().count(version) > 0);
}

/// No name is below itself.
pub proof fn name_less_irreflexive(a: Seq<char>)
    ensures
        !name_less(a, a),
{
    key_less_irreflexive(key_of(a));
    lex_less_irreflexive(a);
}

/// The listing order is transitive.
pub proof fn name_less_transitive(a: Seq<char>, b: Seq<char>, c: Seq<char>)
    requires
        name_less(a, b),
        name_less(b, c),
    ensures
        name_less(a, c),
{
    let (ka, kb, kc) = (key_of(a), key_of(b), key_of(c));
    if key_less(ka, kb) && key_less(kb, kc) {
        key_less_transitive(ka, kb, kc);
    } else if ka == kb && kb == kc {
        lex_less_transitive(a, b, c);
    }
}

/// If one name is below another, the other is not below it.
pub proof fn name_less_asymmetric(a: Seq<char>, b: Seq<char>)
    requires
        name_less(a, b),
    ensures
        !name_less(b, a),
{
    if name_less(b, a) {
        name_less_transitive(a, b, a);
        name_less_irreflexive(a);
    }
}

/// Of two different names one is below the other.
pub proof fn name_less_total(a: Seq<char>, b: Seq<char>)
    requires
        a != b,
    ensures
        name_less(a, b) || name_less(b, a),
{
    if key_of(a) != key_of(b) {
        key_less_total(key_of(a), key_of(b));
    } else {
        lex_less_total(a, b);
    }
}

/// A version is installed exactly when its name is among the names of the
/// installed versions.
pub proof fn installed_names_are_installed(entries: Seq<DirEntryView>, version: Seq<char>)
    ensures
        install_names(entries).contains(version) <==> is_installed(entries, version),
    decreases entries.len(),
{
    if entries.len() > 0 {
        let front = entries.drop_last();
        installed_names_are_installed(front, version);
        let names = install_names(front);
        if is_installed(entries, version) {
            let i = choose|i: int|
                0 <= i < entries.len() && is_install(#[trigger] entries[i]) && entries[i].name
                    == Some(version);
            if i < front.len() {
                assert(front[i] == entries[i]);
                assert(is_installed(front, version));
                let k = choose|k: int| 0 <= k < names.len() && names[k] == version;
                assert(install_names(entries)[k] == version);
            } else {
                assert(names.push(version)[names.len() as int] == version);
            }
        }
        if install_names(entries).contains(version) {
            let k = choose|k: int|
                0 <= k < install_names(entries).len() && install_names(entries)[k] == version;
            if k < names.len() {
                assert(names[k] == version);
                assert(names.contains(version));
                let i = choose|i: int|
                    0 <= i < front.len() && is_install(#[trigger] front[i]) && front[i].name
                        == Some(version);
                assert(entries[i] == front[i]);
            } else {
                assert(is_install(entries[entries.len() - 1]));
            }
        }
    }
}

/// Whether `name` can be the name of an installed version.
pub fn valid_version_name(name: &str) -> (valid: bool)
    ensures
        valid == is_version_name(name@),
{
    let v = chars_of(name);
    if v.len() == 0 {
        false
    } else if v[0] == 'v' {
        false
    } else if v.len() >= 2 && v[0] == 'g' && v[1] == 'o' {
        false
    } else {
        true
    }
}

/// Whether an entry stands for an installed version.
pub fn is_install_entry(entry: &DirEntry) -> (r: bool)
    ensures
        r == is_install(entry@),
{
    match &entry.name {
        Some(name) => entry.is_dir && valid_version_name(name.as_str()),
        None => false,
    }
}

/// Whether the version `a`, with key `ka`, is listed below `b`, with key
/// `kb`.
fn listed_below(ka: &VersionKey, a: &str, kb: &VersionKey, b: &str) -> (r: bool)
    requires
        ka@ == key_of(a@),
        kb@ == key_of(b@),
    ensures
        r == name_less(a@, b@),
{
    if ka.less_than(kb) {
        true
    } else if kb.less_than(ka) {
        proof {
            key_less_asymmetric(kb@, ka@);
            key_less_irreflexive(ka@);
        }
        false
    } else {
        proof {
            if ka@ != kb@ {
                key_less_total(ka@, kb@);
            }
        }
        text_less(a, b)
    }
}

/// Whether `version` is installed.
pub fn is_version_installed(entries: &Vec<DirEntry>, version: &str) -> (installed: bool)
    ensures
        installed == is_installed(entries.deep_view(), version@),
{
    let mut i: usize = 0;
    while i < entries.len()
        invariant
            i <= entries.len(),
            forall|k: int|
                0 <= k < i ==> !(is_install(#[trigger] entries.deep_view()[k])
                    && entries.deep_view()[k].name == Some(version@)),
        decreases entries.len() - i,
    {
        assert(entries.deep_view()[i as int] == entries@[i as int]@);
        if is_install_entry(&entries[i]) {
            match &entries[i].name {
                Some(name) => {
                    if same_text(name.as_str(), version) {
                        return true;
                    }
                },
                None => {},
            }
        }
        i += 1;
    }
    false
}

/// The names of the installed versions, from the highest version to the
/// lowest. Entries that are no directories, or whose names cannot be the
/// name of a version, are passed over.
pub fn get_installed_versions(entries: &Vec<DirEntry>) -> (names: Vec<String>)
    ensures
        names.deep_view() == listed(entries.deep_view()),
        is_descending(names.deep_view()),
        names.deep_view().to_multiset() == install_names(entries.deep_view()).to_multiset(),
{
    proof {
        listed_is_descending(entries.deep_view());
        listed_is_permutation(entries.deep_view());
    }
    let mut names: Vec<String> = Vec::new();
    let mut keys: Vec<VersionKey> = Vec::new();
    let ghost listing = entries.deep_view();
    let mut i: usize = 0;
    assert(names.deep_view() =~= Seq::<Seq<char>>::empty());
    assert(listing.take(0) =~= Seq::<DirEntryView>::empty());
    while i < entries.len()
        invariant
            i <= entries.len(),
            listing == entries.deep_view(),
            keys.len() == names.len(),
            forall|k: int| 0 <= k < keys.len() ==> (#[trigger] keys@[k])@ == key_of(names@[k]@),
            names.deep_view() == listed(listing.take(i as int)),
        decreases entries.len() - i,
    {
        assert(listing[i as int] == entries@[i as int]@);
        assert(listing.take(i + 1).drop_last() =~= listing.take(i as int));
        assert(listing.take(i + 1).last() == listing[i as int]);
        if is_install_entry(&entries[i]) {
            match &entries[i].name {
                Some(name) => {
                    let key = parse(name.as_str());
                    let at = insertion_point(&keys, &names, &key, name.as_str());
                    let ghost before = names.deep_view();
                    names.insert(at, name.clone());
                    keys.insert(at, key);
                    assert(names.deep_view() =~= before.insert(at as int, name@));
                },
                None => {},
            }
        }
        i += 1;
    }
    assert(listing.take(i as int) =~= listing);
    names
}

/// Where `name` goes among `names` so that they stay in order: before the
/// first that is listed below it.
fn insertion_point(keys: &Vec<VersionKey>, names: &Vec<String>, key: &VersionKey, name: &str) -> (at:
    usize)
    requires
        keys.len() == names.len(),
        forall|k: int| 0 <= k < keys.len() ==> (#[trigger] keys@[k])@ == key_of(names@[k]@),
        key@ == key_of(name@),
    ensures
        at <= names.len(),
        at == place_from(names.deep_view(), name@, 0),
{
    let mut at: usize = 0;
    while at < names.len()
        invariant
            at <= names.len(),
            keys.len() == names.len(),
            forall|k: int| 0 <= k < keys.len() ==> (#[trigger] keys@[k])@ == key_of(names@[k]@),
            key@ == key_of(name@),
            place_from(names.deep_view(), name@, 0) == place_from(
                names.deep_view(),
                name@,
                at as int,
            ),
        decreases names.len() - at,
    {
        assert(names.deep_view()[at as int] == names@[at as int]@);
        if listed_below(&keys[at], names[at].as_str(), key, name) {
            return at;
        }
        at += 1;
    }
    at
}

proof fn inserted_stays_descending(names: Seq<Seq<char>>, at: int, name: Seq<char>)
    requires
        is_descending(names),
        0 <= at <= names.len(),
        forall|k: int| 0 <= k < at ==> !name_less(#[trigger] names[k], name),
        at < names.len() ==> name_less(names[at], name),
    ensures
        is_descending(names.insert(at, name)),
{
    let after = names.insert(at, name);
    assert forall|i: int, j: int| 0 <= i < j < after.len() implies !name_less(
        after[i],
        after[j],
    ) by {
        if j == at {
            assert(after[i] == names[i]);
        } else if i == at {
            assert(after[j] == names[j - 1]);
            if name_less(name, names[j - 1]) {
                name_less_transitive(names[at], name, names[j - 1]);
                if j - 1 == at {
                    name_less_irreflexive(names[at]);
                }
            }
        } else {
            let a = if i < at { i } else { i - 1 };
            let b = if j < at { j } else { j - 1 };
            assert(after[i] == names[a] && after[j] == names[b]);
        }
    }
}

proof fn inserted_to_multiset(names: Seq<Seq<char>>, at: int, name: Seq<char>)
    requires
        0 <= at <= names.len(),
    ensures
        names.insert(at, name).to_multiset() == names.to_multiset().insert(name),
{
    let after = names.insert(at, name);
    assert(after.remove(at) =~= names);
    vstd::seq_lib::to_multiset_remove(after, at);
    assert(after[at] == name);
    after.to_multiset_ensures();
    assert(after.contains(name));
    assert(after.to_multiset() =~= names.to_multiset().insert(name));
}

} // verus!
