//! The catalog of keyword model files found for one platform.
//!
//! A keyword model file is named after its keyword and its platform:
//! the keyword, an underscore, the platform tag, and the extension `.ppn`.
//! The catalog maps each keyword to the path of its file.

use vstd::prelude::*;
use vstd::string::StrSliceExecFns;
use crate::text::{chars_of, ends_with, find_first, first_at, has_suffix, str_eq, texts};

verus! {

/// One file of a keyword directory: its name and its full path.
#[derive(Clone, Debug, PartialEq, Eq)]
pub struct KeywordFile {
    pub file_name: String,
    pub path: String,
}

impl View for KeywordFile {
    type V = (Seq<char>, Seq<char>);

    open spec fn view(&self) -> (Seq<char>, Seq<char>) {
        (self.file_name@, self.path@)
    }
}

/// The names and paths of a sequence of files.
pub open spec fn file_views(files: Seq<KeywordFile>) -> Seq<(Seq<char>, Seq<char>)> {
    Seq::new(files.len(), |i: int| files[i]@)
}

/// What the name of a keyword file of the platform ends with.
pub open spec fn keyword_file_suffix(platform: Seq<char>) -> Seq<char> {
    seq!['_'] + platform + ".ppn"@
}

/// Whether a file name is that of a keyword file of the platform: it ends
/// with the platform's suffix and has something before it.
pub open spec fn is_keyword_file(file_name: Seq<char>, platform: Seq<char>) -> bool {
    file_name.len() > keyword_file_suffix(platform).len() && ends_with(
        file_name,
        keyword_file_suffix(platform),
    )
}

/// The keyword a file name starts with: what stands before its first
/// underscore, or all of it where it has none.
pub open spec fn keyword_of(file_name: Seq<char>) -> Seq<char> {
    if file_name.contains('_') {
        file_name.subrange(0, choose|k: int| first_at(file_name, '_', k))
    } else {
        file_name
    }
}

/// The catalog read from a directory listing: each keyword file of the
/// platform, taken in order, puts its path under its keyword, so that of two
/// files with one keyword the later one stays.
pub open spec fn catalog_of(platform: Seq<char>, files: Seq<(Seq<char>, Seq<char>)>) -> Map<
    Seq<char>,
    Seq<char>,
>
    decreases files.len(),
{
    if files.len() == 0 {
        Map::empty()
    } else {
        let earlier = catalog_of(platform, files.drop_last());
        let file = files.last();
        if is_keyword_file(file.0, platform) {
            earlier.insert(keyword_of(file.0), file.1)
        } else {
            earlier
        }
    }
}

/// The map that parallel lists of distinct names and of paths stand for.
pub open spec fn entries_map(names: Seq<Seq<char>>, paths: Seq<Seq<char>>) -> Map<
    Seq<char>,
    Seq<char>,
> {
    Map::new(|name: Seq<char>| names.contains(name), |name: Seq<char>| paths[names.index_of(name)])
}

/// Whether no name occurs twice.
pub open spec fn distinct(names: Seq<Seq<char>>) -> bool {
    forall|i: int, j: int| 0 <= i < j < names.len() ==> names[i] != names[j]
}

/// A file named by the convention is a keyword file of its platform, and
/// its keyword is the name it was made from: a non-empty keyword without
/// underscore, followed by the platform's suffix.
pub proof fn conventional_name_is_read_back(keyword: Seq<char>, platform: Seq<char>)
    requires
        keyword.len() > 0,
        !keyword.contains('_'),
    ensures
        is_keyword_file(keyword + keyword_file_suffix(platform), platform),
        keyword_of(keyword + keyword_file_suffix(platform)) == keyword,
{
    let suffix = keyword_file_suffix(platform);
    let file_name = keyword + suffix;
    assert(file_name.subrange(file_name.len() - suffix.len(), file_name.len() as int) =~= suffix);
    let stop = keyword.len() as int;
    assert(file_name[stop] == suffix[0]);
    assert forall|j: int| 0 <= j < stop implies file_name[j] != '_' by {
        assert(file_name[j] == keyword[j]);
        assert(keyword.contains(keyword[j]));
    }
    assert(first_at(file_name, '_', stop));
    assert(file_name.contains('_'));
    let chosen = choose|k: int| first_at(file_name, '_', k);
    if chosen < stop {
        assert(file_name[chosen] != '_');
    } else if stop < chosen {
        assert(file_name[stop] == '_');
    }
    assert(file_name.subrange(0, stop) =~= keyword);
}

/// Looking up the keyword of a keyword file gives the path of that file,
/// unless a later file of the listing has the same keyword.
pub proof fn last_file_of_a_keyword_is_found(
    platform: Seq<char>,
    files: Seq<(Seq<char>, Seq<char>)>,
    position: int,
)
    requires
        0 <= position < files.len(),
        is_keyword_file(files[position].0, platform),
        forall|later: int|
            position < later < files.len() && is_keyword_file(files[later].0, platform)
                ==> keyword_of(#[trigger] files[later].0) != keyword_of(files[position].0),
    ensures
        catalog_of(platform, files).contains_key(keyword_of(files[position].0)),
        catalog_of(platform, files)[keyword_of(files[position].0)] == files[position].1,
    decreases files.len(),
{
    if position < files.len() - 1 {
        let earlier = files.drop_last();
        assert(earlier[position] == files[position]);
        assert forall|later: int|
            position < later < earlier.len() && is_keyword_file(
                earlier[later].0,
                platform,
            ) implies keyword_of(#[trigger] earlier[later].0) != keyword_of(
            earlier[position].0,
        ) by {
            assert(earlier[later] == files[later]);
        }
        last_file_of_a_keyword_is_found(platform, earlier, position);
        assert(files.last() == files[files.len() - 1]);
    }
}

/// Round trip: in the catalog read from a listing, the keyword of a file
/// named by the convention leads to the path of that file, unless a later
/// file of the listing has the same keyword.
pub proof fn conventional_file_is_found(
    platform: Seq<char>,
    files: Seq<(Seq<char>, Seq<char>)>,
    position: int,
    keyword: Seq<char>,
)
    requires
        0 <= position < files.len(),
        keyword.len() > 0,
        !keyword.contains('_'),
        files[position].0 == keyword + keyword_file_suffix(platform),
        forall|later: int|
            position < later < files.len() && is_keyword_file(files[later].0, platform)
                ==> keyword_of(#[trigger] files[later].0) != keyword,
    ensures
        catalog_of(platform, files).contains_key(keyword),
        catalog_of(platform, files)[keyword] == files[position].1,
{
    conventional_name_is_read_back(keyword, platform);
    last_file_of_a_keyword_is_found(platform, files, position);
}

/// Every keyword of the catalog comes from a keyword file of the listing,
/// and its path is the path of such a file.
pub proof fn catalog_holds_only_listed_files(
    platform: Seq<char>,
    files: Seq<(Seq<char>, Seq<char>)>,
    keyword: Seq<char>,
)
    requires
        catalog_of(platform, files).contains_key(keyword),
    ensures
        exists|position: int|
            0 <= position < files.len() && is_keyword_file(
                (#[trigger] files[position]).0,
                platform,
            ) && keyword_of(files[position].0) == keyword && files[position].1 == catalog_of(
                platform,
                files,
            )[keyword],
    decreases files.len(),
{
    if files.len() > 0 {
        let earlier = files.drop_last();
        let file = files.last();
        if is_keyword_file(file.0, platform) && keyword_of(file.0) == keyword {
            assert(files[files.len() - 1] == file);
        } else {
            catalog_holds_only_listed_files(platform, earlier, keyword);
            let position = choose|position: int|
                0 <= position < earlier.len() && is_keyword_file(
                    (#[trigger] earlier[position]).0,
                    platform,
                ) && keyword_of(earlier[position].0) == keyword && earlier[position].1
                    == catalog_of(platform, earlier)[keyword];
            assert(files[position] == earlier[position]);
        }
    }
}

proof fn lemma_entries_push(
    names: Seq<Seq<char>>,
    paths: Seq<Seq<char>>,
    name: Seq<char>,
    path: Seq<char>,
)
    requires
        names.len() == paths.len(),
        distinct(names),
        !names.contains(name),
    ensures
        distinct(names.push(name)),
        entries_map(names.push(name), paths.push(path)) == entries_map(names, paths).insert(
            name,
            path,
        ),
{
    let grown = names.push(name);
    assert forall|i: int, j: int| 0 <= i < j < grown.len() implies grown[i] != grown[j] by {
        if j == names.len() {
            assert(names[i] == grown[i]);
            assert(names.contains(grown[i]));
        }
    }
    let before = entries_map(names, paths);
    let after = entries_map(grown, paths.push(path));
    assert forall|k: Seq<char>| after.contains_key(k) <==> before.insert(name, path).contains_key(
        k,
    ) by {
        if grown.contains(k) {
            let i = grown.index_of(k);
            if i < names.len() {
                assert(names[i] == k);
            }
        }
        if names.contains(k) {
            let i = names.index_of(k);
            assert(grown[i] == k);
        }
        if k == name {
            assert(grown[names.len() as int] == k);
        }
    }
    assert forall|k: Seq<char>| after.contains_key(k) implies after[k] == before.insert(
        name,
        path,
    )[k] by {
        let i = grown.index_of(k);
        if k == name {
            if i < names.len() {
                assert(names[i] == k);
            }
        } else {
            assert(names[i] == k);
            let j = names.index_of(k);
            if i != j {
                if i < j {
                    assert(names[i] != names[j]);
                } else {
                    assert(names[j] != names[i]);
                }
            }
        }
    }
    assert(after =~= before.insert(name, path));
}

proof fn lemma_entries_update(
    names: Seq<Seq<char>>,
    paths: Seq<Seq<char>>,
    position: int,
    path: Seq<char>,
)
    requires
        names.len() == paths.len(),
        distinct(names),
        0 <= position < names.len(),
    ensures
        entries_map(names, paths.update(position, path)) == entries_map(names, paths).insert(
            names[position],
            path,
        ),
{
    let name = names[position];
    let before = entries_map(names, paths);
    let after = entries_map(names, paths.update(position, path));
    assert(names.contains(name));
    assert forall|k: Seq<char>| after.contains_key(k) implies after[k] == before.insert(
        name,
        path,
    )[k] by {
        let i = names.index_of(k);
        if i != position {
            if i < position {
                assert(names[i] != names[position]);
            } else {
                assert(names[position] != names[i]);
            }
        }
    }
    assert(after =~= before.insert(name, path));
}

/// The keyword model files found for one platform, by keyword.
pub struct KeywordCatalog {
    names: Vec<String>,
    paths: Vec<String>,
}

impl View for KeywordCatalog {
    type V = Map<Seq<char>, Seq<char>>;

    closed spec fn view(&self) -> Map<Seq<char>, Seq<char>> {
        entries_map(texts(self.names@), texts(self.paths@))
    }
}

impl KeywordCatalog {
    #[verifier::type_invariant]
    spec fn well_formed(self) -> bool {
        self.names@.len() == self.paths@.len() && distinct(texts(self.names@))
    }

    /// How many keywords the catalog holds.
    pub fn len(&self) -> (n: usize)
        ensures
            n == self@.dom().len(),
            self@.dom().finite(),
    {
        proof {
            use_type_invariant(self);
            lemma_entries_domain(texts(self.names@), texts(self.paths@));
        }
        self.names.len()
    }

    /// The path of the model file of a keyword, if the catalog holds one.
    pub fn get(&self, keyword: &str) -> (r: Option<&String>)
        ensures
            match r {
                Some(path) => self@.contains_key(keyword@) && path@ == self@[keyword@],
                None => !self@.contains_key(keyword@),
            },
    {
        proof {
            use_type_invariant(self);
        }
        let ghost names = texts(self.names@);
        let mut i: usize = 0;
        while i < self.names.len()
            invariant
                self.names@.len() == self.paths@.len(),
                distinct(names),
                names == texts(self.names@),
                i <= self.names@.len(),
                forall|j: int| 0 <= j < i ==> names[j] != keyword@,
            decreases self.names@.len() - i,
        {
            if str_eq(self.names[i].as_str(), keyword) {
                proof {
                    assert(names[i as int] == keyword@);
                    let found = names.index_of(keyword@);
                    if found != i {
                        if found < i {
                            assert(names[found] != names[i as int]);
                        } else {
                            assert(names[i as int] != names[found]);
                        }
                    }
                    assert(texts(self.paths@)[i as int] == self.paths@[i as int]@);
                }
                return Some(&self.paths[i]);
            }
            i += 1;
        }
        None
    }
}

proof fn lemma_entries_domain(names: Seq<Seq<char>>, paths: Seq<Seq<char>>)
    requires
        distinct(names),
    ensures
        entries_map(names, paths).dom().finite(),
        entries_map(names, paths).dom().len() == names.len(),
{
    assert(entries_map(names, paths).dom() =~= names.to_set());
    names.unique_seq_to_set();
}

/// Reads the catalog of a platform from the listing of its keyword
/// directory.
pub fn pv_keyword_paths(platform: &str, files: &[KeywordFile]) -> (catalog: KeywordCatalog)
    ensures
        catalog@ == catalog_of(platform@, file_views(files@)),
{
    let mut suffix = String::from_str("_");
    suffix.append(platform);
    suffix.append(".ppn");
    let suffix_chars = chars_of(suffix.as_str());
    proof {
        reveal_strlit("_");
        assert(suffix_chars@ =~= keyword_file_suffix(platform@));
    }
    let mut names: Vec<String> = Vec::new();
    let mut paths: Vec<String> = Vec::new();
    let ghost listing = file_views(files@);
    let mut i: usize = 0;
    proof {
        assert(listing.take(0) =~= Seq::empty());
        assert(entries_map(texts(names@), texts(paths@)) =~= Map::empty());
    }
    while i < files.len()
        invariant
            i <= files@.len(),
            listing == file_views(files@),
            suffix_chars@ == keyword_file_suffix(platform@),
            names@.len() == paths@.len(),
            distinct(texts(names@)),
            entries_map(texts(names@), texts(paths@)) == catalog_of(
                platform@,
                listing.take(i as int),
            ),
        decreases files@.len() - i,
    {
        let file = &files[i];
        let name_chars = chars_of(file.file_name.as_str());
        proof {
            assert(listing.take(i + 1).drop_last() =~= listing.take(i as int));
            assert(listing.take(i + 1).last() == listing[i as int]);
            assert(listing[i as int] == files@[i as int]@);
        }
        if name_chars.len() > suffix_chars.len() && has_suffix(
            name_chars.as_slice(),
            suffix_chars.as_slice(),
        ) {
            let stop = match find_first(name_chars.as_slice(), '_') {
                Some(position) => position,
                None => name_chars.len(),
            };
            proof {
                if name_chars@.contains('_') {
                    let chosen = choose|k: int| first_at(name_chars@, '_', k);
                    assert(first_at(name_chars@, '_', stop as int));
                    if chosen < stop {
                        assert(name_chars@[chosen] != '_');
                    } else if stop < chosen {
                        assert(name_chars@[stop as int] != '_');
                    }
                } else {
                    assert(name_chars@.subrange(0, stop as int) =~= name_chars@);
                }
            }
            let keyword = file.file_name.as_str().substring_char(0, stop);
            let position = position_of(&names, keyword);
            let ghost old_names = texts(names@);
            let ghost old_paths = texts(paths@);
            match position {
                Some(at) => {
                    paths.set(at, file.path.clone());
                    proof {
                        lemma_entries_update(old_names, old_paths, at as int, file.path@);
                        assert(texts(paths@) =~= old_paths.update(at as int, file.path@));
                    }
                },
                None => {
                    names.push(String::from_str(keyword));
                    paths.push(file.path.clone());
                    proof {
                        lemma_entries_push(old_names, old_paths, keyword@, file.path@);
                        assert(texts(names@) =~= old_names.push(keyword@));
                        assert(texts(paths@) =~= old_paths.push(file.path@));
                    }
                },
            }
        }
        i += 1;
    }
    proof {
        assert(listing.take(i as int) =~= listing);
    }
    KeywordCatalog { names, paths }
}

fn position_of(names: &Vec<String>, name: &str) -> (r: Option<usize>)
    ensures
        match r {
            Some(position) => position < names@.len() && texts(names@)[position as int] == name@,
            None => !texts(names@).contains(name@),
        },
{
    let mut i: usize = 0;
    while i < names.len()
        invariant
            i <= names@.len(),
            forall|j: int| 0 <= j < i ==> texts(names@)[j] != name@,
        decreases names@.len() - i,
    {
        if str_eq(names[i].as_str(), name) {
            return Some(i);
        }
        i += 1;
    }
    None
}

} // verus!
