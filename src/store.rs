use vstd::prelude::*;

verus! {

/// The directory in which finished documentation trees are kept.
pub struct Store {
    pub path: String,
}

/// The canonical location of one package's documentation in a `Store`.
#[derive(Debug)]
pub struct StoredCrate(pub String);

/// Gives access to the shared artifact store.
pub trait GetStore {
    fn get_store(&self) -> &std::sync::Arc<Store>;
}

/// `{root}/{name}/{version}`: where the artifact of `name` at `version` lives.
pub open spec fn crate_location(root: Seq<char>, name: Seq<char>, version: Seq<char>) -> Seq<char> {
    root + seq!['/'] + name + seq!['/'] + version
}

/// The names of the entries that are directories, in the order given.
pub open spec fn dir_names(entries: Seq<(Seq<char>, bool)>) -> Seq<Seq<char>>
    decreases entries.len(),
{
    if entries.len() == 0 {
        Seq::empty()
    } else {
        let rest = dir_names(entries.drop_last());
        let last = entries.last();
        if last.1 {
            rest.push(last.0)
        } else {
            rest
        }
    }
}

/// The text of each string.
pub open spec fn strings_view(s: Seq<String>) -> Seq<Seq<char>> {
    s.map_values(|x: String| x@)
}

/// Each listed entry as its name and whether it is a directory.
pub open spec fn entries_view(s: Seq<(String, bool)>) -> Seq<(Seq<char>, bool)> {
    s.map_values(|e: (String, bool)| (e.0@, e.1))
}

/// A requested path within a package's documentation, without one trailing slash.
pub open spec fn sanitized(path: Seq<char>) -> Seq<char> {
    if path.len() > 0 && path.last() == '/' {
        path.drop_last()
    } else {
        path
    }
}

/// Strips a trailing slash off a requested path.
pub fn sanitize_requested_path(path: &str) -> (r: String)
    ensures
        r@ == sanitized(path@),
{
    let n = path.unicode_len();
    if n > 0 && path.get_char(n - 1) == '/' {
        String::from_str(path.substring_char(0, n - 1))
    } else {
        String::from_str(path)
    }
}

impl StoredCrate {
    pub open spec fn view(&self) -> Seq<char> {
        self.0@
    }

    /// The path of the artifact.
    pub fn path(&self) -> (r: &str)
        ensures
            r@ == self.0@,
    {
        self.0.as_str()
    }

    /// A copy holding the same location.
    pub fn duplicate(&self) -> (r: StoredCrate)
        ensures
            r.0@ == self.0@,
    {
        StoredCrate(self.0.clone())
    }
}

/// Relies on std's `Path::exists`: whether something is at the path on disk.
/// Nothing is stated of the answer, which depends on the file system.
#[verifier::external_body]
fn path_exists(path: &str) -> (r: bool) {
    std::path::Path::new(path).exists()
}

impl Store {
    pub fn new(path: String) -> (r: Store)
        ensures
            r.path@ == path@,
    {
        Store { path }
    }

    /// Whether the artifact has been placed; a missing path gives `false`.
    pub fn contains(&self, krate: &StoredCrate) -> (r: bool) {
        path_exists(krate.path())
    }

    /// The canonical location of `name` at `version` in this store.
    pub fn make_crate(&self, name: &str, version: &str) -> (r: StoredCrate)
        ensures
            r.0@ == crate_location(self.path@, name@, version@),
    {
        let mut s = self.path.clone();
        s.append("/");
        s.append(name);
        s.append("/");
        s.append(version);
        proof {
            reveal_strlit("/");
        }
        StoredCrate(s)
    }

    /// The crate names in this store: of the listed entries of its directory,
    /// each a name and whether it is a directory, the names of directories.
    pub fn crate_names(&self, entries: &Vec<(String, bool)>) -> (r: Vec<String>)
        ensures
            strings_view(r@) == dir_names(entries_view(entries@)),
    {
        let mut names: Vec<String> = Vec::new();
        let mut i: usize = 0;
        while i < entries.len()
            invariant
                i <= entries@.len(),
                strings_view(names@) == dir_names(entries_view(entries@.subrange(0, i as int))),
            decreases entries@.len() - i,
        {
            let ghost before = entries_view(entries@.subrange(0, i as int));
            let ghost after = entries_view(entries@.subrange(0, i + 1));
            assert(after.drop_last() =~= before);
            assert(after.last() == (entries@[i as int].0@, entries@[i as int].1));
            let ghost old_names = names@;
            if entries[i].1 {
                names.push(entries[i].0.clone());
                assert(strings_view(names@) =~= strings_view(old_names).push(entries@[i as int].0@));
            }
            i = i + 1;
        }
        assert(entries@.subrange(0, entries@.len() as int) =~= entries@);
        names
    }
}

} // verus!
