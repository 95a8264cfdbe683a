use vstd::prelude::*;

use crate::store::strings_view;

verus! {

/// Why the package catalogue could not be read.
#[derive(Debug)]
pub struct Error(pub String);

/// What the package catalogue says of a package: its published versions.
#[derive(Debug)]
pub struct Metadata {
    pub versions: Vec<String>,
}

pub const API_BASE: &'static str = "https://crates.io/api/v1";

/// `{api}/crates/{name}`: where the catalogue describes a package.
pub open spec fn metadata_url(name: Seq<char>) -> Seq<char> {
    API_BASE@ + "/crates/"@ + name
}

/// The catalogue address of the package `name`.
pub fn crate_url(name: &str) -> (r: String)
    ensures
        r@ == metadata_url(name@),
{
    let mut s = String::from_str(API_BASE);
    s.append("/crates/");
    s.append(name);
    s
}

impl Error {
    /// The description of the error.
    pub fn description(&self) -> (r: &str)
        ensures
            r@ == self.0@,
    {
        self.0.as_str()
    }
}

impl View for Metadata {
    type V = Seq<Seq<char>>;

    open spec fn view(&self) -> Seq<Seq<char>> {
        strings_view(self.versions@)
    }
}

impl Metadata {
    /// A copy holding the same versions.
    pub fn duplicate(&self) -> (r: Metadata)
        ensures
            r.versions@ == self.versions@,
            r@ == self@,
    {
        let mut versions: Vec<String> = Vec::new();
        let mut i: usize = 0;
        while i < self.versions.len()
            invariant
                i <= self.versions@.len(),
                versions@ == self.versions@.subrange(0, i as int),
            decreases self.versions@.len() - i,
        {
            versions.push(self.versions[i].clone());
            assert(versions@ =~= self.versions@.subrange(0, i + 1));
            i = i + 1;
        }
        assert(versions@ =~= self.versions@);
        Metadata { versions }
    }

    /// Whether `version` is among the published versions.
    pub fn has_version(&self, version: &str) -> (r: bool)
        ensures
            r == exists|i: int| 0 <= i < self.versions@.len() && self.versions@[i]@ == version@,
    {
        let wanted = String::from_str(version);
        let mut i: usize = 0;
        while i < self.versions.len()
            invariant
                i <= self.versions@.len(),
                wanted@ == version@,
                forall|j: int| 0 <= j < i ==> self.versions@[j]@ != version@,
            decreases self.versions@.len() - i,
        {
            if self.versions[i] == wanted {
                return true;
            }
            i = i + 1;
        }
        false
    }
}

} // verus!
