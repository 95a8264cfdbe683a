use vstd::prelude::*;

use crate::command::CommandSpec;

verus! {

/// The scratch space of one build attempt: where the package archive is
/// written and where it is expanded.
pub struct TempCrate {
    pub name: String,
    pub version: String,
    /// Path to the expanded crate directory
    pub path: String,
    /// Path to the downloaded crate package file
    pub crate_path: String,
}

/// `tmp/{name}-{version}-{discriminator}`: the expansion directory of an attempt.
pub open spec fn temp_path(name: Seq<char>, version: Seq<char>, disc: Seq<char>) -> Seq<char> {
    seq!['t', 'm', 'p', '/'] + name + seq!['-'] + version + seq!['-'] + disc
}

/// `{path}.crate`: where the archive of an attempt is written.
pub open spec fn archive_path(path: Seq<char>) -> Seq<char> {
    path + seq!['.', 'c', 'r', 'a', 't', 'e']
}

/// `{name}-{version}`: the key under which failures of a package are kept.
pub open spec fn pair_of(name: Seq<char>, version: Seq<char>) -> Seq<char> {
    name + seq!['-'] + version
}

/// The name-version pair of a package: `{name}-{version}`.
pub fn package_pair(name: &str, version: &str) -> (r: String)
    ensures
        r@ == pair_of(name@, version@),
{
    let mut s = String::from_str(name);
    s.append("-");
    s.append(version);
    proof {
        reveal_strlit("-");
    }
    s
}

/// Relies on uuid's `Uuid::new_v4` and its hyphenated form: a fresh random
/// identifier as text. Nothing is stated of its value.
#[verifier::external_body]
fn random_discriminator() -> (r: String) {
    uuid::Uuid::new_v4().hyphenated().to_string()
}

impl TempCrate {
    /// The workspace of `name` at `version` whose paths carry `disc`.
    pub fn with_discriminator(name: &str, version: &str, disc: &str) -> (r: TempCrate)
        ensures
            r.name@ == name@,
            r.version@ == version@,
            r.path@ == temp_path(name@, version@, disc@),
            r.crate_path@ == archive_path(r.path@),
    {
        let mut path = String::from_str("tmp/");
        path.append(name);
        path.append("-");
        path.append(version);
        path.append("-");
        path.append(disc);
        let mut crate_path = path.clone();
        crate_path.append(".crate");
        proof {
            reveal_strlit("tmp/");
            reveal_strlit("-");
            reveal_strlit(".crate");
        }
        TempCrate {
            name: String::from_str(name),
            version: String::from_str(version),
            path,
            crate_path,
        }
    }

    /// A workspace for `name` at `version` with a fresh random discriminator,
    /// so that attempts for the same package never share paths.
    pub fn new(name: &str, version: &str) -> (r: TempCrate)
        ensures
            r.name@ == name@,
            r.version@ == version@,
            exists|disc: Seq<char>| r.path@ == temp_path(name@, version@, disc),
            r.crate_path@ == archive_path(r.path@),
    {
        let disc = random_discriminator();
        TempCrate::with_discriminator(name, version, disc.as_str())
    }

    /// The name-version pair of this package.
    pub fn pair(&self) -> (r: String)
        ensures
            r@ == pair_of(self.name@, self.version@),
    {
        package_pair(self.name.as_str(), self.version.as_str())
    }

    /// The command that removes every file of this attempt:
    /// `rm -rf {path} {crate_path}`.
    pub fn cleanup(&self) -> (r: CommandSpec)
        ensures
            r.program@ == "rm"@,
            r.args@.len() == 3,
            r.args@[0]@ == "-rf"@,
            r.args@[1]@ == self.path@,
            r.args@[2]@ == self.crate_path@,
    {
        CommandSpec {
            program: String::from_str("rm"),
            args: vec![String::from_str("-rf"), self.path.clone(), self.crate_path.clone()],
        }
    }
}

} // verus!
