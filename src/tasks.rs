use vstd::prelude::*;

use crate::command::CommandSpec;
use crate::workspace::TempCrate;

verus! {

/// Where package archives are fetched from.
pub const DOWNLOAD_BASE: &'static str = "https://crates-io.s3-us-west-1.amazonaws.com/crates/";

/// The documentation command, before and after the expanded directory.
pub const DOC_COMMAND_HEAD: &'static str = "docker run -it --rm -v \"$(pwd)/";

pub const DOC_COMMAND_TAIL: &'static str = ":/source\" doc_server:build /home/build-doc.sh";

/// `{base}{name}/{name}-{version}.crate`: where a package's archive is fetched from.
pub open spec fn download_url(name: Seq<char>, version: Seq<char>) -> Seq<char> {
    DOWNLOAD_BASE@ + name + seq!['/'] + name + seq!['-'] + version + ".crate"@
}

/// The shell line that documents the source expanded at `path`.
pub open spec fn doc_command(path: Seq<char>) -> Seq<char> {
    DOC_COMMAND_HEAD@ + path + DOC_COMMAND_TAIL@
}

/// `{path}/target/doc`: where the documentation of the source at `path` appears.
pub open spec fn doc_output(path: Seq<char>) -> Seq<char> {
    path + "/target/doc"@
}

/// Fetches the package archive into the workspace.
pub struct DownloadTask<'a> {
    pub temp: &'a TempCrate,
}

/// Expands the fetched archive into the workspace's directory.
pub struct ExpandTask<'a> {
    pub temp: &'a TempCrate,
}

/// Runs the documentation build on the expanded source.
pub struct DocTask<'a> {
    pub temp: &'a TempCrate,
}

impl<'a> DownloadTask<'a> {
    pub fn new(temp: &'a TempCrate) -> (r: DownloadTask<'a>)
        ensures
            r.temp == temp,
    {
        DownloadTask { temp }
    }

    /// The address of the package's archive.
    pub fn url(&self) -> (r: String)
        ensures
            r@ == download_url(self.temp.name@, self.temp.version@),
    {
        let mut s = String::from_str(DOWNLOAD_BASE);
        s.append(self.temp.name.as_str());
        s.append("/");
        s.append(self.temp.name.as_str());
        s.append("-");
        s.append(self.temp.version.as_str());
        s.append(".crate");
        proof {
            reveal_strlit("/");
            reveal_strlit("-");
        }
        s
    }

    /// The file that the archive is written to.
    pub fn destination(&self) -> (r: String)
        ensures
            r@ == self.temp.crate_path@,
    {
        self.temp.crate_path.clone()
    }
}

impl<'a> ExpandTask<'a> {
    pub fn new(temp: &'a TempCrate) -> (r: ExpandTask<'a>)
        ensures
            r.temp == temp,
    {
        ExpandTask { temp }
    }

    /// `mkdir -p {path}`: creates the directory of the expanded source.
    pub fn make_dir(&self) -> (r: CommandSpec)
        ensures
            r.program@ == "mkdir"@,
            r.args@.len() == 2,
            r.args@[0]@ == "-p"@,
            r.args@[1]@ == self.temp.path@,
    {
        CommandSpec {
            program: String::from_str("mkdir"),
            args: vec![String::from_str("-p"), self.temp.path.clone()],
        }
    }

    /// `tar xf {crate_path} -C {path} --strip-components 1`: extracts the
    /// archive so that its contents land directly in the directory.
    pub fn extract(&self) -> (r: CommandSpec)
        ensures
            r.program@ == "tar"@,
            r.args@.len() == 6,
            r.args@[0]@ == "xf"@,
            r.args@[1]@ == self.temp.crate_path@,
            r.args@[2]@ == "-C"@,
            r.args@[3]@ == self.temp.path@,
            r.args@[4]@ == "--strip-components"@,
            r.args@[5]@ == "1"@,
    {
        CommandSpec {
            program: String::from_str("tar"),
            args: vec![
                String::from_str("xf"),
                self.temp.crate_path.clone(),
                String::from_str("-C"),
                self.temp.path.clone(),
                String::from_str("--strip-components"),
                String::from_str("1"),
            ],
        }
    }
}

impl<'a> DocTask<'a> {
    pub fn new(temp: &'a TempCrate) -> (r: DocTask<'a>)
        ensures
            r.temp == temp,
    {
        DocTask { temp }
    }

    /// `/bin/sh -c {line}`: runs the documentation build in its sandbox.
    pub fn command(&self) -> (r: CommandSpec)
        ensures
            r.program@ == "/bin/sh"@,
            r.args@.len() == 2,
            r.args@[0]@ == "-c"@,
            r.args@[1]@ == doc_command(self.temp.path@),
    {
        let mut line = String::from_str(DOC_COMMAND_HEAD);
        line.append(self.temp.path.as_str());
        line.append(DOC_COMMAND_TAIL);
        CommandSpec { program: String::from_str("/bin/sh"), args: vec![String::from_str("-c"), line] }
    }

    /// Where the generated documentation is found once the command succeeded.
    pub fn doc_path(&self) -> (r: String)
        ensures
            r@ == doc_output(self.temp.path@),
    {
        let mut s = self.temp.path.clone();
        s.append("/target/doc");
        s
    }
}

} // verus!
