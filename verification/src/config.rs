//! One project as the configuration describes it, and what follows from
//! its three values: whether it asks for an installation, whether it can
//! be built, and where its binary and its lock file go.

use crate::text::{chars_of, last_path_segment, last_segment};
use vstd::prelude::*;
use vstd::string::*;

verus! {

/// The model of a `ProjectConfig`.
pub struct ProjectConfigView {
    /// The project's name, its key in the configuration.
    pub name: Seq<char>,
    /// The directory of the working tree.
    pub source_path: Seq<char>,
    /// The directory that receives the built binary. Its presence alone
    /// decides between syncing the tree and syncing, building and installing.
    pub install_path: Option<Seq<char>>,
}

impl ProjectConfigView {
    /// The project asks for its binary to be built and installed.
    pub open spec fn requests_install(self) -> bool {
        self.install_path is Some
    }

    /// The install directory, empty where none is configured.
    pub open spec fn install_root(self) -> Seq<char> {
        match self.install_path {
            Some(path) => path,
            None => Seq::empty(),
        }
    }

    /// The name of the built binary: the last segment of the source path.
    pub open spec fn binary_name(self) -> Seq<char> {
        last_segment(self.source_path)
    }

    /// The source path can name a binary to install: it is absolute and
    /// has a last segment, so it is not the root alone.
    pub open spec fn buildable(self) -> bool {
        is_absolute_path(self.source_path) && self.binary_name().len() > 0
    }

    /// The sentinel file whose presence says that an installation of this
    /// project is under way.
    pub open spec fn lock_path(self) -> Seq<char> {
        self.install_root() + "/"@ + self.name + ".lock"@
    }

    /// Where the installed binary goes.
    pub open spec fn install_target(self) -> Seq<char> {
        self.install_root() + "/"@ + self.name
    }
}

/// A path that starts at the root of the file system.
pub open spec fn is_absolute_path(path: Seq<char>) -> bool {
    path.len() > 0 && path[0] == '/'
}

/// Tells whether `path` starts at the root of the file system.
pub fn absolute(path: &str) -> (yes: bool)
    ensures
        yes == is_absolute_path(path@),
{
    let cs = chars_of(path);
    cs.len() > 0 && cs[0] == '/'
}

/// A project that asks for an installation but whose source path is not
/// an absolute path below the root, so that it names no binary to install.
#[derive(Debug, PartialEq, Eq)]
pub struct StructuralConfigError {
    /// The name of the offending project.
    pub project: String,
}

/// One configured project. Its values are fixed when it is made.
#[derive(Debug, PartialEq, Eq)]
pub struct ProjectConfig {
    name: String,
    source_path: String,
    install_path: Option<String>,
}

impl View for ProjectConfig {
    type V = ProjectConfigView;

    closed spec fn view(&self) -> ProjectConfigView {
        ProjectConfigView {
            name: self.name@,
            source_path: self.source_path@,
            install_path: match self.install_path {
                Some(path) => Some(path@),
                None => None,
            },
        }
    }
}

impl ProjectConfig {
    /// The project `name` with its working tree at `source_path`, to be
    /// installed into `install_path` if there is one.
    pub fn new(name: String, source_path: String, install_path: Option<String>) -> (config: Self)
        ensures
            config@.name == name@,
            config@.source_path == source_path@,
            config@.install_path is Some <==> install_path is Some,
            install_path matches Some(path) ==> config@.install_path == Some(path@),
    {
        ProjectConfig { name, source_path, install_path }
    }

    /// The project's name.
    pub fn name(&self) -> (name: &str)
        ensures
            name@ == self@.name,
    {
        self.name.as_str()
    }

    /// The directory of the project's working tree.
    pub fn source_path(&self) -> (path: &str)
        ensures
            path@ == self@.source_path,
    {
        self.source_path.as_str()
    }

    /// The directory that receives the built binary, if one is configured.
    pub fn install_path(&self) -> (path: Option<&str>)
        ensures
            path is Some <==> self@.install_path is Some,
            path matches Some(p) ==> self@.install_path == Some(p@),
    {
        match &self.install_path {
            Some(path) => Some(path.as_str()),
            None => None,
        }
    }

    /// Tells whether the project asks for its binary to be built and
    /// installed.
    pub fn requests_install(&self) -> (yes: bool)
        ensures
            yes == self@.requests_install(),
    {
        self.install_path.is_some()
    }

    /// The name of the built binary.
    pub fn binary_name(&self) -> (name: String)
        ensures
            name@ == self@.binary_name(),
    {
        last_path_segment(self.source_path.as_str())
    }

    /// Checks what a build needs of the configuration. A project that asks
    /// for no installation passes whatever its source path is; one that
    /// does must have an absolute source path with a last segment to name
    /// the binary after.
    pub fn check_structure(&self) -> (checked: Result<(), StructuralConfigError>)
        ensures
            checked is Ok <==> (self@.requests_install() ==> self@.buildable()),
            checked matches Err(error) ==> error.project@ == self@.name,
    {
        if self.install_path.is_none() {
            return Ok(());
        }
        if absolute(self.source_path.as_str()) && !self.binary_name().as_str().is_empty() {
            Ok(())
        } else {
            Err(StructuralConfigError { project: self.name.clone() })
        }
    }

    /// The path of the project's lock file: its name with `.lock`, in the
    /// install directory.
    pub fn lock_path(&self) -> (path: String)
        ensures
            path@ == self@.lock_path(),
    {
        let mut path = self.install_root();
        path.append("/");
        path.append(self.name.as_str());
        path.append(".lock");
        path
    }

    /// The path the installed binary is moved to: the project's name, in
    /// the install directory.
    pub fn install_target(&self) -> (path: String)
        ensures
            path@ == self@.install_target(),
    {
        let mut path = self.install_root();
        path.append("/");
        path.append(self.name.as_str());
        path
    }

    fn install_root(&self) -> (root: String)
        ensures
            root@ == self@.install_root(),
    {
        match &self.install_path {
            Some(path) => path.clone(),
            None => String::new(),
        }
    }
}

} // verus!
