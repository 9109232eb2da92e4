//! The configuration of one run: where to listen, what to watch, how to
//! call the builder, and where the documentation lands.

use vstd::prelude::*;
use vstd::string::*;
use crate::builder::{build_args, rebuild_command, BuildCommand};
use crate::text::{replace_dashes, same_text, underscored};
use crate::watcher::{distinct, WatchTarget};

verus! {

/// What the command line holds.
#[derive(Debug)]
pub struct Options {
    /// The port to serve the documentation on.
    pub port: u16,
    /// Whether to rebuild when the sources change.
    pub watch: bool,
    /// The path of the manifest at the root of the project, where one was
    /// given.
    pub manifest: Option<String>,
    /// Further files and directories to watch.
    pub watch_extra: Vec<String>,
    /// Whether to listen on all interfaces, not only on the loopback one.
    pub public: bool,
    /// Arguments to pass on to the builder.
    pub cargo_args: Vec<String>,
}

/// The mathematical content of [`Options`].
pub struct OptionsView {
    pub port: u16,
    pub watch: bool,
    pub manifest: Option<Seq<char>>,
    pub watch_extra: Seq<Seq<char>>,
    pub public: bool,
    pub cargo_args: Seq<Seq<char>>,
}

impl View for Options {
    type V = OptionsView;

    open spec fn view(&self) -> OptionsView {
        OptionsView {
            port: self.port,
            watch: self.watch,
            manifest: self.manifest.deep_view(),
            watch_extra: self.watch_extra.deep_view(),
            public: self.public,
            cargo_args: self.cargo_args.deep_view(),
        }
    }
}

/// What is known of the project: its directories and its packages.
#[derive(Debug)]
pub struct ProjectMetadata {
    /// The root of the workspace.
    pub workspace_root: String,
    /// The directory that build output goes to.
    pub target_directory: String,
    /// The name of the package that the project designates as its root,
    /// where it designates one.
    pub root_package: Option<String>,
    /// The names of all packages, in the order in which they were listed.
    pub packages: Vec<String>,
}

/// The mathematical content of [`ProjectMetadata`].
pub struct ProjectMetadataView {
    pub workspace_root: Seq<char>,
    pub target_directory: Seq<char>,
    pub root_package: Option<Seq<char>>,
    pub packages: Seq<Seq<char>>,
}

impl View for ProjectMetadata {
    type V = ProjectMetadataView;

    open spec fn view(&self) -> ProjectMetadataView {
        ProjectMetadataView {
            workspace_root: self.workspace_root@,
            target_directory: self.target_directory@,
            root_package: self.root_package.deep_view(),
            packages: self.packages.deep_view(),
        }
    }
}

/// An IPv4 address and a port.
#[derive(Clone, Copy, Debug, PartialEq, Eq)]
pub struct BindAddress {
    pub host: [u8; 4],
    pub port: u16,
}

/// The settings of one run.
#[derive(Debug)]
pub struct Config {
    /// The address to serve on.
    pub address: BindAddress,
    /// `None` to watch nothing; else the paths to watch besides the
    /// workspace.
    pub watch: Option<Vec<String>>,
    /// Arguments to pass on to the builder.
    pub cargo_args: Vec<String>,
    /// The path of the manifest, where one was given.
    pub manifest: Option<String>,
    pub metadata: ProjectMetadata,
    /// The directory that the builder writes the documentation to.
    pub doc_dir: String,
}

/// The mathematical content of [`Config`].
pub struct ConfigView {
    pub host: Seq<u8>,
    pub port: u16,
    pub watch: Option<Seq<Seq<char>>>,
    pub cargo_args: Seq<Seq<char>>,
    pub manifest: Option<Seq<char>>,
    pub metadata: ProjectMetadataView,
    pub doc_dir: Seq<char>,
}

impl View for Config {
    type V = ConfigView;

    open spec fn view(&self) -> ConfigView {
        ConfigView {
            host: self.address.host@,
            port: self.address.port,
            watch: self.watch.deep_view(),
            cargo_args: self.cargo_args.deep_view(),
            manifest: self.manifest.deep_view(),
            metadata: self.metadata@,
            doc_dir: self.doc_dir@,
        }
    }
}

/// Why no configuration could be made, or no server started from it.
#[derive(Debug, PartialEq, Eq)]
pub enum ConfigError {
    /// The metadata of the project could not be had; the text says why.
    Metadata(String),
    /// The project holds no package to send the site root to.
    NoPackages,
}

impl ConfigError {
    /// The failure in words.
    pub open spec fn text(self) -> Seq<char> {
        match self {
            ConfigError::Metadata(cause) => cause@,
            ConfigError::NoPackages => "could not find any packages"@,
        }
    }

    /// The failure in words, for the operator to read.
    pub fn message(&self) -> (out: String)
        ensures
            out@ == self.text(),
    {
        match self {
            ConfigError::Metadata(cause) => cause.clone(),
            ConfigError::NoPackages => String::from_str("could not find any packages"),
        }
    }
}

/// The host to listen on: every interface when `public`, else the loopback
/// interface only.
pub open spec fn host_of(public: bool) -> Seq<u8> {
    if public {
        seq![0u8, 0u8, 0u8, 0u8]
    } else {
        seq![127u8, 0u8, 0u8, 1u8]
    }
}

/// The arguments for the builder among those of the command line. Called as
/// a subcommand of cargo, the program finds its own name in the first place:
/// that one is left out.
pub open spec fn passed_on(args: Seq<Seq<char>>) -> Seq<Seq<char>> {
    if args.len() > 0 && args[0] == "docserve"@ {
        args.drop_first()
    } else {
        args
    }
}

/// The configuration that the command line `opt` and the metadata `found`
/// give.
pub open spec fn configured(opt: OptionsView, found: ProjectMetadataView) -> ConfigView {
    ConfigView {
        host: host_of(opt.public),
        port: opt.port,
        watch: if opt.watch {
            Some(opt.watch_extra)
        } else {
            None
        },
        cargo_args: passed_on(opt.cargo_args),
        manifest: opt.manifest,
        metadata: found,
        doc_dir: found.target_directory + "/doc"@,
    }
}

/// The package whose documentation the site root leads to: the root package
/// where there is one, else the first package, if there is any.
pub open spec fn primary_package(found: ProjectMetadataView) -> Option<Seq<char>> {
    match found.root_package {
        Some(name) => Some(name),
        None => if found.packages.len() > 0 {
            Some(found.packages[0])
        } else {
            None
        },
    }
}

/// The path of the index page of `package` below the site root.
pub open spec fn index_path(package: Seq<char>) -> Seq<char> {
    "/"@ + underscored(package) + "/index.html"@
}

/// A copy of `items`.
fn copy_all(items: &Vec<String>) -> (copy: Vec<String>)
    ensures
        copy.deep_view() == items.deep_view(),
{
    let mut copy: Vec<String> = Vec::new();
    let mut i: usize = 0;
    while i < items.len()
        invariant
            i <= items.len(),
            copy.len() == i,
            forall|j: int| 0 <= j < i ==> copy@[j]@ == items@[j]@,
        decreases items.len() - i,
    {
        copy.push(items[i].clone());
        i += 1;
    }
    copy
}

/// The port that the documentation is served on unless another is asked
/// for.
pub const DEFAULT_PORT: u16 = 8000;

impl Default for Options {
    /// The options of a command line without arguments: serve on the
    /// default port of the loopback interface, watch nothing, and pass
    /// nothing on to the builder.
    fn default() -> (opt: Options)
        ensures
            opt@ == (OptionsView {
                port: DEFAULT_PORT,
                watch: false,
                manifest: None,
                watch_extra: Seq::empty(),
                public: false,
                cargo_args: Seq::empty(),
            }),
    {
        let opt = Options {
            port: DEFAULT_PORT,
            watch: false,
            manifest: None,
            watch_extra: Vec::new(),
            public: false,
            cargo_args: Vec::new(),
        };
        proof {
            assert(opt.cargo_args.deep_view() == Seq::<Seq<char>>::empty());
        }
        opt
    }
}

impl Options {
    /// The path of the manifest, where one was given.
    pub fn manifest(&self) -> (path: Option<&str>)
        ensures
            path.deep_view() == self@.manifest,
    {
        match &self.manifest {
            Some(path) => Some(path.as_str()),
            None => None,
        }
    }
}

impl Config {
    /// Makes the configuration of a run from the command line and from the
    /// outcome of looking up the project's metadata. Fails exactly when the
    /// lookup failed, and then with its cause.
    pub fn try_from(opt: Options, metadata: Result<ProjectMetadata, String>) -> (result: Result<
        Config,
        ConfigError,
    >)
        ensures
            match metadata {
                Ok(found) => result matches Ok(config) && config@ == configured(opt@, found@),
                Err(cause) => result matches Err(error) && error == ConfigError::Metadata(cause),
            },
    {
        let host: [u8; 4] = if opt.public {
            [0, 0, 0, 0]
        } else {
            [127, 0, 0, 1]
        };
        let mut cargo_args = opt.cargo_args;
        if cargo_args.len() > 0 && same_text(cargo_args[0].as_str(), "docserve") {
            let ghost before = cargo_args.deep_view();
            cargo_args.remove(0);
            proof {
                assert(cargo_args.deep_view() == before.drop_first());
            }
        }
        let found = match metadata {
            Ok(found) => found,
            Err(cause) => {
                return Err(ConfigError::Metadata(cause));
            },
        };
        let mut doc_dir = found.target_directory.clone();
        doc_dir.append("/doc");
        let config = Config {
            address: BindAddress { host, port: opt.port },
            watch: if opt.watch {
                Some(opt.watch_extra)
            } else {
                None
            },
            cargo_args,
            manifest: opt.manifest,
            metadata: found,
            doc_dir,
        };
        Ok(config)
    }

    /// The path to send the site root to: the index page of the primary
    /// package. Fails exactly when the project holds no package.
    pub fn open_at(&self) -> (result: Result<String, ConfigError>)
        ensures
            match primary_package(self@.metadata) {
                Some(name) => result matches Ok(path) && path@ == index_path(name),
                None => result == Err::<String, ConfigError>(ConfigError::NoPackages),
            },
    {
        let name: &String = match &self.metadata.root_package {
            Some(name) => name,
            None => {
                if self.metadata.packages.len() > 0 {
                    &self.metadata.packages[0]
                } else {
                    return Err(ConfigError::NoPackages);
                }
            },
        };
        let mut path = String::from_str("/");
        let directory = replace_dashes(name.as_str());
        path.append(directory.as_str());
        path.append("/index.html");
        Ok(path)
    }

    /// What to watch: nothing when watching is off; else the workspace and
    /// the further paths that were asked for, without what lies below the
    /// target directory.
    pub fn watch_target(&self) -> (target: Option<WatchTarget>)
        ensures
            match self@.watch {
                Some(extra) => target matches Some(found) && found@.roots == distinct(
                    seq![self@.metadata.workspace_root] + extra,
                ) && found@.excluded == self@.metadata.target_directory,
                None => target is None,
            },
    {
        match &self.watch {
            Some(extra) => Some(
                WatchTarget::new(
                    self.metadata.workspace_root.clone(),
                    copy_all(extra),
                    self.metadata.target_directory.clone(),
                ),
            ),
            None => None,
        }
    }

    /// The command that rebuilds the documentation of this project.
    pub fn rebuild_command(&self) -> (command: BuildCommand)
        ensures
            command.program@ == "cargo"@,
            command.args.deep_view() == build_args(self@.cargo_args, self@.manifest),
    {
        rebuild_command(&self.cargo_args, &self.manifest)
    }
}

} // verus!
