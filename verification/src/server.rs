//! The HTTP front end: the site root leads to the index page of the primary
//! package, every other request is answered from the documentation
//! directory.

use vstd::prelude::*;
use vstd::string::*;
use crate::config::{index_path, primary_package, Config, ConfigError, ProjectMetadataView};
use crate::text::{same_text, underscored};

verus! {

/// The status of the redirect from the site root: moved permanently.
pub const REDIRECT_STATUS: u16 = 301;

/// What the server needs of the configuration.
#[derive(Debug)]
pub struct ServerConfig {
    /// The directory to serve files from. It is read anew for every
    /// request, so a rebuild shows without a restart.
    pub doc_dir: String,
    /// Where the site root leads, worked out once when the server starts.
    pub redirect: String,
}

/// The mathematical content of [`ServerConfig`].
pub struct ServerConfigView {
    pub doc_dir: Seq<char>,
    pub redirect: Seq<char>,
}

impl View for ServerConfig {
    type V = ServerConfigView;

    open spec fn view(&self) -> ServerConfigView {
        ServerConfigView { doc_dir: self.doc_dir@, redirect: self.redirect@ }
    }
}

/// How to answer a request.
#[derive(Debug, PartialEq, Eq)]
pub enum Route {
    /// Answer with a redirect to `location`.
    Redirect { status: u16, location: String },
    /// Serve the file that the request names below `root`.
    Static { root: String },
}

/// The mathematical content of a [`Route`].
pub enum RouteView {
    Redirect { status: u16, location: Seq<char> },
    Static { root: Seq<char> },
}

impl View for Route {
    type V = RouteView;

    open spec fn view(&self) -> RouteView {
        match self {
            Route::Redirect { status, location } => RouteView::Redirect {
                status: *status,
                location: location@,
            },
            Route::Static { root } => RouteView::Static { root: root@ },
        }
    }
}

/// Whether a request asks for the site root: its method is `GET` and its
/// path is exactly `/`.
pub open spec fn is_root_request(method: Seq<char>, path: Seq<char>) -> bool {
    method == "GET"@ && path == "/"@
}

/// The answer of a server set up as `server` to a request.
pub open spec fn route_of(
    server: ServerConfigView,
    method: Seq<char>,
    path: Seq<char>,
) -> RouteView {
    if is_root_request(method, path) {
        RouteView::Redirect { status: REDIRECT_STATUS, location: server.redirect }
    } else {
        RouteView::Static { root: server.doc_dir }
    }
}

/// The server set-up for a project whose metadata is `found` and whose
/// documentation lies in `doc_dir`, if the project holds a package.
pub open spec fn server_for(found: ProjectMetadataView, doc_dir: Seq<char>) -> Option<
    ServerConfigView,
> {
    match primary_package(found) {
        Some(name) => Some(ServerConfigView { doc_dir, redirect: index_path(name) }),
        None => None,
    }
}

impl ServerConfig {
    /// Works out what the server needs. Fails exactly when the project
    /// holds no package, so that a server without a page to lead to never
    /// starts.
    pub fn new(config: &Config) -> (result: Result<ServerConfig, ConfigError>)
        ensures
            match server_for(config@.metadata, config@.doc_dir) {
                Some(server) => result matches Ok(made) && made@ == server,
                None => result == Err::<ServerConfig, ConfigError>(ConfigError::NoPackages),
            },
    {
        match config.open_at() {
            Ok(redirect) => Ok(ServerConfig { doc_dir: config.doc_dir.clone(), redirect }),
            Err(_) => Err(ConfigError::NoPackages),
        }
    }
}

/// Decides how to answer a request with the given method and path.
pub fn handle(config: &ServerConfig, method: &str, path: &str) -> (route: Route)
    ensures
        route@ == route_of(config@, method@, path@),
{
    if same_text(method, "GET") && same_text(path, "/") {
        Route::Redirect { status: REDIRECT_STATUS, location: config.redirect.clone() }
    } else {
        Route::Static { root: config.doc_dir.clone() }
    }
}

/// Routing of the site root: for every project with a package, a `GET` of
/// `/` is answered by a permanent redirect to `/<pkg>/index.html`, where
/// `<pkg>` is the name of the primary package with each dash turned into an
/// underscore: it holds no dash, and is the name in every other place.
pub proof fn lemma_root_redirects_to_index(found: ProjectMetadataView, doc_dir: Seq<char>)
    requires
        primary_package(found) is Some,
    ensures
        server_for(found, doc_dir) is Some,
        route_of(server_for(found, doc_dir)->0, "GET"@, "/"@) == (RouteView::Redirect {
            status: 301,
            location: "/"@ + underscored(primary_package(found)->0) + "/index.html"@,
        }),
        !underscored(primary_package(found)->0).contains('-'),
        underscored(primary_package(found)->0).len() == primary_package(found)->0.len(),
        forall|i: int|
            0 <= i < primary_package(found)->0.len() && primary_package(found)->0[i] != '-'
                ==> #[trigger] underscored(primary_package(found)->0)[i] == primary_package(
                found,
            )->0[i],
{
}

} // verus!
