//! Serves the front end from a directory that was embedded when the server
//! was built.

use vstd::prelude::*;
use crate::http::Method;

verus! {

/// Makes `include_dir::Dir` known as a type whose values are read through
/// `get_file` alone.
#[verifier::external_type_specification]
#[verifier::external_body]
pub struct ExDir<'a>(include_dir::Dir<'a>);

/// What `include_dir::Dir::get_file` finds in an embedded directory: the
/// paths for which it returns a file, each with the bytes of the file it
/// returns. A path written in another way that names the same file is a key
/// of its own.
pub uninterp spec fn dir_files(dir: include_dir::Dir<'static>) -> Map<Seq<char>, Seq<u8>>;

/// Calls `include_dir::Dir::get_file` and, where it finds a file,
/// `include_dir::File::contents`. The search goes through the directory and
/// the directories below it and depends on nothing but the directory and
/// the path.
#[verifier::external_body]
fn get_file(dir: &include_dir::Dir<'static>, path: &str) -> (found: Option<&'static [u8]>)
    ensures
        found is Some <==> dir_files(*dir).contains_key(path@),
        found is Some ==> found->0@ == dir_files(*dir)[path@],
{
    match dir.get_file(path) {
        Some(file) => Some(file.contents()),
        None => None,
    }
}

/// Rank of the front end's route unless another is asked for: late enough
/// not to stand before the routes of the API.
pub const DEFAULT_RANK: isize = 10;

/// The handler of the front end's route.
#[derive(Debug, Clone, PartialEq, Eq)]
pub struct StaticFileServer {
    pub rank: isize,
}

/// The route under which a handler is mounted.
#[derive(Debug, Clone, PartialEq, Eq)]
pub struct Route {
    pub name: Option<String>,
    pub method: Method,
    pub uri: String,
    pub rank: isize,
}

/// One embedded file on its way out as a response.
#[derive(Debug, Clone, Copy, PartialEq, Eq)]
pub struct StaticFile {
    pub data: &'static [u8],
}

/// The path that is looked up for a request path: the index page for the
/// empty path, the path itself otherwise.
pub open spec fn asset_path(path: Seq<char>) -> Seq<char> {
    if path.len() == 0 {
        "index.html"@
    } else {
        path
    }
}

impl StaticFileServer {
    /// The handler with the default rank.
    pub fn from() -> (server: StaticFileServer)
        ensures
            server.rank == DEFAULT_RANK,
    {
        StaticFileServer::new()
    }

    /// The handler with the default rank.
    pub fn new() -> (server: StaticFileServer)
        ensures
            server.rank == DEFAULT_RANK,
    {
        StaticFileServer { rank: DEFAULT_RANK }
    }

    /// The same handler under another rank.
    pub fn rank(self, rank: isize) -> (server: StaticFileServer)
        ensures
            server.rank == rank,
    {
        let mut server = self;
        server.rank = rank;
        server
    }

    /// The routes to mount the handler under: one, named `frontend`, that
    /// takes every path of a GET request at the handler's rank.
    pub fn routes(&self) -> (routes: Vec<Route>)
        ensures
            routes@.len() == 1,
            routes@[0].rank == self.rank,
            routes@[0].method == Method::Get,
            routes@[0].uri@ == "/<path..>"@,
            routes@[0].name is Some,
            routes@[0].name->0@ == "frontend"@,
    {
        let route = Route {
            name: Some("frontend".to_owned()),
            method: Method::Get,
            uri: "/<path..>".to_owned(),
            rank: self.rank,
        };
        let mut routes: Vec<Route> = Vec::new();
        routes.push(route);
        routes
    }

    /// Answers a request for `path`, the path of the request as text, or
    /// `None` where it is no path of the file system. The answer is the
    /// file that `dir` holds under `asset_path`; without it the request is
    /// forwarded to the next route, which `None` stands for.
    pub fn handle(&self, dir: &include_dir::Dir<'static>, path: Option<&str>) -> (file: Option<
        StaticFile,
    >)
        ensures
            file is Some <==> path is Some && dir_files(*dir).contains_key(asset_path(path->0@)),
            file is Some ==> file->0.data@ == dir_files(*dir)[asset_path(path->0@)],
    {
        let found = match path {
            Some(p) => if p.is_empty() {
                get_file(dir, "index.html")
            } else {
                get_file(dir, p)
            },
            None => {
                return None;
            },
        };
        match found {
            Some(data) => Some(StaticFile::new(data)),
            None => None,
        }
    }
}

impl Default for StaticFileServer {
    fn default() -> (server: StaticFileServer)
        ensures
            server.rank == DEFAULT_RANK,
    {
        StaticFileServer::new()
    }
}

impl StaticFile {
    /// A response with `data` as its body.
    pub fn new(data: &'static [u8]) -> (file: StaticFile)
        ensures
            file.data == data,
    {
        StaticFile { data }
    }

    /// The length that the response announces: that of the body.
    pub fn content_length(&self) -> (length: usize)
        ensures
            length == self.data@.len(),
    {
        self.data.len()
    }
}

} // verus!
