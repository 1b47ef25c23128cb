//! What the server is started with, as far as it is the same for every
//! installation: limits on bodies, the place of the API, the address to open
//! in a browser.

use std::collections::HashMap;
use vstd::prelude::*;
use crate::auth::ConfigApiKey;
use crate::staticfileserver::{StaticFileServer, DEFAULT_RANK};

verus! {

/// What the server is started with.
#[derive(Debug, Clone)]
pub struct Arguments {
    /// The address to listen on, written as host and port.
    pub address: String,
    /// A file to load into the session before the first request.
    pub preload: Option<String>,
    /// The directory that uploads are written to.
    pub upload: String,
    /// For each type of data, the names of the plugins that read it.
    pub plugins_types: HashMap<String, Vec<String>>,
    pub api_key: String,
}

/// What is set up before the server is launched: the limits of the
/// transport, the state that the handlers share beside the session, and the
/// handler of the front end.
pub struct Setup {
    pub address: String,
    pub json_limit: u64,
    pub api_key: ConfigApiKey,
    pub upload_dir: String,
    pub plugins_types: HashMap<String, Vec<String>>,
    pub frontend: StaticFileServer,
    /// The address to open in a browser once the front end is served.
    pub browser_url: String,
}

/// Most bytes that a JSON body may have: 10 GiB.
pub const JSON_LIMIT: u64 = 10_737_418_240;

/// Name of the limit that `JSON_LIMIT` is set for.
pub fn json_limit_name() -> (name: &'static str)
    ensures
        name@ == "json"@,
{
    "json"
}

/// The path below which every endpoint of the API is mounted.
pub fn api_base() -> (base: &'static str)
    ensures
        base@ == "/api"@,
{
    "/api"
}

/// The path below which the front end is mounted.
pub fn frontend_base() -> (base: &'static str)
    ensures
        base@ == "/"@,
{
    "/"
}

/// The file that a session is saved to or loaded from.
#[derive(Debug, Clone, PartialEq, Eq)]
pub struct SaveFile {
    pub file_name: String,
}

/// The address to open in a browser for a server that listens on
/// `address`, written as host and port. The front end is served without
/// encryption.
pub fn browser_url(address: &str) -> (url: String)
    ensures
        url@ == "http://"@ + address@,
{
    "http://".to_owned().concat(address)
}

/// What to set up for a server started with `args`.
pub fn setup(args: Arguments) -> (plan: Setup)
    ensures
        plan.address == args.address,
        plan.json_limit == JSON_LIMIT,
        plan.api_key.0 == args.api_key,
        plan.upload_dir == args.upload,
        plan.plugins_types == args.plugins_types,
        plan.frontend.rank == DEFAULT_RANK,
        plan.browser_url@ == "http://"@ + args.address@,
{
    let browser_url = browser_url(args.address.as_str());
    Setup {
        address: args.address,
        json_limit: JSON_LIMIT,
        api_key: ConfigApiKey(args.api_key),
        upload_dir: args.upload,
        plugins_types: args.plugins_types,
        frontend: StaticFileServer::from(),
        browser_url,
    }
}

} // verus!
