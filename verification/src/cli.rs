use vstd::prelude::*;

use crate::enums::HttpVersion;

verus! {

/// What the user asks for: the URLs to fetch and the settings that all of
/// them share.
#[derive(Debug, Clone)]
pub struct Args {
    /// The URLs to fetch, one task each.
    pub urls: Vec<String>,
    /// The directory that the files are saved in.
    pub output_dir: String,
    /// The name to save under, in place of the name that the URL gives.
    pub output_file_name: Option<String>,
    /// The number of attempts after which a failing task gives up.
    pub retries: i32,
    /// The seconds to wait between two attempts.
    pub delay: u64,
    /// Announce every attempt and every failure.
    pub verbose: bool,
    /// Keep everything but errors silent.
    pub quiet: bool,
    /// The protocol version to use.
    pub http_version: HttpVersion,
    /// The proxy to route all traffic through; empty for none.
    pub proxy_url: String,
    /// The user to present to the proxy.
    pub proxy_user: String,
    /// The password to present to the proxy.
    pub proxy_pass: String,
}

impl Default for Args {
    /// No URLs, and the settings that hold where the user gives none: the
    /// current directory, 3 retries 5 seconds apart, HTTP/1.1, no proxy.
    fn default() -> (args: Args)
        ensures
            args.urls@.len() == 0,
            args.output_dir@ == "./"@,
            args.output_file_name is None,
            args.retries == 3,
            args.delay == 5,
            !args.verbose,
            !args.quiet,
            args.http_version == HttpVersion::Http11,
            args.proxy_url@.len() == 0,
            args.proxy_user@.len() == 0,
            args.proxy_pass@.len() == 0,
    {
        Args {
            urls: Vec::new(),
            output_dir: "./".to_owned(),
            output_file_name: None,
            retries: 3,
            delay: 5,
            verbose: false,
            quiet: false,
            http_version: HttpVersion::Http11,
            proxy_url: String::new(),
            proxy_user: String::new(),
            proxy_pass: String::new(),
        }
    }
}

} // verus!
