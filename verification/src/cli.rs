//! The command surface: what a run is asked to do, and the defaults that
//! fill what the caller left out.

use vstd::prelude::*;
use vstd::string::*;
use crate::client::CandfansClient;
use crate::crawl::{spec_initial, spec_wf, Crawl};
use crate::pages::limit_view;
use crate::reference::extension_views;

verus! {

/// The extension that is wanted where the caller names none.
pub const DEFAULT_EXTENSION: &'static str = "mp4";

/// What one run is asked to do.
#[derive(Debug, Clone, PartialEq)]
pub struct Cli {
    /// Identifier of the account whose feed is archived.
    pub target: String,
    /// Session cookie, passed through as it is.
    pub cookie: String,
    /// Anti-forgery token, passed through as it is.
    pub x_xsrf_token: String,
    /// First page to fetch.
    pub offset: usize,
    /// Number of pages to fetch, if limited.
    pub pages: Option<usize>,
    /// Extensions of the assets that are wanted.
    pub extensions: Vec<String>,
    /// Directory the assets are written to, if not named after the account.
    pub output: Option<String>,
}

impl Cli {
    /// A run for `target` with every option at its default: from page 0,
    /// without a page limit, for the default extension, into the directory
    /// named after the account.
    pub fn with_defaults(target: String, cookie: String, x_xsrf_token: String) -> (cli: Cli)
        ensures
            cli.target == target,
            cli.cookie == cookie,
            cli.x_xsrf_token == x_xsrf_token,
            cli.offset == 0,
            cli.pages is None,
            extension_views(cli.extensions@) == seq![DEFAULT_EXTENSION@],
            cli.output is None,
    {
        let mut extensions: Vec<String> = Vec::new();
        extensions.push(String::from_str(DEFAULT_EXTENSION));
        assert(extension_views(extensions@) =~= seq![DEFAULT_EXTENSION@]);
        Cli { target, cookie, x_xsrf_token, offset: 0, pages: None, extensions, output: None }
    }

    /// The directory of this run, as characters: the one that was named,
    /// else the account identifier.
    pub open spec fn spec_output_directory(&self) -> Seq<char> {
        match self.output {
            Some(directory) => directory@,
            None => self.target@,
        }
    }

    /// The directory the assets are written to.
    pub fn output_directory(&self) -> (directory: String)
        ensures
            directory@ == self.spec_output_directory(),
    {
        match &self.output {
            Some(directory) => directory.clone(),
            None => self.target.clone(),
        }
    }

    /// The client that carries the credentials of this run.
    pub fn client(&self) -> (client: CandfansClient)
        ensures
            client.spec_cookie() == self.cookie@,
            client.spec_x_xsrf_token() == self.x_xsrf_token@,
    {
        CandfansClient::new(self.cookie.clone(), self.x_xsrf_token.clone())
    }

    /// The crawl this run asks for, before its first request.
    pub fn crawl(&self) -> (crawl: Crawl)
        ensures
            spec_wf(crawl@),
            crawl@.client.spec_cookie() == self.cookie@,
            crawl@.client.spec_x_xsrf_token() == self.x_xsrf_token@,
            crawl@ == spec_initial(
                crawl@.client,
                self.target@,
                self.offset as nat,
                limit_view(self.pages),
            ),
    {
        Crawl::new(self.client(), self.target.clone(), self.offset, self.pages)
    }
}

} // verus!
