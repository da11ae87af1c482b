//! The records that a repository search yields, and the call that asks
//! for them.

use vstd::prelude::*;
use crate::useragent::UserAgentHeader;

verus! {

/// The account that owns a repository.
#[derive(Clone, Debug, PartialEq, Eq)]
pub struct Owner {
    pub login: String,
    pub html_url: String,
}

/// One repository of a search result.
#[derive(Clone, Debug, PartialEq, Eq)]
pub struct Repository {
    pub name: String,
    pub html_url: String,
    pub description: Option<String>,
    pub owner: Owner,
}

/// The decoded answer of the search endpoint, in the order it was sent.
#[derive(Clone, Debug, PartialEq, Eq)]
pub struct SearchResult {
    pub items: Vec<Repository>,
}

/// Any failure of the search: transport, status or decoding.
#[derive(Clone, Copy, Debug, PartialEq, Eq)]
pub struct ApiError {}

/// One search to run: the key to look for and the page size.
#[derive(Clone, Debug, PartialEq, Eq)]
pub struct SearchCall {
    pub query: String,
    pub per_page: u32,
}

/// Mathematical content of an [`Owner`].
pub ghost struct OwnerView {
    pub login: Seq<char>,
    pub html_url: Seq<char>,
}

/// Mathematical content of a [`Repository`].
pub ghost struct RepositoryView {
    pub name: Seq<char>,
    pub html_url: Seq<char>,
    pub description: Option<Seq<char>>,
    pub owner: OwnerView,
}

impl View for Owner {
    type V = OwnerView;

    open spec fn view(&self) -> OwnerView {
        OwnerView { login: self.login@, html_url: self.html_url@ }
    }
}

impl View for Repository {
    type V = RepositoryView;

    open spec fn view(&self) -> RepositoryView {
        RepositoryView {
            name: self.name@,
            html_url: self.html_url@,
            description: match self.description {
                Some(d) => Some(d@),
                None => None,
            },
            owner: self.owner@,
        }
    }
}

/// The description of a repository, a dash standing for a missing one.
pub open spec fn description_of(repo: RepositoryView) -> Seq<char> {
    match repo.description {
        Some(text) => text,
        None => "-"@,
    }
}

/// The contents of a list of repositories, in order.
pub open spec fn views(repos: Seq<Repository>) -> Seq<RepositoryView> {
    repos.map_values(|r: Repository| r@)
}

/// Number of results asked of the search endpoint.
pub const PAGE_SIZE: u32 = 10;

impl Repository {
    /// The description, or a dash where the repository has none.
    pub fn description_text(&self) -> (text: String)
        ensures
            text@ == description_of(self@),
    {
        match &self.description {
            Some(text) => text.clone(),
            None => "-".to_owned(),
        }
    }
}

impl SearchCall {
    /// The search for `query`, used as it stands, with the fixed page size.
    pub fn new(query: String) -> (call: SearchCall)
        ensures
            call.query@ == query@,
            call.per_page == PAGE_SIZE,
    {
        SearchCall { query, per_page: PAGE_SIZE }
    }

    /// Host that serves the search.
    pub fn base_url() -> (url: &'static str)
        ensures
            url@ == "https://api.github.com"@,
    {
        "https://api.github.com"
    }

    /// Path of the search endpoint below the host.
    pub fn endpoint() -> (path: &'static str)
        ensures
            path@ == "/search/repositories"@,
    {
        "/search/repositories"
    }

    /// The identification sent with every search.
    pub fn user_agent() -> (header: UserAgentHeader)
        ensures
            header.0@ == "hexocat-bot"@,
    {
        UserAgentHeader("hexocat-bot".to_owned())
    }
}

} // verus!
