//! The GitHub REST surface that claims use: issues, labels, comments, and
//! workflow dispatches.

use crate::percent::{percent_encode, percent_encoded};
use crate::text::{decimal, decimal_text, views};
use vstd::prelude::*;

verus! {

/// A label on an issue.
#[derive(Clone, Debug)]
pub enum Label {
    /// As the interface returns it.
    Object {
        /// The label's name.
        name: String,
    },
    /// As the interface takes it.
    Name(String),
}

impl Label {
    /// The label's name.
    pub open spec fn text(self) -> Seq<char> {
        match self {
            Label::Object { name } => name@,
            Label::Name(n) => n@,
        }
    }

    /// The label's name.
    pub fn name(&self) -> (name: &str)
        ensures
            name@ == self.text(),
    {
        match self {
            Label::Object { name } => name.as_str(),
            Label::Name(n) => n.as_str(),
        }
    }
}

/// An issue.
#[derive(Clone, Debug)]
pub struct Issue {
    /// Its number in the repository.
    pub number: u64,
    /// Its title.
    pub title: String,
    /// Its body.
    pub body: String,
    /// Its labels.
    pub labels: Vec<Label>,
    /// Where people read it.
    pub html_url: String,
    /// Open or closed.
    pub state: String,
}

/// A comment on an issue.
#[derive(Clone, Debug)]
pub struct Comment {
    /// Its identifier.
    pub id: u64,
    /// What it says.
    pub body: String,
    /// Where people read it.
    pub html_url: String,
}

/// The names of a list of labels.
pub open spec fn label_names(labels: Seq<Label>) -> Seq<Seq<char>> {
    Seq::new(labels.len(), |i: int| labels[i].text())
}

/// The names of the labels on an issue, in order.
pub fn names_of(labels: &Vec<Label>) -> (names: Vec<String>)
    ensures
        views(names@) == label_names(labels@),
{
    let mut names: Vec<String> = Vec::new();
    let mut i: usize = 0;
    while i < labels.len()
        invariant
            i <= labels.len(),
            names.len() == i,
            forall|k: int| 0 <= k < i ==> (#[trigger] names@[k])@ == labels@[k].text(),
        decreases labels.len() - i,
    {
        names.push(labels[i].name().to_owned());
        i = i + 1;
    }
    assert(views(names@) =~= label_names(labels@));
    names
}

/// How requests reach GitHub.
#[derive(Clone, Debug)]
pub struct Client {
    /// The bearer token.
    pub token: String,
}

impl Client {
    /// A client that presents `token`.
    pub fn new(token: &str) -> (client: Client)
        ensures
            client.token@ == token@,
    {
        Client { token: token.to_owned() }
    }

    /// The headers of every request: name and value.
    pub fn headers(&self) -> (headers: Vec<(&'static str, String)>)
        ensures
            headers@.len() == 4,
            headers@[0].0@ == "Authorization"@ && headers@[0].1@ == "Bearer "@ + self.token@,
            headers@[1].0@ == "Accept"@ && headers@[1].1@ == "application/vnd.github+json"@,
            headers@[2].0@ == "User-Agent"@ && headers@[2].1@ == "satsforcompute"@,
            headers@[3].0@ == "X-GitHub-Api-Version"@ && headers@[3].1@ == "2022-11-28"@,
    {
        let mut bearer: String = "Bearer ".to_owned();
        bearer.append(self.token.as_str());
        let mut headers: Vec<(&'static str, String)> = Vec::new();
        headers.push(("Authorization", bearer));
        headers.push(("Accept", "application/vnd.github+json".to_owned()));
        headers.push(("User-Agent", "satsforcompute".to_owned()));
        headers.push(("X-GitHub-Api-Version", "2022-11-28".to_owned()));
        headers
    }

    /// The address of a path of the interface.
    pub fn url(&self, path: &str) -> (url: String)
        ensures
            url@ == "https://api.github.com"@ + path@,
    {
        let mut url: String = "https://api.github.com".to_owned();
        url.append(path);
        url
    }
}

/// The path of the issues of a repository.
pub open spec fn issues_at(repo: Seq<char>) -> Seq<char> {
    "/repos/"@ + repo + "/issues"@
}

/// The path of an issue.
pub open spec fn issue_at(repo: Seq<char>, number: u64) -> Seq<char> {
    issues_at(repo) + "/"@ + decimal(number as nat)
}

/// The path of the issues of a repository.
pub fn issues_path(repo: &str) -> (path: String)
    ensures
        path@ == issues_at(repo@),
{
    let mut path: String = "/repos/".to_owned();
    path.append(repo);
    path.append("/issues");
    path
}

/// The path of an issue.
pub fn issue_path(repo: &str, number: u64) -> (path: String)
    ensures
        path@ == issue_at(repo@, number),
{
    let mut path: String = issues_path(repo);
    path.append("/");
    path.append(decimal_text(number).as_str());
    path
}

/// The path of the comments of an issue.
pub fn comments_path(repo: &str, number: u64) -> (path: String)
    ensures
        path@ == issue_at(repo@, number) + "/comments"@,
{
    let mut path: String = issue_path(repo, number);
    path.append("/comments");
    path
}

/// The path of the labels of an issue.
pub fn labels_path(repo: &str, number: u64) -> (path: String)
    ensures
        path@ == issue_at(repo@, number) + "/labels"@,
{
    let mut path: String = issue_path(repo, number);
    path.append("/labels");
    path
}

/// The path of one label of an issue.
pub fn label_path(repo: &str, number: u64, label: &str) -> (path: String)
    ensures
        path@ == issue_at(repo@, number) + "/labels"@ + "/"@ + percent_encoded(label@),
{
    let mut path: String = labels_path(repo, number);
    path.append("/");
    path.append(percent_encode(label).as_str());
    path
}

/// Whether an answer to the removal of a label counts as success: a label that
/// is not there (404) is as good as removed.
pub fn removal_accepted(status: u16) -> (ok: bool)
    ensures
        ok == (200 <= status < 300 || status == 404),
{
    (200 <= status && status < 300) || status == 404
}

} // verus!
