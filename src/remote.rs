use vstd::prelude::*;
use vstd::string::*;

use crate::error::Error;
use crate::text::{contains_char, ends_with, has_char, has_prefix, has_suffix, starts_with};

verus! {

#[verifier::external_type_specification]
#[verifier::external_body]
pub struct ExRenderError(handlebars::RenderError);

/// How a remote is reached, decided from the shape of its URL.
#[derive(Clone, Copy, Debug, PartialEq, Eq, Structural)]
pub enum TransportKind {
    Local,
    Http,
    Ssh,
    Git,
}

/// The URL with one trailing `/` removed, if it has one.
pub open spec fn trim_separator(url: Seq<char>) -> Seq<char> {
    if url.len() > 0 && url.last() == '/' {
        url.drop_last()
    } else {
        url
    }
}

/// A URL names a repository when, less one trailing separator, it ends in `.git`.
pub open spec fn is_repository_url(url: Seq<char>) -> bool {
    has_suffix(trim_separator(url), ".git"@)
}

/// The transport of a remote; the first rule that applies wins.
pub open spec fn transport_of(name: Seq<char>, url: Seq<char>) -> TransportKind {
    if has_prefix(url, "http://"@) || has_prefix(url, "https://"@) {
        TransportKind::Http
    } else if has_prefix(url, "ssh://"@) || has_prefix(url, "rsync://"@) || has_char(name, '@') {
        TransportKind::Ssh
    } else if has_prefix(url, "git://"@) {
        TransportKind::Git
    } else {
        TransportKind::Local
    }
}

/// Checks that `url` names a repository and tells how it is reached.
pub fn classify(name: &str, url: &str) -> (r: Result<TransportKind, Error>)
    ensures
        is_repository_url(url@) ==> r == Ok::<TransportKind, Error>(transport_of(name@, url@)),
        !is_repository_url(url@) ==> (r matches Err(Error::InvalidUrl(m)) && m@ == url@),
{
    let n = url.unicode_len();
    let trimmed: &str = if n > 0 && url.get_char(n - 1) == '/' {
        url.substring_char(0, n - 1)
    } else {
        url
    };
    proof {
        reveal_strlit(".git");
        if n > 0 && url@.last() == '/' {
            assert(trimmed@ =~= url@.drop_last());
        }
    }
    if !ends_with(trimmed, ".git") {
        return Err(Error::InvalidUrl(url.to_string()));
    }
    if starts_with(url, "http://") || starts_with(url, "https://") {
        Ok(TransportKind::Http)
    } else if starts_with(url, "ssh://") || starts_with(url, "rsync://") || contains_char(name, '@') {
        Ok(TransportKind::Ssh)
    } else if starts_with(url, "git://") {
        Ok(TransportKind::Git)
    } else {
        Ok(TransportKind::Local)
    }
}

/// One remote endpoint of a project and the policy that downstream tooling
/// applies to it.
#[derive(Clone, Debug, PartialEq, Eq)]
pub struct GitRemote {
    pub name: String,
    pub url: String,
    pub main_branch: String,
    pub testing_branch_prefix: String,
    pub polling_period: u64,
    pub timeout: u64,
}

/// The testing prefix, polling period and timeout are the defaults.
pub open spec fn has_default_policy(r: GitRemote) -> bool {
    r.testing_branch_prefix@ == "testing-"@ && r.polling_period == 60 && r.timeout == 300
}

pub const DEFAULT_POLLING_PERIOD: u64 = 60;

pub const DEFAULT_TIMEOUT: u64 = 300;

/// The policy block a remote renders into.
pub const REMOTE_TEMPLATE: &'static str = "{
            name = \"{{name}}\";
            url = \"{{url}}\";
            branches.main.name = \"{{main_branch}}\";
            branches.testing.name = \"{{testing_branch_prefix}}${config.services.comin.hostname}\";
            poller.period = {{polling_period}};
            timeout = {{timeout}};
        }";

/// What the template engine makes of `template` over the fields of a remote;
/// `None` when it fails to render.
pub uninterp spec fn remote_rendered(
    template: Seq<char>,
    name: Seq<char>,
    url: Seq<char>,
    main_branch: Seq<char>,
    testing_branch_prefix: Seq<char>,
    polling_period: u64,
    timeout: u64,
) -> Option<Seq<char>>;

/// Relies on handlebars::Handlebars::render_template (on a fresh registry):
/// whether it renders, and to what, depends on the template and the data alone.
/// The template is the fixed policy block, which includes no partials.
#[verifier::external_body]
fn render_remote(template: &str, r: &GitRemote) -> (out: core::result::Result<String, handlebars::RenderError>)
    requires
        template@ == REMOTE_TEMPLATE@,
    ensures
        out matches Ok(s) ==> remote_rendered(
            template@, r.name@, r.url@, r.main_branch@, r.testing_branch_prefix@,
            r.polling_period, r.timeout) == Some(s@),
        out is Err ==> remote_rendered(
            template@, r.name@, r.url@, r.main_branch@, r.testing_branch_prefix@,
            r.polling_period, r.timeout) is None,
{
    let mut m = serde_json::Map::new();
    m.insert("name".into(), r.name.clone().into());
    m.insert("url".into(), r.url.clone().into());
    m.insert("main_branch".into(), r.main_branch.clone().into());
    m.insert("testing_branch_prefix".into(), r.testing_branch_prefix.clone().into());
    m.insert("polling_period".into(), r.polling_period.into());
    m.insert("timeout".into(), r.timeout.into());
    handlebars::Handlebars::new().render_template(template, &m)
}

impl GitRemote {
    /// A remote with the default policy: branch `main`, testing prefix
    /// `testing-`, polled every 60 s, with a 300 s timeout.
    pub fn new(name: String, url: String) -> (r: GitRemote)
        ensures
            r.name == name,
            r.url == url,
            r.main_branch@ == "main"@,
            r.testing_branch_prefix@ == "testing-"@,
            r.polling_period == 60,
            r.timeout == 300,
            has_default_policy(r),
    {
        GitRemote {
            name,
            url,
            main_branch: String::from_str("main"),
            testing_branch_prefix: String::from_str("testing-"),
            polling_period: DEFAULT_POLLING_PERIOD,
            timeout: DEFAULT_TIMEOUT,
        }
    }

    /// The same remote with another main branch.
    pub fn with_main_branch(self, branch: String) -> (r: GitRemote)
        ensures
            r == (GitRemote { main_branch: branch, ..self }),
    {
        GitRemote { main_branch: branch, ..self }
    }

    /// The remote as a policy block for generated configuration text: what
    /// the engine renders from `REMOTE_TEMPLATE` over its fields, or an error
    /// where it renders nothing.
    pub fn as_nix(&self) -> (r: Result<String, Error>)
        ensures
            r matches Ok(s) ==> remote_rendered(
                REMOTE_TEMPLATE@, self.name@, self.url@, self.main_branch@,
                self.testing_branch_prefix@, self.polling_period, self.timeout) == Some(s@),
            r is Err <==> remote_rendered(
                REMOTE_TEMPLATE@, self.name@, self.url@, self.main_branch@,
                self.testing_branch_prefix@, self.polling_period, self.timeout) is None,
            r matches Err(e) ==> e is TemplateRendering,
    {
        match render_remote(REMOTE_TEMPLATE, self) {
            Ok(s) => Ok(s),
            Err(e) => Err(Error::TemplateRendering(e.to_string())),
        }
    }
}

} // verus!
