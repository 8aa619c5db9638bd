use vstd::prelude::*;
use vstd::string::*;

verus! {

/// Every failure the initialization engine reports. Failures that come from
/// the filesystem, the repository backend or the serializer are carried as
/// their message text.
#[derive(Clone, Debug, PartialEq, Eq)]
pub enum Error {
    /// Bad input: a path of the wrong shape, a mode that cannot apply here.
    Parsing(String),
    Unknown(String),
    /// No configuration file in the directory or any of its ancestors.
    ConfigNotFound,
    Io(String),
    Json(String),
    TemplateRendering(String),
    /// A template could not be registered (its text does not compile).
    Template(String),
    MissingRuntimeDependency(String),
    Git(String),
    /// A remote URL that does not name a repository.
    InvalidUrl(String),
    /// A command that needs a project was run outside of one.
    OutsideShell,
}

impl Error {
    pub fn dependency(which: String) -> (r: Error)
        ensures
            r == Error::MissingRuntimeDependency(which),
    {
        Error::MissingRuntimeDependency(which)
    }
}

/// The one-line message that names a failure.
pub open spec fn message_of(e: Error) -> Seq<char> {
    match e {
        Error::Parsing(m) => "Failed to parse arguments/other input: "@ + m@,
        Error::Unknown(m) => "An unknown error occurred: "@ + m@,
        Error::ConfigNotFound => "Unable to find nico config in this or any parent folders."@,
        Error::Io(m) => "Encountered an IO error: "@ + m@,
        Error::Json(m) => "JSON error: "@ + m@,
        Error::TemplateRendering(m) => "Failed to render template: "@ + m@,
        Error::Template(m) => "Failed to load template: "@ + m@,
        Error::MissingRuntimeDependency(m) => "Missing runtime dependency: "@ + m@,
        Error::Git(m) => "Git operation error: "@ + m@,
        Error::InvalidUrl(m) => "Not a repository URL: "@ + m@,
        Error::OutsideShell => "This command must be run inside a project."@,
    }
}

fn prefixed(prefix: &str, m: &String) -> (r: String)
    ensures
        r@ == prefix@ + m@,
{
    let mut s = String::from_str(prefix);
    s.append(m.as_str());
    s
}

impl Error {
    /// The one-line message that names the failure.
    pub fn message(&self) -> (r: String)
        ensures
            r@ == message_of(*self),
    {
        match self {
            Error::Parsing(m) => prefixed("Failed to parse arguments/other input: ", m),
            Error::Unknown(m) => prefixed("An unknown error occurred: ", m),
            Error::ConfigNotFound => String::from_str("Unable to find nico config in this or any parent folders."),
            Error::Io(m) => prefixed("Encountered an IO error: ", m),
            Error::Json(m) => prefixed("JSON error: ", m),
            Error::TemplateRendering(m) => prefixed("Failed to render template: ", m),
            Error::Template(m) => prefixed("Failed to load template: ", m),
            Error::MissingRuntimeDependency(m) => prefixed("Missing runtime dependency: ", m),
            Error::Git(m) => prefixed("Git operation error: ", m),
            Error::InvalidUrl(m) => prefixed("Not a repository URL: ", m),
            Error::OutsideShell => String::from_str("This command must be run inside a project."),
        }
    }
}

pub type Result<T> = core::result::Result<T, Error>;

} // verus!
