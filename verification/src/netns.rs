//! How a network namespace is located: the host namespace, a named one
//! under `/var/run/netns`, or a namespace file given by path.
//!
//! Switching a thread into a namespace is left to the caller.
use vstd::prelude::*;
use crate::text::{owned, push_str};

verus! {

/// Why a namespace could not be located or used.
#[derive(Debug, Clone)]
pub enum NamespaceError {
    /// No file at the namespace path.
    NamespaceNotFound(String),
    /// No named namespace of this name under `/var/run/netns/`.
    TraditionalNamespaceNotFound(String),
    /// The operation inside the namespace failed.
    OperationFailed(String),
}

impl NamespaceError {
    /// The message of the error.
    pub fn to_string(&self) -> (s: String)
        ensures
            s@ == (match self {
                NamespaceError::NamespaceNotFound(p) => "Namespace path does not exist: "@ + p@,
                NamespaceError::TraditionalNamespaceNotFound(n) => "Network namespace '"@ + n@
                    + "' not found in /var/run/netns/"@,
                NamespaceError::OperationFailed(m) => "Operation failed inside namespace: "@ + m@,
            }),
    {
        match self {
            NamespaceError::NamespaceNotFound(p) => {
                let mut s = owned("Namespace path does not exist: ");
                push_str(&mut s, p.as_str());
                s
            },
            NamespaceError::TraditionalNamespaceNotFound(n) => {
                let mut s = owned("Network namespace '");
                push_str(&mut s, n.as_str());
                push_str(&mut s, "' not found in /var/run/netns/");
                s
            },
            NamespaceError::OperationFailed(m) => {
                let mut s = owned("Operation failed inside namespace: ");
                push_str(&mut s, m.as_str());
                s
            },
        }
    }
}

/// How to locate a network namespace.
#[derive(Debug, Clone)]
pub enum NamespacePath {
    /// The host namespace.
    Default,
    /// A named namespace under `/var/run/netns/`.
    Named(String),
    /// A namespace file, such as `/proc/<pid>/ns/net`.
    Path(String),
}

/// The file of a namespace: none for the host, `/var/run/netns/<name>`
/// for a named one, the path itself otherwise.
pub open spec fn namespace_file(ns: NamespacePath) -> Option<Seq<char>> {
    match ns {
        NamespacePath::Default => None,
        NamespacePath::Named(n) => Some("/var/run/netns/"@ + n@),
        NamespacePath::Path(p) => Some(p@),
    }
}

/// Whether a file exists at the path, as `Path::exists` reports it.
/// Nothing is promised of the answer: it depends on the file system at
/// the time of the call.
#[verifier::external_body]
fn path_exists(path: &str) -> (r: bool) {
    std::path::Path::new(path).exists()
}

impl NamespacePath {
    /// The file of the namespace (see `namespace_file`).
    pub fn file(&self) -> (r: Option<String>)
        ensures
            crate::text::opt_text(r) == namespace_file(*self),
    {
        match self {
            NamespacePath::Default => None,
            NamespacePath::Named(n) => {
                let mut p = owned("/var/run/netns/");
                push_str(&mut p, n.as_str());
                Some(p)
            },
            NamespacePath::Path(p) => Some(owned(p.as_str())),
        }
    }

    /// The namespace file, given whether it exists: none for the host; the
    /// file when it exists; else the error for a missing named namespace or
    /// a missing path.
    pub fn resolve_given(&self, exists: bool) -> (r: Result<Option<String>, NamespaceError>)
        ensures
            match self {
                NamespacePath::Default => r matches Ok(None),
                NamespacePath::Named(n) => if exists {
                    r matches Ok(Some(p)) && Some(p@) == namespace_file(*self)
                } else {
                    r matches Err(NamespaceError::TraditionalNamespaceNotFound(m)) && m@ == n@
                },
                NamespacePath::Path(path) => if exists {
                    r matches Ok(Some(p)) && p@ == path@
                } else {
                    r matches Err(NamespaceError::NamespaceNotFound(m)) && m@ == path@
                },
            },
    {
        match self {
            NamespacePath::Default => Ok(None),
            NamespacePath::Named(n) => {
                if exists {
                    Ok(self.file())
                } else {
                    Err(NamespaceError::TraditionalNamespaceNotFound(owned(n.as_str())))
                }
            },
            NamespacePath::Path(path) => {
                if exists {
                    Ok(Some(owned(path.as_str())))
                } else {
                    Err(NamespaceError::NamespaceNotFound(owned(path.as_str())))
                }
            },
        }
    }

    /// The namespace file, checking that it exists: none for the host; for
    /// a named namespace or a path, either its file or the not-found error
    /// naming it, by what the file system says at the time (see
    /// `resolve_given`).
    pub fn resolve(&self) -> (r: Result<Option<String>, NamespaceError>)
        ensures
            self matches NamespacePath::Default ==> r matches Ok(None),
            r matches Ok(Some(p)) ==> Some(p@) == namespace_file(*self),
            r matches Err(NamespaceError::TraditionalNamespaceNotFound(m)) ==> self matches NamespacePath::Named(n) && m@ == n@,
            r matches Err(NamespaceError::NamespaceNotFound(m)) ==> self matches NamespacePath::Path(p) && m@ == p@,
            !(r matches Err(NamespaceError::OperationFailed(_))),
            self matches NamespacePath::Named(n) ==> (r matches Ok(Some(p)) && Some(p@)
                == namespace_file(*self)) || (r matches Err(
                NamespaceError::TraditionalNamespaceNotFound(m),
            ) && m@ == n@),
            self matches NamespacePath::Path(path) ==> (r matches Ok(Some(p)) && p@ == path@) || (
            r matches Err(NamespaceError::NamespaceNotFound(m)) && m@ == path@),
    {
        match self.file() {
            None => self.resolve_given(false),
            Some(f) => {
                let exists = path_exists(f.as_str());
                self.resolve_given(exists)
            },
        }
    }
}

} // verus!
