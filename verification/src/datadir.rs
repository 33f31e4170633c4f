//! The daemon's data directory: where it is to be made, and what it is once
//! it exists.

use crate::conf::{Conf, ConfView};
use crate::error::Error;
use crate::text::option_text;
use vstd::prelude::*;

verus! {

/// The data directory of a daemon. A temporary directory is deleted when its
/// owner goes; a persistent one is never deleted.
#[derive(Debug, Clone, PartialEq, Eq)]
pub enum DataDir {
    /// A persistent directory, by its path.
    Persistent(String),
    /// A temporary directory, by its path.
    Temporary(String),
}

/// The mathematical content of a [`DataDir`].
pub enum DataDirView {
    Persistent(Seq<char>),
    Temporary(Seq<char>),
}

impl DataDirView {
    /// The path of the directory.
    pub open spec fn path(self) -> Seq<char> {
        match self {
            DataDirView::Persistent(path) => path,
            DataDirView::Temporary(path) => path,
        }
    }
}

impl View for DataDir {
    type V = DataDirView;

    open spec fn view(&self) -> DataDirView {
        match self {
            DataDir::Persistent(path) => DataDirView::Persistent(path@),
            DataDir::Temporary(path) => DataDirView::Temporary(path@),
        }
    }
}

impl DataDir {
    /// The path of the directory.
    pub fn path(&self) -> (path: String)
        ensures
            path@ == self@.path(),
    {
        match self {
            DataDir::Persistent(path) => path.clone(),
            DataDir::Temporary(path) => path.clone(),
        }
    }

    /// Tells whether the directory outlives its owner.
    pub fn is_persistent(&self) -> (b: bool)
        ensures
            b == (self@ is Persistent),
    {
        match self {
            DataDir::Persistent(_) => true,
            DataDir::Temporary(_) => false,
        }
    }

    /// A copy of this directory's description.
    pub fn duplicate(&self) -> (copy: DataDir)
        ensures
            copy@ == self@,
    {
        match self {
            DataDir::Persistent(path) => DataDir::Persistent(path.clone()),
            DataDir::Temporary(path) => DataDir::Temporary(path.clone()),
        }
    }
}

/// What has to be done on disk before the daemon can start.
#[derive(Debug, Clone, PartialEq, Eq)]
pub enum DirRequest {
    /// Create this directory and its parents unless they exist.
    Persistent(String),
    /// Create a fresh temporary directory under this root.
    TemporaryIn(String),
    /// Create a fresh temporary directory in the operating system's default
    /// place.
    TemporaryDefault,
}

/// The mathematical content of a [`DirRequest`].
pub enum DirRequestView {
    Persistent(Seq<char>),
    TemporaryIn(Seq<char>),
    TemporaryDefault,
}

impl View for DirRequest {
    type V = DirRequestView;

    open spec fn view(&self) -> DirRequestView {
        match self {
            DirRequest::Persistent(path) => DirRequestView::Persistent(path@),
            DirRequest::TemporaryIn(root) => DirRequestView::TemporaryIn(root@),
            DirRequest::TemporaryDefault => DirRequestView::TemporaryDefault,
        }
    }
}

/// The directory asked for by two configured roots that do not conflict:
/// the persistent root if it is set, else a temporary directory under the
/// temporary root, else one under `env_root`, the root that the environment
/// names, else one in the default place.
pub open spec fn dir_request_at(
    tmpdir: Option<Seq<char>>,
    staticdir: Option<Seq<char>>,
    env_root: Option<Seq<char>>,
) -> DirRequestView {
    if staticdir is Some {
        DirRequestView::Persistent(staticdir->0)
    } else if tmpdir is Some {
        DirRequestView::TemporaryIn(tmpdir->0)
    } else if env_root is Some {
        DirRequestView::TemporaryIn(env_root->0)
    } else {
        DirRequestView::TemporaryDefault
    }
}

/// The directory that a configuration asks for, where its roots do not
/// conflict.
pub open spec fn dir_request(conf: ConfView, env_root: Option<Seq<char>>) -> DirRequestView {
    dir_request_at(conf.tmpdir, conf.staticdir, env_root)
}

/// The directory that stands at `created` once `request` has been carried
/// out. A persistent directory keeps the path that was asked for.
pub open spec fn dir_made(request: DirRequestView, created: Seq<char>) -> DataDirView {
    match request {
        DirRequestView::Persistent(path) => DataDirView::Persistent(path),
        _ => DataDirView::Temporary(created),
    }
}

/// Decides where the data directory goes. Fails with
/// [`Error::BothDirsSpecified`] exactly when both roots are set.
pub fn plan_dir(conf: &Conf, env_root: &Option<String>) -> (plan: Result<DirRequest, Error>)
    ensures
        conf@.dirs_conflict() <==> plan is Err,
        plan is Err ==> plan->Err_0 is BothDirsSpecified,
        plan is Ok ==> plan->Ok_0@ == dir_request(conf@, option_text(*env_root)),
{
    DirRequest::plan(&conf.tmpdir, &conf.staticdir, env_root)
}

impl DirRequest {
    /// Decides where the data directory goes, from the two configured roots
    /// and the root that the environment names. Fails with
    /// [`Error::BothDirsSpecified`] exactly when both configured roots are
    /// set.
    pub fn plan(
        tmpdir: &Option<String>,
        staticdir: &Option<String>,
        env_root: &Option<String>,
    ) -> (plan: Result<DirRequest, Error>)
        ensures
            tmpdir is Some && staticdir is Some <==> plan is Err,
            plan is Err ==> plan->Err_0 is BothDirsSpecified,
            plan is Ok ==> plan->Ok_0@ == dir_request_at(
                option_text(*tmpdir),
                option_text(*staticdir),
                option_text(*env_root),
            ),
    {
        match (tmpdir, staticdir) {
            (Some(_), Some(_)) => Err(Error::BothDirsSpecified),
            (Some(root), None) => Ok(DirRequest::TemporaryIn(root.clone())),
            (None, Some(path)) => Ok(DirRequest::Persistent(path.clone())),
            (None, None) => match env_root {
                Some(root) => Ok(DirRequest::TemporaryIn(root.clone())),
                None => Ok(DirRequest::TemporaryDefault),
            },
        }
    }

    /// The directory that stands at `created` once this request has been
    /// carried out.
    pub fn made(&self, created: String) -> (dir: DataDir)
        ensures
            dir@ == dir_made(self@, created@),
    {
        match self {
            DirRequest::Persistent(path) => DataDir::Persistent(path.clone()),
            _ => DataDir::Temporary(created),
        }
    }
}

} // verus!
