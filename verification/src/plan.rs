//! From the two inputs of a run, the executable's path and what git printed,
//! to the link that the run creates.

use crate::error::{Ancestor, LinkError, LinkErrorView};
use crate::paths::{join, parent_of, path_join, path_parent};
use crate::text::{from_utf8, trim, trimmed};
use vstd::prelude::*;
use vstd::utf8::{decode_utf8, valid_utf8};

verus! {

/// The name of the link under the base directory.
pub const LINK_NAME: &'static str = "libexec";

/// The two directories above the running executable.
#[derive(Clone, Debug, PartialEq, Eq)]
pub struct InstallDirs {
    /// The parent of the executable's path.
    pub binary_dir: String,
    /// The parent of the binary directory.
    pub base_dir: String,
}

/// What an `InstallDirs` holds, as mathematical values.
pub struct InstallDirsView {
    pub binary_dir: Seq<char>,
    pub base_dir: Seq<char>,
}

impl View for InstallDirs {
    type V = InstallDirsView;

    open spec fn view(&self) -> InstallDirsView {
        InstallDirsView { binary_dir: self.binary_dir@, base_dir: self.base_dir@ }
    }
}

/// The link that a run creates: where it stands and where it points.
#[derive(Clone, Debug, PartialEq, Eq)]
pub struct LinkPlan {
    /// The path of the link itself.
    pub link: String,
    /// The directory that the link points to.
    pub target: String,
}

/// What a `LinkPlan` holds, as mathematical values.
pub struct LinkPlanView {
    pub link: Seq<char>,
    pub target: Seq<char>,
}

impl View for LinkPlan {
    type V = LinkPlanView;

    open spec fn view(&self) -> LinkPlanView {
        LinkPlanView { link: self.link@, target: self.target@ }
    }
}

/// The view of a result that holds a value with a view on each side.
pub open spec fn result_view<T: View, E: View>(r: Result<T, E>) -> Result<T::V, E::V> {
    match r {
        Ok(value) => Ok(value@),
        Err(error) => Err(error@),
    }
}

/// A parent that was looked up, or the failure that names the directory
/// which is missing.
pub open spec fn needed(parent: Option<Seq<char>>, which: Ancestor) -> Result<
    Seq<char>,
    LinkErrorView,
> {
    match parent {
        Some(directory) => Ok(directory),
        None => Err(LinkErrorView::MissingParent(which)),
    }
}

/// The binary and base directories of an executable: its parent and the
/// parent of that.
pub open spec fn install_dirs_of(executable: Seq<char>) -> Result<InstallDirsView, LinkErrorView> {
    match needed(path_parent(executable), Ancestor::BinaryDirectory) {
        Err(error) => Err(error),
        Ok(binary_dir) => match needed(path_parent(binary_dir), Ancestor::BaseDirectory) {
            Err(error) => Err(error),
            Ok(base_dir) => Ok(InstallDirsView { binary_dir, base_dir }),
        },
    }
}

/// The directory that the link points to, from what git printed: the output
/// is decoded and trimmed, and the parent of that path is taken.
pub open spec fn target_of(output: Seq<u8>) -> Result<Seq<char>, LinkErrorView> {
    if valid_utf8(output) {
        needed(path_parent(trimmed(decode_utf8(output))), Ancestor::LibexecDirectory)
    } else {
        Err(LinkErrorView::Encoding)
    }
}

/// The path of the link: the fixed name under the base directory.
pub open spec fn link_path_of(base_dir: Seq<char>) -> Seq<char> {
    path_join(base_dir, LINK_NAME@)
}

/// The link for a base directory and what git printed.
pub open spec fn plan_of(base_dir: Seq<char>, output: Seq<u8>) -> Result<
    LinkPlanView,
    LinkErrorView,
> {
    match target_of(output) {
        Err(error) => Err(error),
        Ok(target) => Ok(LinkPlanView { link: link_path_of(base_dir), target }),
    }
}

/// The link for an executable's path and what git printed: the whole
/// derivation, with the failures in the order in which a run meets them.
pub open spec fn link_for(executable: Seq<char>, output: Seq<u8>) -> Result<
    LinkPlanView,
    LinkErrorView,
> {
    match install_dirs_of(executable) {
        Err(error) => Err(error),
        Ok(dirs) => plan_of(dirs.base_dir, output),
    }
}

/// Turns a looked-up parent into the directory, or into the failure that
/// names the directory which is missing.
pub fn ancestor(parent: Option<String>, which: Ancestor) -> (r: Result<String, LinkError>)
    ensures
        parent matches Some(directory) ==> r == Ok::<String, LinkError>(directory),
        parent is None ==> r == Err::<String, LinkError>(LinkError::MissingParent(which)),
{
    match parent {
        Some(directory) => Ok(directory),
        None => Err(LinkError::MissingParent(which)),
    }
}

/// Finds the binary directory and the base directory of the running
/// executable. Fails where the executable's path, or the binary directory,
/// has no parent.
pub fn install_dirs(executable: &str) -> (r: Result<InstallDirs, LinkError>)
    ensures
        result_view(r) == install_dirs_of(executable@),
{
    let binary_dir = match ancestor(parent_of(executable), Ancestor::BinaryDirectory) {
        Ok(directory) => directory,
        Err(error) => { return Err(error); },
    };
    let base_dir = match ancestor(parent_of(binary_dir.as_str()), Ancestor::BaseDirectory) {
        Ok(directory) => directory,
        Err(error) => { return Err(error); },
    };
    Ok(InstallDirs { binary_dir, base_dir })
}

/// Finds the directory that the link points to from what git printed.
/// Fails where the output is not valid UTF-8, or where the path it holds
/// has no parent.
pub fn target(output: Vec<u8>) -> (r: Result<String, LinkError>)
    ensures
        result_view(r) == target_of(output@),
{
    let text = match from_utf8(output) {
        Some(text) => text,
        None => { return Err(LinkError::Encoding); },
    };
    let exec_path = trim(text.as_str());
    ancestor(parent_of(exec_path.as_str()), Ancestor::LibexecDirectory)
}

/// The path of the link under a base directory.
pub fn link_path(base_dir: &str) -> (path: String)
    ensures
        path@ == link_path_of(base_dir@),
{
    join(base_dir, LINK_NAME)
}

/// Plans the link for a base directory and what git printed. The target is
/// derived first, so its failures come before anything is joined.
pub fn plan(base_dir: &str, output: Vec<u8>) -> (r: Result<LinkPlan, LinkError>)
    ensures
        result_view(r) == plan_of(base_dir@, output@),
{
    match target(output) {
        Err(error) => Err(error),
        Ok(target) => Ok(LinkPlan { link: link_path(base_dir), target }),
    }
}

} // verus!
