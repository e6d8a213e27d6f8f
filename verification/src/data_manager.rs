//! The records of a localized story, and where localized data lies on disk.

use std::path::PathBuf;
use vstd::prelude::*;

verus! {

/// A run of text in one colour.
#[derive(Debug, Clone, PartialEq, Eq)]
pub struct ColorText {
    pub text: String,
}

/// One choice that a block offers.
#[derive(Debug, Clone, PartialEq, Eq)]
pub struct StoryChoice {
    pub text: String,
    pub next_block: i32,
    pub difference_flag: i32,
}

/// One block of a story.
#[derive(Debug, Clone, PartialEq, Eq)]
pub struct StoryBlock {
    pub name: String,
    pub text: String,
    pub next_block: i32,
    pub difference_flag: i32,
    pub cue_id: i32,
    pub choices: Vec<StoryChoice>,
    pub color_texts: Vec<ColorText>,
}

/// A localized story.
#[derive(Debug, Clone, PartialEq, Eq)]
pub struct StoryData {
    pub title: String,
    pub block_list: Vec<StoryBlock>,
}

/// A path of the file system, as the standard library holds it. Nothing is
/// known of what is inside one.
#[verifier::external_type_specification]
#[verifier::external_body]
pub struct ExPathBuf(PathBuf);

/// The path `base` extended by `segment`: what `PathBuf::push` makes of the
/// two on the platform that the library is built for.
pub uninterp spec fn pushed(base: PathBuf, segment: Seq<char>) -> PathBuf;

/// Extends `path` by `segment`.
///
/// Trusted: this is `PathBuf::push` of the standard library. What it makes
/// of a path and a segment depends on the platform's rules for separators
/// and absolute paths, and on nothing else. The contract only gives the new
/// path its name, [`pushed`].
#[verifier::external_body]
fn push_segment(path: &mut PathBuf, segment: &str)
    ensures
        *final(path) == pushed(*old(path), segment@),
{
    path.push(segment);
}

/// Copies a path.
///
/// Trusted: this is `Clone::clone` of `PathBuf`, whose result is a path
/// equal to the one it was made from.
#[verifier::external_body]
fn clone_path(path: &PathBuf) -> (copy: PathBuf)
    ensures
        copy == *path,
{
    path.clone()
}

/// The path `base` extended by the first `count` of `segments`, one after
/// the other.
pub open spec fn joined(base: PathBuf, segments: Seq<&str>, count: nat) -> PathBuf
    decreases count,
{
    if count == 0 {
        base
    } else {
        pushed(joined(base, segments, (count - 1) as nat), segments[count - 1]@)
    }
}

/// Knows where the localized data lies, once it has been told.
pub struct DataManager {
    localized_data_dir: Option<PathBuf>,
}

impl DataManager {
    /// The directory of the localized data, if one is set.
    pub closed spec fn root(&self) -> Option<PathBuf> {
        self.localized_data_dir
    }

    /// A manager that has not been told a directory yet.
    pub fn new() -> (manager: Self)
        ensures
            manager.root() is None,
    {
        DataManager { localized_data_dir: None }
    }

    /// Sets the directory of the localized data.
    pub fn set_localized_data_dir(&mut self, dir: PathBuf)
        ensures
            final(self).root() == Some(dir),
    {
        self.localized_data_dir = Some(dir);
    }

    /// The directory of the localized data, if one is set.
    pub fn localized_data_dir(&self) -> (dir: Option<&PathBuf>)
        ensures
            match dir {
                Some(d) => self.root() == Some(*d),
                None => self.root() is None,
            },
    {
        self.localized_data_dir.as_ref()
    }

    /// The path that `segments` lead to below the directory of the
    /// localized data: the directory extended by each segment in turn. There
    /// is none while no directory is set.
    pub fn get_path(&self, segments: &[&str]) -> (path: Option<PathBuf>)
        ensures
            match self.root() {
                Some(root) => path == Some(joined(root, segments@, segments@.len())),
                None => path is None,
            },
    {
        match &self.localized_data_dir {
            None => None,
            Some(root) => {
                let mut path = clone_path(root);
                let mut i: usize = 0;
                while i < segments.len()
                    invariant
                        i <= segments.len(),
                        path == joined(*root, segments@, i as nat),
                    decreases segments.len() - i,
                {
                    push_segment(&mut path, segments[i]);
                    i += 1;
                }
                Some(path)
            },
        }
    }
}

impl Default for DataManager {
    fn default() -> (manager: Self)
        ensures
            manager.root() is None,
    {
        DataManager::new()
    }
}

} // verus!
