//! Target selection: which windows a run applies to.

use crate::size::{Extent, Size};
use crate::text::{
    contains, contains_ignore_case, ends_with, ends_with_ignore_case, lowercase, lowercase_chars,
};
use vstd::prelude::*;

verus! {

/// The selection criteria as mathematical values.
pub struct TargetCriteria {
    /// Suffixes of the executable path of the owning process; any one of them
    /// selects. None at all means that the path is not looked at.
    pub path_endswith: Seq<Seq<char>>,
    /// Substrings of the window title; any one of them selects. None at all
    /// means that the title is not looked at.
    pub title_contains: Seq<Seq<char>>,
    /// Added to a requested size, and taken off a reported one.
    pub offset: Extent,
}

impl TargetCriteria {
    /// Whether windows are filtered by their title.
    pub open spec fn filters_by_title(self) -> bool {
        self.title_contains.len() > 0
    }

    /// Whether windows are filtered by the path of their process.
    pub open spec fn filters_by_path(self) -> bool {
        self.path_endswith.len() > 0
    }

    /// Whether some configured substring occurs in `title`, both taken in
    /// lower case.
    pub open spec fn title_selected(self, title: Seq<char>) -> bool {
        exists|i: int|
            0 <= i < self.title_contains.len() && contains_ignore_case(
                title,
                #[trigger] self.title_contains[i],
            )
    }

    /// Whether `path` ends with some configured suffix, both taken in lower
    /// case.
    pub open spec fn path_selected(self, path: Seq<char>) -> bool {
        exists|i: int|
            0 <= i < self.path_endswith.len() && ends_with_ignore_case(
                path,
                #[trigger] self.path_endswith[i],
            )
    }

    /// The title axis: passes when titles are not filtered; else the title
    /// must be known and selected. `None` stands for a title that could not
    /// be read.
    pub open spec fn title_passes(self, title: Option<Seq<char>>) -> bool {
        !self.filters_by_title() || (title matches Some(t) && self.title_selected(t))
    }

    /// The path axis: passes when paths are not filtered; else the path must
    /// be known and selected. `None` stands for a path that could not be
    /// resolved.
    pub open spec fn path_passes(self, path: Option<Seq<char>>) -> bool {
        !self.filters_by_path() || (path matches Some(p) && self.path_selected(p))
    }

    /// A window is a target when both axes pass.
    pub open spec fn admits(self, title: Option<Seq<char>>, path: Option<Seq<char>>) -> bool {
        self.title_passes(title) && self.path_passes(path)
    }
}

/// One configured substring that occurs in the title is enough for the title
/// axis, and where titles are filtered and none occurs, no window with that
/// title is a target, whatever its path.
pub proof fn lemma_title_axis(q: TargetCriteria, title: Seq<char>)
    ensures
        forall|i: int|
            0 <= i < q.title_contains.len() && contains_ignore_case(
                title,
                #[trigger] q.title_contains[i],
            ) ==> q.title_passes(Some(title)),
        q.filters_by_title() && (forall|i: int|
            0 <= i < q.title_contains.len() ==> !contains_ignore_case(
                title,
                #[trigger] q.title_contains[i],
            )) ==> forall|path: Option<Seq<char>>| !#[trigger] q.admits(Some(title), path),
{
}

/// One configured suffix that the path ends with is enough for the path
/// axis, and where paths are filtered and the path ends with none, no window
/// with that path is a target, whatever its title.
pub proof fn lemma_path_axis(q: TargetCriteria, path: Seq<char>)
    ensures
        forall|i: int|
            0 <= i < q.path_endswith.len() && ends_with_ignore_case(
                path,
                #[trigger] q.path_endswith[i],
            ) ==> q.path_passes(Some(path)),
        q.filters_by_path() && (forall|i: int|
            0 <= i < q.path_endswith.len() ==> !ends_with_ignore_case(
                path,
                #[trigger] q.path_endswith[i],
            )) ==> forall|title: Option<Seq<char>>| !#[trigger] q.admits(title, Some(path)),
{
}

/// Selection ignores the case of ASCII letters: texts that are equal in
/// lower case are selected alike.
pub proof fn lemma_selection_ignores_case(q: TargetCriteria, a: Seq<char>, b: Seq<char>)
    requires
        lowercase(a) == lowercase(b),
    ensures
        q.title_selected(a) == q.title_selected(b),
        q.path_selected(a) == q.path_selected(b),
        forall|other: Option<Seq<char>>|
            #![trigger q.admits(Some(a), other)]
            #![trigger q.admits(Some(b), other)]
            q.admits(Some(a), other) == q.admits(Some(b), other),
        forall|other: Option<Seq<char>>|
            #![trigger q.admits(other, Some(a))]
            #![trigger q.admits(other, Some(b))]
            q.admits(other, Some(a)) == q.admits(other, Some(b)),
{
}

/// What is known of a text that may have failed to be read.
pub open spec fn known_text(text: Option<&str>) -> Option<Seq<char>> {
    match text {
        Some(s) => Some(s@),
        None => None,
    }
}

/// The texts of a list of strings.
pub open spec fn texts(list: Seq<String>) -> Seq<Seq<char>> {
    Seq::new(list.len(), |i: int| list[i]@)
}

/// The selection criteria of a run.
#[derive(Debug, Clone)]
pub struct TargetInformation {
    pub path_endswith: Vec<String>,
    pub title_contains: Vec<String>,
    pub offset: Size,
}

impl View for TargetInformation {
    type V = TargetCriteria;

    open spec fn view(&self) -> TargetCriteria {
        TargetCriteria {
            path_endswith: texts(self.path_endswith@),
            title_contains: texts(self.title_contains@),
            offset: self.offset@,
        }
    }
}

impl TargetInformation {
    /// Whether windows are filtered by their title.
    pub fn filters_by_title(&self) -> (b: bool)
        ensures
            b == self@.filters_by_title(),
    {
        self.title_contains.len() > 0
    }

    /// Whether windows are filtered by the path of their process.
    pub fn filters_by_path(&self) -> (b: bool)
        ensures
            b == self@.filters_by_path(),
    {
        self.path_endswith.len() > 0
    }

    /// Whether some configured substring occurs in `title`, ignoring ASCII
    /// case.
    pub fn title_selected(&self, title: &str) -> (b: bool)
        ensures
            b == self@.title_selected(title@),
    {
        let hay = lowercase_chars(title);
        let mut i: usize = 0;
        while i < self.title_contains.len()
            invariant
                i <= self.title_contains.len(),
                hay@ == lowercase(title@),
                forall|j: int|
                    0 <= j < i ==> !contains_ignore_case(
                        title@,
                        #[trigger] self@.title_contains[j],
                    ),
            decreases self.title_contains.len() - i,
        {
            let needle = lowercase_chars(self.title_contains[i].as_str());
            assert(self@.title_contains[i as int] == self.title_contains@[i as int]@);
            if contains(&hay, &needle) {
                return true;
            }
            i += 1;
        }
        false
    }

    /// Whether `path` ends with some configured suffix, ignoring ASCII case.
    pub fn path_selected(&self, path: &str) -> (b: bool)
        ensures
            b == self@.path_selected(path@),
    {
        let hay = lowercase_chars(path);
        let mut i: usize = 0;
        while i < self.path_endswith.len()
            invariant
                i <= self.path_endswith.len(),
                hay@ == lowercase(path@),
                forall|j: int|
                    0 <= j < i ==> !ends_with_ignore_case(
                        path@,
                        #[trigger] self@.path_endswith[j],
                    ),
            decreases self.path_endswith.len() - i,
        {
            let needle = lowercase_chars(self.path_endswith[i].as_str());
            assert(self@.path_endswith[i as int] == self.path_endswith@[i as int]@);
            if ends_with(&hay, &needle) {
                return true;
            }
            i += 1;
        }
        false
    }

    /// The title axis of the filter. `None` is a title that could not be
    /// read.
    pub fn title_passes(&self, title: Option<&str>) -> (b: bool)
        ensures
            b == self@.title_passes(known_text(title)),
    {
        if !self.filters_by_title() {
            return true;
        }
        match title {
            Some(t) => self.title_selected(t),
            None => false,
        }
    }

    /// The path axis of the filter. `None` is a path that could not be
    /// resolved.
    pub fn path_passes(&self, path: Option<&str>) -> (b: bool)
        ensures
            b == self@.path_passes(known_text(path)),
    {
        if !self.filters_by_path() {
            return true;
        }
        match path {
            Some(p) => self.path_selected(p),
            None => false,
        }
    }
}

/// Whether a window with the given title and executable path is a target.
/// `None` stands for a text that could not be obtained; it fails its axis
/// unless that axis is not filtered at all.
pub fn filter_target_windows(title: Option<&str>, path: Option<&str>, q: &TargetInformation) -> (b:
    bool)
    ensures
        b == q@.admits(known_text(title), known_text(path)),
{
    q.title_passes(title) && q.path_passes(path)
}

} // verus!
