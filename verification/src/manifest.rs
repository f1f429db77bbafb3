//! The crawl-automation manifest: named projects with their seed URLs.
//! Loading the manifest file from disk is I/O and stays outside the library;
//! the lookup logic lives here.
use vstd::prelude::*;
use crate::textutil::str_eq;

verus! {

/// One project of the manifest.
#[derive(Debug, PartialEq, Eq)]
pub struct ProjectSpec {
    pub id: String,
    pub seed_urls: Vec<String>,
}

/// The parsed manifest file.
#[derive(Debug, PartialEq, Eq)]
pub struct ManifestSpec {
    pub projects: Vec<ProjectSpec>,
}

/// A loaded manifest together with the path it came from.
#[derive(Debug, PartialEq, Eq)]
pub struct ManifestContext {
    pub manifest: ManifestSpec,
    pub file_path: String,
}

/// The first project with the given id, if any.
pub open spec fn spec_find_project(projects: Seq<ProjectSpec>, id: Seq<char>) -> Option<ProjectSpec>
    decreases projects.len(),
{
    if projects.len() == 0 {
        None
    } else if projects[0].id@ == id {
        Some(projects[0])
    } else {
        spec_find_project(projects.drop_first(), id)
    }
}

proof fn lemma_find_project_skip(projects: Seq<ProjectSpec>, id: Seq<char>, i: int)
    requires
        0 <= i <= projects.len(),
        forall|j: int| 0 <= j < i ==> (#[trigger] projects[j]).id@ != id,
    ensures
        spec_find_project(projects, id) == spec_find_project(projects.skip(i), id),
    decreases i,
{
    if i > 0 {
        assert(projects.skip(i - 1).drop_first() =~= projects.skip(i));
        lemma_find_project_skip(projects, id, i - 1);
        assert(projects.skip(i - 1)[0] == projects[i - 1]);
    } else {
        assert(projects.skip(0) =~= projects);
    }
}

impl ManifestContext {
    /// Wraps an already-parsed manifest with the path it was read from.
    pub fn new(manifest: ManifestSpec, file_path: String) -> (r: Self)
        ensures
            r.manifest == manifest,
            r.file_path == file_path,
    {
        ManifestContext { manifest, file_path }
    }

    /// The manifest contents.
    pub fn manifest(&self) -> (r: &ManifestSpec)
        ensures
            r == self.manifest,
    {
        &self.manifest
    }

    /// The first project with the given id.
    pub fn get_project(&self, id: &str) -> (r: Option<&ProjectSpec>)
        ensures
            match r {
                Some(p) => spec_find_project(self.manifest.projects@, id@) == Some(*p),
                None => spec_find_project(self.manifest.projects@, id@) is None,
            },
    {
        let projects = &self.manifest.projects;
        let n = projects.len();
        let mut i: usize = 0;
        while i < n
            invariant
                i <= n,
                n == projects@.len(),
                forall|j: int| 0 <= j < i ==> (#[trigger] projects@[j]).id@ != id@,
            decreases n - i,
        {
            if str_eq(projects[i].id.as_str(), id) {
                proof {
                    lemma_find_project_skip(projects@, id@, i as int);
                    assert(projects@.skip(i as int)[0] == projects@[i as int]);
                }
                return Some(&projects[i]);
            }
            i = i + 1;
        }
        proof {
            lemma_find_project_skip(projects@, id@, n as int);
            assert(projects@.skip(n as int) =~= Seq::<ProjectSpec>::empty());
        }
        None
    }
}

} // verus!
