//! Path layout and bookkeeping rules for saved projects: where the store
//! keeps temporary projects, recent-list entries and custom templates, how
//! the recently-opened list is updated, and when an old temporary project
//! expires. The filesystem reads and writes themselves, and the JSON
//! encoding, are performed by the surrounding application against these
//! paths.

use vstd::prelude::*;
use vstd::seq_lib::group_seq_properties;
use vstd::string::StringExecFns;
use crate::models::{CustomTemplate, RecentProject};
use crate::text::{lemma_lex_total, lemma_lex_trans, lex_le, str_eq, str_lex_le};

verus! {

/// Why a project operation failed: an I/O failure, a serialization failure,
/// or a project that does not exist. The carried text is the underlying
/// message.
#[derive(Clone, Debug)]
pub enum ProjectError {
    Io(String),
    Serialization(String),
    NotFound(String),
}

impl ProjectError {
    /// The user-facing message of the error.
    pub fn message(&self) -> (r: String)
        ensures
            match self {
                ProjectError::Io(m) => r@ == "IO error: "@ + m@,
                ProjectError::Serialization(m) => r@ == "Serialization error: "@ + m@,
                ProjectError::NotFound(m) => r@ == "Project not found: "@ + m@,
            },
    {
        match self {
            ProjectError::Io(m) => {
                let mut s = String::from_str("IO error: ");
                s.append(m.as_str());
                s
            },
            ProjectError::Serialization(m) => {
                let mut s = String::from_str("Serialization error: ");
                s.append(m.as_str());
                s
            },
            ProjectError::NotFound(m) => {
                let mut s = String::from_str("Project not found: ");
                s.append(m.as_str());
                s
            },
        }
    }
}

/// The project store: its data directory and the temporary directory below
/// it. All paths the store hands out are derived from the data directory.
pub struct ProjectManager {
    pub data_dir: String,
    pub temp_dir: String,
}

/// The state shared by the application's entry points: the one project
/// store. The application guards it with its own lock.
pub struct AppState {
    pub project_manager: ProjectManager,
}

impl ProjectManager {
    /// The temporary directory sits directly below the data directory.
    pub open spec fn wf(self) -> bool {
        self.temp_dir@ == self.data_dir@ + "/temp"@
    }

    /// A store rooted at the given data directory.
    pub fn new(data_dir: String) -> (r: ProjectManager)
        ensures
            r.wf(),
            r.data_dir == data_dir,
    {
        let mut temp_dir = data_dir.clone();
        temp_dir.append("/temp");
        ProjectManager { data_dir, temp_dir }
    }

    /// The directory of one temporary project.
    pub fn temp_project_dir(&self, id: &str) -> (r: String)
        ensures
            r@ == self.temp_dir@ + "/"@ + id@,
    {
        let mut s = self.temp_dir.clone();
        s.append("/");
        s.append(id);
        s
    }

    /// The metadata file of one temporary project.
    pub fn meta_path(&self, id: &str) -> (r: String)
        ensures
            r@ == self.temp_dir@ + "/"@ + id@ + "/meta.json"@,
    {
        let mut s = self.temp_project_dir(id);
        s.append("/meta.json");
        s
    }

    /// The directory of saved projects.
    pub fn projects_dir(&self) -> (r: String)
        ensures
            r@ == self.data_dir@ + "/projects"@,
    {
        let mut s = self.data_dir.clone();
        s.append("/projects");
        s
    }

    /// The file holding the recently-opened list.
    pub fn recent_path(&self) -> (r: String)
        ensures
            r@ == self.data_dir@ + "/recent.json"@,
    {
        let mut s = self.data_dir.clone();
        s.append("/recent.json");
        s
    }

    /// The directory of custom templates.
    pub fn templates_dir(&self) -> (r: String)
        ensures
            r@ == self.data_dir@ + "/templates"@,
    {
        let mut s = self.data_dir.clone();
        s.append("/templates");
        s
    }

    /// The file of one custom template.
    pub fn template_path(&self, id: &str) -> (r: String)
        ensures
            r@ == self.data_dir@ + "/templates"@ + "/"@ + id@ + ".json"@,
    {
        let mut s = self.templates_dir();
        s.append("/");
        s.append(id);
        s.append(".json");
        s
    }
}

/// How many entries the recently-opened list keeps.
pub const RECENT_LIMIT: usize = 10;

/// The recently-opened list after recording one project: any earlier entry
/// with the same id is dropped, the project moves to the front, and only the
/// newest entries up to the limit are kept.
pub open spec fn spec_updated_recent(
    recent: Seq<RecentProject>,
    p: RecentProject,
) -> Seq<RecentProject> {
    let all = seq![p] + recent.filter(|q: RecentProject| q.id@ != p.id@);
    if all.len() <= RECENT_LIMIT as int {
        all
    } else {
        all.take(RECENT_LIMIT as int)
    }
}

/// Records a project in the recently-opened list: removes any entry with the
/// same id, puts the project first, and keeps at most the limit.
pub fn updated_recent_list(recent: Vec<RecentProject>, project: RecentProject) -> (r: Vec<
    RecentProject,
>)
    ensures
        r@ == spec_updated_recent(recent@, project),
        r@.len() <= RECENT_LIMIT,
        r@.len() >= 1,
        r@[0] == project,
{
    broadcast use group_seq_properties;

    let ghost orig = recent@;
    let ghost p = project;
    let ghost pred = |q: RecentProject| q.id@ != p.id@;
    let pid = project.id.clone();
    let mut out: Vec<RecentProject> = Vec::new();
    out.push(project);
    proof {
        reveal(Seq::filter);
        assert(orig.take(0) =~= Seq::<RecentProject>::empty());
        assert(out@ =~= seq![p] + orig.take(0).filter(pred));
    }
    let mut rest = recent;
    let total = rest.len();
    let mut i: usize = 0;
    while i < total
        invariant
            total == orig.len(),
            i <= total,
            rest@ == orig.skip(i as int),
            pred == (|q: RecentProject| q.id@ != p.id@),
            out@ == seq![p] + orig.take(i as int).filter(pred),
            out@.len() >= 1,
            out@[0] == p,
            pid@ == p.id@,
        decreases total - i,
    {
        let q = rest.remove(0);
        proof {
            assert(orig.skip(i as int)[0] == orig[i as int]);
            assert(orig.skip(i as int).remove(0) =~= orig.skip(i + 1));
        }
        let keep = !str_eq(q.id.as_str(), pid.as_str());
        proof {
            reveal(Seq::filter);
            assert(orig.take(i + 1) =~= orig.take(i as int) + seq![orig[i as int]]);
            Seq::filter_distributes_over_add(orig.take(i as int), seq![orig[i as int]], pred);
            let single = seq![orig[i as int]];
            assert(single.drop_last() =~= Seq::<RecentProject>::empty());
            assert(Seq::<RecentProject>::empty().filter(pred) =~= Seq::<RecentProject>::empty());
            assert(single.last() == orig[i as int]);
            assert(single.filter(pred) == if pred(orig[i as int]) {
                Seq::<RecentProject>::empty().push(orig[i as int])
            } else {
                Seq::<RecentProject>::empty()
            });
            assert(Seq::<RecentProject>::empty().push(orig[i as int]) =~= single);
        }
        if keep {
            out.push(q);
            proof {
                assert(out@ =~= seq![p] + orig.take(i + 1).filter(pred));
            }
        } else {
            proof {
                assert(out@ =~= seq![p] + orig.take(i + 1).filter(pred));
            }
        }
        i += 1;
    }
    proof {
        assert(orig.take(total as int) =~= orig);
    }
    out.truncate(RECENT_LIMIT);
    proof {
        if (seq![p] + orig.filter(pred)).len() > RECENT_LIMIT as int {
            assert(out@ =~= spec_updated_recent(orig, p));
        } else {
            assert(out@ =~= spec_updated_recent(orig, p));
        }
    }
    out
}

/// Custom templates ordered newest first by creation date.
pub open spec fn templates_newest_first(s: Seq<CustomTemplate>) -> bool {
    forall|i: int, j: int|
        0 <= i < j < s.len() ==> lex_le(#[trigger] s[j].created_at@, #[trigger] s[i].created_at@)
}

/// Orders custom templates newest first by their creation date, keeping
/// exactly the given templates.
pub fn sort_templates_newest_first(templates: Vec<CustomTemplate>) -> (r: Vec<CustomTemplate>)
    ensures
        templates_newest_first(r@),
        r@.to_multiset() == templates@.to_multiset(),
{
    broadcast use group_seq_properties;

    let ghost orig = templates@;
    let mut out: Vec<CustomTemplate> = Vec::new();
    let mut rest = templates;
    let total = rest.len();
    let mut i: usize = 0;
    proof {
        assert(orig.take(0) =~= Seq::<CustomTemplate>::empty());
        assert(out@ =~= orig.take(0));
    }
    while i < total
        invariant
            total == orig.len(),
            i <= total,
            rest@ == orig.skip(i as int),
            out@.to_multiset() == orig.take(i as int).to_multiset(),
            templates_newest_first(out@),
        decreases total - i,
    {
        let x = rest.remove(0);
        proof {
            assert(orig.skip(i as int)[0] == orig[i as int]);
            assert(orig.skip(i as int).remove(0) =~= orig.skip(i + 1));
        }
        let ghost before = out@;
        let mut pos: usize = 0;
        while pos < out.len() && !str_lex_le(out[pos].created_at.as_str(), x.created_at.as_str())
            invariant
                pos <= out@.len(),
                forall|k: int|
                    0 <= k < pos ==> !lex_le(#[trigger] out@[k].created_at@, x.created_at@),
            decreases out@.len() - pos,
        {
            pos += 1;
        }
        proof {
            before.insert_ensures(pos as int, x);
            assert forall|k: int| 0 <= k < pos implies lex_le(
                x.created_at@,
                #[trigger] before[k].created_at@,
            ) by {
                lemma_lex_total(before[k].created_at@, x.created_at@);
            }
        }
        out.insert(pos, x);
        proof {
            let cur = out@;
            assert forall|a: int, b: int| 0 <= a < b < cur.len() implies lex_le(
                #[trigger] cur[b].created_at@,
                #[trigger] cur[a].created_at@,
            ) by {
                if b < pos {
                } else if a < pos && b == pos {
                } else if a == pos && b > pos {
                    if pos < before.len() {
                        assert(lex_le(before[pos as int].created_at@, x.created_at@));
                        if b - 1 > pos {
                            assert(lex_le(
                                before[b - 1].created_at@,
                                before[pos as int].created_at@,
                            ));
                            lemma_lex_trans(
                                before[b - 1].created_at@,
                                before[pos as int].created_at@,
                                x.created_at@,
                            );
                        }
                    }
                    assert(cur[b] == before[b - 1]);
                } else if a < pos && b > pos {
                    assert(cur[a] == before[a] && cur[b] == before[b - 1]);
                } else {
                    assert(cur[a] == before[a - 1] && cur[b] == before[b - 1]);
                }
            }
            assert(orig.take(i + 1) =~= orig.take(i as int).push(orig[i as int]));
            vstd::seq_lib::to_multiset_insert(before, pos as int, x);
            vstd::seq_lib::to_multiset_build(orig.take(i as int), orig[i as int]);
            assert(cur.to_multiset() == orig.take(i + 1).to_multiset());
        }
        i += 1;
    }
    proof {
        assert(orig.take(total as int) =~= orig);
    }
    out
}

/// Whether a temporary project older than the given limit has expired: its
/// age exceeds the limit expressed in seconds.
pub fn temp_project_expired(age_secs: u64, max_age_days: u64) -> (r: bool)
    requires
        max_age_days * 86400 <= u64::MAX,
    ensures
        r == (age_secs > max_age_days * 86400),
{
    age_secs > max_age_days * 86400
}

} // verus!
