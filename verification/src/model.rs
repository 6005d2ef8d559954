//! Plain data types for everything the client fetches from the server:
//! version info, board columns and tasks, prompt/document resources with
//! their revisions, activity entries, and the content-hash triple that the
//! sync engine compares to detect change.

use vstd::prelude::*;

verus! {

/// Server version and project name.
#[derive(Debug, Clone)]
pub struct VersionInfo {
    pub version: String,
    pub project: String,
}

/// Board configuration: the declared columns and the known scopes.
#[derive(Debug, Clone)]
pub struct Config {
    pub columns: Vec<ColumnDef>,
    pub scopes: Vec<String>,
}

/// One configured column.
#[derive(Debug, Clone)]
pub struct ColumnDef {
    pub name: String,
    pub label: String,
    pub color: String,
}

/// The whole board: ordered columns, each with an ordered task list.
#[derive(Debug, Clone)]
pub struct Board {
    pub columns: Vec<Column>,
}

/// One column of the board with its tasks.
#[derive(Debug, Clone)]
pub struct Column {
    pub name: String,
    pub label: String,
    pub color: String,
    pub tasks: Vec<Task>,
}

/// One task card.
#[derive(Debug, Clone)]
pub struct Task {
    pub filename: String,
    pub column: String,
    pub meta: TaskMeta,
    pub body: String,
}

/// Task front matter.  The id is carried as its string form; an empty
/// string means the task has none.
#[derive(Debug, Clone)]
pub struct TaskMeta {
    pub id: String,
    pub title: String,
    pub assignee: String,
    pub scopes: ScopesOrString,
    pub created: String,
    pub due: String,
    pub branch: String,
    pub completed: String,
}

/// Scopes can arrive either as a list of strings or as a single string.
#[derive(Debug, Clone)]
pub enum ScopesOrString {
    List(Vec<String>),
    Single(String),
    Empty,
}

/// One comment on a task.
#[derive(Debug, Clone)]
pub struct Comment {
    pub filename: String,
    pub meta: CommentMeta,
    pub body: String,
}

/// Comment front matter.
#[derive(Debug, Clone)]
pub struct CommentMeta {
    pub author: String,
    pub created: String,
}

/// One prompt or document resource.
#[derive(Debug, Clone)]
pub struct Resource {
    pub dir_name: String,
    pub meta: ResourceMeta,
    pub body: String,
}

/// Resource front matter.  The id is carried as its string form.
#[derive(Debug, Clone)]
pub struct ResourceMeta {
    pub id: String,
    pub title: String,
    pub created: String,
    pub updated: String,
    pub revision: Option<i64>,
    pub scopes: ScopesOrString,
}

/// One historical revision of a resource.
#[derive(Debug, Clone)]
pub struct Revision {
    pub filename: String,
    pub meta: RevisionMeta,
    pub body: String,
}

/// Revision front matter.
#[derive(Debug, Clone)]
pub struct RevisionMeta {
    pub revision: Option<i64>,
    pub created: String,
}

/// One activity-feed entry.
#[derive(Debug, Clone)]
pub struct ActivityEntry {
    pub entry_type: String,
    pub title: String,
    pub id: String,
    pub column: Option<String>,
    pub filename: Option<String>,
    pub dir_name: Option<String>,
    pub revision: Option<i64>,
}

/// The three opaque content fingerprints (board, prompts, documents) that
/// the server publishes over its event stream.  They are compared, never
/// interpreted.
#[derive(Debug, Clone)]
pub struct PollHashes {
    pub board: String,
    pub prompts: String,
    pub documents: String,
}

/// Two scope values hold the same scopes.  Spec equality of the bare
/// values would also compare the list's allocation, which a copy does not
/// share; contracts therefore compare at this level.
pub open spec fn scopes_eqv(a: ScopesOrString, b: ScopesOrString) -> bool {
    match (a, b) {
        (ScopesOrString::List(x), ScopesOrString::List(y)) => x@ == y@,
        (ScopesOrString::Single(x), ScopesOrString::Single(y)) => x == y,
        (ScopesOrString::Empty, ScopesOrString::Empty) => true,
        _ => false,
    }
}

/// Two task metadata values agree on every field.
pub open spec fn task_meta_eqv(a: TaskMeta, b: TaskMeta) -> bool {
    &&& a.id == b.id
    &&& a.title == b.title
    &&& a.assignee == b.assignee
    &&& scopes_eqv(a.scopes, b.scopes)
    &&& a.created == b.created
    &&& a.due == b.due
    &&& a.branch == b.branch
    &&& a.completed == b.completed
}

/// Two tasks agree on every field.
pub open spec fn task_eqv(a: Task, b: Task) -> bool {
    &&& a.filename == b.filename
    &&& a.column == b.column
    &&& task_meta_eqv(a.meta, b.meta)
    &&& a.body == b.body
}

/// Two resource metadata values agree on every field.
pub open spec fn resource_meta_eqv(a: ResourceMeta, b: ResourceMeta) -> bool {
    &&& a.id == b.id
    &&& a.title == b.title
    &&& a.created == b.created
    &&& a.updated == b.updated
    &&& a.revision == b.revision
    &&& scopes_eqv(a.scopes, b.scopes)
}

/// Two resources agree on every field.
pub open spec fn resource_eqv(a: Resource, b: Resource) -> bool {
    &&& a.dir_name == b.dir_name
    &&& resource_meta_eqv(a.meta, b.meta)
    &&& a.body == b.body
}

/// A copy of a string vector, known element for element to equal the
/// original.
pub fn copy_strings(v: &Vec<String>) -> (r: Vec<String>)
    ensures r@ == v@,
{
    let mut out: Vec<String> = Vec::new();
    let mut i: usize = 0;
    while i < v.len()
        invariant
            i <= v.len(),
            out@ == v@.take(i as int),
        decreases v.len() - i,
    {
        out.push(v[i].clone());
        proof {
            assert(out@ =~= v@.take(i as int + 1));
        }
        i = i + 1;
    }
    proof {
        assert(v@.take(v@.len() as int) =~= v@);
    }
    out
}

impl ScopesOrString {
    /// A copy holding the same scopes.
    pub fn duplicate(&self) -> (r: Self)
        ensures scopes_eqv(r, *self),
    {
        match self {
            ScopesOrString::List(v) => ScopesOrString::List(copy_strings(v)),
            ScopesOrString::Single(s) => ScopesOrString::Single(s.clone()),
            ScopesOrString::Empty => ScopesOrString::Empty,
        }
    }
}

impl TaskMeta {
    /// A copy agreeing on every field.
    pub fn duplicate(&self) -> (r: Self)
        ensures task_meta_eqv(r, *self),
    {
        TaskMeta {
            id: self.id.clone(),
            title: self.title.clone(),
            assignee: self.assignee.clone(),
            scopes: self.scopes.duplicate(),
            created: self.created.clone(),
            due: self.due.clone(),
            branch: self.branch.clone(),
            completed: self.completed.clone(),
        }
    }
}

impl Task {
    /// A copy agreeing on every field.
    pub fn duplicate(&self) -> (r: Self)
        ensures task_eqv(r, *self),
    {
        Task {
            filename: self.filename.clone(),
            column: self.column.clone(),
            meta: self.meta.duplicate(),
            body: self.body.clone(),
        }
    }
}

impl ResourceMeta {
    /// A copy agreeing on every field.
    pub fn duplicate(&self) -> (r: Self)
        ensures resource_meta_eqv(r, *self),
    {
        ResourceMeta {
            id: self.id.clone(),
            title: self.title.clone(),
            created: self.created.clone(),
            updated: self.updated.clone(),
            revision: self.revision,
            scopes: self.scopes.duplicate(),
        }
    }
}

impl Resource {
    /// A copy agreeing on every field.
    pub fn duplicate(&self) -> (r: Self)
        ensures resource_eqv(r, *self),
    {
        Resource {
            dir_name: self.dir_name.clone(),
            meta: self.meta.duplicate(),
            body: self.body.clone(),
        }
    }
}

impl PollHashes {
    /// An exact copy.
    pub fn duplicate(&self) -> (r: Self)
        ensures r == *self,
    {
        PollHashes {
            board: self.board.clone(),
            prompts: self.prompts.clone(),
            documents: self.documents.clone(),
        }
    }
}

impl ScopesOrString {
    /// The scopes as a flat list: a `List` as it stands, a non-empty
    /// `Single` as a one-element list, anything else as no scopes.
    pub fn as_vec(&self) -> (r: Vec<&str>)
        ensures
            match self {
                ScopesOrString::List(v) => r@.len() == v@.len()
                    && (forall|i: int| 0 <= i < v@.len() ==> r@[i]@ == v@[i]@),
                ScopesOrString::Single(s) => if s@.len() > 0 {
                    r@.len() == 1 && r@[0]@ == s@
                } else {
                    r@.len() == 0
                },
                ScopesOrString::Empty => r@.len() == 0,
            },
    {
        match self {
            ScopesOrString::List(v) => {
                let mut out: Vec<&str> = Vec::new();
                let mut i: usize = 0;
                while i < v.len()
                    invariant
                        i <= v.len(),
                        out@.len() == i,
                        forall|j: int| 0 <= j < i ==> out@[j]@ == v@[j]@,
                    decreases v.len() - i,
                {
                    out.push(v[i].as_str());
                    i = i + 1;
                }
                out
            }
            ScopesOrString::Single(s) => {
                let mut out: Vec<&str> = Vec::new();
                if !s.as_str().is_empty() {
                    out.push(s.as_str());
                }
                out
            }
            ScopesOrString::Empty => Vec::new(),
        }
    }
}

} // verus!
