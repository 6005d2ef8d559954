//! UI-visible application state: the active view, focus, overlay, fetched
//! data and navigation indices, together with the clamping rules that keep
//! every index in bounds whenever a collection is replaced.

use vstd::prelude::*;
use vstd::view::View as _;

use crate::model::{ActivityEntry, Board, Column, Comment, Config, PollHashes, Resource, Revision,
    Task, VersionInfo};

verus! {

/// The four top-level views, cyclically ordered for tab navigation.
#[derive(Debug, Clone, Copy, PartialEq, Eq, Structural)]
pub enum View {
    Board,
    Prompts,
    Documents,
    Activity,
}

/// Whether a detail overlay shows a prompt or a document.
#[derive(Debug, Clone, Copy, PartialEq, Eq, Structural)]
pub enum ResourceType {
    Prompt,
    Document,
}

/// Connectivity as last reported by the sync engine.
#[derive(Debug, Clone, Copy, PartialEq, Eq, Structural)]
pub enum ConnectionState {
    Connected,
    Disconnected,
    Connecting,
}

/// Which key set is active: the tab bar or the view content.
#[derive(Debug, Clone, Copy, PartialEq, Eq, Structural)]
pub enum Focus {
    TabBar,
    Content,
}

/// A modal detail view layered above the main view; at most one is open,
/// and while one is open it captures all input.
#[derive(Debug, Clone)]
pub enum Overlay {
    TaskDetail { task: Task, comments: Vec<Comment>, scroll: usize },
    ResourceDetail {
        resource: Resource,
        revisions: Vec<Revision>,
        /// `None` shows the current version; `Some(i)` indexes `revisions`
        /// (ordered oldest to newest).
        current_rev: Option<usize>,
        scroll: usize,
        resource_type: ResourceType,
    },
    Help { scroll: usize },
}

impl View {
    /// Display name of the view.
    pub fn label(self) -> (r: &'static str)
        ensures r@ == self.label_spec(),
    {
        match self {
            View::Board => "Board",
            View::Prompts => "Prompts",
            View::Documents => "Documents",
            View::Activity => "Activity",
        }
    }

    pub open spec fn label_spec(self) -> Seq<char> {
        match self {
            View::Board => "Board"@,
            View::Prompts => "Prompts"@,
            View::Documents => "Documents"@,
            View::Activity => "Activity"@,
        }
    }

    /// Position of the view in the tab order.
    pub open spec fn idx(self) -> int {
        match self {
            View::Board => 0,
            View::Prompts => 1,
            View::Documents => 2,
            View::Activity => 3,
        }
    }

    /// The view at a tab position; out-of-range positions fall back to the
    /// board.
    pub open spec fn of_idx(i: int) -> View {
        if i == 1 { View::Prompts }
        else if i == 2 { View::Documents }
        else if i == 3 { View::Activity }
        else { View::Board }
    }

    pub fn index(self) -> (r: usize)
        ensures r == self.idx(),
    {
        match self {
            View::Board => 0,
            View::Prompts => 1,
            View::Documents => 2,
            View::Activity => 3,
        }
    }

    pub fn from_index(i: usize) -> (r: Self)
        ensures r == Self::of_idx(i as int),
    {
        match i {
            0 => View::Board,
            1 => View::Prompts,
            2 => View::Documents,
            3 => View::Activity,
            _ => View::Board,
        }
    }

    /// The next view in cyclic tab order.
    pub fn next(self) -> (r: Self)
        ensures r == Self::of_idx((self.idx() + 1) % 4),
    {
        Self::from_index((self.index() + 1) % 4)
    }

    /// The previous view in cyclic tab order.
    pub fn prev(self) -> (r: Self)
        ensures r == Self::of_idx((self.idx() + 3) % 4),
    {
        Self::from_index((self.index() + 3) % 4)
    }
}

impl ResourceType {
    /// Display name of the resource kind.
    pub fn label(self) -> (r: &'static str)
        ensures
            self == ResourceType::Prompt ==> r@ == "Prompt"@,
            self == ResourceType::Document ==> r@ == "Document"@,
    {
        match self {
            ResourceType::Prompt => "Prompt",
            ResourceType::Document => "Document",
        }
    }
}

/// An index into a list of length `len` is valid when it is 0 for an empty
/// list and strictly below `len` otherwise.
pub open spec fn idx_ok(len: nat, i: nat) -> bool {
    if len == 0 { i == 0 } else { i < len }
}

/// The clamp applied whenever a collection is replaced: 0 for an empty
/// collection, otherwise `min(i, len - 1)`.
pub open spec fn clamped(i: nat, len: nat) -> nat {
    if len == 0 { 0 } else if i < len { i } else { (len - 1) as nat }
}

/// The whole UI state.  The reducer is its single owner: every sync event
/// and every user action is applied to completion before the next.
pub struct App {
    pub view: View,
    pub overlay: Option<Overlay>,
    pub should_quit: bool,
    pub focus: Focus,

    pub version: Option<VersionInfo>,
    pub board: Option<Board>,
    pub config: Option<Config>,
    pub prompts: Vec<Resource>,
    pub documents: Vec<Resource>,
    pub activity: Vec<ActivityEntry>,

    pub board_col: usize,
    /// Per-column remembered row; grown lazily to the column count, never
    /// shrunk.
    pub board_row: Vec<usize>,
    pub prompt_index: usize,
    pub document_index: usize,
    pub activity_index: usize,

    pub connection: ConnectionState,
    pub poll_hashes: Option<PollHashes>,

    pub loading: bool,
}

/// The fetched data of `b` equals that of `a`.
pub open spec fn same_data(a: App, b: App) -> bool {
    &&& b.version == a.version
    &&& b.board == a.board
    &&& b.config == a.config
    &&& b.prompts == a.prompts
    &&& b.documents == a.documents
    &&& b.activity == a.activity
}

/// The view, focus, overlay, quit flag, connection status, hash triple and
/// loading flag of `b` equal those of `a`.
pub open spec fn same_shell(a: App, b: App) -> bool {
    &&& b.view == a.view
    &&& b.overlay == a.overlay
    &&& b.should_quit == a.should_quit
    &&& b.focus == a.focus
    &&& b.connection == a.connection
    &&& b.poll_hashes == a.poll_hashes
    &&& b.loading == a.loading
}

/// The row remembered for column `i`, defaulting to 0 where the row
/// vector does not yet cover the column.
pub open spec fn row_or_zero(rows: Seq<usize>, i: int) -> nat {
    if 0 <= i < rows.len() { rows[i] as nat } else { 0 }
}

/// The navigation indices of `post` are those of `pre` re-clamped against
/// the collections held by `post`: out-of-range indices are pulled to the
/// last element, indices over empty collections to 0, and the per-column
/// row vector is grown (never shrunk) to the column count.
pub open spec fn nav_clamped(pre: App, post: App) -> bool {
    &&& post.board_col == clamped(pre.board_col as nat, post.col_count_spec())
    &&& post.board_row@.len() == if pre.board_row@.len() >= post.col_count_spec() {
            pre.board_row@.len() as int
        } else {
            post.col_count_spec() as int
        }
    &&& forall|i: int| 0 <= i < post.col_count_spec()
        ==> #[trigger] post.board_row@[i]
            == clamped(row_or_zero(pre.board_row@, i), post.cols()[i].tasks@.len())
    &&& forall|i: int| post.col_count_spec() <= i < post.board_row@.len()
        ==> #[trigger] post.board_row@[i] == pre.board_row@[i]
    &&& post.prompt_index == clamped(pre.prompt_index as nat, post.prompts@.len())
    &&& post.document_index == clamped(pre.document_index as nat, post.documents@.len())
    &&& post.activity_index == clamped(pre.activity_index as nat, post.activity@.len())
}

/// Re-clamping establishes the bounds invariant from any prior state:
/// after any sequence of collection replacements, each of which re-clamps,
/// every navigation index is 0 over an empty collection and within
/// `[0, len)` otherwise.
pub proof fn lemma_clamped_in_bounds(pre: App, post: App)
    requires
        nav_clamped(pre, post),
    ensures
        post.nav_ok(),
{
    assert forall|i: int| 0 <= i < post.col_count_spec() implies idx_ok(
        post.cols()[i].tasks@.len(),
        #[trigger] post.board_row@[i] as nat,
    ) by {
        assert(post.board_row@[i] == clamped(
            row_or_zero(pre.board_row@, i),
            post.cols()[i].tasks@.len(),
        ));
    }
}

/// The navigation indices of `b` equal those of `a`.
pub open spec fn same_nav(a: App, b: App) -> bool {
    &&& b.board_col == a.board_col
    &&& b.board_row == a.board_row
    &&& b.prompt_index == a.prompt_index
    &&& b.document_index == a.document_index
    &&& b.activity_index == a.activity_index
}

/// Everything but the overlay is unchanged from `a` to `b`.
pub open spec fn same_but_overlay(a: App, b: App) -> bool {
    &&& same_data(a, b)
    &&& same_nav(a, b)
    &&& b.view == a.view
    &&& b.should_quit == a.should_quit
    &&& b.focus == a.focus
    &&& b.connection == a.connection
    &&& b.poll_hashes == a.poll_hashes
    &&& b.loading == a.loading
}

/// `post`'s per-column row vector is `pre`'s with `row` remembered for
/// `pre`'s active column, grown with zeroes as far as needed; every other
/// field of `post` equals `pre`'s.
pub open spec fn rows_updated(pre: App, post: App, row: nat) -> bool {
    &&& same_data(pre, post)
    &&& same_shell(pre, post)
    &&& post.board_col == pre.board_col
    &&& post.prompt_index == pre.prompt_index
    &&& post.document_index == pre.document_index
    &&& post.activity_index == pre.activity_index
    &&& post.board_row@.len() == if pre.board_row@.len() > pre.board_col + 1 {
            pre.board_row@.len() as int
        } else {
            pre.board_col + 1
        }
    &&& forall|j: int| 0 <= j < post.board_row@.len() && j != pre.board_col
        ==> #[trigger] post.board_row@[j] as nat == row_or_zero(pre.board_row@, j)
    &&& post.board_row@[pre.board_col as int] as nat == row
}

impl App {
    /// The board's columns, or no columns while none are loaded.
    pub open spec fn cols(self) -> Seq<Column> {
        match self.board {
            Some(b) => b.columns@,
            None => Seq::<Column>::empty(),
        }
    }

    pub open spec fn col_count_spec(self) -> nat {
        self.cols().len()
    }

    /// The tasks of the active column, or none when the column is out of
    /// range.
    pub open spec fn cur_tasks(self) -> Seq<Task> {
        if (self.board_col as int) < self.cols().len() {
            self.cols()[self.board_col as int].tasks@
        } else {
            Seq::<Task>::empty()
        }
    }

    /// The remembered row of the active column, defaulting to 0.
    pub open spec fn cur_row_spec(self) -> nat {
        if (self.board_col as int) < self.board_row@.len() {
            self.board_row@[self.board_col as int] as nat
        } else {
            0
        }
    }

    /// Every navigation index is 0 for an empty collection and in bounds
    /// otherwise, and the per-column row vector covers every column.
    pub open spec fn nav_ok(self) -> bool {
        &&& idx_ok(self.col_count_spec(), self.board_col as nat)
        &&& self.board_row@.len() >= self.col_count_spec()
        &&& forall|i: int| 0 <= i < self.col_count_spec()
            ==> idx_ok(self.cols()[i].tasks@.len(), #[trigger] self.board_row@[i] as nat)
        &&& idx_ok(self.prompts@.len(), self.prompt_index as nat)
        &&& idx_ok(self.documents@.len(), self.document_index as nat)
        &&& idx_ok(self.activity@.len(), self.activity_index as nat)
    }

    /// The initial state: board view, content focus, nothing loaded,
    /// connecting.
    pub fn new() -> (r: Self)
        ensures
            r.view == View::Board,
            r.overlay is None,
            !r.should_quit,
            r.focus == Focus::Content,
            r.version is None,
            r.board is None,
            r.config is None,
            r.prompts@.len() == 0,
            r.documents@.len() == 0,
            r.activity@.len() == 0,
            r.board_col == 0,
            r.board_row@.len() == 0,
            r.prompt_index == 0,
            r.document_index == 0,
            r.activity_index == 0,
            r.connection == ConnectionState::Connecting,
            r.poll_hashes is None,
            r.loading,
            r.nav_ok(),
    {
        App {
            view: View::Board,
            overlay: None,
            should_quit: false,
            focus: Focus::Content,
            version: None,
            board: None,
            config: None,
            prompts: Vec::new(),
            documents: Vec::new(),
            activity: Vec::new(),
            board_col: 0,
            board_row: Vec::new(),
            prompt_index: 0,
            document_index: 0,
            activity_index: 0,
            connection: ConnectionState::Connecting,
            poll_hashes: None,
            loading: true,
        }
    }

    /// Number of board columns (0 while no board is loaded).
    pub fn column_count(&self) -> (r: usize)
        ensures r == self.col_count_spec(),
    {
        match &self.board {
            Some(b) => b.columns.len(),
            None => 0,
        }
    }

    /// The remembered row of the active column, defaulting to 0.
    pub fn current_board_row(&self) -> (r: usize)
        ensures r == self.cur_row_spec(),
    {
        if self.board_col < self.board_row.len() {
            self.board_row[self.board_col]
        } else {
            0
        }
    }

    /// The tasks of the active column, or none while the board is empty
    /// or the column is out of range.
    pub fn current_column_tasks(&self) -> (r: &[Task])
        ensures
            r@ == self.cur_tasks(),
    {
        match &self.board {
            Some(b) => {
                if self.board_col < b.columns.len() {
                    b.columns[self.board_col].tasks.as_slice()
                } else {
                    &[]
                }
            }
            None => &[],
        }
    }

    /// Number of tasks in the active column.
    pub fn current_column_len(&self) -> (r: usize)
        ensures r == self.cur_tasks().len(),
    {
        match &self.board {
            Some(b) => {
                if self.board_col < b.columns.len() {
                    b.columns[self.board_col].tasks.len()
                } else {
                    0
                }
            }
            None => 0,
        }
    }

    /// The task under the cursor, if the active column has one there.
    pub fn selected_task(&self) -> (r: Option<&Task>)
        ensures
            match r {
                Some(t) => self.cur_row_spec() < self.cur_tasks().len()
                    && *t == self.cur_tasks()[self.cur_row_spec() as int],
                None => self.cur_row_spec() >= self.cur_tasks().len(),
            },
    {
        let row = self.current_board_row();
        match &self.board {
            Some(b) => {
                if self.board_col < b.columns.len() {
                    let col = &b.columns[self.board_col];
                    if row < col.tasks.len() {
                        Some(&col.tasks[row])
                    } else {
                        None
                    }
                } else {
                    None
                }
            }
            None => None,
        }
    }

    /// Remember `row` for the active column, growing the row vector with
    /// zeroes until it covers that column.
    pub fn set_board_row(&mut self, row: usize)
        ensures
            rows_updated(*old(self), *final(self), row as nat),
    {
        while self.board_row.len() <= self.board_col
            invariant
                same_data(*old(self), *self),
                same_shell(*old(self), *self),
                self.board_col == old(self).board_col,
                self.prompt_index == old(self).prompt_index,
                self.document_index == old(self).document_index,
                self.activity_index == old(self).activity_index,
                self.board_row@.len() >= old(self).board_row@.len(),
                self.board_row@.len() <= if old(self).board_row@.len() > old(self).board_col as int {
                    old(self).board_row@.len() as int
                } else {
                    old(self).board_col + 1
                },
                forall|j: int| 0 <= j < self.board_row@.len()
                    ==> #[trigger] self.board_row@[j]
                        == (if j < old(self).board_row@.len() { old(self).board_row@[j] as int } else { 0 }),
            decreases self.board_col + 1 - self.board_row.len(),
        {
            self.board_row.push(0);
        }
        self.board_row[self.board_col] = row;
    }

    /// Grow the per-column row vector with zeroes until it covers every
    /// column of the current board.  Never shrinks it.
    pub fn ensure_board_row_vec(&mut self)
        ensures
            same_data(*old(self), *final(self)),
            same_shell(*old(self), *final(self)),
            final(self).board_col == old(self).board_col,
            final(self).prompt_index == old(self).prompt_index,
            final(self).document_index == old(self).document_index,
            final(self).activity_index == old(self).activity_index,
            final(self).board_row@.len() == if old(self).board_row@.len() >= old(self).col_count_spec() {
                old(self).board_row@.len() as int
            } else {
                old(self).col_count_spec() as int
            },
            forall|j: int| 0 <= j < final(self).board_row@.len()
                ==> #[trigger] final(self).board_row@[j] as nat == row_or_zero(old(self).board_row@, j),
    {
        let ncols = self.column_count();
        while self.board_row.len() < ncols
            invariant
                same_data(*old(self), *self),
                same_shell(*old(self), *self),
                self.board_col == old(self).board_col,
                self.prompt_index == old(self).prompt_index,
                self.document_index == old(self).document_index,
                self.activity_index == old(self).activity_index,
                ncols == self.col_count_spec(),
                self.board_row@.len() >= old(self).board_row@.len(),
                self.board_row@.len() <= if old(self).board_row@.len() >= ncols {
                    old(self).board_row@.len() as int
                } else {
                    ncols as int
                },
                forall|j: int| 0 <= j < self.board_row@.len()
                    ==> #[trigger] self.board_row@[j] as nat == row_or_zero(old(self).board_row@, j),
            decreases ncols - self.board_row.len(),
        {
            self.board_row.push(0);
        }
    }

    /// Re-clamp every navigation index against the collections now held,
    /// as must happen whenever any of them is replaced.
    pub fn clamp_indices(&mut self)
        ensures
            same_data(*old(self), *final(self)),
            same_shell(*old(self), *final(self)),
            nav_clamped(*old(self), *final(self)),
            final(self).nav_ok(),
    {
        let ncols = self.column_count();
        if ncols == 0 {
            self.board_col = 0;
        } else if self.board_col >= ncols {
            self.board_col = ncols - 1;
        }
        self.ensure_board_row_vec();
        let ghost mid = *self;
        let mut i: usize = 0;
        while i < ncols
            invariant
                same_data(*old(self), *self),
                same_shell(*old(self), *self),
                self.board_col == mid.board_col,
                self.prompt_index == mid.prompt_index,
                self.document_index == mid.document_index,
                self.activity_index == mid.activity_index,
                self.board == mid.board,
                i <= ncols,
                ncols == self.col_count_spec(),
                self.board_row@.len() == mid.board_row@.len(),
                self.board_row@.len() >= ncols,
                forall|j: int| 0 <= j < i
                    ==> #[trigger] self.board_row@[j]
                        == clamped(mid.board_row@[j] as nat, self.cols()[j].tasks@.len()),
                forall|j: int| i <= j < self.board_row@.len()
                    ==> #[trigger] self.board_row@[j] == mid.board_row@[j],
            decreases ncols - i,
        {
            let tl = match &self.board {
                Some(b) => b.columns[i].tasks.len(),
                None => 0,
            };
            if tl == 0 {
                self.board_row[i] = 0;
            } else if self.board_row[i] >= tl {
                self.board_row[i] = tl - 1;
            }
            i = i + 1;
        }
        if self.prompts.len() == 0 {
            self.prompt_index = 0;
        } else if self.prompt_index >= self.prompts.len() {
            self.prompt_index = self.prompts.len() - 1;
        }
        if self.documents.len() == 0 {
            self.document_index = 0;
        } else if self.document_index >= self.documents.len() {
            self.document_index = self.documents.len() - 1;
        }
        if self.activity.len() == 0 {
            self.activity_index = 0;
        } else if self.activity_index >= self.activity.len() {
            self.activity_index = self.activity.len() - 1;
        }
    }
}

} // verus!
