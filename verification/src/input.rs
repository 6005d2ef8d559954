//! The input dispatcher: raw keys become exactly one user action (or a
//! no-op), in a strict priority order — quit first, then an open overlay,
//! then global keys, then the tab bar, then the active view's handler.
//!
//! Handlers that need a secondary fetch (opening a task or resource
//! detail) return a [`Command`] instead of fetching; the surrounding loop
//! performs the fetch and hands the outcome to [`open_task_overlay`] or
//! [`open_resource_overlay`], which fall back to the already-held summary
//! data when the fetch failed.

use vstd::prelude::*;
use vstd::view::View as _;

use crate::model::{ActivityEntry, Comment, Resource, Revision, Task, resource_eqv, task_eqv};
use crate::state::{App, Focus, Overlay, ResourceType, View, rows_updated, same_but_overlay};

verus! {

/// One raw key press, already freed of terminal encoding.
#[derive(Debug, Clone, Copy, PartialEq, Eq, Structural)]
pub enum Key {
    Up,
    Down,
    Left,
    Right,
    Enter,
    Esc,
    Tab,
    BackTab,
    Char(char),
    Ctrl(char),
}

/// A fetch the dispatcher asks the surrounding loop to perform.
#[derive(Debug)]
pub enum Command {
    /// Fetch the full task (and its comments when `comments_id` names
    /// one), then open a task detail overlay; `fallback` is the summary
    /// shown if the task fetch fails.
    OpenTask { column: String, filename: String, comments_id: Option<String>, fallback: Option<Task> },
    /// Fetch the full resource and its revisions, then open a resource
    /// detail overlay; `fallback` is the summary shown if the resource
    /// fetch fails.
    OpenResource { kind: ResourceType, dir_name: String, fallback: Option<Resource> },
    /// Refetch the data behind the given view.
    Refresh(View),
}

/// A scroll offset moved by `d` lines, stopped at 0 below and at the
/// machine limit above.
pub open spec fn scroll_moved(s: nat, d: int) -> nat {
    if s + d < 0 {
        0
    } else if s + d > usize::MAX {
        usize::MAX as nat
    } else {
        (s + d) as nat
    }
}

/// The scroll offset of an overlay.
pub open spec fn overlay_scroll(ov: Overlay) -> nat {
    match ov {
        Overlay::TaskDetail { scroll, .. } => scroll as nat,
        Overlay::ResourceDetail { scroll, .. } => scroll as nat,
        Overlay::Help { scroll } => scroll as nat,
    }
}

/// The same overlay with its scroll offset replaced.
pub open spec fn overlay_with_scroll(ov: Overlay, s: usize) -> Overlay {
    match ov {
        Overlay::TaskDetail { task, comments, scroll } => Overlay::TaskDetail {
            task: task,
            comments: comments,
            scroll: s,
        },
        Overlay::ResourceDetail { resource, revisions, current_rev, scroll, resource_type } => Overlay::ResourceDetail {
            resource: resource,
            revisions: revisions,
            current_rev: current_rev,
            scroll: s,
            resource_type: resource_type,
        },
        Overlay::Help { scroll } => Overlay::Help { scroll: s },
    }
}

/// Where the revision cursor lands when moved by `delta` over a revisions
/// list of length `len` (`len > 0`): from the current version (`None`) an
/// older-direction step enters the list at its newest entry; inside the
/// list the cursor moves by `delta`, stopping at the oldest entry below
/// and leaving to the current version above.
pub open spec fn revision_step(cur: Option<usize>, len: nat, delta: int) -> Option<int> {
    match cur {
        None => if delta < 0 {
            Some(len - 1)
        } else {
            None
        },
        Some(i) => {
            let ni = i + delta;
            if ni < 0 {
                Some(0)
            } else if ni >= len {
                None
            } else {
                Some(ni)
            }
        },
    }
}

/// The cursor value `a` denotes the same position as the spec-level `b`.
pub open spec fn cursor_is(a: Option<usize>, b: Option<int>) -> bool {
    match (a, b) {
        (Some(x), Some(y)) => x == y,
        (None, None) => true,
        _ => false,
    }
}

/// The overlay's scroll offset moved by `delta`, everything else as it
/// was; without an open overlay, nothing happens.
pub open spec fn scroll_rel(pre: App, post: App, delta: int) -> bool {
    match pre.overlay {
        None => post == pre,
        Some(ov) => post == (App {
            overlay: Some(overlay_with_scroll(ov, scroll_moved(overlay_scroll(ov), delta) as usize)),
            ..pre
        }),
    }
}

/// Move the open overlay's scroll offset by `delta` lines, never below 0.
pub fn scroll_overlay(app: &mut App, delta: i32)
    ensures
        scroll_rel(*old(app), *final(app), delta as int),
{
    match &mut app.overlay {
        Some(Overlay::TaskDetail { scroll, .. }) => {
            *scroll = scroll_shift(*scroll, delta);
        }
        Some(Overlay::ResourceDetail { scroll, .. }) => {
            *scroll = scroll_shift(*scroll, delta);
        }
        Some(Overlay::Help { scroll }) => {
            *scroll = scroll_shift(*scroll, delta);
        }
        None => {}
    }
}

/// A scroll offset moved by `delta`, saturating at both ends.
fn scroll_shift(s: usize, delta: i32) -> (r: usize)
    ensures
        r as nat == scroll_moved(s as nat, delta as int),
{
    if delta >= 0 {
        let d = delta as usize;
        if s <= usize::MAX - d {
            s + d
        } else {
            usize::MAX
        }
    } else {
        let d = (-(delta as i64)) as usize;
        if s >= d {
            s - d
        } else {
            0
        }
    }
}

/// The overlay's scroll offset set to `value`, everything else as it
/// was; without an open overlay, nothing happens.
pub open spec fn scroll_set_rel(pre: App, post: App, value: usize) -> bool {
    match pre.overlay {
        None => post == pre,
        Some(ov) => post == (App { overlay: Some(overlay_with_scroll(ov, value)), ..pre }),
    }
}

/// Set the open overlay's scroll offset outright.
pub fn set_overlay_scroll(app: &mut App, value: usize)
    ensures
        scroll_set_rel(*old(app), *final(app), value),
{
    match &mut app.overlay {
        Some(Overlay::TaskDetail { scroll, .. }) => {
            *scroll = value;
        }
        Some(Overlay::ResourceDetail { scroll, .. }) => {
            *scroll = value;
        }
        Some(Overlay::Help { scroll }) => {
            *scroll = value;
        }
        None => {}
    }
}

/// Shift the revision cursor of an open resource detail overlay by
/// `delta` (negative toward older revisions), per [`revision_step`];
/// whenever the cursor actually moves, the overlay's scroll offset resets
/// to 0.  Does nothing for other overlays or an empty revisions list.
pub open spec fn rev_nav_rel(pre: App, post: App, delta: int) -> bool {
    match pre.overlay {
        Some(Overlay::ResourceDetail { resource, revisions, current_rev, scroll, resource_type }) => {
            if revisions@.len() == 0 {
                post == pre
            } else {
                let step = revision_step(current_rev, revisions@.len(), delta);
                &&& post == (App {
                    overlay: post.overlay,
                    ..pre
                })
                &&& post.overlay matches Some(Overlay::ResourceDetail {
                    resource: r2,
                    revisions: v2,
                    current_rev: c2,
                    scroll: s2,
                    resource_type: t2,
                }) && r2 == resource && v2 == revisions && t2 == resource_type && cursor_is(c2, step)
                    && s2 == (if cursor_is(current_rev, step) {
                    scroll as int
                } else {
                    0
                })
            }
        },
        _ => post == pre,
    }
}

/// Shift the revision cursor of an open resource detail overlay by
/// `delta` (negative toward older revisions), per [`revision_step`];
/// whenever the cursor actually moves, the overlay's scroll offset resets
/// to 0.  Does nothing for other overlays or an empty revisions list.
pub fn navigate_revision(app: &mut App, delta: i32)
    ensures
        rev_nav_rel(*old(app), *final(app), delta as int),
{
    match &mut app.overlay {
        Some(Overlay::ResourceDetail { revisions, current_rev, scroll, .. }) => {
            if revisions.len() == 0 {
                return ;
            }
            let len = revisions.len();
            let new_rev: Option<usize> = match current_rev {
                None => {
                    if delta < 0 {
                        Some(len - 1)
                    } else {
                        None
                    }
                }
                Some(i) => {
                    let ni: i128 = *i as i128 + delta as i128;
                    if ni < 0 {
                        Some(0)
                    } else if ni >= len as i128 {
                        None
                    } else {
                        Some(ni as usize)
                    }
                }
            };
            let changed = match (&new_rev, &current_rev) {
                (Some(a), Some(b)) => *a != *b,
                (None, None) => false,
                _ => true,
            };
            *current_rev = new_rev;
            if changed {
                *scroll = 0;
            }
        }
        _ => {}
    }
}

/// Open a task detail overlay from a fetched task, or from the summary
/// fallback when the fetch failed, with the fetched comments or none.
/// With neither a fetched task nor a fallback, nothing opens.
pub fn open_task_overlay(app: &mut App, fetched: Option<Task>, fallback: Option<Task>, comments: Option<
    Vec<Comment>,
>)
    ensures
        match (fetched, fallback) {
            (Some(t), _) | (None, Some(t)) => {
                &&& same_but_overlay(*old(app), *final(app))
                &&& final(app).overlay matches Some(Overlay::TaskDetail {
                    task: t2,
                    comments: c2,
                    scroll: s2,
                }) && t2 == t && s2 == 0 && (match comments {
                    Some(c) => c2 == c,
                    None => c2@.len() == 0,
                })
            },
            (None, None) => *final(app) == *old(app),
        },
{
    let task = match fetched {
        Some(t) => Some(t),
        None => fallback,
    };
    match task {
        Some(t) => {
            let cs = match comments {
                Some(c) => c,
                None => Vec::new(),
            };
            app.overlay = Some(Overlay::TaskDetail { task: t, comments: cs, scroll: 0 });
        }
        None => {}
    }
}

/// Open a resource detail overlay from a fetched resource, or from the
/// summary fallback when the fetch failed, with the fetched revisions or
/// none; the cursor starts at the current version.  With neither a
/// fetched resource nor a fallback, nothing opens.
pub fn open_resource_overlay(
    app: &mut App,
    kind: ResourceType,
    fetched: Option<Resource>,
    fallback: Option<Resource>,
    revisions: Option<Vec<Revision>>,
)
    ensures
        match (fetched, fallback) {
            (Some(r), _) | (None, Some(r)) => {
                &&& same_but_overlay(*old(app), *final(app))
                &&& final(app).overlay matches Some(Overlay::ResourceDetail {
                    resource: r2,
                    revisions: v2,
                    current_rev: c2,
                    scroll: s2,
                    resource_type: t2,
                }) && r2 == r && c2 is None && s2 == 0 && t2 == kind && (match revisions {
                    Some(v) => v2 == v,
                    None => v2@.len() == 0,
                })
            },
            (None, None) => *final(app) == *old(app),
        },
{
    let resource = match fetched {
        Some(r) => Some(r),
        None => fallback,
    };
    match resource {
        Some(r) => {
            let vs = match revisions {
                Some(v) => v,
                None => Vec::new(),
            };
            app.overlay = Some(Overlay::ResourceDetail {
                resource: r,
                revisions: vs,
                current_rev: None,
                scroll: 0,
                resource_type: kind,
            });
        }
        None => {}
    }
}

/// Keys routed to an open overlay: close, scroll by line or page, jump to
/// the top or (by an oversized offset the renderer clips) the bottom, and
/// revision navigation for a resource detail.
pub open spec fn overlay_key_rel(pre: App, post: App, key: Key) -> bool {
    if key == Key::Esc || key == Key::Char('q') {
        post == (App { overlay: None, focus: Focus::Content, ..pre })
    } else if key == Key::Char('j') || key == Key::Down {
        scroll_rel(pre, post, 1)
    } else if key == Key::Char('k') || key == Key::Up {
        scroll_rel(pre, post, -1)
    } else if key == Key::Char(' ') || key == Key::Ctrl('d') {
        scroll_rel(pre, post, 15)
    } else if key == Key::Ctrl('u') {
        scroll_rel(pre, post, -15)
    } else if key == Key::Char('g') {
        scroll_set_rel(pre, post, 0)
    } else if key == Key::Char('G') {
        scroll_rel(pre, post, 1000)
    } else if key == Key::Char('[') {
        rev_nav_rel(pre, post, -1)
    } else if key == Key::Char(']') {
        rev_nav_rel(pre, post, 1)
    } else {
        post == pre
    }
}

/// Route a key to the open overlay, per [`overlay_key_rel`].
pub fn handle_overlay_key(app: &mut App, key: Key)
    ensures
        overlay_key_rel(*old(app), *final(app), key),
        old(app).nav_ok() ==> final(app).nav_ok(),
{
    if key == Key::Esc || key == Key::Char('q') {
        app.overlay = None;
        app.focus = Focus::Content;
    } else if key == Key::Char('j') || key == Key::Down {
        scroll_overlay(app, 1);
    } else if key == Key::Char('k') || key == Key::Up {
        scroll_overlay(app, -1);
    } else if key == Key::Char(' ') || key == Key::Ctrl('d') {
        scroll_overlay(app, 15);
    } else if key == Key::Ctrl('u') {
        scroll_overlay(app, -15);
    } else if key == Key::Char('g') {
        set_overlay_scroll(app, 0);
    } else if key == Key::Char('G') {
        scroll_overlay(app, 1000);
    } else if key == Key::Char('[') {
        navigate_revision(app, -1);
    } else if key == Key::Char(']') {
        navigate_revision(app, 1);
    }
}

/// Keys in tab-bar focus: cycle the view left or right, or drop focus
/// back to the content.
pub open spec fn tabbar_rel(pre: App, post: App, key: Key) -> bool {
    if key == Key::Char('h') || key == Key::Left || key == Key::BackTab {
        post == (App { view: View::of_idx((pre.view.idx() + 3) % 4), ..pre })
    } else if key == Key::Char('l') || key == Key::Right || key == Key::Tab {
        post == (App { view: View::of_idx((pre.view.idx() + 1) % 4), ..pre })
    } else if key == Key::Char('j') || key == Key::Down || key == Key::Enter || key == Key::Char(' ')
        || key == Key::Esc {
        post == (App { focus: Focus::Content, ..pre })
    } else {
        post == pre
    }
}

/// The command demanded by selecting the task under the board cursor:
/// fetch the full task (and comments when the summary names an id), with
/// the summary itself as the fallback.  No task under the cursor, no
/// command.
pub open spec fn select_task_cmd(pre: App, cmd: Option<Command>) -> bool {
    if pre.cur_row_spec() < pre.cur_tasks().len() {
        let t = pre.cur_tasks()[pre.cur_row_spec() as int];
        cmd matches Some(Command::OpenTask { column, filename, comments_id, fallback })
            && column == t.column && filename == t.filename && (match comments_id {
            Some(id) => t.meta.id@.len() > 0 && id == t.meta.id,
            None => t.meta.id@.len() == 0,
        }) && (fallback matches Some(f) && task_eqv(f, t))
    } else {
        cmd is None
    }
}

/// Keys in the board view: move between columns without wrapping, move
/// the row cursor (up from the first row hands focus to the tab bar),
/// jump to the first or last row, or select the task under the cursor.
pub open spec fn board_key_rel(pre: App, post: App, key: Key, cmd: Option<Command>) -> bool {
    if pre.col_count_spec() == 0 {
        post == pre && cmd is None
    } else if key == Key::Char('h') || key == Key::Left {
        cmd is None && post == (App {
            board_col: if pre.board_col > 0 { (pre.board_col - 1) as usize } else { 0 },
            ..pre
        })
    } else if key == Key::Char('l') || key == Key::Right {
        cmd is None && post == (App {
            board_col: if pre.board_col + 1 < pre.col_count_spec() {
                (pre.board_col + 1) as usize
            } else {
                pre.board_col
            },
            ..pre
        })
    } else if key == Key::Char('j') || key == Key::Down {
        cmd is None && (if pre.cur_row_spec() + 1 < pre.cur_tasks().len() {
            rows_updated(pre, post, pre.cur_row_spec() + 1)
        } else {
            post == pre
        })
    } else if key == Key::Char('k') || key == Key::Up {
        cmd is None && (if pre.cur_row_spec() > 0 {
            rows_updated(pre, post, (pre.cur_row_spec() - 1) as nat)
        } else {
            post == (App { focus: Focus::TabBar, ..pre })
        })
    } else if key == Key::Char('g') {
        cmd is None && rows_updated(pre, post, 0)
    } else if key == Key::Char('G') {
        cmd is None && (if pre.cur_tasks().len() > 0 {
            rows_updated(pre, post, (pre.cur_tasks().len() - 1) as nat)
        } else {
            post == pre
        })
    } else if key == Key::Enter || key == Key::Char(' ') {
        post == pre && select_task_cmd(pre, cmd)
    } else {
        post == pre && cmd is None
    }
}

/// Route a key to the board view, per [`board_key_rel`].
pub fn handle_board_key(app: &mut App, key: Key) -> (cmd: Option<Command>)
    ensures
        board_key_rel(*old(app), *final(app), key, cmd),
        old(app).nav_ok() ==> final(app).nav_ok(),
{
    let ncols = app.column_count();
    if ncols == 0 {
        return None;
    }
    if key == Key::Char('h') || key == Key::Left {
        if app.board_col > 0 {
            app.board_col = app.board_col - 1;
        }
        None
    } else if key == Key::Char('l') || key == Key::Right {
        if app.board_col < ncols - 1 {
            app.board_col = app.board_col + 1;
        }
        None
    } else if key == Key::Char('j') || key == Key::Down {
        let len = app.current_column_len();
        let row = app.current_board_row();
        if len > 0 && row < len - 1 {
            app.set_board_row(row + 1);
        }
        None
    } else if key == Key::Char('k') || key == Key::Up {
        let row = app.current_board_row();
        if row > 0 {
            app.set_board_row(row - 1);
        } else {
            app.focus = Focus::TabBar;
        }
        None
    } else if key == Key::Char('g') {
        app.set_board_row(0);
        None
    } else if key == Key::Char('G') {
        let len = app.current_column_len();
        if len > 0 {
            app.set_board_row(len - 1);
        }
        None
    } else if key == Key::Enter || key == Key::Char(' ') {
        match app.selected_task() {
            Some(t) => {
                let column = t.column.clone();
                let filename = t.filename.clone();
                let comments_id = if t.meta.id.as_str().is_empty() {
                    None
                } else {
                    Some(t.meta.id.clone())
                };
                let fallback = Some(t.duplicate());
                Some(Command::OpenTask { column, filename, comments_id, fallback })
            }
            None => None,
        }
    } else {
        None
    }
}

/// One step over an indexable list: `(new index, focus moves to the tab
/// bar, select)`.  Down stops at the last element; up at the first
/// element hands focus to the tab bar instead of wrapping.
pub open spec fn list_step(len: nat, index: nat, key: Key) -> (nat, bool, bool) {
    if len == 0 {
        (index, key == Key::Char('k') || key == Key::Up, false)
    } else if key == Key::Char('j') || key == Key::Down {
        (if index < len - 1 { index + 1 } else { index }, false, false)
    } else if key == Key::Char('k') || key == Key::Up {
        if index > 0 { ((index - 1) as nat, false, false) } else { (index, true, false) }
    } else if key == Key::Char('g') {
        (0, false, false)
    } else if key == Key::Char('G') {
        ((len - 1) as nat, false, false)
    } else if key == Key::Enter || key == Key::Char(' ') {
        (index, false, true)
    } else {
        (index, false, false)
    }
}

/// One step over an indexable list, per [`list_step`].
fn list_nav(len: usize, index: usize, key: Key) -> (r: (usize, bool, bool))
    ensures
        r.0 as nat == list_step(len as nat, index as nat, key).0,
        r.1 == list_step(len as nat, index as nat, key).1,
        r.2 == list_step(len as nat, index as nat, key).2,
{
    if len == 0 {
        (index, key == Key::Char('k') || key == Key::Up, false)
    } else if key == Key::Char('j') || key == Key::Down {
        (if index < len - 1 { index + 1 } else { index }, false, false)
    } else if key == Key::Char('k') || key == Key::Up {
        if index > 0 { (index - 1, false, false) } else { (index, true, false) }
    } else if key == Key::Char('g') {
        (0, false, false)
    } else if key == Key::Char('G') {
        (len - 1, false, false)
    } else if key == Key::Enter || key == Key::Char(' ') {
        (index, false, true)
    } else {
        (index, false, false)
    }
}

/// Keys in the prompts or documents view, per [`list_step`]; selecting
/// asks for the full resource and its revisions, with the summary as the
/// fallback.
pub open spec fn list_key_rel(
    pre: App,
    post: App,
    rtype: ResourceType,
    key: Key,
    cmd: Option<Command>,
) -> bool {
    let len = if rtype == ResourceType::Prompt { pre.prompts@.len() } else { pre.documents@.len() };
    let idx = if rtype == ResourceType::Prompt {
        pre.prompt_index as nat
    } else {
        pre.document_index as nat
    };
    let step = list_step(len, idx, key);
    &&& (if rtype == ResourceType::Prompt {
        post == (App {
            prompt_index: step.0 as usize,
            focus: if step.1 { Focus::TabBar } else { pre.focus },
            ..pre
        })
    } else {
        post == (App {
            document_index: step.0 as usize,
            focus: if step.1 { Focus::TabBar } else { pre.focus },
            ..pre
        })
    })
    &&& (if step.2 && idx < len {
        let r = (if rtype == ResourceType::Prompt { pre.prompts@ } else { pre.documents@ })[idx as int];
        cmd matches Some(Command::OpenResource { kind, dir_name, fallback }) && kind == rtype
            && dir_name == r.dir_name && (fallback matches Some(f) && resource_eqv(f, r))
    } else {
        cmd is None
    })
}

/// Route a key to the prompts or documents view, per [`list_key_rel`].
pub fn handle_list_key(app: &mut App, key: Key, rtype: ResourceType) -> (cmd: Option<Command>)
    ensures
        list_key_rel(*old(app), *final(app), rtype, key, cmd),
        old(app).nav_ok() ==> final(app).nav_ok(),
{
    let len = match rtype {
        ResourceType::Prompt => app.prompts.len(),
        ResourceType::Document => app.documents.len(),
    };
    let idx = match rtype {
        ResourceType::Prompt => app.prompt_index,
        ResourceType::Document => app.document_index,
    };
    let (nidx, tab, sel) = list_nav(len, idx, key);
    match rtype {
        ResourceType::Prompt => {
            app.prompt_index = nidx;
        }
        ResourceType::Document => {
            app.document_index = nidx;
        }
    }
    if tab {
        app.focus = Focus::TabBar;
    }
    if sel && idx < len {
        let r = match rtype {
            ResourceType::Prompt => &app.prompts[idx],
            ResourceType::Document => &app.documents[idx],
        };
        let dir_name = r.dir_name.clone();
        let fallback = Some(r.duplicate());
        Some(Command::OpenResource { kind: rtype, dir_name, fallback })
    } else {
        None
    }
}

/// The command demanded by opening an activity entry: a task entry names
/// the task to fetch (no summary fallback exists here), a prompt or
/// document entry names the resource; anything else asks for nothing.
pub open spec fn activity_cmd_rel(e: ActivityEntry, cmd: Option<Command>) -> bool {
    if e.entry_type@ == "task"@ {
        match (e.column, e.filename) {
            (Some(c), Some(f)) => cmd matches Some(Command::OpenTask {
                column,
                filename,
                comments_id,
                fallback,
            }) && column == c && filename == f && (match comments_id {
                Some(id) => e.id@.len() > 0 && id == e.id,
                None => e.id@.len() == 0,
            }) && fallback is None,
            _ => cmd is None,
        }
    } else if e.entry_type@ == "prompt"@ {
        match e.dir_name {
            Some(d) => cmd matches Some(Command::OpenResource { kind, dir_name, fallback }) && kind
                == ResourceType::Prompt && dir_name == d && fallback is None,
            None => cmd is None,
        }
    } else if e.entry_type@ == "document"@ {
        match e.dir_name {
            Some(d) => cmd matches Some(Command::OpenResource { kind, dir_name, fallback }) && kind
                == ResourceType::Document && dir_name == d && fallback is None,
            None => cmd is None,
        }
    } else {
        cmd is None
    }
}

/// The fetch asked for by opening an activity entry, per
/// [`activity_cmd_rel`].
pub fn activity_entry_command(entry: &ActivityEntry) -> (cmd: Option<Command>)
    ensures
        activity_cmd_rel(*entry, cmd),
{
    if entry.entry_type == "task".to_owned() {
        match (&entry.column, &entry.filename) {
            (Some(c), Some(f)) => {
                let comments_id = if entry.id.as_str().is_empty() {
                    None
                } else {
                    Some(entry.id.clone())
                };
                Some(Command::OpenTask {
                    column: c.clone(),
                    filename: f.clone(),
                    comments_id,
                    fallback: None,
                })
            }
            _ => None,
        }
    } else if entry.entry_type == "prompt".to_owned() {
        match &entry.dir_name {
            Some(d) => Some(Command::OpenResource {
                kind: ResourceType::Prompt,
                dir_name: d.clone(),
                fallback: None,
            }),
            None => None,
        }
    } else if entry.entry_type == "document".to_owned() {
        match &entry.dir_name {
            Some(d) => Some(Command::OpenResource {
                kind: ResourceType::Document,
                dir_name: d.clone(),
                fallback: None,
            }),
            None => None,
        }
    } else {
        None
    }
}

/// Keys in the activity view, per [`list_step`]; selecting opens the
/// entry per [`activity_cmd_rel`].
pub open spec fn activity_key_rel(pre: App, post: App, key: Key, cmd: Option<Command>) -> bool {
    let len = pre.activity@.len();
    let idx = pre.activity_index as nat;
    let step = list_step(len, idx, key);
    &&& post == (App {
        activity_index: step.0 as usize,
        focus: if step.1 { Focus::TabBar } else { pre.focus },
        ..pre
    })
    &&& (if step.2 && idx < len {
        activity_cmd_rel(pre.activity@[idx as int], cmd)
    } else {
        cmd is None
    })
}

/// Route a key to the activity view, per [`activity_key_rel`].
pub fn handle_activity_key(app: &mut App, key: Key) -> (cmd: Option<Command>)
    ensures
        activity_key_rel(*old(app), *final(app), key, cmd),
        old(app).nav_ok() ==> final(app).nav_ok(),
{
    let len = app.activity.len();
    let idx = app.activity_index;
    let (nidx, tab, sel) = list_nav(len, idx, key);
    app.activity_index = nidx;
    if tab {
        app.focus = Focus::TabBar;
    }
    if sel && idx < len {
        activity_entry_command(&app.activity[idx])
    } else {
        None
    }
}

/// The whole dispatch, in strict priority order: the quit combination
/// first; an open overlay captures everything else; then the global keys
/// (quit, view select, help, refresh); then tab-bar focus; then tab
/// cycling; then the active view's handler.
pub open spec fn key_rel(pre: App, post: App, key: Key, cmd: Option<Command>) -> bool {
    if key == Key::Ctrl('c') {
        post == (App { should_quit: true, ..pre }) && cmd is None
    } else if pre.overlay is Some {
        overlay_key_rel(pre, post, key) && cmd is None
    } else if key == Key::Char('q') {
        post == (App { should_quit: true, ..pre }) && cmd is None
    } else if key == Key::Char('1') {
        post == (App { view: View::Board, focus: Focus::Content, ..pre }) && cmd is None
    } else if key == Key::Char('2') {
        post == (App { view: View::Prompts, focus: Focus::Content, ..pre }) && cmd is None
    } else if key == Key::Char('3') {
        post == (App { view: View::Documents, focus: Focus::Content, ..pre }) && cmd is None
    } else if key == Key::Char('4') {
        post == (App { view: View::Activity, focus: Focus::Content, ..pre }) && cmd is None
    } else if key == Key::Char('?') {
        post == (App { overlay: Some(Overlay::Help { scroll: 0 }), ..pre }) && cmd is None
    } else if key == Key::Char('r') {
        post == pre && cmd == Some(Command::Refresh(pre.view))
    } else if pre.focus == Focus::TabBar {
        tabbar_rel(pre, post, key) && cmd is None
    } else if key == Key::Tab {
        post == (App { view: View::of_idx((pre.view.idx() + 1) % 4), ..pre }) && cmd is None
    } else if key == Key::BackTab {
        post == (App { view: View::of_idx((pre.view.idx() + 3) % 4), ..pre }) && cmd is None
    } else {
        match pre.view {
            View::Board => board_key_rel(pre, post, key, cmd),
            View::Prompts => list_key_rel(pre, post, ResourceType::Prompt, key, cmd),
            View::Documents => list_key_rel(pre, post, ResourceType::Document, key, cmd),
            View::Activity => activity_key_rel(pre, post, key, cmd),
        }
    }
}

/// Turn one key press into at most one state change and at most one
/// command, per [`key_rel`]; indices that were in bounds stay in bounds.
pub fn handle_key(app: &mut App, key: Key) -> (cmd: Option<Command>)
    ensures
        key_rel(*old(app), *final(app), key, cmd),
        old(app).nav_ok() ==> final(app).nav_ok(),
{
    if key == Key::Ctrl('c') {
        app.should_quit = true;
        return None;
    }
    if app.overlay.is_some() {
        handle_overlay_key(app, key);
        return None;
    }
    if key == Key::Char('q') {
        app.should_quit = true;
        return None;
    }
    if key == Key::Char('1') {
        app.view = View::Board;
        app.focus = Focus::Content;
        return None;
    }
    if key == Key::Char('2') {
        app.view = View::Prompts;
        app.focus = Focus::Content;
        return None;
    }
    if key == Key::Char('3') {
        app.view = View::Documents;
        app.focus = Focus::Content;
        return None;
    }
    if key == Key::Char('4') {
        app.view = View::Activity;
        app.focus = Focus::Content;
        return None;
    }
    if key == Key::Char('?') {
        app.overlay = Some(Overlay::Help { scroll: 0 });
        return None;
    }
    if key == Key::Char('r') {
        return Some(Command::Refresh(app.view));
    }
    if app.focus == Focus::TabBar {
        if key == Key::Char('h') || key == Key::Left || key == Key::BackTab {
            app.view = app.view.prev();
        } else if key == Key::Char('l') || key == Key::Right || key == Key::Tab {
            app.view = app.view.next();
        } else if key == Key::Char('j') || key == Key::Down || key == Key::Enter || key
            == Key::Char(' ') || key == Key::Esc {
            app.focus = Focus::Content;
        }
        return None;
    }
    if key == Key::Tab {
        app.view = app.view.next();
        return None;
    }
    if key == Key::BackTab {
        app.view = app.view.prev();
        return None;
    }
    match app.view {
        View::Board => handle_board_key(app, key),
        View::Prompts => handle_list_key(app, key, ResourceType::Prompt),
        View::Documents => handle_list_key(app, key, ResourceType::Document),
        View::Activity => handle_activity_key(app, key),
    }
}

} // verus!
