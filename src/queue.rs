//! The queue of files waiting for conversion: adding, reordering, selecting, deleting, and
//! recording outcomes.
use vstd::prelude::*;
use vstd::std_specs::hash::group_hash_axioms;
use std::collections::HashSet;
use crate::options::{ConversionOptions, FileStatus};
use crate::text::{parse_at_most, parsed_at_most};

verus! {

broadcast use group_hash_axioms;

/// Relies on `uuid::Uuid::new_v4` and `Uuid::as_u128`: a random identifier.
#[verifier::external_body]
fn random_id() -> (r: u128) {
    uuid::Uuid::new_v4().as_u128()
}

/// A file in the conversion queue.
#[derive(Debug)]
pub struct FileItem {
    pub id: u128,
    pub path: String,
    pub status: FileStatus,
}

impl FileItem {
    /// A pending queue entry for `path`, with a fresh random identifier.
    pub fn new(path: String) -> (r: FileItem)
        ensures
            r.path@ == path@,
            r.status is Pending,
    {
        FileItem { id: random_id(), path, status: FileStatus::Pending }
    }
}

/// The state behind the queue: files, selection, drag state and the options.
pub struct AppState {
    pub files: Vec<FileItem>,
    pub selected_indices: HashSet<usize>,
    pub is_processing: bool,
    pub options: ConversionOptions,
    pub dragging_index: Option<usize>,
    pub hovered_index: Option<usize>,
}

impl Default for AppState {
    fn default() -> (r: AppState)
        ensures
            r.files@.len() == 0,
            r.selected_indices@ == Set::<usize>::empty(),
            !r.is_processing,
            r.options.is_default(),
            r.dragging_index is None,
            r.hovered_index is None,
    {
        AppState {
            files: Vec::new(),
            selected_indices: HashSet::new(),
            is_processing: false,
            options: ConversionOptions::default(),
            dragging_index: None,
            hovered_index: None,
        }
    }
}

/// The paths of the queued files.
pub open spec fn paths_of(files: Seq<FileItem>) -> Seq<Seq<char>> {
    files.map_values(|f: FileItem| f.path@)
}

/// The paths after adding `incoming` one by one, each only if not already present.
pub open spec fn with_new_paths(existing: Seq<Seq<char>>, incoming: Seq<Seq<char>>) -> Seq<Seq<char>>
    decreases incoming.len(),
{
    if incoming.len() == 0 {
        existing
    } else {
        let prev = with_new_paths(existing, incoming.drop_last());
        if prev.contains(incoming.last()) {
            prev
        } else {
            prev.push(incoming.last())
        }
    }
}

/// Whether some queued file has the path.
fn has_path(files: &Vec<FileItem>, path: &String) -> (r: bool)
    ensures
        r == paths_of(files@).contains(path@),
{
    let mut i: usize = 0;
    while i < files.len()
        invariant
            i <= files@.len(),
            forall|k: int| 0 <= k < i ==> files@[k].path@ != path@,
        decreases files@.len() - i,
    {
        if files[i].path == *path {
            assert(paths_of(files@)[i as int] == path@);
            return true;
        }
        i = i + 1;
    }
    proof {
        if paths_of(files@).contains(path@) {
            let k = choose|k: int| 0 <= k < paths_of(files@).len() && paths_of(files@)[k] == path@;
            assert(files@[k].path@ == path@);
        }
    }
    false
}

/// Adds the selected files to the queue, skipping paths already queued.
pub fn handle_files_selected(state: &mut AppState, paths: Vec<String>)
    ensures
        paths_of(final(state).files@) == with_new_paths(
            paths_of(old(state).files@),
            paths.deep_view(),
        ),
        final(state).files@.subrange(0, old(state).files@.len() as int) == old(state).files@,
        forall|k: int|
            old(state).files@.len() <= k < final(state).files@.len() ==> (
            #[trigger] final(state).files@[k]).status is Pending,
        final(state).selected_indices@ == old(state).selected_indices@,
        final(state).is_processing == old(state).is_processing,
{
    let ghost start = state.files@;
    let ghost incoming = paths.deep_view();
    let mut i: usize = 0;
    let n = paths.len();
    while i < n
        invariant
            n == incoming.len(),
            paths@.len() == n,
            i <= n,
            forall|k: int| 0 <= k < n ==> #[trigger] paths@[k]@ == incoming[k],
            paths_of(state.files@) == with_new_paths(paths_of(start), incoming.subrange(0, i as int)),
            state.files@.len() >= start.len(),
            state.files@.subrange(0, start.len() as int) == start,
            forall|k: int|
                start.len() <= k < state.files@.len() ==> (#[trigger] state.files@[k]).status is Pending,
            state.selected_indices@ == old(state).selected_indices@,
            state.is_processing == old(state).is_processing,
            start == old(state).files@,
        decreases n - i,
    {
        let path = paths[i].clone();
        let ghost pre = incoming.subrange(0, i + 1);
        assert(pre.drop_last() =~= incoming.subrange(0, i as int));
        assert(pre.last() == path@);
        let ghost before = state.files@;
        if !has_path(&state.files, &path) {
            state.files.push(FileItem::new(path));
            assert(paths_of(state.files@) =~= paths_of(before).push(pre.last()));
            assert(state.files@.subrange(0, start.len() as int) =~= before.subrange(0, start.len() as int));
        }
        i = i + 1;
    }
    assert(incoming.subrange(0, n as int) =~= incoming);
}

/// Adds files dropped from outside to the queue (the caller keeps only regular files).
pub fn handle_external_files(state: &mut AppState, paths: Vec<String>)
    ensures
        paths_of(final(state).files@) == paths_of(old(state).files@) + paths.deep_view(),
        final(state).files@.subrange(0, old(state).files@.len() as int) == old(state).files@,
        final(state).selected_indices@ == old(state).selected_indices@,
{
    let ghost start = state.files@;
    let ghost incoming = paths.deep_view();
    let n = paths.len();
    let mut i: usize = 0;
    while i < n
        invariant
            n == incoming.len(),
            paths@.len() == n,
            i <= n,
            forall|k: int| 0 <= k < n ==> #[trigger] paths@[k]@ == incoming[k],
            paths_of(state.files@) == paths_of(start) + incoming.subrange(0, i as int),
            state.files@.len() == start.len() + i,
            state.files@.subrange(0, start.len() as int) == start,
            state.selected_indices@ == old(state).selected_indices@,
            start == old(state).files@,
        decreases n - i,
    {
        let ghost before = state.files@;
        let item = FileItem::new(paths[i].clone());
        assert(item.path@ == incoming[i as int]);
        state.files.push(item);
        assert(paths_of(state.files@) =~= paths_of(before).push(incoming[i as int]));
        assert(incoming.subrange(0, i + 1) =~= incoming.subrange(0, i as int).push(incoming[i as int]));
        assert(paths_of(state.files@) =~= paths_of(start) + incoming.subrange(0, i + 1));
        assert(state.files@.subrange(0, start.len() as int) =~= before.subrange(0, start.len() as int));
        i = i + 1;
    }
    assert(incoming.subrange(0, n as int) =~= incoming);
}

/// Starts dragging the file at `index`.
pub fn handle_item_drag_started(state: &mut AppState, index: usize)
    ensures
        final(state).dragging_index == Some(index),
        final(state).files@ == old(state).files@,
{
    state.dragging_index = Some(index);
}

/// Records the drop target while a drag is under way.
pub fn handle_item_hovered(state: &mut AppState, index_opt: Option<usize>)
    ensures
        final(state).hovered_index == if old(state).dragging_index is Some {
            index_opt
        } else {
            old(state).hovered_index
        },
        final(state).dragging_index == old(state).dragging_index,
        final(state).files@ == old(state).files@,
{
    if state.dragging_index.is_some() {
        state.hovered_index = index_opt;
    }
}

/// The files after a drag from `from` to `to`.
pub open spec fn moved(files: Seq<FileItem>, from: int, to: int) -> Seq<FileItem> {
    files.remove(from).insert(to, files[from])
}

/// Ends a drag: the dragged file moves to the hovered position (when both are distinct, valid
/// positions, which also clears the selection); the drag state is reset.
pub fn handle_item_dropped(state: &mut AppState)
    ensures
        ({
            let len = old(state).files@.len();
            match (old(state).dragging_index, old(state).hovered_index) {
                (Some(from), Some(to)) => if from != to && from < len && to < len {
                    final(state).files@ == moved(old(state).files@, from as int, to as int)
                        && final(state).selected_indices@ == Set::<usize>::empty()
                } else {
                    final(state).files@ == old(state).files@ && final(state).selected_indices@
                        == old(state).selected_indices@
                },
                _ => final(state).files@ == old(state).files@ && final(state).selected_indices@
                    == old(state).selected_indices@,
            }
        }),
        final(state).dragging_index is None,
        final(state).hovered_index is None,
{
    if let Some(from) = state.dragging_index {
        if let Some(to) = state.hovered_index {
            if from != to && from < state.files.len() && to < state.files.len() {
                let item = state.files.remove(from);
                state.files.insert(to, item);
                state.selected_indices.clear();
            }
        }
    }
    state.dragging_index = None;
    state.hovered_index = None;
}

/// Selects the file at `index`, or deselects it if it was selected.
pub fn handle_toggle_selection(state: &mut AppState, index: usize)
    ensures
        final(state).selected_indices@ == if old(state).selected_indices@.contains(index) {
            old(state).selected_indices@.remove(index)
        } else {
            old(state).selected_indices@.insert(index)
        },
        final(state).files@ == old(state).files@,
{
    if state.selected_indices.contains(&index) {
        state.selected_indices.remove(&index);
    } else {
        state.selected_indices.insert(index);
    }
}

/// The files from position `i` on whose positions are not in `sel`.
pub open spec fn unselected_from(files: Seq<FileItem>, sel: Set<usize>, i: int) -> Seq<FileItem>
    decreases files.len() - i,
{
    if i < 0 || i >= files.len() {
        Seq::empty()
    } else if sel.contains(i as usize) {
        unselected_from(files, sel, i + 1)
    } else {
        seq![files[i]] + unselected_from(files, sel, i + 1)
    }
}

/// Removes every selected file from the queue and clears the selection.
pub fn handle_delete_selected(state: &mut AppState)
    ensures
        final(state).files@ == unselected_from(old(state).files@, old(state).selected_indices@, 0),
        final(state).selected_indices@ == Set::<usize>::empty(),
{
    let ghost s = state.files@;
    let ghost sel = state.selected_indices@;
    let mut i: usize = state.files.len();
    assert(s.subrange(0, i as int) + unselected_from(s, sel, i as int) =~= s);
    while i > 0
        invariant
            i <= s.len(),
            sel == state.selected_indices@,
            state.files@ == s.subrange(0, i as int) + unselected_from(s, sel, i as int),
        decreases i,
    {
        let ghost before = state.files@;
        if state.selected_indices.contains(&(i - 1)) {
            state.files.remove(i - 1);
            assert(state.files@ =~= s.subrange(0, i - 1) + unselected_from(s, sel, i - 1));
        } else {
            assert(before =~= s.subrange(0, i - 1) + unselected_from(s, sel, i - 1));
        }
        i = i - 1;
    }
    assert(state.files@ =~= unselected_from(s, sel, 0));
    state.selected_indices.clear();
}

/// Empties the queue and the selection.
pub fn handle_clear_list(state: &mut AppState)
    ensures
        final(state).files@.len() == 0,
        final(state).selected_indices@ == Set::<usize>::empty(),
{
    state.files.clear();
    state.selected_indices.clear();
}

/// The index of the first queued file with the identifier.
pub open spec fn first_with_id(files: Seq<FileItem>, id: u128) -> Option<int> {
    if exists|k: int| 0 <= k < files.len() && files[k].id == id {
        Some(choose|k: int| 0 <= k < files.len() && files[k].id == id && forall|j: int| 0 <= j < k ==> files[j].id != id)
    } else {
        None
    }
}

/// Some queued file is still being processed.
pub open spec fn any_processing(files: Seq<FileItem>) -> bool {
    exists|k: int| 0 <= k < files.len() && (#[trigger] files[k]).status is Processing
}

/// Records the outcome of one file: the first file with the identifier becomes `Done` or
/// `Error`. Returns `true`, and ends processing, once no file is still being processed.
pub fn handle_file_converted(state: &mut AppState, id: u128, result: Result<(), String>) -> (finished: bool)
    ensures
        final(state).files@.len() == old(state).files@.len(),
        forall|k: int|
            0 <= k < old(state).files@.len() && (forall|j: int| 0 <= j <= k ==> old(state).files@[j].id != id || j == k) && old(state).files@[k].id == id
                ==> match result {
                Ok(_) => (#[trigger] final(state).files@[k]).status is Done,
                Err(e) => final(state).files@[k].status matches FileStatus::Error(m) && m@ == e@,
            },
        forall|k: int|
            0 <= k < old(state).files@.len() && old(state).files@[k].id != id ==> #[trigger] final(state).files@[k] == old(state).files@[k],
        finished == !any_processing(final(state).files@),
        final(state).is_processing == if finished {
            false
        } else {
            old(state).is_processing
        },
{
    let ghost s = state.files@;
    let n = state.files.len();
    let mut i: usize = 0;
    while i < n && state.files[i].id != id
        invariant
            n == s.len(),
            s == state.files@,
            i <= n,
            forall|j: int| 0 <= j < i ==> s[j].id != id,
        decreases n - i,
    {
        i = i + 1;
    }
    if i < n {
        let status = match result {
            Ok(_) => FileStatus::Done,
            Err(e) => FileStatus::Error(e),
        };
        let mut item = state.files.remove(i);
        item.status = status;
        state.files.insert(i, item);
        assert(state.files@ =~= s.update(i as int, item));
    }
    let mut k: usize = 0;
    while k < state.files.len() && !is_processing(&state.files[k])
        invariant
            k <= state.files@.len(),
            forall|j: int| 0 <= j < k ==> !((#[trigger] state.files@[j]).status is Processing),
        decreases state.files@.len() - k,
    {
        k = k + 1;
    }
    let finished = k >= state.files.len();
    if finished {
        state.is_processing = false;
    }
    finished
}

fn is_processing(item: &FileItem) -> (r: bool)
    ensures
        r == item.status is Processing,
{
    match item.status {
        FileStatus::Processing => true,
        _ => false,
    }
}

/// Ends a batch: processing stops.
pub fn handle_conversion_finished(state: &mut AppState)
    ensures
        !final(state).is_processing,
        final(state).files@ == old(state).files@,
{
    state.is_processing = false;
}

/// Sets the quality from typed text: a number up to 255, capped at 100; other text is ignored.
/// Returns whether the quality was set.
pub fn handle_quality_input(state: &mut AppState, value: &str) -> (changed: bool)
    ensures
        changed == parsed_at_most(value@, 255) is Some,
        final(state).options.quality == match parsed_at_most(value@, 255) {
            Some(v) => if v <= 100 {
                v as u8
            } else {
                100u8
            },
            None => old(state).options.quality,
        },
{
    match parse_at_most(value, 255) {
        Some(v) => {
            state.options.quality = if v <= 100 {
                v as u8
            } else {
                100
            };
            true
        },
        None => false,
    }
}

/// Whether `char::is_numeric` holds of a character.
pub uninterp spec fn is_numeric_of(c: char) -> bool;

/// Relies on `char::is_numeric`, which depends on the character alone.
#[verifier::external_body]
fn char_is_numeric(c: char) -> (r: bool)
    ensures
        r == is_numeric_of(c),
{
    c.is_numeric()
}

/// Every character of the text is numeric.
pub open spec fn all_numeric(s: Seq<char>) -> bool {
    forall|i: int| 0 <= i < s.len() ==> is_numeric_of(#[trigger] s[i])
}

fn is_all_numeric(s: &str) -> (r: bool)
    ensures
        r == all_numeric(s@),
{
    let n = s.unicode_len();
    let mut i: usize = 0;
    while i < n
        invariant
            n == s@.len(),
            i <= n,
            forall|k: int| 0 <= k < i ==> is_numeric_of(#[trigger] s@[k]),
        decreases n - i,
    {
        if !char_is_numeric(s.get_char(i)) {
            return false;
        }
        i = i + 1;
    }
    true
}

/// Sets the target width from typed text made only of numeric characters; other text is
/// ignored. Returns whether the width was set.
pub fn handle_width_changed(state: &mut AppState, v: String) -> (changed: bool)
    ensures
        changed == all_numeric(v@),
        final(state).options.target_width@ == if changed {
            v@
        } else {
            old(state).options.target_width@
        },
{
    if is_all_numeric(v.as_str()) {
        state.options.target_width = v;
        true
    } else {
        false
    }
}

/// Sets the target height from typed text made only of numeric characters; other text is
/// ignored. Returns whether the height was set.
pub fn handle_height_changed(state: &mut AppState, v: String) -> (changed: bool)
    ensures
        changed == all_numeric(v@),
        final(state).options.target_height@ == if changed {
            v@
        } else {
            old(state).options.target_height@
        },
{
    if is_all_numeric(v.as_str()) {
        state.options.target_height = v;
        true
    } else {
        false
    }
}

/// Sets the custom output folder when one was picked. Returns whether it was set.
pub fn handle_output_selected(state: &mut AppState, path_opt: Option<String>) -> (changed: bool)
    ensures
        changed == path_opt is Some,
        match path_opt {
            Some(p) => final(state).options.custom_output_path matches Some(q) && q@ == p@,
            None => final(state).options.custom_output_path == old(state).options.custom_output_path,
        },
{
    match path_opt {
        Some(p) => {
            state.options.custom_output_path = Some(p);
            true
        },
        None => false,
    }
}

} // verus!
