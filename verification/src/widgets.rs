use vstd::prelude::*;
use crate::events::{Key, KeyCode, Modifiers};
use crate::list::{selected_removed, selection_stepped, SelectionList};

verus! {

/// What the file list reports after a key press.
#[derive(Clone, Debug)]
pub enum FileListResult {
    AwaitingResult,
    Feedback(String),
    /// The name of the file chosen or typed.
    Result(String),
    Cancelled,
}

/// A rectangle of terminal cells: its top-left corner and its size.
#[derive(Clone, Copy, PartialEq, Eq, Structural, Debug)]
pub struct Rect {
    pub x: u16,
    pub y: u16,
    pub width: u16,
    pub height: u16,
}

/// `a - b`, stopping at 0.
pub open spec fn sat_sub(a: u16, b: u16) -> u16 {
    if a >= b { (a - b) as u16 } else { 0 }
}

/// `a + b`, stopping at the largest `u16`.
pub open spec fn sat_add(a: u16, b: u16) -> u16 {
    if a + b <= u16::MAX { (a + b) as u16 } else { u16::MAX }
}

pub open spec fn max_u16(a: u16, b: u16) -> u16 {
    if a >= b { a } else { b }
}

pub open spec fn min_u16(a: u16, b: u16) -> u16 {
    if a <= b { a } else { b }
}

/// Where a box of `size` cells is placed inside a span starting at `start` of `span` cells
/// with `margin` cells kept clear: centred, but no nearer the start than the margin.
pub open spec fn centred_start(start: u16, span: u16, size: u16, margin: u16) -> u16 {
    max_u16(sat_add(start, margin), (start + sat_sub(span, size) / 2) as u16)
}

/// A rectangle of `width` by `height` centred in `chunk`, kept `margin` cells inside it: the
/// rectangle that is then handed to the terminal library, which may shrink it further.
pub fn center_rect(width: u16, height: u16, chunk: Rect, margin: u16) -> (r: Rect)
    requires
        chunk.x + sat_sub(chunk.width, width) / 2 <= u16::MAX,
        chunk.y + sat_sub(chunk.height, height) / 2 <= u16::MAX,
        margin * 2 <= u16::MAX,
    ensures
        r.x == centred_start(chunk.x, chunk.width, width, margin),
        r.y == centred_start(chunk.y, chunk.height, height, margin),
        r.width == min_u16(width, sat_sub(chunk.width, (margin * 2) as u16)),
        r.height == min_u16(height, sat_sub(chunk.height, (margin * 2) as u16)),
{
    let x_margin = chunk.x.saturating_add(margin);
    let x_centre = chunk.x + chunk.width.saturating_sub(width) / 2;
    let y_margin = chunk.y.saturating_add(margin);
    let y_centre = chunk.y + chunk.height.saturating_sub(height) / 2;
    let w_room = chunk.width.saturating_sub(margin * 2);
    let h_room = chunk.height.saturating_sub(margin * 2);
    Rect {
        x: if x_margin >= x_centre { x_margin } else { x_centre },
        y: if y_margin >= y_centre { y_margin } else { y_centre },
        width: if width <= w_room { width } else { w_room },
        height: if height <= h_room { height } else { h_room },
    }
}


/// Which part of the file list takes the keys.
#[derive(Clone, Copy, PartialEq, Eq, Structural, Debug)]
pub enum Focus {
    FileList,
    Prompt,
}

/// What the file list holds apart from its looks: the file names, in order, one of them
/// selected, and which part takes the keys.
pub struct FileListState {
    pub files: SelectionList<String>,
    pub focus: Focus,
}

/// What is left for the caller to do after a key press in the file list.
#[derive(Clone, Debug)]
pub enum FileListStep {
    /// Nothing; the list waits for more keys.
    Await,
    Cancel,
    /// Read the directory again.
    Refresh,
    /// Remove this file, read the directory again, and report it.
    Delete(String),
    /// This file was chosen.
    Choose(String),
    /// The text of the prompt was confirmed: take it, and empty the prompt.
    SubmitPrompt,
    /// Hand the key to the prompt's text.
    EditPrompt,
}

/// What a key press does to the file list `pre_state`, leaving `post_state`, and what it
/// reports (`r`).
pub open spec fn file_list_key_effect(pre_state: FileListState, post_state: FileListState, key: Key, r: FileListStep) -> bool {
    let pre = pre_state.files@;
    let post = post_state.files@;
    match (key.code, key.modifiers, pre_state.focus) {
        (KeyCode::Esc, Modifiers::Plain, _) => r is Cancel && post_state == pre_state,
        (KeyCode::F(5), Modifiers::Plain, _) => r is Refresh && post_state == pre_state,
        (KeyCode::Tab, Modifiers::Plain, Focus::FileList) => r is Await && post == pre
            && post_state.focus == Focus::Prompt,
        (KeyCode::Char('j'), Modifiers::Plain, Focus::FileList) => r is Await
            && post == pre.with_selection(pre.next_index()) && post_state.focus == Focus::FileList,
        (KeyCode::Char('k'), Modifiers::Plain, Focus::FileList) => r is Await
            && post == pre.with_selection(pre.prev_index()) && post_state.focus == Focus::FileList,
        (KeyCode::Char('d'), Modifiers::Plain, Focus::FileList) => {
            &&& post == pre.after_pop()
            &&& post_state.focus == Focus::FileList
            &&& match pre.selection {
                Some(i) => r matches FileListStep::Delete(name) && name == pre.items[i as int],
                None => r is Await,
            }
        },
        (KeyCode::Enter, Modifiers::Plain, Focus::FileList) => {
            &&& post_state == pre_state
            &&& match pre.position(None) {
                Some(i) => r matches FileListStep::Choose(name) && name@ == pre.items[i as int]@,
                None => r is Await,
            }
        },
        (_, _, Focus::FileList) => r is Await && post_state == pre_state,
        (KeyCode::Tab, Modifiers::Plain, Focus::Prompt) => r is Await && post == pre
            && post_state.focus == Focus::FileList,
        (KeyCode::Enter, Modifiers::Plain, Focus::Prompt) => r is SubmitPrompt && post_state
            == pre_state,
        (_, _, Focus::Prompt) => r is EditPrompt && post_state == pre_state,
    }
}

impl FileListState {
    /// A list of the given files, the first selected, taking the keys.
    pub fn new(files: Vec<String>) -> (r: FileListState)
        ensures
            r.files@.items == files@,
            r.files@.selection == if files@.len() == 0 { None } else { Some(0usize) },
            r.focus == Focus::FileList,
    {
        let mut list = SelectionList::from_vec(files);
        list.select_next();
        FileListState { files: list, focus: Focus::FileList }
    }

    /// Takes the file names read again from the directory, keeping the selection as it was,
    /// even where it is now past the last name.
    pub fn refresh(&mut self, names: Vec<String>)
        ensures
            final(self).files@.items == names@,
            final(self).files@.selection == old(self).files@.selection,
            final(self).focus == old(self).focus,
    {
        let selection = self.files.selection();
        self.files = SelectionList::from_parts(names, selection);
    }

    /// Whether the list can take `key` without an arithmetic or index fault: moving down
    /// needs room after the selection, moving up from the first place needs a name, and
    /// deleting needs the selection to point at a name. A list whose selection points at a
    /// name takes every key.
    pub open spec fn takes_key(self, key: Key) -> bool {
        (self.focus == Focus::FileList && key.modifiers == Modifiers::Plain) ==> match key.code {
            KeyCode::Char('j') => self.files@.selection != Some(usize::MAX),
            KeyCode::Char('k') => self.files@.selection == Some(0usize) ==> self.files@.items.len() > 0,
            KeyCode::Char('d') => self.files@.selection matches Some(i) ==> i < self.files@.items.len(),
            _ => true,
        }
    }

    /// Tells whether the list can take `key` (see `takes_key`).
    pub fn can_take(&self, key: Key) -> (r: bool)
        ensures
            r == self.takes_key(key),
    {
        if self.focus == Focus::FileList && key.modifiers == Modifiers::Plain {
            let selection = self.files.selection();
            let len = self.files.len();
            match key.code {
                KeyCode::Char('j') => selection != Some(usize::MAX),
                KeyCode::Char('k') => selection != Some(0usize) || len > 0,
                KeyCode::Char('d') => match selection {
                    Some(i) => i < len,
                    None => true,
                },
                _ => true,
            }
        } else {
            true
        }
    }

    /// Handles a key press in the file list.
    pub fn handle_key(&mut self, key: Key) -> (r: FileListStep)
        requires
            old(self).takes_key(key),
        ensures
            old(self).files@.wf() ==> final(self).files@.wf(),
            file_list_key_effect(*old(self), *final(self), key, r),
    {
        match (key.code, key.modifiers) {
            (KeyCode::Esc, Modifiers::Plain) => {
                return FileListStep::Cancel;
            },
            (KeyCode::F(5), Modifiers::Plain) => {
                return FileListStep::Refresh;
            },
            _ => {},
        }
        match self.focus {
            Focus::FileList => match (key.code, key.modifiers) {
                (KeyCode::Tab, Modifiers::Plain) => {
                    self.focus = Focus::Prompt;
                    FileListStep::Await
                },
                (KeyCode::Char('j'), Modifiers::Plain) => {
                    self.files.select_next();
                    FileListStep::Await
                },
                (KeyCode::Char('k'), Modifiers::Plain) => {
                    self.files.select_prev();
                    FileListStep::Await
                },
                (KeyCode::Char('d'), Modifiers::Plain) => match self.files.pop_selected() {
                    Some(name) => FileListStep::Delete(name),
                    None => FileListStep::Await,
                },
                (KeyCode::Enter, Modifiers::Plain) => match self.files.selected() {
                    Some(name) => FileListStep::Choose(name.clone()),
                    None => FileListStep::Await,
                },
                _ => FileListStep::Await,
            },
            Focus::Prompt => match (key.code, key.modifiers) {
                (KeyCode::Tab, Modifiers::Plain) => {
                    self.focus = Focus::FileList;
                    FileListStep::Await
                },
                (KeyCode::Enter, Modifiers::Plain) => FileListStep::SubmitPrompt,
                _ => FileListStep::EditPrompt,
            },
        }
    }
}

/// What keys do in a file list whose selection points at a name or is none. With the list
/// taking the keys, `j` and `k` step the selection on and back, going round; `d` removes the
/// selected name and hands it back to be deleted; Enter hands the selected name back to be
/// opened. Tab passes the keys between the list and the prompt. With the prompt taking the
/// keys, Enter hands its text back and other keys edit it. Esc gives up and F5 asks for the
/// directory to be read again, whichever part takes the keys.
pub proof fn lemma_file_list_keys(pre: FileListState, post: FileListState, key: Key, r: FileListStep)
    requires
        pre.files@.wf(),
        file_list_key_effect(pre, post, key, r),
    ensures
        ({
            let plain = key.modifiers == Modifiers::Plain;
            let on_list = pre.focus == Focus::FileList;
            let before = pre.files@;
            let after = post.files@;
            let global = key.code == KeyCode::Esc || key.code == KeyCode::F(5) || key.code == KeyCode::Tab;
            &&& (key.code == KeyCode::Esc && plain) ==> r is Cancel && post == pre
            &&& (key.code == KeyCode::F(5) && plain) ==> r is Refresh && post == pre
            &&& (key.code == KeyCode::Tab && plain) ==> r is Await && after == before && post.focus != pre.focus
            &&& (on_list && key.code == KeyCode::Char('j') && plain) ==> r is Await && post.focus == pre.focus
                && selection_stepped(before, after, true)
            &&& (on_list && key.code == KeyCode::Char('k') && plain) ==> r is Await && post.focus == pre.focus
                && selection_stepped(before, after, false)
            &&& (on_list && key.code == KeyCode::Char('d') && plain) ==> {
                &&& post.focus == pre.focus
                &&& selected_removed(before, after)
                &&& match before.selection {
                    Some(i) => r matches FileListStep::Delete(name) && name == before.items[i as int],
                    None => r is Await,
                }
            }
            &&& (on_list && key.code == KeyCode::Enter && plain) ==> {
                &&& post == pre
                &&& match before.selection {
                    Some(i) => r matches FileListStep::Choose(name) && name@ == before.items[i as int]@,
                    None => r is Await,
                }
            }
            &&& (!on_list && key.code == KeyCode::Enter && plain) ==> r is SubmitPrompt && post == pre
            &&& (!on_list && !(global && plain) && !(key.code == KeyCode::Enter && plain)) ==> r is EditPrompt
                && post == pre
        }),
{
    crate::list::lemma_list_steps(pre.files@);
    crate::list::lemma_pop_removes_selected(pre.files@);
}

/// The message that reports that the file `name` was deleted.
pub fn deleted_file_message(name: &str) -> (r: String)
    ensures
        r@ == "Deleted project file: "@ + name@,
{
    String::from_str("Deleted project file: ").concat(name)
}

/// What a text prompt does with a key: gives up, confirms its text, or edits it.
#[derive(Clone, Copy, PartialEq, Eq, Structural, Debug)]
pub enum PromptKey {
    Cancel,
    Confirm,
    Edit,
}

/// What a text prompt does with `code`: `Esc` gives up, `Enter` confirms, any other key edits.
pub fn prompt_key(code: KeyCode) -> (r: PromptKey)
    ensures
        r == match code {
            KeyCode::Esc => PromptKey::Cancel,
            KeyCode::Enter => PromptKey::Confirm,
            _ => PromptKey::Edit,
        },
{
    match code {
        KeyCode::Esc => PromptKey::Cancel,
        KeyCode::Enter => PromptKey::Confirm,
        _ => PromptKey::Edit,
    }
}


/// The ages, in order, never go down.
pub open spec fn ages_ascending(entries: Seq<(String, u128)>) -> bool {
    forall|i: int, j: int| 0 <= i < j < entries.len() ==> entries[i].1 <= entries[j].1
}

/// `out` holds the entries of `input` at the positions `perm`, each position once, and
/// entries of equal age keep the order they had in `input`.
pub open spec fn stable_arrangement(out: Seq<(String, u128)>, input: Seq<(String, u128)>, perm: Seq<int>) -> bool {
    &&& perm.len() == out.len()
    &&& forall|i: int| 0 <= i < out.len() ==> 0 <= #[trigger] perm[i] < input.len() && out[i] == input[perm[i]]
    &&& forall|i: int, j: int| 0 <= i < j < out.len() ==> perm[i] != perm[j]
    &&& forall|i: int, j: int| 0 <= i < j < out.len() && out[i].1 == out[j].1 ==> perm[i] < perm[j]
}

/// Orders files, given with their ages, youngest first; files of the same age keep their
/// order.
pub fn order_by_age(entries: Vec<(String, u128)>) -> (r: Vec<(String, u128)>)
    ensures
        ages_ascending(r@),
        r@.to_multiset() == entries@.to_multiset(),
        r@.len() == entries@.len(),
        exists|perm: Seq<int>| stable_arrangement(r@, entries@, perm),
{
    broadcast use vstd::seq_lib::group_to_multiset_ensures;

    let ghost input = entries@;
    let mut rest = entries;
    let mut out: Vec<(String, u128)> = Vec::new();
    let ghost mut perm: Seq<int> = Seq::empty();
    while rest.len() > 0
        invariant
            ages_ascending(out@),
            out@.to_multiset().add(rest@.to_multiset()) == input.to_multiset(),
            out@.len() + rest@.len() == input.len(),
            rest@ == input.skip(out@.len() as int),
            perm.len() == out@.len(),
            forall|i: int| 0 <= i < out@.len() ==> 0 <= #[trigger] perm[i] < out@.len() && out@[i] == input[perm[i]],
            forall|i: int, j: int| 0 <= i < j < out@.len() ==> perm[i] != perm[j],
            forall|i: int, j: int| 0 <= i < j < out@.len() && out@[i].1 == out@[j].1 ==> perm[i] < perm[j],
        decreases rest.len(),
    {
        let ghost rest0 = rest@;
        let ghost out0 = out@;
        let ghost perm0 = perm;
        let ghost n = out@.len() as int;
        let entry = rest.remove(0);
        proof {
            vstd::seq_lib::to_multiset_remove(rest0, 0);
            assert(rest0[0] == entry);
            assert(rest0.contains(entry));
            vstd::seq_lib::to_multiset_contains(rest0, entry);
            assert(entry == input[n]);
        }
        let mut k: usize = 0;
        while k < out.len() && out[k].1 <= entry.1
            invariant
                k <= out@.len(),
                out@ == out0,
                forall|j: int| 0 <= j < k ==> out@[j].1 <= entry.1,
            decreases out@.len() - k,
        {
            k = k + 1;
        }
        let ghost age = entry.1;
        out.insert(k, entry);
        proof {
            perm = perm0.insert(k as int, n);
            vstd::seq_lib::to_multiset_insert(out0, k as int, out@[k as int]);
            assert forall|i: int, j: int| 0 <= i < j < out@.len() implies out@[i].1 <= out@[j].1 by {
                if j < k {
                } else if j == k {
                } else if i < k {
                    if k < out0.len() {
                        assert(out0[k as int].1 > age);
                    }
                } else if i == k {
                    assert(out0[k as int].1 > age);
                }
            }
            assert forall|i: int| 0 <= i < out@.len() implies 0 <= #[trigger] perm[i] < out@.len() && out@[i] == input[perm[i]] by {
                if i < k {
                    assert(perm[i] == perm0[i]);
                } else if i == k {
                } else {
                    assert(perm[i] == perm0[i - 1]);
                }
            }
            assert forall|i: int, j: int| 0 <= i < j < out@.len() implies perm[i] != perm[j] by {
                if i < k && j < k {
                } else if i < k && j == k {
                    assert(perm0[i] < n);
                } else if i < k {
                    assert(perm[j] == perm0[j - 1]);
                } else if i == k {
                    assert(perm[j] == perm0[j - 1]);
                    assert(perm0[j - 1] < n);
                } else {
                    assert(perm[i] == perm0[i - 1]);
                    assert(perm[j] == perm0[j - 1]);
                }
            }
            assert forall|i: int, j: int| 0 <= i < j < out@.len() && out@[i].1 == out@[j].1 implies perm[i] < perm[j] by {
                if i < k && j < k {
                } else if i < k && j == k {
                    assert(perm0[i] < n);
                } else if i < k {
                    assert(perm[j] == perm0[j - 1]);
                } else if i == k {
                    assert(out0[j - 1].1 >= out0[k as int].1);
                    assert(out0[k as int].1 > age);
                } else {
                    assert(perm[i] == perm0[i - 1]);
                    assert(perm[j] == perm0[j - 1]);
                }
            }
            assert(out@ == out0.insert(k as int, entry));
            assert(rest@ == rest0.remove(0));
            assert(rest@ =~= input.skip(out@.len() as int));
            assert(out@.to_multiset() == out0.to_multiset().insert(entry));
            assert(rest@.to_multiset() == rest0.to_multiset().remove(entry));
            assert(out@.to_multiset().add(rest@.to_multiset()) =~= out0.to_multiset().add(rest0.to_multiset()));
        }
    }
    proof {
        assert(rest@ =~= Seq::<(String, u128)>::empty());
        assert(out@.to_multiset() =~= input.to_multiset());
        assert(stable_arrangement(out@, input, perm));
    }
    out
}

/// The names of files given with their ages, youngest first.
pub fn newest_first(entries: Vec<(String, u128)>) -> (r: Vec<String>)
    ensures
        exists|ordered: Seq<(String, u128)>, perm: Seq<int>|
            ages_ascending(ordered) && ordered.to_multiset() == entries@.to_multiset()
                && stable_arrangement(ordered, entries@, perm) && r@.len() == ordered.len() && (forall|i: int|
                0 <= i < ordered.len() ==> #[trigger] r@[i] == ordered[i].0),
{
    let ordered = order_by_age(entries);
    let mut names: Vec<String> = Vec::new();
    let ghost ord = ordered@;
    assert(ord.len() == ordered.len());
    let mut rest = ordered;
    let mut taken: usize = 0;
    while rest.len() > 0
        invariant
            taken + rest@.len() == ord.len(),
            ord.len() <= usize::MAX,
            rest@ == ord.subrange(taken as int, ord.len() as int),
            names@.len() == taken,
            forall|i: int| 0 <= i < taken ==> #[trigger] names@[i] == ord[i].0,
        decreases rest.len(),
    {
        let (name, _age) = rest.remove(0);
        names.push(name);
        taken = taken + 1;
        assert(rest@ =~= ord.subrange(taken as int, ord.len() as int));
    }
    names
}

} // verus!
