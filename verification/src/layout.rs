use vstd::prelude::*;
use crate::project::Project;

verus! {

broadcast use crate::list::lemma_list_len_fits;

/// The share, in percent, of each subproject that is not focused when `count` of them share
/// the width and the focused one takes `focused` percent: the rest split evenly, rounded
/// down; all of it where there is at most one subproject.
pub open spec fn unfocused_width(focused: u16, count: u16) -> u16 {
    if count <= 1 {
        100
    } else if focused >= 100 {
        0
    } else {
        ((100 - focused) / (count - 1) as int) as u16
    }
}

/// Computes `unfocused_width`.
pub fn unfocused_width_percent(focused: u16, count: u16) -> (r: u16)
    ensures
        r == unfocused_width(focused, count),
{
    if count <= 1 {
        100
    } else if focused >= 100 {
        0
    } else {
        (100 - focused) / (count - 1)
    }
}

/// The share, in percent, of each subproject of `project`, in order: the focused width for
/// the selected one, the unfocused width for the others. The count is taken as a `u16`, as
/// the layout does.
pub fn subproject_widths(project: &Project) -> (r: Vec<u16>)
    ensures
        r@.len() == (project.subprojects@.items.len() as u16) as nat,
        forall|i: int|
            0 <= i < r@.len() ==> #[trigger] r@[i] == if project.subprojects@.selection == Some(i as usize) {
                project.focused_width_percent
            } else {
                unfocused_width(project.focused_width_percent, project.subprojects@.items.len() as u16)
            },
{
    let count = project.subprojects.len() as u16;
    let unfocused = unfocused_width_percent(project.focused_width_percent, count);
    let selected = project.subprojects.selection();
    let mut widths: Vec<u16> = Vec::new();
    for i in 0..count
        invariant
            count == project.subprojects@.items.len() as u16,
            unfocused == unfocused_width(project.focused_width_percent, count),
            selected == project.subprojects@.selection,
            widths@.len() == i,
            forall|j: int|
                0 <= j < i ==> #[trigger] widths@[j] == if selected == Some(j as usize) {
                    project.focused_width_percent
                } else {
                    unfocused
                },
    {
        let w = if selected == Some(i as usize) {
            project.focused_width_percent
        } else {
            unfocused
        };
        widths.push(w);
    }
    widths
}

/// Each line of a list: the bullet `►` before the highlighted item, `•` before the others,
/// then a space and the item's text.
pub fn bulleted_lines(items: &Vec<String>, highlighted: Option<usize>) -> (r: Vec<String>)
    ensures
        r@.len() == items@.len(),
        forall|i: int|
            0 <= i < r@.len() ==> #[trigger] r@[i]@ == (if highlighted == Some(i as usize) {
                "► "@
            } else {
                "• "@
            }) + items@[i]@,
{
    let mut lines: Vec<String> = Vec::new();
    for i in 0..items.len()
        invariant
            lines@.len() == i,
            forall|j: int|
                0 <= j < i ==> #[trigger] lines@[j]@ == (if highlighted == Some(j as usize) {
                    "► "@
                } else {
                    "• "@
                }) + items@[j]@,
    {
        let bullet = if highlighted == Some(i) {
            "► "
        } else {
            "• "
        };
        lines.push(String::from_str(bullet).concat(items[i].as_str()));
    }
    lines
}

/// The focused subproject and the others never take more than the whole width when the
/// focused one takes at most all of it.
pub proof fn lemma_widths_fit(focused: u16, count: u16)
    requires
        count >= 1,
        focused <= 100,
    ensures
        focused + (count - 1) * unfocused_width(focused, count) <= 100 || count == 1,
{
    if count > 1 {
        let u = unfocused_width(focused, count);
        let d = (count - 1) as int;
        assert(u == (100 - focused) / d);
        assert(d * ((100 - focused) / d) <= 100 - focused) by (nonlinear_arith)
            requires
                d > 0,
                100 - focused >= 0,
        ;
    }
}

} // verus!
