//! What a front end shows of a store: how much is done, the coarse band
//! that the progress falls in, and the marker of a category.

use crate::dates::Date;
use crate::shell::{rows_of, TaskRow, TaskRowView};
use crate::storage::{count_done, lemma_count_done_all, lemma_count_done_bounded, TaskStore};
use crate::tasks::TaskView;
use crate::text::same_text;
use vstd::prelude::*;

verus! {

/// The share `done / total` of completed tasks; with no tasks at all the
/// share is zero.
#[derive(Clone, Copy, Debug, PartialEq, Eq, Structural)]
pub struct Ratio {
    pub done: usize,
    pub total: usize,
}

impl Ratio {
    /// The share is the number 0.
    pub open spec fn is_zero(self) -> bool {
        self.total == 0 || self.done == 0
    }

    /// The share is the number 1.
    pub open spec fn is_one(self) -> bool {
        self.total > 0 && self.done == self.total
    }

    /// The share is strictly less than `num / den`, for a positive `den`.
    pub open spec fn below(self, num: int, den: int) -> bool {
        if self.total == 0 {
            0 < num
        } else {
            self.done * den < num * self.total
        }
    }

    /// `self` is the completion ratio of `tasks`.
    pub open spec fn is_ratio_of(self, tasks: Seq<TaskView>) -> bool {
        self.done == count_done(tasks) && self.total == tasks.len()
    }
}

/// The completion ratio of a store: done tasks over all tasks.
pub fn completion_ratio(store: &TaskStore) -> (ratio: Ratio)
    ensures
        ratio.is_ratio_of(store@),
        ratio.done <= ratio.total,
{
    proof {
        lemma_count_done_bounded(store@);
    }
    Ratio { done: store.done_count(), total: store.len() }
}

/// A coarse bucket for a completion ratio.
#[derive(Clone, Copy, Debug, PartialEq, Eq, Structural)]
pub enum Band {
    Low,
    Medium,
    High,
}

/// The band of a ratio: low below 3/10, medium from 3/10 up to but not
/// including 7/10, high from 7/10 on. The two bounds are exact.
pub open spec fn band_of(ratio: Ratio) -> Band {
    if ratio.below(3, 10) {
        Band::Low
    } else if ratio.below(7, 10) {
        Band::Medium
    } else {
        Band::High
    }
}

/// The band that `ratio` falls in.
pub fn completion_band(ratio: Ratio) -> (band: Band)
    ensures
        band == band_of(ratio),
{
    if ratio.total == 0 {
        return Band::Low;
    }
    let done: u128 = ratio.done as u128;
    let total: u128 = ratio.total as u128;
    if done * 10 < 3 * total {
        Band::Low
    } else if done * 10 < 7 * total {
        Band::Medium
    } else {
        Band::High
    }
}

/// The progress of a store that holds tasks: the completion ratio and the
/// band it falls in.
#[derive(Clone, Copy, Debug, PartialEq, Eq, Structural)]
pub struct Progress {
    pub ratio: Ratio,
    pub band: Band,
}

/// The progress to show for a store, or `None` for a store without tasks,
/// which has no progress to show.
pub fn progress(store: &TaskStore) -> (shown: Option<Progress>)
    ensures
        match shown {
            Some(progress) => {
                &&& store@.len() > 0
                &&& progress.ratio.is_ratio_of(store@)
                &&& progress.band == band_of(progress.ratio)
            },
            None => store@.len() == 0,
        },
{
    if store.is_empty() {
        None
    } else {
        let ratio = completion_ratio(store);
        Some(Progress { ratio, band: completion_band(ratio) })
    }
}

/// The completion ratio of the empty store is 0.
pub proof fn lemma_ratio_of_empty(ratio: Ratio)
    requires
        ratio.is_ratio_of(Seq::<TaskView>::empty()),
    ensures
        ratio.is_zero(),
{
}

/// The completion ratio of a store that holds tasks, all of them done, is 1.
pub proof fn lemma_ratio_of_all_done(tasks: Seq<TaskView>, ratio: Ratio)
    requires
        ratio.is_ratio_of(tasks),
        tasks.len() > 0,
        forall|i: int| 0 <= i < tasks.len() ==> (#[trigger] tasks[i]).done,
    ensures
        ratio.is_one(),
{
    lemma_count_done_all(tasks);
}

/// A ratio of 0 lies in the low band and a ratio of 1 in the high band.
pub proof fn lemma_band_of_extremes(ratio: Ratio)
    ensures
        ratio.is_zero() ==> band_of(ratio) == Band::Low,
        ratio.is_one() ==> band_of(ratio) == Band::High,
{
}

/// The category presets, as they are stored in a task.
pub const PERSONAL: &'static str = "Личное";

pub const WORK: &'static str = "Работа";

pub const STUDY: &'static str = "Учёба";

pub const PROJECT: &'static str = "Проект";

pub const OTHER: &'static str = "Другое";

/// How many presets there are.
pub const PRESET_COUNT: usize = 5;

/// The marker under which a category is shown: one for each preset, and
/// `Unknown` for any other text.
#[derive(Clone, Copy, Debug, PartialEq, Eq, Structural)]
pub enum CategoryLabel {
    Personal,
    Work,
    Study,
    Project,
    Other,
    Unknown,
}

/// A display colour: red, green, blue.
#[derive(Clone, Copy, Debug, PartialEq, Eq, Structural)]
pub struct Rgb {
    pub r: u8,
    pub g: u8,
    pub b: u8,
}

/// The marker of a category text.
pub open spec fn label_of(category: Seq<char>) -> CategoryLabel {
    if category == PERSONAL@ {
        CategoryLabel::Personal
    } else if category == WORK@ {
        CategoryLabel::Work
    } else if category == STUDY@ {
        CategoryLabel::Study
    } else if category == PROJECT@ {
        CategoryLabel::Project
    } else if category == OTHER@ {
        CategoryLabel::Other
    } else {
        CategoryLabel::Unknown
    }
}

/// The marker to show for `category`. Text that is no preset gets the
/// `Unknown` marker; nothing is rejected.
pub fn category_label(category: &str) -> (label: CategoryLabel)
    ensures
        label == label_of(category@),
{
    if same_text(category, PERSONAL) {
        CategoryLabel::Personal
    } else if same_text(category, WORK) {
        CategoryLabel::Work
    } else if same_text(category, STUDY) {
        CategoryLabel::Study
    } else if same_text(category, PROJECT) {
        CategoryLabel::Project
    } else if same_text(category, OTHER) {
        CategoryLabel::Other
    } else {
        CategoryLabel::Unknown
    }
}

impl CategoryLabel {
    /// The text that a preset is stored as. `Unknown` stands for no one text.
    pub open spec fn preset_text(self) -> Option<Seq<char>> {
        match self {
            CategoryLabel::Personal => Some(PERSONAL@),
            CategoryLabel::Work => Some(WORK@),
            CategoryLabel::Study => Some(STUDY@),
            CategoryLabel::Project => Some(PROJECT@),
            CategoryLabel::Other => Some(OTHER@),
            CategoryLabel::Unknown => None,
        }
    }

    /// The colour of each marker.
    pub open spec fn rgb(self) -> Rgb {
        match self {
            CategoryLabel::Personal => Rgb { r: 46, g: 204, b: 113 },
            CategoryLabel::Work => Rgb { r: 70, g: 130, b: 180 },
            CategoryLabel::Study => Rgb { r: 123, g: 104, b: 238 },
            CategoryLabel::Project => Rgb { r: 255, g: 165, b: 0 },
            CategoryLabel::Other => Rgb { r: 220, g: 220, b: 220 },
            CategoryLabel::Unknown => Rgb { r: 160, g: 160, b: 160 },
        }
    }

    /// The text under which a preset is stored, or `None` for `Unknown`.
    pub fn name(&self) -> (text: Option<&'static str>)
        ensures
            match text {
                Some(name) => self.preset_text() == Some(name@),
                None => self.preset_text() is None,
            },
    {
        match self {
            CategoryLabel::Personal => Some(PERSONAL),
            CategoryLabel::Work => Some(WORK),
            CategoryLabel::Study => Some(STUDY),
            CategoryLabel::Project => Some(PROJECT),
            CategoryLabel::Other => Some(OTHER),
            CategoryLabel::Unknown => None,
        }
    }

    /// The colour in which the marker is drawn.
    pub fn color(&self) -> (rgb: Rgb)
        ensures
            rgb == self.rgb(),
    {
        match self {
            CategoryLabel::Personal => Rgb { r: 46, g: 204, b: 113 },
            CategoryLabel::Work => Rgb { r: 70, g: 130, b: 180 },
            CategoryLabel::Study => Rgb { r: 123, g: 104, b: 238 },
            CategoryLabel::Project => Rgb { r: 255, g: 165, b: 0 },
            CategoryLabel::Other => Rgb { r: 220, g: 220, b: 220 },
            CategoryLabel::Unknown => Rgb { r: 160, g: 160, b: 160 },
        }
    }
}

/// The presets in the order in which they are offered.
pub open spec fn preset_at(index: int) -> CategoryLabel {
    if index == 0 {
        CategoryLabel::Personal
    } else if index == 1 {
        CategoryLabel::Work
    } else if index == 2 {
        CategoryLabel::Study
    } else if index == 3 {
        CategoryLabel::Project
    } else if index == 4 {
        CategoryLabel::Other
    } else {
        CategoryLabel::Unknown
    }
}

/// The preset offered at `index`, or `Unknown` past the last one.
pub fn preset(index: usize) -> (label: CategoryLabel)
    ensures
        label == preset_at(index as int),
{
    if index == 0 {
        CategoryLabel::Personal
    } else if index == 1 {
        CategoryLabel::Work
    } else if index == 2 {
        CategoryLabel::Study
    } else if index == 3 {
        CategoryLabel::Project
    } else if index == 4 {
        CategoryLabel::Other
    } else {
        CategoryLabel::Unknown
    }
}

/// Each preset is shown under its own marker: the five texts differ, and
/// the text of a preset is labelled as that preset.
pub proof fn lemma_label_of_preset(label: CategoryLabel)
    requires
        label != CategoryLabel::Unknown,
    ensures
        label.preset_text() matches Some(text) && label_of(text) == label,
{
    reveal_strlit("Личное");
    reveal_strlit("Работа");
    reveal_strlit("Учёба");
    reveal_strlit("Проект");
    reveal_strlit("Другое");
    assert(PERSONAL@[0] == 'Л');
    assert(WORK@[0] == 'Р');
    assert(STUDY@[0] == 'У');
    assert(PROJECT@[0] == 'П');
    assert(OTHER@[0] == 'Д');
}

/// A task as it is shown: its row in the listing, the marker of its
/// category, and whether it is overdue.
#[derive(Debug, PartialEq, Eq)]
pub struct TaskDisplay {
    pub row: TaskRow,
    pub label: CategoryLabel,
    pub overdue: bool,
}

/// The mathematical value of a `TaskDisplay`.
pub ghost struct TaskDisplayView {
    pub row: TaskRowView,
    pub label: CategoryLabel,
    pub overdue: bool,
}

impl View for TaskDisplay {
    type V = TaskDisplayView;

    open spec fn view(&self) -> TaskDisplayView {
        TaskDisplayView { row: self.row@, label: self.label, overdue: self.overdue }
    }
}

/// How `tasks` are shown on `today`: each task in order with its position,
/// the marker of its category, and its overdue flag.
pub open spec fn display_of(tasks: Seq<TaskView>, today: Date) -> Seq<TaskDisplayView> {
    Seq::new(
        tasks.len(),
        |i: int|
            TaskDisplayView {
                row: rows_of(tasks)[i],
                label: label_of(tasks[i].category),
                overdue: tasks[i].overdue_on(today),
            },
    )
}

/// The values of a sequence of shown tasks, in the same order.
pub open spec fn display_views(shown: Seq<TaskDisplay>) -> Seq<TaskDisplayView> {
    shown.map_values(|task: TaskDisplay| task@)
}

/// What to show for each task of the store on `today`. The store is only
/// read.
pub fn describe_tasks(store: &TaskStore, today: Date) -> (shown: Vec<TaskDisplay>)
    ensures
        display_views(shown@) == display_of(store@, today),
{
    let tasks = store.tasks();
    let mut shown: Vec<TaskDisplay> = Vec::new();
    let mut i: usize = 0;
    while i < tasks.len()
        invariant
            i <= tasks.len(),
            shown@.len() == i,
            forall|j: int|
                0 <= j < i ==> (#[trigger] shown@[j])@ == (TaskDisplayView {
                    row: TaskRowView { position: (j + 1) as nat, task: tasks@[j]@ },
                    label: label_of(tasks@[j]@.category),
                    overdue: tasks@[j]@.overdue_on(today),
                }),
        decreases tasks.len() - i,
    {
        let task = &tasks[i];
        let overdue = task.is_overdue(today);
        let label = category_label(task.category.as_str());
        let copy = task.clone();
        let row = TaskRow {
            position: i + 1,
            done: copy.done,
            description: copy.description,
            deadline: copy.deadline,
            category: copy.category,
        };
        shown.push(TaskDisplay { row, label, overdue });
        i = i + 1;
    }
    assert(display_views(shown@) =~= display_of(store@, today));
    shown
}

} // verus!
