use tasker::dates::Date;
use tasker::display::{
    category_label, completion_band, completion_ratio, describe_tasks, preset, progress, Band,
    CategoryLabel, Progress, Ratio, Rgb, TaskDisplay, OTHER, PERSONAL, PRESET_COUNT, PROJECT,
    STUDY, WORK,
};
use tasker::shell::{list_tasks, TaskRow};
use tasker::storage::TaskStore;
use tasker::tasks::Task;

fn store_with(done: usize, pending: usize) -> TaskStore {
    let mut store = TaskStore::new();
    for i in 0..done + pending {
        store.append(Task::new(format!("task {}", i), None, "Личное".to_string()));
    }
    for i in 0..done {
        store.toggle_done(pending + i).unwrap();
    }
    store
}

fn as_float(ratio: Ratio) -> f32 {
    if ratio.total == 0 {
        0.0
    } else {
        ratio.done as f32 / ratio.total as f32
    }
}

#[test]
fn completion_ratio_of_the_empty_store_is_zero() {
    let ratio = completion_ratio(&TaskStore::new());
    assert_eq!(ratio, Ratio { done: 0, total: 0 });
    assert_eq!(as_float(ratio), 0.0);
    assert_eq!(completion_band(ratio), Band::Low);
}

#[test]
fn completion_ratio_of_an_all_done_store_is_one() {
    for n in [1usize, 2, 7] {
        let ratio = completion_ratio(&store_with(n, 0));
        assert_eq!(ratio, Ratio { done: n, total: n });
        assert_eq!(as_float(ratio), 1.0);
        assert_eq!(completion_band(ratio), Band::High);
    }
}

#[test]
fn completion_ratio_counts_done_over_all() {
    assert_eq!(completion_ratio(&store_with(1, 2)), Ratio { done: 1, total: 3 });
    assert_eq!(completion_ratio(&store_with(0, 4)), Ratio { done: 0, total: 4 });
    assert_eq!(completion_ratio(&store_with(3, 1)), Ratio { done: 3, total: 4 });
    assert_eq!(as_float(completion_ratio(&store_with(1, 3))), 0.25);
}

#[test]
fn completion_band_bounds_are_exact() {
    assert_eq!(completion_band(Ratio { done: 29, total: 100 }), Band::Low);
    assert_eq!(completion_band(Ratio { done: 30, total: 100 }), Band::Medium);
    assert_eq!(completion_band(Ratio { done: 3, total: 10 }), Band::Medium);
    assert_eq!(completion_band(Ratio { done: 69, total: 100 }), Band::Medium);
    assert_eq!(completion_band(Ratio { done: 70, total: 100 }), Band::High);
    assert_eq!(completion_band(Ratio { done: 7, total: 10 }), Band::High);
}

#[test]
fn completion_band_at_the_ends() {
    assert_eq!(completion_band(Ratio { done: 0, total: 0 }), Band::Low);
    assert_eq!(completion_band(Ratio { done: 0, total: 5 }), Band::Low);
    assert_eq!(completion_band(Ratio { done: 1, total: 1 }), Band::High);
    assert_eq!(completion_band(Ratio { done: 5, total: 5 }), Band::High);
    assert_eq!(completion_band(Ratio { done: 1, total: 2 }), Band::Medium);
}

#[test]
fn completion_band_close_to_the_bounds() {
    assert_eq!(completion_band(Ratio { done: 299, total: 1000 }), Band::Low);
    assert_eq!(completion_band(Ratio { done: 300, total: 1000 }), Band::Medium);
    assert_eq!(completion_band(Ratio { done: 699, total: 1000 }), Band::Medium);
    assert_eq!(completion_band(Ratio { done: 700, total: 1000 }), Band::High);
    assert_eq!(completion_band(Ratio { done: 2, total: 7 }), Band::Low);
    assert_eq!(completion_band(Ratio { done: 5, total: 7 }), Band::High);
}

#[test]
fn completion_band_does_not_overflow() {
    let max = usize::MAX;
    assert_eq!(completion_band(Ratio { done: max, total: max }), Band::High);
    assert_eq!(completion_band(Ratio { done: 0, total: max }), Band::Low);
    assert_eq!(completion_band(Ratio { done: max / 2, total: max }), Band::Medium);
    assert_eq!(completion_band(Ratio { done: max / 10 * 3 - 1, total: max }), Band::Low);
    assert_eq!(completion_band(Ratio { done: max / 10 * 7 + 7, total: max }), Band::High);
}

#[test]
fn completion_band_agrees_with_the_float_ratio() {
    for total in 1usize..=120 {
        for done in 0..=total {
            let ratio = Ratio { done, total };
            let share = as_float(ratio);
            let expected = if share < 0.3 {
                Band::Low
            } else if share < 0.7 {
                Band::Medium
            } else {
                Band::High
            };
            assert_eq!(completion_band(ratio), expected, "{}/{}", done, total);
        }
    }
}

#[test]
fn each_preset_has_its_marker() {
    assert_eq!(category_label("Личное"), CategoryLabel::Personal);
    assert_eq!(category_label("Работа"), CategoryLabel::Work);
    assert_eq!(category_label("Учёба"), CategoryLabel::Study);
    assert_eq!(category_label("Проект"), CategoryLabel::Project);
    assert_eq!(category_label("Другое"), CategoryLabel::Other);
}

#[test]
fn unrecognized_category_gets_the_fallback_marker() {
    for text in ["", "Тест", "личное", "Личное ", " Работа", "Work", "Учеба", "Другое!"] {
        assert_eq!(category_label(text), CategoryLabel::Unknown, "{:?}", text);
    }
}

#[test]
fn marker_colours_are_fixed() {
    assert_eq!(CategoryLabel::Work.color(), Rgb { r: 70, g: 130, b: 180 });
    assert_eq!(CategoryLabel::Study.color(), Rgb { r: 123, g: 104, b: 238 });
    assert_eq!(CategoryLabel::Project.color(), Rgb { r: 255, g: 165, b: 0 });
    assert_eq!(CategoryLabel::Personal.color(), Rgb { r: 46, g: 204, b: 113 });
    assert_eq!(CategoryLabel::Other.color(), Rgb { r: 220, g: 220, b: 220 });
    assert_eq!(CategoryLabel::Unknown.color(), Rgb { r: 160, g: 160, b: 160 });
}

#[test]
fn presets_are_offered_in_a_fixed_order() {
    assert_eq!(PRESET_COUNT, 5);
    let offered: Vec<CategoryLabel> = (0..PRESET_COUNT).map(preset).collect();
    assert_eq!(
        offered,
        vec![
            CategoryLabel::Personal,
            CategoryLabel::Work,
            CategoryLabel::Study,
            CategoryLabel::Project,
            CategoryLabel::Other,
        ]
    );
    assert_eq!(preset(5), CategoryLabel::Unknown);
    assert_eq!(preset(usize::MAX), CategoryLabel::Unknown);
}

#[test]
fn preset_names_are_labelled_as_their_preset() {
    assert_eq!(CategoryLabel::Personal.name(), Some(PERSONAL));
    assert_eq!(CategoryLabel::Work.name(), Some(WORK));
    assert_eq!(CategoryLabel::Study.name(), Some(STUDY));
    assert_eq!(CategoryLabel::Project.name(), Some(PROJECT));
    assert_eq!(CategoryLabel::Other.name(), Some(OTHER));
    assert_eq!(CategoryLabel::Unknown.name(), None);
    assert_eq!(PERSONAL, "Личное");
    assert_eq!(WORK, "Работа");
    assert_eq!(STUDY, "Учёба");
    assert_eq!(PROJECT, "Проект");
    assert_eq!(OTHER, "Другое");
    for index in 0..PRESET_COUNT {
        let label = preset(index);
        assert_eq!(category_label(label.name().unwrap()), label);
    }
}

#[test]
fn the_empty_store_has_no_progress_to_show() {
    assert_eq!(progress(&TaskStore::new()), None);
}

#[test]
fn progress_gives_the_ratio_and_its_band() {
    assert_eq!(
        progress(&store_with(0, 3)),
        Some(Progress { ratio: Ratio { done: 0, total: 3 }, band: Band::Low })
    );
    assert_eq!(
        progress(&store_with(1, 2)),
        Some(Progress { ratio: Ratio { done: 1, total: 3 }, band: Band::Medium })
    );
    assert_eq!(
        progress(&store_with(3, 7)),
        Some(Progress { ratio: Ratio { done: 3, total: 10 }, band: Band::Medium })
    );
    assert_eq!(
        progress(&store_with(7, 3)),
        Some(Progress { ratio: Ratio { done: 7, total: 10 }, band: Band::High })
    );
    assert_eq!(
        progress(&store_with(2, 0)),
        Some(Progress { ratio: Ratio { done: 2, total: 2 }, band: Band::High })
    );
}

#[test]
fn describe_tasks_gives_row_marker_and_overdue_flag() {
    let mut store = TaskStore::new();
    store.append(Task::new("late".to_string(), Some("01.01.2025".to_string()), "Работа".to_string()));
    store.append(Task::new("late but done".to_string(), Some("01.01.2025".to_string()), "Учёба".to_string()));
    store.append(Task::new("due today".to_string(), Some("10.01.2025".to_string()), "Тест".to_string()));
    store.append(Task::new("no deadline".to_string(), None, "Другое".to_string()));
    store.append(Task::new("unreadable".to_string(), Some("someday".to_string()), "Личное".to_string()));
    store.toggle_done(1).unwrap();
    let before = store.clone();

    let shown = describe_tasks(&store, Date::new(2025, 1, 10));
    assert_eq!(store, before);
    assert_eq!(shown.len(), 5);
    let flags: Vec<bool> = shown.iter().map(|task| task.overdue).collect();
    assert_eq!(flags, vec![true, false, false, false, false]);
    let labels: Vec<CategoryLabel> = shown.iter().map(|task| task.label).collect();
    assert_eq!(
        labels,
        vec![
            CategoryLabel::Work,
            CategoryLabel::Study,
            CategoryLabel::Unknown,
            CategoryLabel::Other,
            CategoryLabel::Personal,
        ]
    );
    let rows: Vec<TaskRow> = shown.into_iter().map(|task| task.row).collect();
    assert_eq!(rows, list_tasks(&store));
    assert_eq!(rows[1].position, 2);
    assert!(rows[1].done);
    assert_eq!(rows[2].deadline, Some("10.01.2025".to_string()));

    let later = describe_tasks(&store, Date::new(2025, 1, 11));
    let flags: Vec<bool> = later.iter().map(|task| task.overdue).collect();
    assert_eq!(flags, vec![true, false, true, false, false]);
    assert_eq!(
        later[0],
        TaskDisplay {
            row: TaskRow {
                position: 1,
                done: false,
                description: "late".to_string(),
                deadline: Some("01.01.2025".to_string()),
                category: "Работа".to_string(),
            },
            label: CategoryLabel::Work,
            overdue: true,
        }
    );
    assert!(describe_tasks(&TaskStore::new(), Date::new(2025, 1, 11)).is_empty());
}
