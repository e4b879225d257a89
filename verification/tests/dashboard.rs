use ballista_tui::dashboard::{Dashboard, Panel, Scrollbar, Table};
use ballista_tui::event::{Domain, Event, UiData};
use ratatui::widgets::TableState;

struct Sample;

impl Domain for Sample {
    type SchedulerState = String;
    type Executor = u32;
    type Job = String;
    type Metric = (String, u64);
    type JobDetails = String;
    type StagesGraph = Vec<u8>;
    type JobStagesResponse = Vec<u32>;
    type ExecutorsSort = (u8, bool);
    type MetricsSort = (u8, bool);
    type JobsSort = (u8, bool);
}

fn panel<T>(items: Vec<T>, position: usize, sort: (u8, bool)) -> Panel<T, (u8, bool)> {
    let len = items.len();
    Panel {
        items,
        scrollbar: Scrollbar::new(len).position(position),
        table_state: TableState::default().with_selected(Some(position)),
        sort,
    }
}

fn sample() -> Dashboard<Sample> {
    Dashboard {
        executors: panel(vec![1, 2, 3], 2, (1, true)),
        scheduler_state: None,
        executor_jobs: vec![],
        metrics: panel(vec![("a".to_string(), 1)], 0, (0, false)),
        jobs: panel(vec!["j1".to_string(), "j2".to_string()], 1, (2, true)),
        job_details: None,
        job_dot_popup: None,
        job_stages_popup: None,
    }
}

#[test]
fn scrollbar_new_starts_at_top() {
    let s = Scrollbar::new(7);
    assert_eq!(s, Scrollbar { content_length: 7, position: 0, viewport_content_length: 0 });
    assert_eq!(s.get_position(), 0);
}

#[test]
fn scrollbar_position_keeps_length() {
    let s = Scrollbar { content_length: 4, position: 1, viewport_content_length: 3 }.position(9);
    assert_eq!(s, Scrollbar { content_length: 4, position: 9, viewport_content_length: 3 });
}

#[test]
fn replace_items_keeps_position_and_resets_viewport() {
    let mut p = panel(vec![10u32, 20, 30], 2, (3, false));
    p.scrollbar.viewport_content_length = 5;
    p.replace_items(vec![1, 2, 3, 4, 5]);
    assert_eq!(p.items, vec![1, 2, 3, 4, 5]);
    assert_eq!(p.scrollbar, Scrollbar { content_length: 5, position: 2, viewport_content_length: 0 });
    assert_eq!(p.table_state.selected(), Some(2));
    assert_eq!(p.sort, (3, false));
}

#[test]
fn replace_items_with_fewer_rows_keeps_position() {
    let mut p = panel(vec![10u32, 20, 30], 2, (3, false));
    p.replace_items(vec![]);
    assert_eq!(p.scrollbar, Scrollbar { content_length: 0, position: 2, viewport_content_length: 0 });
}

#[test]
fn load_executors_replaces_table_and_asks_for_sort() {
    let mut d = sample();
    let r = d.load(UiData::Executors(Some("alive".to_string()), vec![9, 8], vec!["x".to_string()]));
    assert_eq!(r, Some(Table::Executors));
    assert_eq!(d.executors.items, vec![9, 8]);
    assert_eq!(d.executors.scrollbar, Scrollbar { content_length: 2, position: 2, viewport_content_length: 0 });
    assert_eq!(d.executors.sort, (1, true));
    assert_eq!(d.executors.table_state.selected(), Some(2));
    assert_eq!(d.scheduler_state, Some("alive".to_string()));
    assert_eq!(d.executor_jobs, vec!["x".to_string()]);
    assert_eq!(d.metrics.items, vec![("a".to_string(), 1)]);
    assert_eq!(d.jobs.items, vec!["j1".to_string(), "j2".to_string()]);
}

#[test]
fn load_executors_without_scheduler_state_clears_it() {
    let mut d = sample();
    d.scheduler_state = Some("old".to_string());
    d.load(UiData::Executors(None, vec![], vec![]));
    assert_eq!(d.scheduler_state, None);
    assert_eq!(d.executors.scrollbar.content_length, 0);
}

#[test]
fn load_metrics_asks_for_sort() {
    let mut d = sample();
    let r = d.load(UiData::Metrics(vec![("b".to_string(), 2), ("c".to_string(), 3)]));
    assert_eq!(r, Some(Table::Metrics));
    assert_eq!(d.metrics.items.len(), 2);
    assert_eq!(d.metrics.scrollbar, Scrollbar { content_length: 2, position: 0, viewport_content_length: 0 });
    assert_eq!(d.executors.items, vec![1, 2, 3]);
}

#[test]
fn load_jobs_needs_no_sort() {
    let mut d = sample();
    let r = d.load(UiData::Jobs(vec!["a".to_string(), "b".to_string(), "c".to_string()]));
    assert_eq!(r, None);
    assert_eq!(d.jobs.items, vec!["a".to_string(), "b".to_string(), "c".to_string()]);
    assert_eq!(d.jobs.scrollbar, Scrollbar { content_length: 3, position: 1, viewport_content_length: 0 });
    assert_eq!(d.jobs.sort, (2, true));
    assert_eq!(d.executor_jobs, Vec::<String>::new());
}

#[test]
fn load_popups() {
    let mut d = sample();
    assert_eq!(d.load(UiData::JobDetails("details".to_string())), None);
    assert_eq!(d.job_details, Some("details".to_string()));
    assert_eq!(d.load(UiData::JobStagesGraph(vec![1, 2])), None);
    assert_eq!(d.job_dot_popup, Some(vec![1, 2]));
    assert_eq!(d.load(UiData::JobStagesData("job-7".to_string(), vec![3])), None);
    assert_eq!(d.job_stages_popup, Some(("job-7".to_string(), vec![3])));
    assert_eq!(d.job_details, Some("details".to_string()));
    assert_eq!(d.executors.items, vec![1, 2, 3]);
}

#[test]
fn load_twice_is_load_once() {
    let mut once = sample();
    once.load(UiData::Jobs(vec!["z".to_string()]));
    let mut twice = sample();
    twice.load(UiData::Jobs(vec!["z".to_string()]));
    twice.load(UiData::Jobs(vec!["z".to_string()]));
    assert_eq!(once.jobs.items, twice.jobs.items);
    assert_eq!(once.jobs.scrollbar, twice.jobs.scrollbar);
    assert_eq!(once.jobs.table_state, twice.jobs.table_state);
}

#[test]
fn app_event_data_loaded_is_applied() {
    let mut d = sample();
    let r = d.on_app_event::<char>(Event::DataLoaded { data: UiData::Metrics(vec![]) });
    assert_eq!(r, Some(Table::Metrics));
    assert!(d.metrics.items.is_empty());
}

#[test]
fn app_event_other_is_ignored() {
    let mut d = sample();
    assert_eq!(d.on_app_event(Event::Key('q')), None);
    assert_eq!(d.on_app_event::<char>(Event::Tick), None);
    assert_eq!(d.executors.items, vec![1, 2, 3]);
    assert_eq!(d.metrics.items, vec![("a".to_string(), 1)]);
    assert_eq!(d.jobs.scrollbar, Scrollbar { content_length: 2, position: 1, viewport_content_length: 0 });
}
