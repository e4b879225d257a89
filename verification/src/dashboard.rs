use crate::event::{Domain, Event, UiData};
use ratatui::widgets::TableState;
use vstd::prelude::*;

verus! {

/// The selection and scroll offset of a rendered table; carried unchanged
/// through data reloads.
#[verifier::external_type_specification]
#[verifier::external_body]
pub struct ExTableState(TableState);

/// The state of a scrollbar: how many items can be scrolled, how many are
/// scrolled past, and how many fit in the viewport (0 when not set).
/// Rendering turns it into the terminal library's scrollbar state.
#[derive(Clone, Copy, Debug, PartialEq, Eq, Structural)]
pub struct Scrollbar {
    pub content_length: usize,
    pub position: usize,
    pub viewport_content_length: usize,
}

impl Scrollbar {
    /// A scrollbar over `content_length` items, at the top.
    pub fn new(content_length: usize) -> (s: Self)
        ensures
            s == (Scrollbar { content_length, position: 0, viewport_content_length: 0 }),
    {
        Scrollbar { content_length, position: 0, viewport_content_length: 0 }
    }

    /// The same scrollbar, scrolled to `position`.
    pub fn position(self, position: usize) -> (s: Self)
        ensures
            s == (Scrollbar { position, ..self }),
    {
        Scrollbar { position, ..self }
    }

    pub fn get_position(&self) -> (p: usize)
        ensures
            p == self.position,
    {
        self.position
    }

    /// The scrollbar of a table whose content was replaced by `len` items:
    /// fresh, but at the position the old one had.
    pub open spec fn reloaded(self, len: usize) -> Scrollbar {
        Scrollbar { content_length: len, position: self.position, viewport_content_length: 0 }
    }
}

/// One of the dashboard's tables: its rows, its scrollbar, its selection and
/// its sort settings.
pub struct Panel<T, S> {
    pub items: Vec<T>,
    pub scrollbar: Scrollbar,
    pub table_state: TableState,
    pub sort: S,
}

impl<T, S> Panel<T, S> {
    /// The panel showing `items` in place of its rows, with a reloaded
    /// scrollbar and the same selection and sort settings.
    pub open spec fn with_items(self, items: Vec<T>) -> Panel<T, S> {
        Panel { items, scrollbar: self.scrollbar.reloaded(items.len()), ..self }
    }

    /// Replaces the rows; the scroll position, selection and sort settings
    /// stay.
    pub fn replace_items(&mut self, items: Vec<T>)
        ensures
            *final(self) == old(self).with_items(items),
    {
        let old_position = self.scrollbar.get_position();
        self.scrollbar = Scrollbar::new(items.len()).position(old_position);
        self.items = items;
    }
}

/// The tables that have to be sorted again after a reload.
#[derive(Clone, Copy, Debug, PartialEq, Eq, Structural)]
pub enum Table {
    Executors,
    Metrics,
}

/// What the dashboard shows of the scheduler: the part of the application
/// state that loaded data replaces.
pub struct Dashboard<D: Domain> {
    pub executors: Panel<D::Executor, D::ExecutorsSort>,
    pub scheduler_state: Option<D::SchedulerState>,
    pub executor_jobs: Vec<D::Job>,
    pub metrics: Panel<D::Metric, D::MetricsSort>,
    pub jobs: Panel<D::Job, D::JobsSort>,
    pub job_details: Option<D::JobDetails>,
    pub job_dot_popup: Option<D::StagesGraph>,
    pub job_stages_popup: Option<(String, D::JobStagesResponse)>,
}

/// The table that loading `data` leaves to be sorted again, if any: the
/// executors and the metrics tables keep their sort order, the jobs table is
/// shown as loaded.
pub open spec fn table_to_sort<D: Domain>(data: UiData<D>) -> Option<Table> {
    match data {
        UiData::Executors(..) => Some(Table::Executors),
        UiData::Metrics(..) => Some(Table::Metrics),
        _ => None,
    }
}

impl<D: Domain> Dashboard<D> {
    /// The dashboard once `data` has been loaded into it: the part that
    /// `data` is about is replaced, everything else stays.
    pub open spec fn updated(self, data: UiData<D>) -> Dashboard<D> {
        match data {
            UiData::Executors(state, executors, jobs) => Dashboard {
                executors: self.executors.with_items(executors),
                scheduler_state: state,
                executor_jobs: jobs,
                ..self
            },
            UiData::Metrics(metrics) => Dashboard {
                metrics: self.metrics.with_items(metrics),
                ..self
            },
            UiData::Jobs(jobs) => Dashboard { jobs: self.jobs.with_items(jobs), ..self },
            UiData::JobDetails(details) => Dashboard { job_details: Some(details), ..self },
            UiData::JobStagesGraph(graph) => Dashboard { job_dot_popup: Some(graph), ..self },
            UiData::JobStagesData(job_id, stages) => Dashboard {
                job_stages_popup: Some((job_id, stages)),
                ..self
            },
        }
    }

    /// Loads `data` into the dashboard and returns the table that must be
    /// sorted again.
    pub fn load(&mut self, data: UiData<D>) -> (resort: Option<Table>)
        ensures
            *final(self) == old(self).updated(data),
            resort == table_to_sort(data),
    {
        match data {
            UiData::Executors(state, executors, jobs) => {
                self.executors.replace_items(executors);
                self.scheduler_state = state;
                self.executor_jobs = jobs;
                Some(Table::Executors)
            },
            UiData::Metrics(metrics) => {
                self.metrics.replace_items(metrics);
                Some(Table::Metrics)
            },
            UiData::Jobs(jobs) => {
                self.jobs.replace_items(jobs);
                None
            },
            UiData::JobDetails(details) => {
                self.job_details = Some(details);
                None
            },
            UiData::JobStagesGraph(graph) => {
                self.job_dot_popup = Some(graph);
                None
            },
            UiData::JobStagesData(job_id, stages) => {
                self.job_stages_popup = Some((job_id, stages));
                None
            },
        }
    }

    /// Handles an event from the background loaders: loaded data goes into
    /// the dashboard, any other event is ignored.
    pub fn on_app_event<K>(&mut self, event: Event<K, D>) -> (resort: Option<Table>)
        ensures
            match event {
                Event::DataLoaded { data } => {
                    &&& *final(self) == old(self).updated(data)
                    &&& resort == table_to_sort(data)
                },
                _ => {
                    &&& *final(self) == *old(self)
                    &&& resort == None::<Table>
                },
            },
    {
        match event {
            Event::DataLoaded { data } => self.load(data),
            _ => None,
        }
    }
}

} // verus!

verus! {

/// Loaded data is what the dashboard then shows, and a table whose rows are
/// replaced keeps its scroll position, selection and sort settings while its
/// scrollbar spans the new rows.
pub proof fn law_loaded_data_is_shown<D: Domain>(d: Dashboard<D>, data: UiData<D>)
    ensures
        match data {
            UiData::Executors(state, executors, jobs) => {
                let e = d.updated(data).executors;
                &&& e.items == executors
                &&& e.scrollbar.content_length == executors.len()
                &&& e.scrollbar.position == d.executors.scrollbar.position
                &&& e.table_state == d.executors.table_state
                &&& e.sort == d.executors.sort
                &&& d.updated(data).scheduler_state == state
                &&& d.updated(data).executor_jobs == jobs
            },
            UiData::Metrics(metrics) => {
                let m = d.updated(data).metrics;
                &&& m.items == metrics
                &&& m.scrollbar.content_length == metrics.len()
                &&& m.scrollbar.position == d.metrics.scrollbar.position
                &&& m.table_state == d.metrics.table_state
                &&& m.sort == d.metrics.sort
            },
            UiData::Jobs(jobs) => {
                let j = d.updated(data).jobs;
                &&& j.items == jobs
                &&& j.scrollbar.content_length == jobs.len()
                &&& j.scrollbar.position == d.jobs.scrollbar.position
                &&& j.table_state == d.jobs.table_state
                &&& j.sort == d.jobs.sort
            },
            UiData::JobDetails(details) => d.updated(data).job_details == Some(details),
            UiData::JobStagesGraph(graph) => d.updated(data).job_dot_popup == Some(graph),
            UiData::JobStagesData(job_id, stages) => d.updated(data).job_stages_popup == Some(
                (job_id, stages),
            ),
        },
{
}

/// Loading data of one kind leaves every other part of the dashboard as it
/// was.
pub proof fn law_load_leaves_the_rest<D: Domain>(d: Dashboard<D>, data: UiData<D>)
    ensures
        !(data is Executors) ==> {
            &&& d.updated(data).executors == d.executors
            &&& d.updated(data).scheduler_state == d.scheduler_state
            &&& d.updated(data).executor_jobs == d.executor_jobs
        },
        !(data is Metrics) ==> d.updated(data).metrics == d.metrics,
        !(data is Jobs) ==> d.updated(data).jobs == d.jobs,
        !(data is JobDetails) ==> d.updated(data).job_details == d.job_details,
        !(data is JobStagesGraph) ==> d.updated(data).job_dot_popup == d.job_dot_popup,
        !(data is JobStagesData) ==> d.updated(data).job_stages_popup == d.job_stages_popup,
{
}

/// Every load of executors or metrics, whatever rows it brings, asks for
/// that table to be sorted again, so it keeps its sort column and order;
/// jobs, job details and the popups ask for no sorting.
pub proof fn law_reloaded_tables_are_sorted_again<D: Domain>(data: UiData<D>)
    ensures
        data is Executors <==> table_to_sort(data) == Some(Table::Executors),
        data is Metrics <==> table_to_sort(data) == Some(Table::Metrics),
        (data is Jobs || data is JobDetails || data is JobStagesGraph || data is JobStagesData)
            <==> table_to_sort(data) == None::<Table>,
{
}

/// Loading the same data twice shows the same as loading it once.
pub proof fn law_load_is_idempotent<D: Domain>(d: Dashboard<D>, data: UiData<D>)
    ensures
        d.updated(data).updated(data) == d.updated(data),
{
}

} // verus!
