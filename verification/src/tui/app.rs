//! The state of the interactive board and the queries and moves on it.
use vstd::prelude::*;
use crate::task::{Task, Status, column_of};
use crate::tui::calendar::{CalendarState, CalendarTarget};
use crate::tui::search::{
    fuzzy_score, lemma_ranked_orders_by_score, rank_by_score, ranked, skim_matches, skim_score,
};

verus! {

/// What the keys currently act on.
#[derive(Debug, Clone, Copy, PartialEq, Eq, Structural)]
pub enum Mode {
    Normal,
    Search,
    AddTask,
    Calendar,
    Time,
    Project,
}

/// The field of the add/edit form that has the cursor.
#[derive(Debug, Clone, Copy, PartialEq, Eq, Structural)]
pub enum AddField {
    Title,
    Project,
    Deadline,
    Reminder,
    Priority,
}

impl Default for AddField {
    fn default() -> (r: AddField)
        ensures
            r == AddField::Title,
    {
        AddField::Title
    }
}

/// The add/edit form: its texts, the field with the cursor, the chosen
/// priority and project, and a character cursor per text.
#[derive(Debug, Clone)]
pub struct AddForm {
    pub title: String,
    pub deadline: String,
    pub reminder: String,
    pub field: AddField,
    pub priority: i64,
    pub project_index: usize,
    pub cursor_title: usize,
    pub cursor_deadline: usize,
    pub cursor_reminder: usize,
}

impl AddForm {
    /// The empty form: title field, normal priority, first project.
    pub open spec fn is_blank(&self) -> bool {
        &&& self.title@ == Seq::<char>::empty()
        &&& self.deadline@ == Seq::<char>::empty()
        &&& self.reminder@ == Seq::<char>::empty()
        &&& self.field == AddField::Title
        &&& self.priority == 1
        &&& self.project_index == 0
        &&& self.cursor_title == 0
        &&& self.cursor_deadline == 0
        &&& self.cursor_reminder == 0
    }
}

impl Default for AddForm {
    fn default() -> (r: AddForm)
        ensures
            r.is_blank(),
    {
        AddForm {
            title: String::new(),
            deadline: String::new(),
            reminder: String::new(),
            field: AddField::Title,
            priority: 1,
            project_index: 0,
            cursor_title: 0,
            cursor_deadline: 0,
            cursor_reminder: 0,
        }
    }
}

/// The part of the time picker that the arrow keys change.
#[derive(Debug, Clone, Copy, PartialEq, Eq, Structural)]
pub enum TimeField {
    Hour,
    Minute,
}

impl Default for TimeField {
    fn default() -> (r: TimeField)
        ensures
            r == TimeField::Hour,
    {
        TimeField::Hour
    }
}

#[derive(Debug, Clone, Copy, PartialEq, Eq, Structural)]
pub struct TimePicker {
    pub hour: u32,
    pub minute: u32,
    pub field: TimeField,
}

/// Which panel has the focus.
#[derive(Debug, Clone, Copy, PartialEq, Eq, Structural)]
pub enum Focus {
    Projects,
    Tasks,
}

/// The selected column (0 todo, 1 in progress, 2 done) and row of the board.
#[derive(Debug, Clone, Copy, PartialEq, Eq, Structural)]
pub struct BoardState {
    pub column: usize,
    pub row: usize,
}

/// The project form: the name being typed, its cursor, and the project
/// being renamed, if any.
#[derive(Debug, Clone)]
pub struct ProjectForm {
    pub name: String,
    pub cursor: usize,
    pub edit_id: Option<i64>,
}

impl Default for ProjectForm {
    fn default() -> (r: ProjectForm)
        ensures
            r.name@ == Seq::<char>::empty(),
            r.cursor == 0,
            r.edit_id is None,
    {
        ProjectForm { name: String::new(), cursor: 0, edit_id: None }
    }
}

/// An entry of the project list; `id` is `None` for an entry that stands
/// for no stored project.
#[derive(Debug, Clone)]
pub struct ProjectEntry {
    pub id: Option<i64>,
    pub name: String,
}

/// The whole state of the interactive board.
pub struct App {
    pub tasks: Vec<Task>,
    pub mode: Mode,
    pub search_query: String,
    pub add_form: AddForm,
    pub edit_id: Option<i64>,
    pub calendar: CalendarState,
    pub calendar_target: Option<CalendarTarget>,
    pub time_picker: TimePicker,
    pub status: String,
    pub should_quit: bool,
    pub focus: Focus,
    pub board: BoardState,
    pub projects: Vec<ProjectEntry>,
    pub selected_project: usize,
    pub project_form: ProjectForm,
}

/// The matching tasks with their scores, in list order.
pub open spec fn scored_matches(tasks: Seq<Task>, query: Seq<char>) -> Seq<(i64, usize)>
    decreases tasks.len(),
{
    if tasks.len() == 0 {
        Seq::empty()
    } else {
        let rest = scored_matches(tasks.drop_last(), query);
        let t = tasks.last();
        if skim_matches(t.title@, query) {
            rest.push((skim_score(t.title@, query), (tasks.len() - 1) as usize))
        } else {
            rest
        }
    }
}

/// The task indices in `idx` whose task sits in board column `c`, in order.
pub open spec fn in_column(tasks: Seq<Task>, idx: Seq<usize>, c: int) -> Seq<usize>
    decreases idx.len(),
{
    if idx.len() == 0 {
        Seq::empty()
    } else {
        let rest = in_column(tasks, idx.drop_last(), c);
        let i = idx.last();
        if i < tasks.len() && column_of(tasks[i as int].status) == c {
            rest.push(i)
        } else {
            rest
        }
    }
}

proof fn lemma_scored_indices(tasks: Seq<Task>, query: Seq<char>)
    ensures
        forall|k: int|
            0 <= k < scored_matches(tasks, query).len() ==> (#[trigger] scored_matches(tasks, query)[k]).1
                < tasks.len(),
    decreases tasks.len(),
{
    if tasks.len() > 0 {
        let rest = scored_matches(tasks.drop_last(), query);
        lemma_scored_indices(tasks.drop_last(), query);
        assert forall|k: int| 0 <= k < scored_matches(tasks, query).len() implies (#[trigger] scored_matches(
            tasks,
            query,
        )[k]).1 < tasks.len() by {
            if k < rest.len() {
                assert(scored_matches(tasks, query)[k] == rest[k]);
            }
        }
    }
}

/// Every shown index is that of a task.
pub proof fn lemma_visible_indices_valid(app: App)
    ensures
        forall|k: int| 0 <= k < app.visible().len() ==> #[trigger] app.visible()[k] < app.tasks.len(),
{
    if app.search_query@.len() != 0 {
        let s = scored_matches(app.tasks@, app.search_query@);
        let r = ranked(s);
        lemma_scored_indices(app.tasks@, app.search_query@);
        lemma_ranked_orders_by_score(s);
        assert forall|k: int| 0 <= k < app.visible().len() implies #[trigger] app.visible()[k] < app.tasks.len() by {
            broadcast use vstd::seq_lib::group_to_multiset_ensures;

            assert(r.contains(r[k]));
            assert(r.to_multiset().count(r[k]) > 0);
            assert(s.contains(r[k]));
            let j = choose|j: int| 0 <= j < s.len() && s[j] == r[k];
            assert(s[j].1 < app.tasks.len());
        }
    }
}

/// The three board columns split the given task indices between them: each
/// index of a task falls in exactly one column, by its task's status.
pub proof fn lemma_columns_partition(tasks: Seq<Task>, idx: Seq<usize>)
    requires
        forall|k: int| 0 <= k < idx.len() ==> #[trigger] idx[k] < tasks.len(),
    ensures
        in_column(tasks, idx, 0).len() + in_column(tasks, idx, 1).len() + in_column(tasks, idx, 2).len()
            == idx.len(),
    decreases idx.len(),
{
    if idx.len() > 0 {
        let d = idx.drop_last();
        assert forall|k: int| 0 <= k < d.len() implies #[trigger] d[k] < tasks.len() by {
            assert(d[k] == idx[k]);
        }
        lemma_columns_partition(tasks, d);
        assert(idx.last() == idx[idx.len() - 1]);
        crate::task::lemma_status_column_round_trip(tasks[idx.last() as int].status, 0);
    }
}

/// Every shown task appears in exactly one column of the board.
pub proof fn lemma_board_shows_each_once(app: App)
    ensures
        app.column(0).len() + app.column(1).len() + app.column(2).len() == app.visible().len(),
{
    lemma_visible_indices_valid(app);
    lemma_columns_partition(app.tasks@, app.visible());
}

impl App {
    /// The invariant of the board state.
    pub open spec fn wf(&self) -> bool {
        &&& self.board.column <= 2
        &&& self.calendar.wf()
        &&& self.time_picker.hour < 24
        &&& self.time_picker.minute < 60
    }

    /// The tasks shown, as indices into `tasks`: all of them in order when
    /// there is no search; else the matching ones, best score first.
    pub open spec fn visible(&self) -> Seq<usize> {
        if self.search_query@.len() == 0 {
            Seq::new(self.tasks@.len(), |i: int| i as usize)
        } else {
            ranked(scored_matches(self.tasks@, self.search_query@)).map_values(
                |p: (i64, usize)| p.1,
            )
        }
    }

    /// The shown tasks of board column `c`.
    pub open spec fn column(&self, c: int) -> Seq<usize> {
        in_column(self.tasks@, self.visible(), c)
    }

    /// The number of shown tasks in the selected column.
    pub open spec fn column_len(&self) -> int {
        self.column(self.board.column as int).len() as int
    }

    /// The index of the selected task, if the selection is on one.
    pub open spec fn selected_index(&self) -> Option<usize> {
        let col = self.column(self.board.column as int);
        if self.board.row < col.len() {
            Some(col[self.board.row as int])
        } else {
            None
        }
    }

    pub open spec fn selected(&self) -> Option<Task> {
        match self.selected_index() {
            Some(i) => if i < self.tasks.len() { Some(self.tasks[i as int]) } else { None },
            None => None,
        }
    }

    /// The initial state over the loaded tasks and projects, with the
    /// calendar on `calendar`.
    pub fn with_data(tasks: Vec<Task>, projects: Vec<ProjectEntry>, calendar: CalendarState) -> (r: App)
        requires
            calendar.wf(),
        ensures
            r.wf(),
            r.tasks@ == tasks@,
            r.projects@ == projects@,
            r.mode == Mode::Normal,
            r.search_query@ == Seq::<char>::empty(),
            r.add_form.is_blank(),
            r.edit_id is None,
            r.calendar == calendar,
            r.calendar_target is None,
            r.time_picker == (TimePicker { hour: 9, minute: 0, field: TimeField::Hour }),
            r.status@ == Seq::<char>::empty(),
            !r.should_quit,
            r.focus == Focus::Tasks,
            r.board == (BoardState { column: 0, row: 0 }),
            r.selected_project == 0,
            r.project_form.name@ == Seq::<char>::empty(),
            r.project_form.cursor == 0,
            r.project_form.edit_id is None,
    {
        App {
            tasks: tasks,
            mode: Mode::Normal,
            search_query: String::new(),
            add_form: AddForm::default(),
            edit_id: None,
            calendar: calendar,
            calendar_target: None,
            time_picker: TimePicker { hour: 9, minute: 0, field: TimeField::Hour },
            status: String::new(),
            should_quit: false,
            focus: Focus::Tasks,
            board: BoardState { column: 0, row: 0 },
            projects: projects,
            selected_project: 0,
            project_form: ProjectForm::default(),
        }
    }

    pub fn visible_indices(&self) -> (r: Vec<usize>)
        ensures
            r@ == self.visible(),
    {
        if self.search_query.as_str().is_empty() {
            let mut r: Vec<usize> = Vec::new();
            let mut i: usize = 0;
            while i < self.tasks.len()
                invariant
                    i <= self.tasks.len(),
                    r@ == Seq::new(i as nat, |k: int| k as usize),
                decreases self.tasks.len() - i,
            {
                r.push(i);
                i = i + 1;
                assert(r@ =~= Seq::new(i as nat, |k: int| k as usize));
            }
            return r;
        }
        let mut scored: Vec<(i64, usize)> = Vec::new();
        let mut i: usize = 0;
        while i < self.tasks.len()
            invariant
                i <= self.tasks.len(),
                scored@ == scored_matches(self.tasks@.take(i as int), self.search_query@),
            decreases self.tasks.len() - i,
        {
            let ghost prefix = self.tasks@.take(i + 1);
            assert(prefix.drop_last() =~= self.tasks@.take(i as int));
            assert(prefix.last() == self.tasks@[i as int]);
            match fuzzy_score(self.tasks[i].title.as_str(), self.search_query.as_str()) {
                Some(score) => {
                    scored.push((score, i));
                },
                None => {},
            }
            i = i + 1;
        }
        assert(self.tasks@.take(self.tasks.len() as int) =~= self.tasks@);
        rank_by_score(&scored)
    }

    /// The shown task indices of one board column.
    pub fn column_indices(&self, visible: &Vec<usize>, c: usize) -> (r: Vec<usize>)
        requires
            visible@ == self.visible(),
        ensures
            r@ == self.column(c as int),
    {
        let mut r: Vec<usize> = Vec::new();
        let mut i: usize = 0;
        while i < visible.len()
            invariant
                i <= visible.len(),
                visible@ == self.visible(),
                r@ == in_column(self.tasks@, visible@.take(i as int), c as int),
            decreases visible.len() - i,
        {
            let ghost prefix = visible@.take(i + 1);
            assert(prefix.drop_last() =~= visible@.take(i as int));
            let idx = visible[i];
            if idx < self.tasks.len() && crate::task::status_column(self.tasks[idx].status) == c {
                r.push(idx);
            }
            i = i + 1;
        }
        assert(visible@.take(visible.len() as int) =~= visible@);
        r
    }

    /// The shown task indices of the three board columns.
    pub fn board_indices(&self) -> (r: Vec<Vec<usize>>)
        ensures
            r.len() == 3,
            forall|c: int| 0 <= c < 3 ==> (#[trigger] r[c])@ == self.column(c),
    {
        let visible = self.visible_indices();
        let mut r: Vec<Vec<usize>> = Vec::new();
        r.push(self.column_indices(&visible, 0));
        r.push(self.column_indices(&visible, 1));
        r.push(self.column_indices(&visible, 2));
        r
    }

    /// The number of shown tasks in the selected column.
    pub fn current_column_len(&self) -> (r: usize)
        ensures
            r == self.column_len(),
    {
        let visible = self.visible_indices();
        self.column_indices(&visible, self.board.column).len()
    }

    pub fn selected_task(&self) -> (r: Option<&Task>)
        ensures
            match self.selected() {
                Some(t) => r matches Some(x) && *x == t,
                None => r is None,
            },
    {
        let visible = self.visible_indices();
        let col = self.column_indices(&visible, self.board.column);
        if self.board.row < col.len() {
            let idx = col[self.board.row];
            if idx < self.tasks.len() {
                return Some(&self.tasks[idx]);
            }
        }
        None
    }
}


/// The row after moving down in a column of `len` tasks: one further, but
/// not past the last.
pub open spec fn row_down(row: int, len: int) -> int {
    if len == 0 {
        0
    } else if row + 1 < len {
        row + 1
    } else {
        len - 1
    }
}

/// A row kept within a column of `len` tasks.
pub open spec fn row_within(row: int, len: int) -> int {
    if row < len { row } else if len == 0 { 0 } else { len - 1 }
}

impl App {
    /// The message in the footer.
    pub fn set_status(&mut self, message: String)
        ensures
            *final(self) == (App { status: message, ..*old(self) }),
    {
        self.status = message;
    }

    /// Down in the task column: the next task, not past the last.
    pub fn next(&mut self)
        ensures
            *final(self) == (App {
                board: BoardState {
                    row: row_down(old(self).board.row as int, old(self).column_len()) as usize,
                    ..old(self).board
                },
                ..*old(self)
            }),
    {
        let len = self.current_column_len();
        if len == 0 {
            self.board.row = 0;
            return;
        }
        self.board.row = if self.board.row < len - 1 { self.board.row + 1 } else { len - 1 };
    }

    /// Up in the task column.
    pub fn previous(&mut self)
        ensures
            *final(self) == (App {
                board: BoardState {
                    row: if old(self).board.row > 0 { (old(self).board.row - 1) as usize } else { 0 },
                    ..old(self).board
                },
                ..*old(self)
            }),
    {
        if self.board.row > 0 {
            self.board.row = self.board.row - 1;
        }
    }

    pub fn reset_add_form(&mut self)
        ensures
            final(self).add_form.is_blank(),
            *final(self) == (App { add_form: final(self).add_form, ..*old(self) }),
    {
        self.add_form = AddForm::default();
    }

    /// Down in the project list, not past the last project.
    pub fn next_project(&mut self)
        ensures
            *final(self) == (App {
                selected_project: row_down(
                    old(self).selected_project as int,
                    old(self).projects.len() as int,
                ) as usize,
                ..*old(self)
            }),
    {
        let len = self.projects.len();
        if len == 0 {
            self.selected_project = 0;
        } else if self.selected_project < len - 1 {
            self.selected_project = self.selected_project + 1;
        } else {
            self.selected_project = len - 1;
        }
    }

    /// Up in the project list.
    pub fn previous_project(&mut self)
        ensures
            *final(self) == (App {
                selected_project: if old(self).selected_project > 0 {
                    (old(self).selected_project - 1) as usize
                } else {
                    0
                },
                ..*old(self)
            }),
    {
        if self.selected_project > 0 {
            self.selected_project = self.selected_project - 1;
        }
    }

    /// Switches the focus between the project list and the board.
    pub fn toggle_focus(&mut self)
        ensures
            *final(self) == (App {
                focus: if old(self).focus == Focus::Projects { Focus::Tasks } else { Focus::Projects },
                ..*old(self)
            }),
    {
        self.focus = match self.focus {
            Focus::Projects => Focus::Tasks,
            Focus::Tasks => Focus::Projects,
        };
    }

    /// The column `delta` columns to the side, within the three.
    pub open spec fn column_after(&self, delta: int) -> int {
        let c = self.board.column + delta;
        if c < 0 { 0 } else if c > 2 { 2 } else { c }
    }

    /// Moves the selection to a neighbouring column, keeping the row within it.
    pub fn move_column(&mut self, delta: i32)
        requires
            old(self).wf(),
            -1 <= delta <= 1,
        ensures
            final(self).wf(),
            final(self).board.column == old(self).column_after(delta as int),
            final(self).board.row == row_within(
                old(self).board.row as int,
                old(self).column(old(self).column_after(delta as int)).len() as int,
            ),
            *final(self) == (App { board: final(self).board, ..*old(self) }),
    {
        let c: i64 = self.board.column as i64 + delta as i64;
        let column: usize = if c < 0 { 0 } else if c > 2 { 2 } else { c as usize };
        let visible = self.visible_indices();
        let len = self.column_indices(&visible, column).len();
        let row = if self.board.row < len { self.board.row } else if len == 0 { 0 } else { len - 1 };
        self.board = BoardState { column: column, row: row };
    }

    /// The list position of the project with id `id`, or 0.
    pub open spec fn project_position(&self, id: Option<i64>) -> int {
        if exists|k: int| 0 <= k < self.projects.len() && self.projects[k].id == id {
            choose|k: int|
                0 <= k < self.projects.len() && self.projects[k].id == id && forall|j: int|
                    0 <= j < k ==> self.projects[j].id != id
        } else {
            0
        }
    }

    pub fn project_index_by_id(&self, id: Option<i64>) -> (r: usize)
        ensures
            r == self.project_position(id),
    {
        let mut k: usize = 0;
        while k < self.projects.len()
            invariant
                k <= self.projects.len(),
                forall|j: int| 0 <= j < k ==> self.projects[j].id != id,
            decreases self.projects.len() - k,
        {
            if self.projects[k].id == id {
                proof {
                    let c = choose|i: int|
                        0 <= i < self.projects.len() && self.projects[i].id == id && forall|j: int|
                            0 <= j < i ==> self.projects[j].id != id;
                    assert(c == k) by {
                        if c < k {
                        } else if c > k {
                        }
                    }
                }
                return k;
            }
            k = k + 1;
        }
        0
    }

    /// The stored project at list position `index`, if any.
    pub open spec fn project_id_at(&self, index: int) -> Option<i64> {
        if 0 <= index < self.projects.len() { self.projects[index].id } else { None }
    }

    pub fn project_id_by_index(&self, index: usize) -> (r: Option<i64>)
        ensures
            r == self.project_id_at(index as int),
    {
        if index < self.projects.len() {
            self.projects[index].id
        } else {
            None
        }
    }

    /// The name at list position `index`, or nothing.
    pub open spec fn project_name_at(&self, index: int) -> Seq<char> {
        if 0 <= index < self.projects.len() { self.projects[index].name@ } else { Seq::empty() }
    }

    pub fn project_name_by_index(&self, index: usize) -> (r: String)
        ensures
            r@ == self.project_name_at(index as int),
    {
        if index < self.projects.len() {
            self.projects[index].name.clone()
        } else {
            String::new()
        }
    }

    /// The project whose tasks the board shows.
    pub fn active_project_id(&self) -> (r: Option<i64>)
        ensures
            r == self.project_id_at(self.selected_project as int),
    {
        self.project_id_by_index(self.selected_project)
    }

    /// The project whose tasks are loaded onto the board: the selected
    /// stored project, or none (every task) when the selection is the
    /// `All` project or lies past the list.
    pub open spec fn task_filter_spec(&self) -> Option<i64> {
        if self.selected_project < self.projects.len() && self.projects[self.selected_project as int].name@
            != "All"@ {
            self.projects[self.selected_project as int].id
        } else {
            None
        }
    }

    pub fn task_filter(&self) -> (r: Option<i64>)
        ensures
            r == self.task_filter_spec(),
    {
        if self.selected_project < self.projects.len() {
            let entry = &self.projects[self.selected_project];
            if crate::text::str_equal(entry.name.as_str(), "All") {
                None
            } else {
                entry.id
            }
        } else {
            None
        }
    }

    /// The header's name of the shown project: its name, or `All`.
    pub fn active_project_name(&self) -> (r: String)
        ensures
            r@ == if self.selected_project < self.projects.len() {
                self.projects[self.selected_project as int].name@
            } else {
                "All"@
            },
    {
        if self.selected_project < self.projects.len() {
            self.projects[self.selected_project].name.clone()
        } else {
            "All".to_owned()
        }
    }

    /// Takes a reloaded task list, keeping the row within the column.
    pub fn apply_tasks(&mut self, tasks: Vec<Task>)
        ensures
            final(self).tasks@ == tasks@,
            final(self).board.column == old(self).board.column,
            final(self).board.row == row_within(
                old(self).board.row as int,
                final(self).column(old(self).board.column as int).len() as int,
            ),
            *final(self) == (App { tasks: final(self).tasks, board: final(self).board, ..*old(self) }),
    {
        self.tasks = tasks;
        let len = self.current_column_len();
        if self.board.row >= len {
            self.board.row = if len == 0 { 0 } else { len - 1 };
        }
    }

    /// Takes a reloaded project list, keeping the selection within it.
    pub fn apply_projects(&mut self, projects: Vec<ProjectEntry>)
        ensures
            final(self).projects@ == projects@,
            final(self).selected_project == row_within(
                old(self).selected_project as int,
                projects.len() as int,
            ),
            *final(self) == (App {
                projects: final(self).projects,
                selected_project: final(self).selected_project,
                ..*old(self)
            }),
    {
        self.projects = projects;
        let len = self.projects.len();
        if self.selected_project >= len {
            self.selected_project = if len == 0 { 0 } else { len - 1 };
        }
    }

    /// Selects the project with id `id`, when it is in the list.
    pub fn select_project_by_id(&mut self, id: i64)
        ensures
            *final(self) == (App {
                selected_project: if exists|k: int|
                    0 <= k < old(self).projects.len() && old(self).projects[k].id == Some(id) {
                    old(self).project_position(Some(id)) as usize
                } else {
                    old(self).selected_project
                },
                ..*old(self)
            }),
    {
        let mut k: usize = 0;
        while k < self.projects.len()
            invariant
                *self == *old(self),
                k <= self.projects.len(),
                forall|j: int| 0 <= j < k ==> self.projects[j].id != Some(id),
            decreases self.projects.len() - k,
        {
            if self.projects[k].id == Some(id) {
                let p = self.project_index_by_id(Some(id));
                self.selected_project = p;
                return;
            }
            k = k + 1;
        }
    }
}

} // verus!
