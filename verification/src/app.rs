use crate::task::Task;
use crate::task_manager::SortOrder;
use vstd::prelude::*;

verus! {

/// Which item of a list is picked out, and from which item on the list is
/// shown.
#[derive(Debug, Clone, Copy, PartialEq, Eq, Structural)]
pub struct ListState {
    pub offset: usize,
    pub selected: Option<usize>,
}

impl ListState {
    /// Nothing picked out, shown from the top.
    pub fn new() -> (r: ListState)
        ensures
            r.selected is None,
            r.offset == 0,
    {
        ListState { offset: 0, selected: None }
    }

    /// The item that is picked out, if any.
    pub fn selected(&self) -> (r: Option<usize>)
        ensures
            r == self.selected,
    {
        self.selected
    }

    /// Picks out the item with this index, or none. With none picked out
    /// the list is shown from the top again.
    pub fn select(&mut self, index: Option<usize>)
        ensures
            final(self).selected == index,
            final(self).offset == if index is None {
                0
            } else {
                old(self).offset
            },
    {
        self.selected = index;
        if index.is_none() {
            self.offset = 0;
        }
    }

    /// Picks out the item behind the one that is picked out now, or the
    /// first where none is.
    pub fn select_next(&mut self)
        ensures
            final(self).offset == old(self).offset,
            final(self).selected == Some(
                match old(self).selected {
                    None => 0usize,
                    Some(i) => if i == usize::MAX {
                        i
                    } else {
                        (i + 1) as usize
                    },
                },
            ),
    {
        let next: usize = match self.selected {
            None => 0,
            Some(i) => if i == usize::MAX {
                i
            } else {
                i + 1
            },
        };
        self.selected = Some(next);
    }

    /// Picks out the item before the one that is picked out now, or the
    /// greatest index there is where none is; whoever shows the list brings
    /// that back to the last item.
    pub fn select_previous(&mut self)
        ensures
            final(self).offset == old(self).offset,
            final(self).selected == Some(
                match old(self).selected {
                    None => usize::MAX,
                    Some(i) => if i == 0 {
                        0usize
                    } else {
                        (i - 1) as usize
                    },
                },
            ),
    {
        let previous: usize = match self.selected {
            None => usize::MAX,
            Some(i) => if i == 0 {
                0
            } else {
                i - 1
            },
        };
        self.selected = Some(previous);
    }

    /// Picks out the first item.
    pub fn select_first(&mut self)
        ensures
            final(self).offset == old(self).offset,
            final(self).selected == Some(0usize),
    {
        self.selected = Some(0);
    }

    /// Picks out the greatest index there is; whoever shows the list brings
    /// that back to the last item.
    pub fn select_last(&mut self)
        ensures
            final(self).offset == old(self).offset,
            final(self).selected == Some(usize::MAX),
    {
        self.selected = Some(usize::MAX);
    }
}

/// The tasks on show and which of them is picked out.
pub struct TaskList {
    pub items: Vec<Task>,
    pub state: ListState,
}

impl TaskList {
    /// An empty list with nothing picked out.
    pub fn new() -> (r: TaskList)
        ensures
            r.items@.len() == 0,
            r.state.selected is None,
            r.state.offset == 0,
    {
        TaskList { items: Vec::new(), state: ListState::new() }
    }

    /// The item that is picked out, where the selection names one.
    pub open spec fn current(&self) -> Option<int> {
        match self.state.selected {
            Some(i) => if i < self.items@.len() {
                Some(i as int)
            } else {
                None
            },
            None => None,
        }
    }
}

/// What the keys do at the moment.
#[derive(Debug, Clone, Copy, PartialEq, Eq, Structural)]
pub enum InputMode {
    View,
    Adding,
    EditingExisting,
    Export,
}

/// The field that typed characters go to.
#[derive(Debug, Clone, Copy, PartialEq, Eq, Structural)]
pub enum InputFieldType {
    Title,
    Description,
    Date,
}

impl InputFieldType {
    /// The field behind this one, round to the first.
    pub open spec fn following(self) -> InputFieldType {
        match self {
            InputFieldType::Title => InputFieldType::Description,
            InputFieldType::Description => InputFieldType::Date,
            InputFieldType::Date => InputFieldType::Title,
        }
    }
}

/// By what the list is sorted.
#[derive(Debug, Clone, Copy, PartialEq, Eq, Structural)]
pub enum SortField {
    Priority,
    Date,
}

/// The number by which a task is placed when the list is sorted: smaller
/// numbers come first. Sorting with the order `Low` puts the smallest rank
/// or the earliest date first; with the order `High` it is the other way
/// round.
pub open spec fn placing(task: Task, field: SortField, order: SortOrder) -> int {
    let rising = match field {
        SortField::Priority => task.priority.rank(),
        SortField::Date => task.date.sort_key(),
    };
    match order {
        SortOrder::Low => rising,
        SortOrder::High => -rising,
    }
}

/// The number by which a task is placed when the list is sorted.
pub fn sort_key(task: &Task, field: SortField, order: SortOrder) -> (r: i64)
    ensures
        r == placing(*task, field, order),
{
    let rising: i64 = match field {
        SortField::Priority => task.priority.to_u8() as i64,
        SortField::Date => task.date.key(),
    };
    match order {
        SortOrder::Low => rising,
        SortOrder::High => -rising,
    }
}

/// The tasks of a list that are placed by the number `place`, in the order
/// in which they stand in the list.
pub open spec fn placed_at(items: Seq<Task>, field: SortField, order: SortOrder, place: int) -> Seq<
    Task,
> {
    items.filter(|t: Task| placing(t, field, order) == place)
}

/// Whether `after` is `before` sorted: the same tasks, those with smaller
/// numbers first, and tasks with the same number in the order in which they
/// stood before.
pub open spec fn sorted_from(
    before: Seq<Task>,
    after: Seq<Task>,
    field: SortField,
    order: SortOrder,
) -> bool {
    &&& after.len() == before.len()
    &&& after.to_multiset() == before.to_multiset()
    &&& forall|i: int, j: int|
        0 <= i <= j < after.len() ==> placing(after[i], field, order) <= placing(
            after[j],
            field,
            order,
        )
    &&& forall|place: int|
        #[trigger] placed_at(after, field, order, place) == placed_at(before, field, order, place)
}

/// Calls `sort_by_key` of the standard library on the list, with the
/// number by which a task is placed as the key. The contract repeats what
/// the library documents: the list is sorted by the key, and elements with
/// equal keys keep their order.
#[verifier::external_body]
fn sort_tasks(items: &mut Vec<Task>, field: SortField, order: SortOrder)
    ensures
        sorted_from(old(items)@, final(items)@, field, order),
{
    items.sort_by_key(|task| sort_key(task, field, order));
}

/// All that the program knows between two keystrokes: the list, what has
/// been typed into the fields, what the keys do, and what went wrong last.
pub struct AppContext {
    pub task_list: TaskList,
    pub input_title: String,
    pub input_description: String,
    pub input_date: String,
    pub input_export_path: String,
    pub input_mode: InputMode,
    pub input_field: InputFieldType,
    /// Where the tasks are kept.
    pub db_path: String,
    pub show_help: bool,
    pub error: Option<String>,
    pub sort_order: SortOrder,
}

impl AppContext {
    /// The state at the start: an empty list, empty fields, looking at the
    /// list, nothing wrong, highest first.
    pub fn new(db_path: String) -> (app: AppContext)
        ensures
            app.task_list.items@.len() == 0,
            app.task_list.state.selected is None,
            app.task_list.state.offset == 0,
            app.input_title@.len() == 0,
            app.input_description@.len() == 0,
            app.input_date@.len() == 0,
            app.input_export_path@.len() == 0,
            app.input_mode == InputMode::View,
            app.input_field == InputFieldType::Title,
            app.db_path == db_path,
            !app.show_help,
            app.error is None,
            app.sort_order == SortOrder::High,
    {
        AppContext {
            task_list: TaskList::new(),
            input_title: String::new(),
            input_description: String::new(),
            input_date: String::new(),
            input_export_path: String::new(),
            input_mode: InputMode::View,
            input_field: InputFieldType::Title,
            db_path,
            show_help: false,
            error: None,
            sort_order: SortOrder::High,
        }
    }

    /// Whether two states agree in what no command ever touches: where the
    /// tasks are kept, whether help is shown, and the sort order.
    pub open spec fn same_settings(&self, other: &AppContext) -> bool {
        &&& self.db_path == other.db_path
        &&& self.show_help == other.show_help
        &&& self.sort_order == other.sort_order
    }

    /// Whether two states differ in nothing but the list and the order.
    pub open spec fn same_inputs(&self, other: &AppContext) -> bool {
        &&& self.input_title == other.input_title
        &&& self.input_description == other.input_description
        &&& self.input_date == other.input_date
        &&& self.input_export_path == other.input_export_path
        &&& self.input_mode == other.input_mode
        &&& self.input_field == other.input_field
        &&& self.db_path == other.db_path
        &&& self.show_help == other.show_help
        &&& self.error == other.error
    }

    /// Turns the order round and sorts the list by priority in the new
    /// order.
    pub fn sort_by_priority(&mut self)
        ensures
            final(self).sort_order == old(self).sort_order.flipped(),
            sorted_from(
                old(self).task_list.items@,
                final(self).task_list.items@,
                SortField::Priority,
                old(self).sort_order.flipped(),
            ),
            final(self).task_list.state == old(self).task_list.state,
            final(self).same_inputs(old(self)),
    {
        self.cycle_sort_order();
        sort_tasks(&mut self.task_list.items, SortField::Priority, self.sort_order);
    }

    /// Turns the order round and sorts the list by due date in the new
    /// order.
    pub fn sort_by_date(&mut self)
        ensures
            final(self).sort_order == old(self).sort_order.flipped(),
            sorted_from(
                old(self).task_list.items@,
                final(self).task_list.items@,
                SortField::Date,
                old(self).sort_order.flipped(),
            ),
            final(self).task_list.state == old(self).task_list.state,
            final(self).same_inputs(old(self)),
    {
        self.cycle_sort_order();
        sort_tasks(&mut self.task_list.items, SortField::Date, self.sort_order);
    }

    /// Whether two states differ in nothing but the selection.
    pub open spec fn same_but_selection(&self, other: &AppContext) -> bool {
        &&& self.same_inputs(other)
        &&& self.task_list.items == other.task_list.items
        &&& self.sort_order == other.sort_order
    }

    /// Picks out no item.
    pub fn select_none(&mut self)
        ensures
            final(self).task_list.state.selected is None,
            final(self).task_list.state.offset == 0,
            final(self).same_but_selection(old(self)),
    {
        self.task_list.state.select(None);
    }

    /// Picks out the next item.
    pub fn select_next(&mut self)
        ensures
            final(self).task_list.state.offset == old(self).task_list.state.offset,
            final(self).task_list.state.selected == Some(
                match old(self).task_list.state.selected {
                    None => 0usize,
                    Some(i) => if i == usize::MAX {
                        i
                    } else {
                        (i + 1) as usize
                    },
                },
            ),
            final(self).same_but_selection(old(self)),
    {
        self.task_list.state.select_next();
    }

    /// Picks out the item before.
    pub fn select_previous(&mut self)
        ensures
            final(self).task_list.state.offset == old(self).task_list.state.offset,
            final(self).task_list.state.selected == Some(
                match old(self).task_list.state.selected {
                    None => usize::MAX,
                    Some(i) => if i == 0 {
                        0usize
                    } else {
                        (i - 1) as usize
                    },
                },
            ),
            final(self).same_but_selection(old(self)),
    {
        self.task_list.state.select_previous();
    }

    /// Picks out the first item.
    pub fn select_first(&mut self)
        ensures
            final(self).task_list.state.offset == old(self).task_list.state.offset,
            final(self).task_list.state.selected == Some(0usize),
            final(self).same_but_selection(old(self)),
    {
        self.task_list.state.select_first();
    }

    /// Picks out the last item.
    pub fn select_last(&mut self)
        ensures
            final(self).task_list.state.offset == old(self).task_list.state.offset,
            final(self).task_list.state.selected == Some(usize::MAX),
            final(self).same_but_selection(old(self)),
    {
        self.task_list.state.select_last();
    }

    /// Puts the tasks that were read from where they are kept in the place
    /// of the list on show.
    pub fn refresh_task_list(&mut self, tasks: Vec<Task>)
        ensures
            final(self).task_list.items == tasks,
            final(self).task_list.state == old(self).task_list.state,
            final(self).sort_order == old(self).sort_order,
            final(self).same_inputs(old(self)),
    {
        self.task_list.items = tasks;
    }

    /// Whether two states differ in nothing but the field that typed
    /// characters go to.
    pub open spec fn same_but_field(&self, other: &AppContext) -> bool {
        &&& self.task_list == other.task_list
        &&& self.input_title == other.input_title
        &&& self.input_description == other.input_description
        &&& self.input_date == other.input_date
        &&& self.input_export_path == other.input_export_path
        &&& self.input_mode == other.input_mode
        &&& self.db_path == other.db_path
        &&& self.show_help == other.show_help
        &&& self.error == other.error
        &&& self.sort_order == other.sort_order
    }

    /// Moves on to the next field: from the title to the description, from
    /// there to the date, and round to the title.
    pub fn next_input_field(&mut self)
        ensures
            final(self).input_field == old(self).input_field.following(),
            final(self).same_but_field(old(self)),
    {
        self.input_field = match self.input_field {
            InputFieldType::Title => InputFieldType::Description,
            InputFieldType::Description => InputFieldType::Date,
            InputFieldType::Date => InputFieldType::Title,
        }
    }

    /// Turns the sort order round.
    pub fn cycle_sort_order(&mut self)
        ensures
            final(self).sort_order == old(self).sort_order.flipped(),
            final(self).task_list == old(self).task_list,
            final(self).same_inputs(old(self)),
    {
        self.sort_order = self.sort_order.toggled();
    }

    /// What has been typed into a field.
    pub open spec fn typed(&self, field: InputFieldType) -> Seq<char> {
        match field {
            InputFieldType::Title => self.input_title@,
            InputFieldType::Description => self.input_description@,
            InputFieldType::Date => self.input_date@,
        }
    }

    /// Whether two states differ in nothing but what has been typed into
    /// the field that typed characters go to.
    pub open spec fn same_but_typed(&self, other: &AppContext) -> bool {
        &&& self.task_list == other.task_list
        &&& self.input_export_path == other.input_export_path
        &&& self.input_mode == other.input_mode
        &&& self.input_field == other.input_field
        &&& self.db_path == other.db_path
        &&& self.show_help == other.show_help
        &&& self.error == other.error
        &&& self.sort_order == other.sort_order
        &&& forall|field: InputFieldType|
            field != other.input_field ==> #[trigger] self.typed(field) == other.typed(field)
    }

    /// Takes the last character off the field that typed characters go to,
    /// if it holds one.
    pub fn handle_backspace(&mut self)
        ensures
            final(self).typed(old(self).input_field) == if old(self).typed(
                old(self).input_field,
            ).len() == 0 {
                old(self).typed(old(self).input_field)
            } else {
                old(self).typed(old(self).input_field).drop_last()
            },
            final(self).same_but_typed(old(self)),
    {
        match self.input_field {
            InputFieldType::Title => {
                self.input_title.pop();
            },
            InputFieldType::Description => {
                self.input_description.pop();
            },
            InputFieldType::Date => {
                self.input_date.pop();
            },
        }
    }

    /// Puts a character behind what the field that typed characters go to
    /// holds.
    pub fn handle_char_input(&mut self, c: char)
        ensures
            final(self).typed(old(self).input_field) == old(self).typed(
                old(self).input_field,
            ).push(c),
            final(self).same_but_typed(old(self)),
    {
        match self.input_field {
            InputFieldType::Title => self.input_title.push(c),
            InputFieldType::Description => self.input_description.push(c),
            InputFieldType::Date => self.input_date.push(c),
        }
    }
}

} // verus!
