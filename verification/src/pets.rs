use crate::input::KeyCode;
use crate::text::take_text;
use vstd::prelude::*;
use vstd::string::StringExecFns;

verus! {

/// A point in time: seconds since the first of January 1970, and the part
/// of a second behind them in nanoseconds.
#[derive(Debug, Clone, Copy, PartialEq, Eq, Structural)]
pub struct Timestamp {
    pub seconds: i64,
    pub nanos: u32,
}

/// One pet of the list.
#[derive(Debug, Clone, PartialEq, Eq)]
pub struct Pet {
    pub id: usize,
    pub name: String,
    pub category: String,
    pub age: usize,
    pub created_at: Timestamp,
}

/// The pages of the program.
#[derive(Debug, Clone, Copy, PartialEq, Eq, Structural)]
pub enum MenuItem {
    Home,
    Lists,
}

impl vstd::std_specs::convert::FromSpecImpl<MenuItem> for usize {
    open spec fn obeys_from_spec() -> bool {
        true
    }

    open spec fn from_spec(input: MenuItem) -> usize {
        match input {
            MenuItem::Home => 0,
            MenuItem::Lists => 1,
        }
    }
}

impl From<MenuItem> for usize {
    /// The place of the page among the tabs.
    fn from(input: MenuItem) -> (place: usize) {
        match input {
            MenuItem::Home => 0,
            MenuItem::Lists => 1,
        }
    }
}

/// The text that `str::trim` leaves of a text: the text without the white
/// space at its two ends.
pub uninterp spec fn trimmed(text: Seq<char>) -> Seq<char>;

/// The number that `str::parse::<usize>` reads out of a text, or `None`
/// for a text that it refuses.
pub uninterp spec fn parsed_number(text: Seq<char>) -> Option<usize>;

/// Calls `str::trim` and makes a text of its own of what is left. The
/// contract gives the outcome its name.
#[verifier::external_body]
fn trim_text(text: &str) -> (r: String)
    ensures
        r@ == trimmed(text@),
{
    text.trim().to_string()
}

/// Calls `str::parse::<usize>`. The contract gives the outcome its name.
#[verifier::external_body]
fn parse_number(text: &str) -> (r: Option<usize>)
    ensures
        r == parsed_number(text@),
{
    text.parse::<usize>().ok()
}

/// Whether a pet stays when the pet with the number `id` is deleted.
pub open spec fn stays(id: usize) -> spec_fn(Pet) -> bool {
    |pet: Pet| pet.id != id
}

proof fn lemma_filter_next(pets: Seq<Pet>, upto: int, id: usize)
    requires
        0 <= upto < pets.len(),
    ensures
        pets.subrange(0, upto + 1).filter(stays(id)) == if pets[upto].id != id {
            pets.subrange(0, upto).filter(stays(id)).push(pets[upto])
        } else {
            pets.subrange(0, upto).filter(stays(id))
        },
{
    reveal(Seq::filter);
    let longer = pets.subrange(0, upto + 1);
    assert(longer.drop_last() =~= pets.subrange(0, upto));
    assert(longer.last() == pets[upto]);
}

/// Takes every pet with the number `id` off the list. The other pets stay
/// in their order.
pub fn delete_pet(pets: &mut Vec<Pet>, id: usize)
    ensures
        final(pets)@ == old(pets)@.filter(stays(id)),
{
    let mut at: usize = 0;
    let ghost mut seen: int = 0;
    proof {
        reveal(Seq::filter);
        assert(old(pets)@.subrange(0, 0) =~= Seq::<Pet>::empty());
    }
    while at < pets.len()
        invariant
            0 <= at <= pets@.len(),
            0 <= seen <= old(pets)@.len(),
            pets@.len() - at == old(pets)@.len() - seen,
            pets@.subrange(0, at as int) == old(pets)@.subrange(0, seen).filter(stays(id)),
            pets@.skip(at as int) == old(pets)@.skip(seen),
        decreases pets@.len() - at,
    {
        proof {
            lemma_filter_next(old(pets)@, seen, id);
            assert(pets@[at as int] == pets@.skip(at as int)[0]);
            assert(old(pets)@[seen] == old(pets)@.skip(seen)[0]);
        }
        let ghost before = pets@;
        if pets[at].id == id {
            pets.remove(at);
            proof {
                assert(pets@.subrange(0, at as int) =~= before.subrange(0, at as int));
                assert(pets@.skip(at as int) =~= before.skip(at as int).skip(1));
                assert(old(pets)@.skip(seen + 1) =~= old(pets)@.skip(seen).skip(1));
                seen = seen + 1;
            }
        } else {
            proof {
                assert(pets@.subrange(0, at + 1) =~= pets@.subrange(0, at as int).push(
                    pets@[at as int],
                ));
                assert(pets@.skip(at + 1) =~= pets@.skip(at as int).skip(1));
                assert(old(pets)@.skip(seen + 1) =~= old(pets)@.skip(seen).skip(1));
                seen = seen + 1;
            }
            at += 1;
        }
    }
    proof {
        assert(pets@.subrange(0, at as int) =~= pets@);
        assert(old(pets)@.subrange(0, seen) =~= old(pets)@);
    }
}

/// Whether the pet at `place` has the number `id` and no pet before it has.
pub open spec fn first_at(pets: Seq<Pet>, id: usize, place: int) -> bool {
    &&& 0 <= place < pets.len()
    &&& pets[place].id == id
    &&& forall|k: int| 0 <= k < place ==> pets[k].id != id
}

/// Gives the first pet with the number `id` a new name, a new category and
/// a new age. Where no pet has that number nothing changes.
pub fn modify_pet(
    pets: &mut Vec<Pet>,
    id: usize,
    new_name: String,
    new_category: String,
    new_age: usize,
)
    ensures
        final(pets)@.len() == old(pets)@.len(),
        (forall|k: int| 0 <= k < old(pets)@.len() ==> old(pets)@[k].id != id) ==> final(pets)@
            == old(pets)@,
        forall|place: int|
            first_at(old(pets)@, id, place) ==> {
                &&& final(pets)@[place].id == id
                &&& final(pets)@[place].name == new_name
                &&& final(pets)@[place].category == new_category
                &&& final(pets)@[place].age == new_age
                &&& final(pets)@[place].created_at == old(pets)@[place].created_at
                &&& forall|k: int|
                    0 <= k < old(pets)@.len() && k != place ==> #[trigger] final(pets)@[k] == old(
                        pets,
                    )@[k]
            },
{
    let mut at: usize = 0;
    while at < pets.len()
        invariant
            at <= pets@.len(),
            pets@ == old(pets)@,
            forall|k: int| 0 <= k < at ==> old(pets)@[k].id != id,
        decreases pets@.len() - at,
    {
        if pets[at].id == id {
            pets[at].name = new_name;
            pets[at].category = new_category;
            pets[at].age = new_age;
            proof {
                assert forall|place: int| first_at(old(pets)@, id, place) implies place == at by {
                    if place < at {
                        assert(old(pets)@[place].id != id);
                    }
                    if at < place {
                        assert(old(pets)@[at as int].id == id);
                    }
                }
            }
            return ;
        }
        at += 1;
    }
    proof {
        assert forall|place: int| !first_at(old(pets)@, id, place) by {
            if 0 <= place < old(pets)@.len() {
                assert(old(pets)@[place].id != id);
            }
        }
    }
}

/// Puts a new pet behind the list. Its number is its place on the list,
/// counted from one.
pub fn add_pet(pets: &mut Vec<Pet>, name: String, category: String, age: usize, created_at: Timestamp)
    ensures
        final(pets)@.len() == old(pets)@.len() + 1,
        final(pets)@.subrange(0, old(pets)@.len() as int) == old(pets)@,
        final(pets)@.last().id == old(pets)@.len() + 1,
        final(pets)@.last().name == name,
        final(pets)@.last().category == category,
        final(pets)@.last().age == age,
        final(pets)@.last().created_at == created_at,
{
    pets.push(Pet { id: 0, name, category, age, created_at });
    let place: usize = pets.len();
    pets[place - 1].id = place;
    assert(pets@.subrange(0, old(pets)@.len() as int) =~= old(pets)@);
}

/// The text that `u32::to_string` writes for a number: its decimal digits.
pub uninterp spec fn number_text(number: u32) -> Seq<char>;

/// Calls `to_string` on a `u32`. The contract gives the outcome its name.
#[verifier::external_body]
fn write_number(number: u32) -> (r: String)
    ensures
        r@ == number_text(number),
{
    number.to_string()
}

/// Puts a pet behind the list that chance has made: its name is `Pet_`
/// and the number that was drawn, it is a dog or a cat as the coin fell,
/// and it has the age that was drawn.
pub fn add_random_pet(
    pets: &mut Vec<Pet>,
    number: u32,
    dog: bool,
    age: usize,
    created_at: Timestamp,
)
    ensures
        final(pets)@.len() == old(pets)@.len() + 1,
        final(pets)@.subrange(0, old(pets)@.len() as int) == old(pets)@,
        final(pets)@.last().id == old(pets)@.len() + 1,
        final(pets)@.last().name@ == "Pet_"@ + number_text(number),
        final(pets)@.last().category@ == if dog {
            "Dog"@
        } else {
            "Cat"@
        },
        final(pets)@.last().age == age,
        final(pets)@.last().created_at == created_at,
{
    let digits = write_number(number);
    let name = String::from_str("Pet_").concat(digits.as_str());
    let category = if dog {
        "Dog".to_owned()
    } else {
        "Cat".to_owned()
    };
    add_pet(pets, name, category, age, created_at);
}

/// What the form for a new pet holds: the three fields and the number of
/// the field that the keys go to, 0 for the name, 1 for the category, 2 for
/// the age.
pub struct PetForm {
    pub name: String,
    pub category: String,
    pub age: String,
    pub current_field: usize,
}

/// What the loop around the form does after a key.
#[derive(Debug, Clone, Copy, PartialEq, Eq, Structural)]
pub enum FormStep {
    /// Show the form again and wait for the next key.
    Continue,
    /// The form is filled in: make the pet.
    Submit,
    /// The form was given up.
    Cancel,
}

impl PetForm {
    /// An empty form with the keys going to the name.
    pub fn new() -> (form: PetForm)
        ensures
            form.name@.len() == 0,
            form.category@.len() == 0,
            form.age@.len() == 0,
            form.current_field == 0,
    {
        PetForm { name: String::new(), category: String::new(), age: String::new(), current_field: 0 }
    }

    /// What a field holds.
    pub open spec fn field(&self, number: usize) -> Seq<char> {
        if number == 0 {
            self.name@
        } else if number == 1 {
            self.category@
        } else {
            self.age@
        }
    }

    /// Whether two forms hold the same in every field but the one with
    /// this number.
    pub open spec fn same_but(&self, other: &PetForm, number: usize) -> bool {
        &&& number != 0 ==> self.name == other.name
        &&& number != 1 ==> self.category == other.category
        &&& number != 2 ==> self.age == other.age
    }

    /// Takes a key. A character goes into the field that the keys go to,
    /// and the backspace key takes one off it. The enter key moves on to
    /// the next field, and in the last field it hands the form in. Escape
    /// gives the form up. Where the number of the field is none of the
    /// three, characters and the backspace key do nothing.
    pub fn on_key(&mut self, key: KeyCode) -> (step: FormStep)
        ensures
            match key {
                KeyCode::Char(c) => {
                    &&& step == FormStep::Continue
                    &&& final(self).current_field == old(self).current_field
                    &&& if old(self).current_field <= 2 {
                        &&& final(self).field(old(self).current_field) == old(self).field(
                            old(self).current_field,
                        ).push(c)
                        &&& final(self).same_but(old(self), old(self).current_field)
                    } else {
                        *final(self) == *old(self)
                    }
                },
                KeyCode::Backspace => {
                    &&& step == FormStep::Continue
                    &&& final(self).current_field == old(self).current_field
                    &&& if old(self).current_field <= 2 {
                        &&& final(self).field(old(self).current_field) == if old(self).field(
                            old(self).current_field,
                        ).len() == 0 {
                            old(self).field(old(self).current_field)
                        } else {
                            old(self).field(old(self).current_field).drop_last()
                        }
                        &&& final(self).same_but(old(self), old(self).current_field)
                    } else {
                        *final(self) == *old(self)
                    }
                },
                KeyCode::Enter => if old(self).current_field < 2 {
                    &&& step == FormStep::Continue
                    &&& final(self).current_field == old(self).current_field + 1
                    &&& final(self).same_but(old(self), 3)
                } else {
                    step == FormStep::Submit && *final(self) == *old(self)
                },
                KeyCode::Esc => step == FormStep::Cancel && *final(self) == *old(self),
                _ => step == FormStep::Continue && *final(self) == *old(self),
            },
    {
        match key {
            KeyCode::Char(c) => {
                if self.current_field == 0 {
                    self.name.push(c);
                } else if self.current_field == 1 {
                    self.category.push(c);
                } else if self.current_field == 2 {
                    self.age.push(c);
                }
                FormStep::Continue
            },
            KeyCode::Backspace => {
                if self.current_field == 0 {
                    self.name.pop();
                } else if self.current_field == 1 {
                    self.category.pop();
                } else if self.current_field == 2 {
                    self.age.pop();
                }
                FormStep::Continue
            },
            KeyCode::Enter => {
                if self.current_field < 2 {
                    self.current_field = self.current_field + 1;
                    FormStep::Continue
                } else {
                    FormStep::Submit
                }
            },
            KeyCode::Esc => FormStep::Cancel,
            _ => FormStep::Continue,
        }
    }

    /// The age that a text stands for: the number that is read out of the
    /// text without the white space at its ends, and 1 where there is none.
    pub open spec fn age_of(text: Seq<char>) -> usize {
        match parsed_number(trimmed(text)) {
            Some(age) => age,
            None => 1,
        }
    }

    /// Makes the pet that the form describes and puts it behind the list:
    /// name and category without the white space at their ends, and the
    /// age that was typed in, or 1 where that is no number.
    pub fn submit(self, pets: &mut Vec<Pet>, created_at: Timestamp)
        ensures
            final(pets)@.len() == old(pets)@.len() + 1,
            final(pets)@.subrange(0, old(pets)@.len() as int) == old(pets)@,
            final(pets)@.last().id == old(pets)@.len() + 1,
            final(pets)@.last().name@ == trimmed(self.name@),
            final(pets)@.last().category@ == trimmed(self.category@),
            final(pets)@.last().age == PetForm::age_of(self.age@),
            final(pets)@.last().created_at == created_at,
    {
        let name = trim_text(self.name.as_str());
        let category = trim_text(self.category.as_str());
        let digits = trim_text(self.age.as_str());
        let age: usize = match parse_number(digits.as_str()) {
            Some(age) => age,
            None => 1,
        };
        add_pet(pets, name, category, age, created_at);
    }
}

/// What the program shows: the page, and which pet of the list is picked
/// out.
#[derive(Debug, Clone, Copy, PartialEq, Eq, Structural)]
pub struct PetsView {
    pub active_menu_item: MenuItem,
    pub selected: Option<usize>,
}

/// What the main loop does after a key.
#[derive(Debug, Clone, Copy, PartialEq, Eq, Structural)]
pub enum PetsAction {
    /// Nothing but to show the screen again.
    Nothing,
    /// Leave the program.
    Quit,
    /// Show the form for a new pet.
    Add,
    /// Delete the pet with this number.
    Delete(usize),
    /// Ask for a new name, category and age for the pet with this number.
    Modify(usize),
}

impl PetsView {
    /// What a key does, given the list of pets as it is: `q` leaves the
    /// program, `h` and `l` change the page, `a` adds a pet, `d` deletes
    /// and `m` modifies the pet that is picked out, and the arrows move the
    /// selection within the list. After adding, deleting or modifying, the
    /// first pet is picked out.
    pub open spec fn after_key(self, key: KeyCode, pets: Seq<Pet>) -> (PetsView, PetsAction) {
        let first = PetsView { selected: Some(0usize), ..self };
        match key {
            KeyCode::Char('q') => (self, PetsAction::Quit),
            KeyCode::Char('h') => (
                PetsView { active_menu_item: MenuItem::Home, ..self },
                PetsAction::Nothing,
            ),
            KeyCode::Char('l') => (
                PetsView { active_menu_item: MenuItem::Lists, ..self },
                PetsAction::Nothing,
            ),
            KeyCode::Char('a') => (first, PetsAction::Add),
            KeyCode::Char('d') => match self.selected {
                Some(i) => if i < pets.len() {
                    (first, PetsAction::Delete(pets[i as int].id))
                } else {
                    (self, PetsAction::Nothing)
                },
                None => (self, PetsAction::Nothing),
            },
            KeyCode::Char('m') => match self.selected {
                Some(i) => if i < pets.len() {
                    (first, PetsAction::Modify(pets[i as int].id))
                } else {
                    (self, PetsAction::Nothing)
                },
                None => (self, PetsAction::Nothing),
            },
            KeyCode::Up => match self.selected {
                Some(i) => if i > 0 {
                    (PetsView { selected: Some((i - 1) as usize), ..self }, PetsAction::Nothing)
                } else {
                    (self, PetsAction::Nothing)
                },
                None => (self, PetsAction::Nothing),
            },
            KeyCode::Down => match self.selected {
                Some(i) => if i + 1 < pets.len() {
                    (PetsView { selected: Some((i + 1) as usize), ..self }, PetsAction::Nothing)
                } else {
                    (self, PetsAction::Nothing)
                },
                None => (self, PetsAction::Nothing),
            },
            _ => (self, PetsAction::Nothing),
        }
    }

    /// The view at the start: the home page, with the first pet picked out.
    pub fn new() -> (view: PetsView)
        ensures
            view == (PetsView { active_menu_item: MenuItem::Home, selected: Some(0usize) }),
    {
        PetsView { active_menu_item: MenuItem::Home, selected: Some(0) }
    }

    /// Takes a key and says what is to be done.
    pub fn on_key(&mut self, key: KeyCode, pets: &Vec<Pet>) -> (action: PetsAction)
        ensures
            *final(self) == old(self).after_key(key, pets@).0,
            action == old(self).after_key(key, pets@).1,
    {
        match key {
            KeyCode::Char('q') => PetsAction::Quit,
            KeyCode::Char('h') => {
                self.active_menu_item = MenuItem::Home;
                PetsAction::Nothing
            },
            KeyCode::Char('l') => {
                self.active_menu_item = MenuItem::Lists;
                PetsAction::Nothing
            },
            KeyCode::Char('a') => {
                self.selected = Some(0);
                PetsAction::Add
            },
            KeyCode::Char('d') => match self.selected {
                Some(i) => if i < pets.len() {
                    self.selected = Some(0);
                    PetsAction::Delete(pets[i].id)
                } else {
                    PetsAction::Nothing
                },
                None => PetsAction::Nothing,
            },
            KeyCode::Char('m') => match self.selected {
                Some(i) => if i < pets.len() {
                    self.selected = Some(0);
                    PetsAction::Modify(pets[i].id)
                } else {
                    PetsAction::Nothing
                },
                None => PetsAction::Nothing,
            },
            KeyCode::Up => match self.selected {
                Some(i) => if i > 0 {
                    self.selected = Some(i - 1);
                    PetsAction::Nothing
                } else {
                    PetsAction::Nothing
                },
                None => PetsAction::Nothing,
            },
            KeyCode::Down => match self.selected {
                Some(i) => if i < pets.len() && i + 1 < pets.len() {
                    self.selected = Some(i + 1);
                    PetsAction::Nothing
                } else {
                    PetsAction::Nothing
                },
                None => PetsAction::Nothing,
            },
            _ => PetsAction::Nothing,
        }
    }
}

} // verus!
