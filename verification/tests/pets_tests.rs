use task_rustler::input::KeyCode;
use task_rustler::pets::{
    add_pet, add_random_pet, delete_pet, modify_pet, FormStep, MenuItem, Pet, PetForm,
    PetsAction, PetsView, Timestamp,
};

const THEN: Timestamp = Timestamp { seconds: 1_700_000_000, nanos: 5 };

fn pet(id: usize, name: &str) -> Pet {
    Pet { id, name: name.to_string(), category: "Cat".to_string(), age: 3, created_at: THEN }
}

fn names(pets: &[Pet]) -> Vec<&str> {
    pets.iter().map(|p| p.name.as_str()).collect()
}

#[test]
fn pages_have_their_places() {
    assert_eq!(usize::from(MenuItem::Home), 0);
    assert_eq!(usize::from(MenuItem::Lists), 1);
    let place: usize = MenuItem::Lists.into();
    assert_eq!(place, 1);
}

#[test]
fn delete_takes_every_pet_with_the_number() {
    let mut pets = vec![pet(1, "a"), pet(2, "b"), pet(1, "c"), pet(3, "d"), pet(1, "e")];
    delete_pet(&mut pets, 1);
    assert_eq!(names(&pets), vec!["b", "d"]);
    delete_pet(&mut pets, 9);
    assert_eq!(names(&pets), vec!["b", "d"]);
    delete_pet(&mut pets, 3);
    delete_pet(&mut pets, 2);
    assert!(pets.is_empty());
    delete_pet(&mut pets, 2);
    assert!(pets.is_empty());
}

#[test]
fn modify_changes_the_first_pet_with_the_number_only() {
    let mut pets = vec![pet(1, "a"), pet(2, "b"), pet(2, "c")];
    modify_pet(&mut pets, 2, "rex".to_string(), "Dog".to_string(), 9);
    assert_eq!(
        pets[1],
        Pet { id: 2, name: "rex".to_string(), category: "Dog".to_string(), age: 9, created_at: THEN }
    );
    assert_eq!(pets[0], pet(1, "a"));
    assert_eq!(pets[2], pet(2, "c"));
    modify_pet(&mut pets, 7, "x".to_string(), "y".to_string(), 1);
    assert_eq!(names(&pets), vec!["a", "rex", "c"]);
}

#[test]
fn a_new_pet_gets_its_place_as_its_number() {
    let mut pets = Vec::new();
    add_pet(&mut pets, "a".to_string(), "Cat".to_string(), 2, THEN);
    add_pet(&mut pets, "b".to_string(), "Dog".to_string(), 4, THEN);
    assert_eq!(pets[0].id, 1);
    assert_eq!(pets[1].id, 2);
    assert_eq!(pets[1].name, "b");
    assert_eq!(pets[1].category, "Dog");
    assert_eq!(pets[1].age, 4);
    assert_eq!(pets[1].created_at, THEN);
}

#[test]
fn a_pet_made_by_chance() {
    let mut pets = vec![pet(1, "a")];
    add_random_pet(&mut pets, 4_000_000_000, true, 14, THEN);
    add_random_pet(&mut pets, 0, false, 1, THEN);
    assert_eq!(pets[1].name, "Pet_4000000000");
    assert_eq!(pets[1].category, "Dog");
    assert_eq!(pets[1].id, 2);
    assert_eq!(pets[1].age, 14);
    assert_eq!(pets[2].name, "Pet_0");
    assert_eq!(pets[2].category, "Cat");
    assert_eq!(pets[2].id, 3);
}

#[test]
fn the_form_is_filled_in_field_by_field() {
    let mut form = PetForm::new();
    for c in " Rex ".chars() {
        assert_eq!(form.on_key(KeyCode::Char(c)), FormStep::Continue);
    }
    assert_eq!(form.on_key(KeyCode::Enter), FormStep::Continue);
    assert_eq!(form.current_field, 1);
    for c in "Dogg".chars() {
        form.on_key(KeyCode::Char(c));
    }
    assert_eq!(form.on_key(KeyCode::Backspace), FormStep::Continue);
    assert_eq!(form.on_key(KeyCode::Tab), FormStep::Continue);
    assert_eq!(form.on_key(KeyCode::Enter), FormStep::Continue);
    assert_eq!(form.current_field, 2);
    for c in " 7 ".chars() {
        form.on_key(KeyCode::Char(c));
    }
    assert_eq!(form.name, " Rex ");
    assert_eq!(form.category, "Dog");
    assert_eq!(form.age, " 7 ");
    assert_eq!(form.on_key(KeyCode::Enter), FormStep::Submit);
    assert_eq!(form.current_field, 2);

    let mut pets = vec![pet(1, "a")];
    form.submit(&mut pets, THEN);
    assert_eq!(
        pets[1],
        Pet { id: 2, name: "Rex".to_string(), category: "Dog".to_string(), age: 7, created_at: THEN }
    );
}

#[test]
fn an_age_that_is_no_number_counts_as_one() {
    for typed in ["", "old", "-3", "7 years", "1.5"] {
        let mut form = PetForm::new();
        form.age = typed.to_string();
        let mut pets = Vec::new();
        form.submit(&mut pets, THEN);
        assert_eq!(pets[0].age, 1, "{}", typed);
        assert_eq!(pets[0].id, 1);
        assert_eq!(pets[0].name, "");
    }
    let mut form = PetForm::new();
    form.age = "12".to_string();
    let mut pets = Vec::new();
    form.submit(&mut pets, THEN);
    assert_eq!(pets[0].age, 12);
}

#[test]
fn the_form_is_given_up() {
    let mut form = PetForm::new();
    form.on_key(KeyCode::Char('x'));
    assert_eq!(form.on_key(KeyCode::Esc), FormStep::Cancel);
    assert_eq!(form.name, "x");
    // Backspace in an empty field, and a field that is none of the three.
    let mut form = PetForm::new();
    assert_eq!(form.on_key(KeyCode::Backspace), FormStep::Continue);
    assert_eq!(form.name, "");
    form.current_field = 5;
    form.on_key(KeyCode::Char('y'));
    form.on_key(KeyCode::Backspace);
    assert_eq!((form.name.as_str(), form.category.as_str(), form.age.as_str()), ("", "", ""));
    assert_eq!(form.on_key(KeyCode::Enter), FormStep::Submit);
}

#[test]
fn keys_of_the_pets_program() {
    let pets = vec![pet(10, "a"), pet(20, "b"), pet(30, "c")];
    let mut view = PetsView::new();
    assert_eq!(view, PetsView { active_menu_item: MenuItem::Home, selected: Some(0) });
    assert_eq!(view.on_key(KeyCode::Char('l'), &pets), PetsAction::Nothing);
    assert_eq!(view.active_menu_item, MenuItem::Lists);
    assert_eq!(view.on_key(KeyCode::Up, &pets), PetsAction::Nothing);
    assert_eq!(view.selected, Some(0));
    view.on_key(KeyCode::Down, &pets);
    view.on_key(KeyCode::Down, &pets);
    assert_eq!(view.selected, Some(2));
    view.on_key(KeyCode::Down, &pets);
    assert_eq!(view.selected, Some(2));
    assert_eq!(view.on_key(KeyCode::Char('m'), &pets), PetsAction::Modify(30));
    assert_eq!(view.selected, Some(0));
    view.on_key(KeyCode::Down, &pets);
    assert_eq!(view.on_key(KeyCode::Char('d'), &pets), PetsAction::Delete(20));
    assert_eq!(view.selected, Some(0));
    view.selected = Some(1);
    assert_eq!(view.on_key(KeyCode::Char('a'), &pets), PetsAction::Add);
    assert_eq!(view.selected, Some(0));
    assert_eq!(view.on_key(KeyCode::Char('h'), &pets), PetsAction::Nothing);
    assert_eq!(view.active_menu_item, MenuItem::Home);
    assert_eq!(view.on_key(KeyCode::Char('q'), &pets), PetsAction::Quit);
    assert_eq!(view.on_key(KeyCode::Enter, &pets), PetsAction::Nothing);
}

#[test]
fn keys_of_the_pets_program_on_an_empty_list() {
    let pets: Vec<Pet> = Vec::new();
    let mut view = PetsView::new();
    assert_eq!(view.on_key(KeyCode::Char('d'), &pets), PetsAction::Nothing);
    assert_eq!(view.on_key(KeyCode::Char('m'), &pets), PetsAction::Nothing);
    assert_eq!(view.on_key(KeyCode::Down, &pets), PetsAction::Nothing);
    assert_eq!(view.selected, Some(0));
    view.selected = None;
    assert_eq!(view.on_key(KeyCode::Up, &pets), PetsAction::Nothing);
    assert_eq!(view.on_key(KeyCode::Down, &pets), PetsAction::Nothing);
    assert_eq!(view.selected, None);
    view.selected = Some(usize::MAX);
    view.on_key(KeyCode::Down, &pets);
    assert_eq!(view.selected, Some(usize::MAX));
}
