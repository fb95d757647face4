use afrim_ibus::afrim_api::{Afrim, ConfigError, Settings, Singleton, DEFAULT_BUFFER_SIZE};
use afrim_ibus::command::Command;
use afrim_ibus::keys::KeyStroke;
use afrim_ibus::preprocessor::MAX_BUFFER_SIZE;
use afrim_ibus::translator::Predicate;

fn settings(data: &[(&str, &str)], translation: &[(&str, &[&str])]) -> Settings {
    Settings {
        auto_commit: None,
        buffer_size: None,
        data: data.iter().map(|(k, v)| (k.to_string(), v.to_string())).collect(),
        translation: translation
            .iter()
            .map(|(k, v)| (k.to_string(), v.iter().map(|t| t.to_string()).collect()))
            .collect(),
    }
}

fn session(data: &[(&str, &str)], translation: &[(&str, &[&str])]) -> Afrim {
    match Afrim::from_config(settings(data, translation)) {
        Ok(afrim) => afrim,
        Err(error) => panic!("settings were turned down: {:?}", error),
    }
}

fn queue(afrim: &mut Afrim) -> Vec<Command> {
    let mut commands = Vec::new();
    while let Some(command) = afrim.pop_queue() {
        commands.push(command);
    }
    commands
}

fn type_text(afrim: &mut Afrim, text: &str) {
    for c in text.chars() {
        afrim.process(KeyStroke::Character(c));
    }
}

#[test]
fn a_new_session_is_empty() {
    let mut afrim = session(&[("cc", "ç")], &[("ab", &["α"])]);
    assert_eq!(afrim.get_input(), "");
    assert_eq!(afrim.pop_queue(), None);
}

#[test]
fn the_default_buffer_size_is_sixty_four() {
    assert_eq!(DEFAULT_BUFFER_SIZE, 64);
}

#[test]
fn a_buffer_size_too_large_is_turned_down() {
    let mut too_large = settings(&[], &[]);
    too_large.buffer_size = Some(MAX_BUFFER_SIZE + 1);
    match Afrim::from_config(too_large) {
        Ok(_) => panic!("a buffer of that size cannot be"),
        Err(error) => assert_eq!(error, ConfigError::BufferSize(MAX_BUFFER_SIZE + 1)),
    }
    let mut largest = settings(&[], &[]);
    largest.buffer_size = Some(usize::MAX);
    assert!(Afrim::from_config(largest).is_err());
}

#[test]
fn a_small_buffer_size_is_taken() {
    let mut small = settings(&[], &[]);
    small.buffer_size = Some(8);
    let mut afrim = Afrim::from_config(small).ok().unwrap();
    type_text(&mut afrim, "si3");
    assert_eq!(afrim.get_input(), "si3");
}

#[test]
fn the_buffer_holds_what_was_typed() {
    let mut afrim = session(&[], &[]);
    afrim.process(KeyStroke::Character('a'));
    assert_eq!(afrim.get_input(), "a");
    afrim.process(KeyStroke::Character('b'));
    assert_eq!(afrim.get_input(), "ab");
    assert_eq!(afrim.pop_queue(), None);
}

#[test]
fn shift_and_caps_lock_change_nothing() {
    let mut afrim = session(&[], &[]);
    type_text(&mut afrim, "ab");
    afrim.process(KeyStroke::Shift);
    afrim.process(KeyStroke::CapsLock);
    assert_eq!(afrim.get_input(), "ab");
    assert_eq!(afrim.pop_queue(), None);
}

#[test]
fn an_unidentified_stroke_empties_the_buffer() {
    let mut afrim = session(&[("cc", "ç")], &[]);
    type_text(&mut afrim, "cc");
    let before = queue(&mut afrim);
    assert!(!before.is_empty());
    type_text(&mut afrim, "ab");
    afrim.process(KeyStroke::Unidentified);
    assert_eq!(afrim.get_input(), "");
    assert_eq!(afrim.pop_queue(), None);
}

#[test]
fn a_sequence_of_the_symbol_table_queues_its_commands() {
    let mut afrim = session(&[("cc", "ç")], &[]);
    type_text(&mut afrim, "cc");
    assert_eq!(
        queue(&mut afrim),
        vec![
            Command::Pause,
            Command::Delete,
            Command::Delete,
            Command::CommitText("ç".to_string()),
            Command::Resume,
        ]
    );
    assert_eq!(afrim.pop_queue(), None);
}

#[test]
fn backspace_queues_a_clean_delete() {
    let mut afrim = session(&[], &[]);
    afrim.process(KeyStroke::Backspace);
    assert_eq!(queue(&mut afrim), vec![Command::Pause, Command::CleanDelete, Command::Resume]);
}

#[test]
fn commit_on_an_empty_buffer() {
    let mut afrim = session(&[], &[]);
    afrim.commit("hello");
    assert_eq!(
        queue(&mut afrim),
        vec![Command::Pause, Command::CommitText("hello".to_string()), Command::Resume]
    );
    assert_eq!(afrim.get_input(), "");
}

#[test]
fn commit_discards_the_buffered_input() {
    let mut afrim = session(&[], &[]);
    afrim.process(KeyStroke::Character('a'));
    afrim.commit("word");
    assert_eq!(
        queue(&mut afrim),
        vec![
            Command::Pause,
            Command::Delete,
            Command::CommitText("word".to_string()),
            Command::Resume,
        ]
    );
    assert_eq!(afrim.get_input(), "");
}

#[test]
fn commit_goes_behind_what_is_queued() {
    let mut afrim = session(&[], &[]);
    afrim.process(KeyStroke::Backspace);
    afrim.commit("x");
    assert_eq!(
        queue(&mut afrim),
        vec![
            Command::Pause,
            Command::CleanDelete,
            Command::Resume,
            Command::Pause,
            Command::CommitText("x".to_string()),
            Command::Resume,
        ]
    );
}

#[test]
fn translation_of_an_exact_match() {
    let afrim = session(&[], &[("ab", &["α"])]);
    assert_eq!(
        afrim.translate("ab"),
        vec![Predicate {
            code: "ab".to_string(),
            remaining_code: String::new(),
            texts: vec!["α".to_string()],
            can_commit: false,
        }]
    );
}

#[test]
fn auto_commit_marks_exact_matches() {
    let mut with_auto_commit = settings(&[], &[("ab", &["α"]), ("abc", &["β"])]);
    with_auto_commit.auto_commit = Some(true);
    let afrim = Afrim::from_config(with_auto_commit).ok().unwrap();
    let predicates = afrim.translate("ab");
    assert_eq!(predicates.len(), 2);
    assert_eq!(predicates[0].code, "ab");
    assert!(predicates[0].can_commit);
    assert_eq!(predicates[1].code, "abc");
    assert_eq!(predicates[1].remaining_code, "c");
    assert!(!predicates[1].can_commit);
}

#[test]
fn translation_completes_a_prefix() {
    let afrim = session(&[], &[("salut!", &["hello!", "hi!"]), ("salade", &["vegetable"])]);
    assert_eq!(
        afrim.translate("sal"),
        vec![
            Predicate {
                code: "salut!".to_string(),
                remaining_code: "ut!".to_string(),
                texts: vec!["hello!".to_string(), "hi!".to_string()],
                can_commit: false,
            },
            Predicate {
                code: "salade".to_string(),
                remaining_code: "ade".to_string(),
                texts: vec!["vegetable".to_string()],
                can_commit: false,
            },
        ]
    );
}

#[test]
fn a_short_input_has_no_translation() {
    let afrim = session(&[], &[("ab", &["α"]), ("a", &["β"])]);
    assert_eq!(afrim.translate(""), vec![]);
    assert_eq!(afrim.translate("a"), vec![]);
    assert_eq!(afrim.translate("é"), vec![]);
}

#[test]
fn an_input_that_starts_outside_ascii_has_no_translation() {
    let afrim = session(&[], &[("éte", &["summer"]), ("abcdef", &["x"])]);
    assert_eq!(afrim.translate("ét"), vec![]);
    assert_eq!(afrim.translate("éte"), vec![]);
}

#[test]
fn codes_that_start_outside_ascii_are_left_out_of_the_dictionary() {
    let afrim = session(&[], &[("été", &["summer"]), ("ete", &["been"]), ("", &["none"])]);
    assert_eq!(
        afrim.translate("et"),
        vec![Predicate {
            code: "ete".to_string(),
            remaining_code: "e".to_string(),
            texts: vec!["been".to_string()],
            can_commit: false,
        }]
    );
}

#[test]
fn the_slot_starts_empty_and_is_filled_once() {
    let mut slot = Singleton::init_afrim();
    assert!(slot.get_afrim().is_none());
    let mut first = session(&[], &[]);
    first.process(KeyStroke::Character('a'));
    assert!(slot.update_afrim(first));
    assert!(slot.get_afrim().is_some());
    assert!(!slot.update_afrim(session(&[], &[])));
    match slot.get_afrim() {
        Some(afrim) => assert_eq!(afrim.get_input(), "a"),
        None => panic!("the slot lost its session"),
    }
    slot.drop_afrim();
}
