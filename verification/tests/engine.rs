use afrim_ibus::afrim_api::{Afrim, ConfigError, Settings, Singleton};
use afrim_ibus::classifier::Navigation;
use afrim_ibus::engine::{
    configure_afrim, drain, free_engine_core, ibus_afrim_engine_enable,
    ibus_afrim_engine_page_down_button, ibus_afrim_engine_page_up_button,
    ibus_afrim_engine_process_key_event, ibus_afrim_engine_reset, navigate, new_engine_core,
    refresh, Configured, EngineCore,
};
use afrim_ibus::host::{HostEffect, SETTLE_MILLIS};
use afrim_ibus::keys::{
    KeyEvent, KeyStroke, CONTROL_MASK, KEY_BACKSPACE, KEY_CONTROL_L, KEY_CONTROL_R, KEY_SHIFT_L,
    KEY_SHIFT_R, KEY_SPACE, RELEASE_MASK,
};
use afrim_ibus::preprocessor::MAX_BUFFER_SIZE;

fn settings(data: &[(&str, &str)], translation: &[(&str, &[&str])]) -> Settings {
    Settings {
        auto_commit: None,
        buffer_size: None,
        data: data.iter().map(|(k, v)| (k.to_string(), v.to_string())).collect(),
        translation: translation
            .iter()
            .map(|(k, v)| (k.to_string(), v.iter().map(|t| t.to_string()).collect()))
            .collect(),
    }
}

fn engine(data: &[(&str, &str)], translation: &[(&str, &[&str])]) -> (EngineCore, Singleton) {
    let mut slot = Singleton::init_afrim();
    assert_eq!(
        configure_afrim(&mut slot, Some(settings(data, translation))),
        Configured::Installed
    );
    (new_engine_core(1, 2), slot)
}

fn press(c: char) -> KeyEvent {
    KeyEvent::new(c as u32, Some(c), 0)
}

fn release(c: char) -> KeyEvent {
    KeyEvent::new(c as u32, Some(c), RELEASE_MASK)
}

fn toggle() -> KeyEvent {
    KeyEvent::new(KEY_CONTROL_L, None, CONTROL_MASK)
}

fn confirm() -> KeyEvent {
    KeyEvent::new(KEY_SPACE, Some(' '), CONTROL_MASK)
}

fn input_of(slot: &Singleton) -> String {
    match slot.get_afrim() {
        Some(afrim) => afrim.get_input(),
        None => panic!("no session"),
    }
}

fn hidden(input: &str) -> Vec<HostEffect> {
    vec![
        HostEffect::UpdateAuxiliaryText(input.to_string()),
        HostEffect::ClearCandidates,
        HostEffect::HideAuxiliaryText,
        HostEffect::HideCandidates,
    ]
}

#[test]
fn a_new_engine_is_active() {
    let core = new_engine_core(7, 9);
    assert!(!core.is_idle());
    assert_eq!(core.parent_engine(), 7);
    assert_eq!(core.parent_engine_class(), 9);
}

#[test]
fn basic_composition() {
    let (mut core, mut slot) = engine(&[], &[("ab", &["α"])]);
    let first = ibus_afrim_engine_process_key_event(&mut core, &mut slot, &press('a'), None);
    assert!(first.handled);
    assert_eq!(first.effects, hidden("a"));
    assert_eq!(input_of(&slot), "a");
    let second = ibus_afrim_engine_process_key_event(&mut core, &mut slot, &press('b'), None);
    assert!(second.handled);
    assert_eq!(
        second.effects,
        vec![
            HostEffect::UpdateAuxiliaryText("ab".to_string()),
            HostEffect::ClearCandidates,
            HostEffect::SetCandidateLabel(0, "~".to_string()),
            HostEffect::AppendCandidate("α".to_string()),
            HostEffect::ShowAuxiliaryText,
            HostEffect::ShowCandidates,
        ]
    );
    assert!(!core.is_idle());
}

#[test]
fn forwarding_does_not_drain() {
    let (mut core, mut slot) = engine(&[("cc", "ç")], &[]);
    ibus_afrim_engine_process_key_event(&mut core, &mut slot, &press('c'), None);
    let out = ibus_afrim_engine_process_key_event(&mut core, &mut slot, &press('c'), None);
    assert_eq!(out.effects, hidden("cc"));
    let drained = ibus_afrim_engine_process_key_event(&mut core, &mut slot, &release('c'), None);
    assert!(drained.handled);
    assert_eq!(
        drained.effects,
        vec![
            HostEffect::DeleteBeforeCursor(1),
            HostEffect::Settle(SETTLE_MILLIS),
            HostEffect::DeleteBeforeCursor(1),
            HostEffect::Settle(SETTLE_MILLIS),
            HostEffect::CommitText("ç".to_string()),
        ]
    );
    assert!(!core.is_idle());
    let again = ibus_afrim_engine_process_key_event(&mut core, &mut slot, &release('c'), None);
    assert!(again.handled);
    assert_eq!(again.effects, vec![]);
}

#[test]
fn confirm_and_commit() {
    let (mut core, mut slot) = engine(&[], &[("ab", &["α"])]);
    let out = ibus_afrim_engine_process_key_event(&mut core, &mut slot, &confirm(), Some("α"));
    assert!(out.handled);
    assert_eq!(out.effects, vec![HostEffect::CommitText("α".to_string())]);
    assert!(!core.is_idle());
    assert_eq!(input_of(&slot), "");
    let after = ibus_afrim_engine_process_key_event(&mut core, &mut slot, &release(' '), None);
    assert_eq!(after.effects, vec![]);
}

#[test]
fn confirm_discards_what_was_typed() {
    let (mut core, mut slot) = engine(&[], &[("ab", &["α"])]);
    ibus_afrim_engine_process_key_event(&mut core, &mut slot, &press('a'), None);
    ibus_afrim_engine_process_key_event(&mut core, &mut slot, &press('b'), None);
    let out = ibus_afrim_engine_process_key_event(&mut core, &mut slot, &confirm(), Some("α"));
    assert_eq!(
        out.effects,
        vec![
            HostEffect::DeleteBeforeCursor(1),
            HostEffect::Settle(SETTLE_MILLIS),
            HostEffect::DeleteBeforeCursor(1),
            HostEffect::Settle(SETTLE_MILLIS),
            HostEffect::CommitText("α".to_string()),
        ]
    );
    let commits =
        out.effects.iter().filter(|e| **e == HostEffect::CommitText("α".to_string())).count();
    assert_eq!(commits, 1);
    assert_eq!(input_of(&slot), "");
}

#[test]
fn confirm_without_a_candidate_only_drains() {
    let (mut core, mut slot) = engine(&[("cc", "ç")], &[]);
    ibus_afrim_engine_process_key_event(&mut core, &mut slot, &press('c'), None);
    ibus_afrim_engine_process_key_event(&mut core, &mut slot, &press('c'), None);
    let out = ibus_afrim_engine_process_key_event(&mut core, &mut slot, &confirm(), None);
    assert!(out.handled);
    assert_eq!(
        out.effects,
        vec![
            HostEffect::DeleteBeforeCursor(1),
            HostEffect::Settle(SETTLE_MILLIS),
            HostEffect::DeleteBeforeCursor(1),
            HostEffect::Settle(SETTLE_MILLIS),
            HostEffect::CommitText("ç".to_string()),
        ]
    );
    assert_eq!(input_of(&slot), "cc");
}

#[test]
fn idle_round_trip() {
    let (mut core, mut slot) = engine(&[], &[("ab", &["α"])]);
    assert!(!core.is_idle());
    let to_idle = ibus_afrim_engine_process_key_event(&mut core, &mut slot, &toggle(), None);
    assert!(to_idle.handled);
    assert_eq!(to_idle.effects, vec![]);
    assert!(core.is_idle());
    let typed = ibus_afrim_engine_process_key_event(&mut core, &mut slot, &press('a'), None);
    assert!(typed.handled);
    assert_eq!(typed.effects, vec![]);
    assert!(core.is_idle());
    assert_eq!(input_of(&slot), "");
    let to_active = ibus_afrim_engine_process_key_event(
        &mut core,
        &mut slot,
        &KeyEvent::new(KEY_CONTROL_R, None, CONTROL_MASK),
        None,
    );
    assert!(to_active.handled);
    assert_eq!(to_active.effects, vec![]);
    assert!(!core.is_idle());
    assert_eq!(core.parent_engine(), 1);
    assert_eq!(core.parent_engine_class(), 2);
}

#[test]
fn idle_suppresses_every_other_event() {
    let (mut core, mut slot) = engine(&[("cc", "ç")], &[("ab", &["α"])]);
    ibus_afrim_engine_process_key_event(&mut core, &mut slot, &press('c'), None);
    ibus_afrim_engine_process_key_event(&mut core, &mut slot, &press('c'), None);
    ibus_afrim_engine_process_key_event(&mut core, &mut slot, &toggle(), None);
    let events = [
        press('x'),
        release('x'),
        confirm(),
        KeyEvent::new(KEY_SHIFT_L, None, CONTROL_MASK),
        KeyEvent::new(KEY_SHIFT_R, None, CONTROL_MASK),
        KeyEvent::new(KEY_BACKSPACE, None, 0),
    ];
    for event in events.iter() {
        let out = ibus_afrim_engine_process_key_event(&mut core, &mut slot, event, Some("α"));
        assert!(out.handled);
        assert_eq!(out.effects, vec![]);
        assert!(core.is_idle());
        assert_eq!(input_of(&slot), "cc");
    }
    ibus_afrim_engine_process_key_event(&mut core, &mut slot, &toggle(), None);
    let out = ibus_afrim_engine_process_key_event(&mut core, &mut slot, &release('c'), None);
    assert_eq!(out.effects.len(), 5);
}

#[test]
fn a_bare_modifier_is_passed_through() {
    let (mut core, mut slot) = engine(&[], &[]);
    ibus_afrim_engine_process_key_event(&mut core, &mut slot, &press('a'), None);
    let out = ibus_afrim_engine_process_key_event(
        &mut core,
        &mut slot,
        &KeyEvent::new(KEY_SHIFT_L, None, 0),
        None,
    );
    assert!(!out.handled);
    assert_eq!(out.effects, vec![]);
    assert_eq!(input_of(&slot), "a");
}

#[test]
fn navigation_moves_the_highlight() {
    let (mut core, mut slot) = engine(&[], &[]);
    let up = ibus_afrim_engine_process_key_event(
        &mut core,
        &mut slot,
        &KeyEvent::new(KEY_SHIFT_L, None, CONTROL_MASK),
        None,
    );
    assert!(up.handled);
    assert_eq!(
        up.effects,
        vec![HostEffect::MoveCandidateCursor(Navigation::Up), HostEffect::ShowCandidates]
    );
    let down = ibus_afrim_engine_process_key_event(
        &mut core,
        &mut slot,
        &KeyEvent::new(KEY_SHIFT_R, None, CONTROL_MASK),
        None,
    );
    assert!(down.handled);
    assert_eq!(
        down.effects,
        vec![HostEffect::MoveCandidateCursor(Navigation::Down), HostEffect::ShowCandidates]
    );
    assert_eq!(ibus_afrim_engine_page_up_button(), up.effects);
    assert_eq!(ibus_afrim_engine_page_down_button(), down.effects);
    assert_eq!(navigate(Navigation::Up), up.effects);
}

#[test]
fn without_a_session_events_pass_through() {
    let mut core = new_engine_core(0, 0);
    let mut slot = Singleton::init_afrim();
    for event in [press('a'), release('a'), confirm()].iter() {
        let out = ibus_afrim_engine_process_key_event(&mut core, &mut slot, event, Some("α"));
        assert!(!out.handled);
        assert_eq!(out.effects, vec![]);
        assert!(slot.get_afrim().is_none());
    }
    let out = ibus_afrim_engine_process_key_event(&mut core, &mut slot, &toggle(), None);
    assert!(out.handled);
    assert!(core.is_idle());
}

#[test]
fn delete_command_with_settling_delay() {
    let mut afrim = Afrim::from_config(settings(&[], &[])).ok().unwrap();
    afrim.process(KeyStroke::Character('a'));
    afrim.commit("x");
    let mut core = new_engine_core(0, 0);
    let outcome = drain(&mut core, &mut afrim);
    assert_eq!(outcome.applied, 4);
    assert_eq!(
        outcome.effects,
        vec![
            HostEffect::DeleteBeforeCursor(1),
            HostEffect::Settle(10),
            HostEffect::CommitText("x".to_string()),
        ]
    );
    assert_eq!(afrim.pop_queue(), None);
    assert!(!core.is_idle());
}

#[test]
fn draining_an_empty_queue_does_nothing() {
    let mut afrim = Afrim::from_config(settings(&[], &[])).ok().unwrap();
    let mut core = new_engine_core(0, 0);
    let outcome = drain(&mut core, &mut afrim);
    assert_eq!(outcome.applied, 0);
    assert_eq!(outcome.effects, vec![]);
    assert!(!core.is_idle());
}

#[test]
fn a_clean_delete_is_taken_off_without_effect() {
    let mut afrim = Afrim::from_config(settings(&[], &[])).ok().unwrap();
    afrim.process(KeyStroke::Backspace);
    let mut core = new_engine_core(0, 0);
    let outcome = drain(&mut core, &mut afrim);
    assert_eq!(outcome.applied, 3);
    assert_eq!(outcome.effects, vec![]);
    assert_eq!(afrim.pop_queue(), None);
}

#[test]
fn commands_are_carried_out_in_the_order_queued() {
    let mut afrim = Afrim::from_config(settings(&[("cc", "ç")], &[])).ok().unwrap();
    afrim.commit("one");
    afrim.process(KeyStroke::Character('c'));
    afrim.process(KeyStroke::Character('c'));
    afrim.commit("two");
    let mut core = new_engine_core(0, 0);
    let outcome = drain(&mut core, &mut afrim);
    let commits: Vec<&HostEffect> =
        outcome.effects.iter().filter(|e| matches!(e, HostEffect::CommitText(_))).collect();
    assert_eq!(
        commits,
        vec![
            &HostEffect::CommitText("one".to_string()),
            &HostEffect::CommitText("ç".to_string()),
            &HostEffect::CommitText("two".to_string()),
        ]
    );
    assert_eq!(outcome.effects[0], HostEffect::CommitText("one".to_string()));
    assert_eq!(afrim.pop_queue(), None);
    assert!(!core.is_idle());
}

#[test]
fn refresh_asks_the_translator() {
    let afrim = Afrim::from_config(settings(&[], &[("ab", &["", "α"]), ("abc", &["β"])]))
        .ok()
        .unwrap();
    assert_eq!(
        refresh(&afrim, "ab"),
        vec![
            HostEffect::UpdateAuxiliaryText("ab".to_string()),
            HostEffect::ClearCandidates,
            HostEffect::SetCandidateLabel(0, "~".to_string()),
            HostEffect::AppendCandidate("α".to_string()),
            HostEffect::SetCandidateLabel(1, "~c".to_string()),
            HostEffect::AppendCandidate("β".to_string()),
            HostEffect::ShowAuxiliaryText,
            HostEffect::ShowCandidates,
        ]
    );
    assert_eq!(refresh(&afrim, "zz"), hidden("zz"));
    assert_eq!(refresh(&afrim, "éb"), hidden("éb"));
}

#[test]
fn enabling_asks_for_the_surrounding_text() {
    assert_eq!(ibus_afrim_engine_enable(), vec![HostEffect::RequestSurroundingText]);
}

#[test]
fn reset_hides_and_ends_the_composition() {
    let (mut core, mut slot) = engine(&[], &[("ab", &["α"])]);
    ibus_afrim_engine_process_key_event(&mut core, &mut slot, &press('a'), None);
    assert_eq!(input_of(&slot), "a");
    let effects = ibus_afrim_engine_reset(&mut slot);
    assert_eq!(effects, vec![HostEffect::HideAuxiliaryText, HostEffect::HideCandidates]);
    assert_eq!(input_of(&slot), "");
    let mut empty = Singleton::init_afrim();
    assert_eq!(
        ibus_afrim_engine_reset(&mut empty),
        vec![HostEffect::HideAuxiliaryText, HostEffect::HideCandidates]
    );
    assert!(empty.get_afrim().is_none());
}

#[test]
fn a_space_ends_the_composition() {
    let (mut core, mut slot) = engine(&[], &[("ab", &["α"])]);
    ibus_afrim_engine_process_key_event(&mut core, &mut slot, &press('a'), None);
    let out = ibus_afrim_engine_process_key_event(&mut core, &mut slot, &press(' '), None);
    assert!(out.handled);
    assert_eq!(out.effects, hidden(""));
    assert_eq!(input_of(&slot), "");
}

#[test]
fn configuring_happens_once() {
    let mut slot = Singleton::init_afrim();
    assert_eq!(configure_afrim(&mut slot, None), Configured::Missing);
    assert!(slot.get_afrim().is_none());
    let mut too_large = settings(&[], &[]);
    too_large.buffer_size = Some(MAX_BUFFER_SIZE + 1);
    assert_eq!(
        configure_afrim(&mut slot, Some(too_large)),
        Configured::Refused(ConfigError::BufferSize(MAX_BUFFER_SIZE + 1))
    );
    assert!(slot.get_afrim().is_none());
    assert_eq!(configure_afrim(&mut slot, Some(settings(&[], &[]))), Configured::Installed);
    assert!(slot.get_afrim().is_some());
    let mut core = new_engine_core(0, 0);
    ibus_afrim_engine_process_key_event(&mut core, &mut slot, &press('a'), None);
    assert_eq!(configure_afrim(&mut slot, Some(settings(&[], &[]))), Configured::Already);
    assert_eq!(configure_afrim(&mut slot, None), Configured::Already);
    assert_eq!(input_of(&slot), "a");
    free_engine_core(core, slot);
}
