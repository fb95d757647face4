//! The engine: its idle flag, the draining of the command queue, the
//! refreshing of the candidate list, and the dispatch of one key event.

use vstd::prelude::*;
use crate::afrim_api::{Afrim, ConfigError, Settings, Singleton};
use crate::classifier::{classify, classify_spec, Action, Navigation};
use crate::command::{Command, CommandView};
use crate::host::{effect_views, HostEffect, HostEffectView, SETTLE_MILLIS};
use crate::keys::{KeyEvent, KeyStroke};
use crate::predicator::{refresh_effects, split_all, Predicator};
use crate::preprocessor::{
    buffer_limit, buffered, discarding, pending, processed, MAX_BUFFER_SIZE,
};
use crate::translator::{auto_commit, dictionary_keys, entry_keys, leads_ascii};
use crate::utils::{ibus_keypress_event_to_afrim_key_event, keystroke};

verus! {

/// The state of one engine instance: whether it is idle, and the handles of
/// the host's engine and engine class, which it keeps and never reads.
pub struct EngineCore {
    is_idle: bool,
    parent_engine: usize,
    parent_engine_class: usize,
}

impl EngineCore {
    /// Whether the engine is idle.
    pub closed spec fn idle(self) -> bool {
        self.is_idle
    }

    /// The handle of the host's engine.
    pub closed spec fn engine(self) -> usize {
        self.parent_engine
    }

    /// The handle of the host's engine class.
    pub closed spec fn engine_class(self) -> usize {
        self.parent_engine_class
    }

    /// The same engine with the given idle flag.
    pub closed spec fn with_idle(self, idle: bool) -> EngineCore {
        EngineCore { is_idle: idle, ..self }
    }

    /// `with_idle` sets the idle flag and nothing else.
    pub broadcast proof fn with_idle_sets_flag(self, idle: bool)
        ensures
            (#[trigger] self.with_idle(idle)).idle() == idle,
            self.with_idle(idle).engine() == self.engine(),
            self.with_idle(idle).engine_class() == self.engine_class(),
            idle == self.idle() ==> self.with_idle(idle) == self,
    {
    }

    /// Setting the idle flag twice is setting it to the second value.
    pub broadcast proof fn with_idle_twice(self, first: bool, second: bool)
        ensures
            #[trigger] self.with_idle(first).with_idle(second) == self.with_idle(second),
    {
    }

    /// Whether the engine is idle.
    pub fn is_idle(&self) -> (idle: bool)
        ensures
            idle == self.idle(),
    {
        self.is_idle
    }

    /// The handle of the host's engine.
    pub fn parent_engine(&self) -> (handle: usize)
        ensures
            handle == self.engine(),
    {
        self.parent_engine
    }

    /// The handle of the host's engine class.
    pub fn parent_engine_class(&self) -> (handle: usize)
        ensures
            handle == self.engine_class(),
    {
        self.parent_engine_class
    }
}

/// The state of a new engine: active, with the host's handles.
pub fn new_engine_core(parent_engine: usize, parent_engine_class: usize) -> (core: EngineCore)
    ensures
        !core.idle(),
        core.engine() == parent_engine,
        core.engine_class() == parent_engine_class,
{
    EngineCore { is_idle: false, parent_engine, parent_engine_class }
}

/// Gives up the state of an engine, and with it the slot of the session.
pub fn free_engine_core(engine_state: EngineCore, singleton: Singleton) {
    singleton.drop_afrim();
}

/// What the host is asked to do for one command.
pub open spec fn command_effects(command: CommandView) -> Seq<HostEffectView> {
    match command {
        CommandView::CommitText(text) => seq![HostEffectView::CommitText(text)],
        CommandView::Delete => seq![
            HostEffectView::DeleteBeforeCursor(1),
            HostEffectView::Settle(SETTLE_MILLIS as nat),
        ],
        CommandView::CleanDelete => Seq::empty(),
        CommandView::Pause => Seq::empty(),
        CommandView::Resume => Seq::empty(),
    }
}

/// What the host is asked to do for a queue of commands: the effects of the
/// first command, then those of the second, and so on.
pub open spec fn drain_effects(commands: Seq<CommandView>) -> Seq<HostEffectView> {
    commands.flat_map(|command: CommandView| command_effects(command))
}

/// The idle flag after one command: `Pause` sets it, `Resume` clears it.
pub open spec fn idle_step(idle: bool, command: CommandView) -> bool {
    match command {
        CommandView::Pause => true,
        CommandView::Resume => false,
        _ => idle,
    }
}

/// The idle flag after a queue of commands.
pub open spec fn idle_after(idle: bool, commands: Seq<CommandView>) -> bool
    decreases commands.len(),
{
    if commands.len() == 0 {
        idle
    } else {
        idle_after(idle_step(idle, commands.first()), commands.drop_first())
    }
}

/// An empty queue asks nothing of the host.
pub proof fn drain_effects_empty()
    ensures
        drain_effects(Seq::empty()) == Seq::<HostEffectView>::empty(),
{
    let f = |command: CommandView| command_effects(command);
    assert(Seq::<CommandView>::empty().map_values(f) =~= Seq::<Seq<HostEffectView>>::empty());
}

/// The effects of a queue start with those of its first command.
pub proof fn drain_effects_first(commands: Seq<CommandView>)
    requires
        commands.len() > 0,
    ensures
        drain_effects(commands) == command_effects(commands.first()) + drain_effects(
            commands.drop_first(),
        ),
{
    let f = |command: CommandView| command_effects(command);
    assert(commands.map_values(f).drop_first() =~= commands.drop_first().map_values(f));
}

/// What a drain has done.
pub struct Drain {
    /// The number of commands carried out, or `usize::MAX` if there were
    /// more than that.
    pub applied: usize,
    /// What the host is to do, in order.
    pub effects: Vec<HostEffect>,
}

/// What dispatching one key event has come to.
pub struct Dispatch {
    /// Whether the host is to withhold the event from further handling.
    pub handled: bool,
    /// What the host is to do, in order.
    pub effects: Vec<HostEffect>,
}

/// The smaller of a length and `usize::MAX`.
pub open spec fn capped(count: nat) -> usize {
    if count <= usize::MAX {
        count as usize
    } else {
        usize::MAX
    }
}

/// Empties the preprocessor's queue, oldest command first. Each command is
/// turned into its effects for the host; `Pause` and `Resume` set and clear
/// the idle flag, and do not stop the drain.
pub fn drain(core: &mut EngineCore, afrim: &mut Afrim) -> (outcome: Drain)
    ensures
        pending(final(afrim).preprocessor()) == Seq::<CommandView>::empty(),
        buffered(final(afrim).preprocessor()) == buffered(old(afrim).preprocessor()),
        buffer_limit(final(afrim).preprocessor()) == buffer_limit(old(afrim).preprocessor()),
        final(afrim).translator() == old(afrim).translator(),
        *final(core) == old(core).with_idle(
            idle_after(old(core).idle(), pending(old(afrim).preprocessor())),
        ),
        effect_views(outcome.effects@) == drain_effects(pending(old(afrim).preprocessor())),
        outcome.applied == capped(pending(old(afrim).preprocessor()).len()),
{
    let ghost queue = pending(afrim.preprocessor());
    let ghost start = *core;
    let mut effects: Vec<HostEffect> = Vec::new();
    let mut applied: usize = 0;
    assert(effect_views(effects@) =~= Seq::<HostEffectView>::empty());
    loop
        invariant
            pending(afrim.preprocessor()).len() <= queue.len(),
            effect_views(effects@) + drain_effects(pending(afrim.preprocessor()))
                == drain_effects(queue),
            idle_after(core.is_idle, pending(afrim.preprocessor())) == idle_after(
                start.is_idle,
                queue,
            ),
            *core == start.with_idle(core.is_idle),
            applied == capped((queue.len() - pending(afrim.preprocessor()).len()) as nat),
            buffered(afrim.preprocessor()) == buffered(old(afrim).preprocessor()),
            buffer_limit(afrim.preprocessor()) == buffer_limit(old(afrim).preprocessor()),
            afrim.translator() == old(afrim).translator(),
        ensures
            pending(afrim.preprocessor()).len() == 0,
        decreases pending(afrim.preprocessor()).len(),
    {
        let ghost rest = pending(afrim.preprocessor());
        let ghost so_far = effect_views(effects@);
        let next = afrim.pop_queue();
        match next {
            None => {
                break ;
            },
            Some(command) => {
                proof {
                    drain_effects_first(rest);
                }
                if applied < usize::MAX {
                    applied += 1;
                }
                match command {
                    Command::CommitText(text) => {
                        let effect = HostEffect::CommitText(text);
                        effects.push(effect);
                        assert(effect_views(effects@) =~= so_far + seq![effect@]);
                    },
                    Command::CleanDelete => {},
                    Command::Delete => {
                        effects.push(HostEffect::DeleteBeforeCursor(1));
                        effects.push(HostEffect::Settle(SETTLE_MILLIS));
                        assert(effect_views(effects@) =~= so_far + seq![
                            HostEffectView::DeleteBeforeCursor(1),
                            HostEffectView::Settle(SETTLE_MILLIS as nat),
                        ]);
                    },
                    Command::Pause => {
                        core.is_idle = true;
                    },
                    Command::Resume => {
                        core.is_idle = false;
                    },
                }
                assert(effect_views(effects@) =~= so_far + command_effects(rest.first()));
                assert(so_far + command_effects(rest.first()) + drain_effects(rest.drop_first())
                    =~= so_far + (command_effects(rest.first()) + drain_effects(
                    rest.drop_first(),
                )));
            },
        }
    }
    proof {
        assert(pending(afrim.preprocessor()) =~= Seq::<CommandView>::empty());
        drain_effects_empty();
        assert(effect_views(effects@) =~= drain_effects(queue));
    }
    Drain { applied, effects }
}

/// Rebuilds the candidate list for an input: asks the session for its
/// predicates, makes one row of each text that is not empty, and shows the
/// list and the auxiliary text if there is a row.
pub fn refresh(afrim: &Afrim, input: &str) -> (effects: Vec<HostEffect>)
    ensures
        effect_views(effects@) == refresh_effects(input@, split_all(afrim.candidates(input@))),
{
    let predicates = afrim.translate(input);
    let rows = Predicator::from_predicates(predicates);
    rows.render(input)
}

/// What moving the highlight asks of the host: the move, then a redraw of
/// the candidate list.
pub open spec fn navigate_effects(direction: Navigation) -> Seq<HostEffectView> {
    seq![HostEffectView::MoveCandidateCursor(direction), HostEffectView::ShowCandidates]
}

/// Moves the highlight of the candidate list.
pub fn navigate(direction: Navigation) -> (effects: Vec<HostEffect>)
    ensures
        effect_views(effects@) == navigate_effects(direction),
{
    let mut effects: Vec<HostEffect> = Vec::new();
    effects.push(HostEffect::MoveCandidateCursor(direction));
    effects.push(HostEffect::ShowCandidates);
    assert(effect_views(effects@) =~= navigate_effects(direction));
    effects
}

/// Selects the next candidate.
pub fn ibus_afrim_engine_page_down_button() -> (effects: Vec<HostEffect>)
    ensures
        effect_views(effects@) == navigate_effects(Navigation::Down),
{
    navigate(Navigation::Down)
}

/// Selects the previous candidate.
pub fn ibus_afrim_engine_page_up_button() -> (effects: Vec<HostEffect>)
    ensures
        effect_views(effects@) == navigate_effects(Navigation::Up),
{
    navigate(Navigation::Up)
}

/// Enables the engine: it asks the host for the text around the cursor.
pub fn ibus_afrim_engine_enable() -> (effects: Vec<HostEffect>)
    ensures
        effect_views(effects@) == seq![HostEffectView::RequestSurroundingText],
{
    let mut effects: Vec<HostEffect> = Vec::new();
    effects.push(HostEffect::RequestSurroundingText);
    assert(effect_views(effects@) =~= seq![HostEffectView::RequestSurroundingText]);
    effects
}

/// Resets the engine: the auxiliary text and the candidate list are hidden,
/// and the session, if there is one, ends the current composition: its
/// buffer is emptied and its queue is left as it is.
pub fn ibus_afrim_engine_reset(singleton: &mut Singleton) -> (effects: Vec<HostEffect>)
    ensures
        effect_views(effects@) == seq![
            HostEffectView::HideAuxiliaryText,
            HostEffectView::HideCandidates,
        ],
        old(singleton).afrim() is None ==> *final(singleton) == *old(singleton),
        old(singleton).afrim() matches Some(before) ==> ({
            &&& final(singleton).afrim() matches Some(after)
            &&& after.preprocessor() == processed(before.preprocessor(), KeyStroke::Unidentified)
            &&& after.translator() == before.translator()
            &&& pending(after.preprocessor()) == pending(before.preprocessor())
            &&& buffered(after.preprocessor()) == Seq::<char>::empty()
        }),
{
    let mut effects: Vec<HostEffect> = Vec::new();
    effects.push(HostEffect::HideAuxiliaryText);
    effects.push(HostEffect::HideCandidates);
    assert(effect_views(effects@) =~= seq![
        HostEffectView::HideAuxiliaryText,
        HostEffectView::HideCandidates,
    ]);
    match singleton.take() {
        Some(mut afrim) => {
            afrim.process(KeyStroke::Unidentified);
            singleton.put(afrim);
        },
        None => {},
    }
    effects
}

/// The queue that a confirmation leaves to drain: what was queued, then
/// `Pause`, the commands that discard the buffered input, `CommitText` with
/// the confirmed text, and `Resume`.
pub open spec fn confirm_queue(afrim: Afrim, text: Seq<char>) -> Seq<CommandView> {
    pending(afrim.preprocessor()) + seq![CommandView::Pause] + discarding(afrim.preprocessor())
        + seq![CommandView::CommitText(text), CommandView::Resume]
}

/// The session and the engine after a queue has been drained, and what the
/// host was asked to do: the queue is empty, the idle flag is the one that
/// the queue's commands leave, and the effects are those of the queue.
pub open spec fn drained(
    queue: Seq<CommandView>,
    input: Seq<char>,
    core: EngineCore,
    afrim: Afrim,
    core_after: EngineCore,
    afrim_after: Afrim,
    effects: Seq<HostEffectView>,
) -> bool {
    &&& pending(afrim_after.preprocessor()) == Seq::<CommandView>::empty()
    &&& buffered(afrim_after.preprocessor()) == input
    &&& buffer_limit(afrim_after.preprocessor()) == buffer_limit(afrim.preprocessor())
    &&& afrim_after.translator() == afrim.translator()
    &&& core_after == core.with_idle(idle_after(core.idle(), queue))
    &&& effects == drain_effects(queue)
}

/// What dispatching one key event does, by the event's action.
///
/// - The toggle chord flips the idle flag, and nothing else happens.
/// - An ignored event changes nothing. It is withheld from the host's own
///   handling if the engine is idle, and passed through if it is active.
/// - A navigation chord moves the highlight.
/// - The other actions need the session, and pass the event through
///   unchanged where there is none. With a session, a forwarded event goes
///   to the preprocessor and the candidate list is rebuilt for the input
///   that the preprocessor then holds; a release drains the queue; and a
///   confirmation commits the highlighted candidate, if there is one, and
///   drains the queue.
pub open spec fn dispatched(
    core: EngineCore,
    slot: Singleton,
    event: KeyEvent,
    highlighted: Option<Seq<char>>,
    core_after: EngineCore,
    slot_after: Singleton,
    handled: bool,
    effects: Seq<HostEffectView>,
) -> bool {
    match classify_spec(event, core.idle()) {
        Action::ToggleIdle => {
            &&& core_after == core.with_idle(!core.idle())
            &&& slot_after == slot
            &&& effects == Seq::<HostEffectView>::empty()
            &&& handled
        },
        Action::Ignore => {
            &&& core_after == core
            &&& slot_after == slot
            &&& effects == Seq::<HostEffectView>::empty()
            &&& handled == core.idle()
        },
        Action::Navigate(direction) => {
            &&& core_after == core
            &&& slot_after == slot
            &&& effects == navigate_effects(direction)
            &&& handled
        },
        action => match slot.afrim() {
            None => {
                &&& core_after == core
                &&& slot_after == slot
                &&& effects == Seq::<HostEffectView>::empty()
                &&& !handled
            },
            Some(afrim) => {
                &&& handled
                &&& slot_after.afrim() matches Some(afrim_after)
                &&& match action {
                    Action::Forward => {
                        let input = buffered(afrim_after.preprocessor());
                        &&& core_after == core
                        &&& afrim_after.preprocessor() == processed(
                            afrim.preprocessor(),
                            keystroke(event.code, event.character),
                        )
                        &&& afrim_after.translator() == afrim.translator()
                        &&& effects == refresh_effects(
                            input,
                            split_all(afrim_after.candidates(input)),
                        )
                    },
                    Action::Confirm => match highlighted {
                        Some(text) => drained(
                            confirm_queue(afrim, text),
                            Seq::empty(),
                            core,
                            afrim,
                            core_after,
                            afrim_after,
                            effects,
                        ),
                        None => drained(
                            pending(afrim.preprocessor()),
                            buffered(afrim.preprocessor()),
                            core,
                            afrim,
                            core_after,
                            afrim_after,
                            effects,
                        ),
                    },
                    _ => drained(
                        pending(afrim.preprocessor()),
                        buffered(afrim.preprocessor()),
                        core,
                        afrim,
                        core_after,
                        afrim_after,
                        effects,
                    ),
                }
            },
        },
    }
}

/// The text of the highlighted candidate, as a sequence of characters.
pub open spec fn highlighted_view(highlighted: Option<&str>) -> Option<Seq<char>> {
    match highlighted {
        Some(text) => Some(text@),
        None => None,
    }
}

/// Processes one key event: classifies it, updates the engine and the
/// session, and returns what the host is to do. `highlighted` is the text of
/// the candidate that the host highlights, if its list holds one.
pub fn ibus_afrim_engine_process_key_event(
    core: &mut EngineCore,
    singleton: &mut Singleton,
    event: &KeyEvent,
    highlighted: Option<&str>,
) -> (outcome: Dispatch)
    ensures
        dispatched(
            *old(core),
            *old(singleton),
            *event,
            highlighted_view(highlighted),
            *final(core),
            *final(singleton),
            outcome.handled,
            effect_views(outcome.effects@),
        ),
{
    let action = classify(event, core.is_idle);
    match action {
        Action::ToggleIdle => {
            core.is_idle = !core.is_idle;
            let effects: Vec<HostEffect> = Vec::new();
            assert(effect_views(effects@) =~= Seq::<HostEffectView>::empty());
            Dispatch { handled: true, effects }
        },
        Action::Ignore => {
            let effects: Vec<HostEffect> = Vec::new();
            assert(effect_views(effects@) =~= Seq::<HostEffectView>::empty());
            Dispatch { handled: core.is_idle, effects }
        },
        Action::Navigate(direction) => Dispatch { handled: true, effects: navigate(direction) },
        _ => {
            match singleton.take() {
                None => {
                    let effects: Vec<HostEffect> = Vec::new();
                    assert(effect_views(effects@) =~= Seq::<HostEffectView>::empty());
                    Dispatch { handled: false, effects }
                },
                Some(mut afrim) => {
                    let effects = match action {
                        Action::Forward => {
                            let stroke = ibus_keypress_event_to_afrim_key_event(
                                event.code,
                                event.character,
                            );
                            afrim.process(stroke);
                            let input = afrim.get_input();
                            refresh(&afrim, input.as_str())
                        },
                        Action::Confirm => {
                            match highlighted {
                                Some(text) => {
                                    afrim.commit(text);
                                },
                                None => {},
                            }
                            drain(core, &mut afrim).effects
                        },
                        _ => drain(core, &mut afrim).effects,
                    };
                    singleton.put(afrim);
                    Dispatch { handled: true, effects }
                },
            }
        },
    }
}

/// How an attempt to configure the session ended.
#[derive(Clone, Copy, Debug, PartialEq, Eq, Structural)]
pub enum Configured {
    /// The slot already held a session, which was kept.
    Already,
    /// A session was made from the settings and put into the slot.
    Installed,
    /// There were no settings to make a session from.
    Missing,
    /// The settings were turned down.
    Refused(ConfigError),
}

/// Makes the session of the process from settings, unless there is one
/// already. `settings` is `None` where no configuration could be loaded.
/// Where this fails the slot stays empty, and a later call may fill it.
pub fn configure_afrim(singleton: &mut Singleton, settings: Option<Settings>) -> (outcome:
    Configured)
    ensures
        outcome == (if old(singleton).afrim() is Some {
            Configured::Already
        } else {
            match settings {
                None => Configured::Missing,
                Some(settings) => if settings.capacity() > MAX_BUFFER_SIZE {
                    Configured::Refused(ConfigError::BufferSize(settings.capacity()))
                } else {
                    Configured::Installed
                },
            }
        }),
        !(outcome is Installed) ==> *final(singleton) == *old(singleton),
        outcome is Installed ==> ({
            &&& final(singleton).afrim() matches Some(afrim)
            &&& pending(afrim.preprocessor()) == Seq::<CommandView>::empty()
            &&& buffered(afrim.preprocessor()) == Seq::<char>::empty()
            &&& buffer_limit(afrim.preprocessor()) == settings->0.capacity()
            &&& auto_commit(afrim.translator()) == settings->0.commits()
            &&& dictionary_keys(afrim.translator()) == entry_keys(
                settings->0.translation@,
            ).filter(|key: Seq<char>| leads_ascii(key))
        }),
{
    if singleton.get_afrim().is_some() {
        return Configured::Already;
    }
    match settings {
        None => Configured::Missing,
        Some(settings) => match Afrim::from_config(settings) {
            Err(error) => Configured::Refused(error),
            Ok(afrim) => {
                singleton.update_afrim(afrim);
                Configured::Installed
            },
        },
    }
}

} // verus!
