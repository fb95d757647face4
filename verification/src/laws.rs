//! What holds of the engine whatever the events, the queue and the
//! predicates are.

use vstd::prelude::*;
use crate::afrim_api::Singleton;
use crate::command::CommandView;
use crate::engine::{
    dispatched, drain_effects, drain_effects_empty, drain_effects_first, idle_after, EngineCore,
};
use crate::host::{HostEffectView, Surface};
use crate::keys::KeyEvent;
use crate::predicator::{
    is_row, label_of, refresh_effects, row_effects, single, split, split_all, split_all_push,
};
use crate::translator::PredicateView;

verus! {

/// While the engine is idle, an event that is not the toggle chord changes
/// neither the engine nor the session and asks nothing of the host. The
/// event is withheld from the host's own handling.
pub proof fn idle_suppresses(
    core: EngineCore,
    slot: Singleton,
    event: KeyEvent,
    highlighted: Option<Seq<char>>,
    core_after: EngineCore,
    slot_after: Singleton,
    handled: bool,
    effects: Seq<HostEffectView>,
)
    requires
        dispatched(core, slot, event, highlighted, core_after, slot_after, handled, effects),
        core.idle(),
        !event.is_toggle_chord(),
    ensures
        core_after == core,
        slot_after == slot,
        effects == Seq::<HostEffectView>::empty(),
        handled,
{
}

/// A `Pause` in the queue does not stop the drain: the commands behind it
/// have their effects as if it were not there.
pub proof fn pause_does_not_stop_drain(before: Seq<CommandView>, behind: Seq<CommandView>)
    ensures
        drain_effects(before + seq![CommandView::Pause] + behind) == drain_effects(before)
            + drain_effects(behind),
{
    let pause = seq![CommandView::Pause];
    drain_in_order(before + pause, behind);
    drain_in_order(before, pause);
    drain_effects_first(pause);
    assert(pause.drop_first() =~= Seq::<CommandView>::empty());
    drain_effects_empty();
    assert(drain_effects(pause) =~= Seq::<HostEffectView>::empty());
    assert(drain_effects(before) + drain_effects(pause) =~= drain_effects(before));
}

/// The toggle chord flips the idle flag whether the engine is idle or not,
/// and does nothing else.
pub proof fn toggle_takes_precedence(
    core: EngineCore,
    slot: Singleton,
    event: KeyEvent,
    highlighted: Option<Seq<char>>,
    core_after: EngineCore,
    slot_after: Singleton,
    handled: bool,
    effects: Seq<HostEffectView>,
)
    requires
        dispatched(core, slot, event, highlighted, core_after, slot_after, handled, effects),
        event.is_toggle_chord(),
    ensures
        core_after.idle() == !core.idle(),
        core_after.engine() == core.engine(),
        core_after.engine_class() == core.engine_class(),
        slot_after == slot,
        effects == Seq::<HostEffectView>::empty(),
        handled,
{
    core.with_idle_sets_flag(!core.idle());
}

/// Two toggle chords in a row leave the engine and the session as they were.
pub proof fn toggle_twice_restores(
    core: EngineCore,
    slot: Singleton,
    first: KeyEvent,
    first_highlighted: Option<Seq<char>>,
    core_between: EngineCore,
    slot_between: Singleton,
    first_handled: bool,
    first_effects: Seq<HostEffectView>,
    second: KeyEvent,
    second_highlighted: Option<Seq<char>>,
    core_after: EngineCore,
    slot_after: Singleton,
    second_handled: bool,
    second_effects: Seq<HostEffectView>,
)
    requires
        first.is_toggle_chord(),
        second.is_toggle_chord(),
        dispatched(
            core,
            slot,
            first,
            first_highlighted,
            core_between,
            slot_between,
            first_handled,
            first_effects,
        ),
        dispatched(
            core_between,
            slot_between,
            second,
            second_highlighted,
            core_after,
            slot_after,
            second_handled,
            second_effects,
        ),
    ensures
        core_after == core,
        slot_after == slot,
{
    core.with_idle_sets_flag(!core.idle());
    core.with_idle_twice(!core.idle(), core.idle());
    core.with_idle_sets_flag(core.idle());
}

/// The effects of a queue come in the order of its commands: those of a
/// queue in two parts are those of the first part, then those of the second.
pub proof fn drain_in_order(first: Seq<CommandView>, second: Seq<CommandView>)
    ensures
        drain_effects(first + second) == drain_effects(first) + drain_effects(second),
    decreases first.len(),
{
    if first.len() == 0 {
        assert(first =~= Seq::<CommandView>::empty());
        assert(first + second =~= second);
        drain_effects_empty();
        assert(drain_effects(first) + drain_effects(second) =~= drain_effects(second));
    } else {
        let whole = first + second;
        assert(whole.first() == first.first());
        assert(whole.drop_first() =~= first.drop_first() + second);
        drain_effects_first(whole);
        drain_effects_first(first);
        drain_in_order(first.drop_first(), second);
        assert(drain_effects(whole) =~= drain_effects(first) + drain_effects(second));
    }
}

/// The idle flag after a queue in two parts is the flag that the second
/// part leaves, starting from the flag that the first part leaves.
pub proof fn idle_in_order(idle: bool, first: Seq<CommandView>, second: Seq<CommandView>)
    ensures
        idle_after(idle, first + second) == idle_after(idle_after(idle, first), second),
    decreases first.len(),
{
    if first.len() == 0 {
        assert(first + second =~= second);
    } else {
        let whole = first + second;
        assert(whole.first() == first.first());
        assert(whole.drop_first() =~= first.drop_first() + second);
        idle_in_order(
            crate::engine::idle_step(idle, first.first()),
            first.drop_first(),
            second,
        );
    }
}

/// What the host shows after the effects of a queue in two parts is what
/// it shows after those of the first part and then those of the second.
pub proof fn drain_applies_in_order(
    surface: Surface,
    first: Seq<CommandView>,
    second: Seq<CommandView>,
)
    ensures
        surface.apply_all(drain_effects(first + second)) == surface.apply_all(
            drain_effects(first),
        ).apply_all(drain_effects(second)),
{
    drain_in_order(first, second);
    surface.apply_all_concat(drain_effects(first), drain_effects(second));
}

/// Every row of a predicate holds one text, which is not empty.
pub proof fn split_gives_rows(predicate: PredicateView)
    ensures
        forall|i: int| 0 <= i < split(predicate).len() ==> is_row(#[trigger] split(predicate)[i]),
{
    let keep = |text: Seq<char>| text.len() > 0;
    let kept = predicate.texts.filter(keep);
    assert forall|i: int| 0 <= i < split(predicate).len() implies is_row(
        #[trigger] split(predicate)[i],
    ) by {
        predicate.texts.lemma_filter_pred(keep, i);
        assert(split(predicate)[i] == single(predicate, kept[i]));
    }
}

/// No row of the candidate list is empty: every row made from a list of
/// predicates holds one text, which is not empty.
pub proof fn rows_are_never_empty(predicates: Seq<PredicateView>)
    ensures
        forall|i: int|
            0 <= i < split_all(predicates).len() ==> is_row(#[trigger] split_all(predicates)[i]),
    decreases predicates.len(),
{
    if predicates.len() == 0 {
        let f = |predicate: PredicateView| split(predicate);
        assert(predicates.map_values(f) =~= Seq::<Seq<PredicateView>>::empty());
        assert(split_all(predicates) =~= Seq::<PredicateView>::empty());
    } else {
        rows_are_never_empty(predicates.drop_last());
        split_all_push(predicates.drop_last(), predicates.last());
        assert(predicates.drop_last().push(predicates.last()) =~= predicates);
        split_gives_rows(predicates.last());
    }
}

/// A predicate without a text that is not empty gives no row.
pub proof fn empty_texts_give_no_row(predicate: PredicateView)
    requires
        forall|i: int| 0 <= i < predicate.texts.len() ==> predicate.texts[i].len() == 0,
    ensures
        split(predicate) == Seq::<PredicateView>::empty(),
{
    let keep = |text: Seq<char>| text.len() > 0;
    predicate.texts.lemma_all_neg_filter_empty(keep);
    assert(split(predicate) =~= Seq::<PredicateView>::empty());
}

/// Two effects in a row.
proof fn apply_two(surface: Surface, first: HostEffectView, second: HostEffectView)
    ensures
        surface.apply_all(seq![first, second]) == surface.apply(first).apply(second),
{
    let both = seq![first, second];
    assert(both.first() == first);
    assert(both.drop_first() =~= seq![second]);
    assert(seq![second].first() == second);
    assert(seq![second].drop_first() =~= Seq::<HostEffectView>::empty());
    reveal_with_fuel(Surface::apply_all, 3);
}

/// The texts of rows, in order.
pub open spec fn row_texts(rows: Seq<PredicateView>) -> Seq<Seq<char>> {
    rows.map_values(|row: PredicateView| row.texts[0])
}

/// The effects that put rows into an empty candidate list leave the list
/// holding the texts of the rows, each under its label, and touch nothing
/// else.
pub proof fn rows_fill_the_list(surface: Surface, rows: Seq<PredicateView>)
    requires
        surface.candidates.len() == 0,
    ensures
        ({
            let after = surface.apply_all(row_effects(rows));
            &&& after.candidates == row_texts(rows)
            &&& forall|i: int|
                0 <= i < rows.len() ==> #[trigger] after.label_at(i) == Some(label_of(rows[i]))
            &&& after.document == surface.document
            &&& after.auxiliary_text == surface.auxiliary_text
            &&& after.auxiliary_visible == surface.auxiliary_visible
            &&& after.candidates_visible == surface.candidates_visible
            &&& after.cursor == surface.cursor
        }),
    decreases rows.len(),
{
    if rows.len() == 0 {
        assert(surface.apply_all(row_effects(rows)).candidates =~= row_texts(rows));
    } else {
        let earlier = rows.drop_last();
        let set_label = HostEffectView::SetCandidateLabel(rows.len() - 1, label_of(rows.last()));
        let append = HostEffectView::AppendCandidate(rows.last().texts[0]);
        rows_fill_the_list(surface, earlier);
        let between = surface.apply_all(row_effects(earlier));
        surface.apply_all_concat(row_effects(earlier), seq![set_label, append]);
        apply_two(between, set_label, append);
        let after = surface.apply_all(row_effects(rows));
        assert(after == between.apply(set_label).apply(append));
        assert(after.candidates =~= row_texts(rows));
        assert forall|i: int| 0 <= i < rows.len() implies #[trigger] after.label_at(i) == Some(
            label_of(rows[i]),
        ) by {
            if i < rows.len() - 1 {
                assert(rows[i] == earlier[i]);
                assert(between.label_at(i) == Some(label_of(earlier[i])));
            }
        }
    }
}

/// After a refresh the candidate list holds exactly the rows, the auxiliary
/// text is the input, the list is visible if and only if there is a row,
/// and the auxiliary text is visible if and only if the list is. What was
/// shown before plays no part.
pub proof fn refresh_shows_rows(surface: Surface, input: Seq<char>, rows: Seq<PredicateView>)
    ensures
        ({
            let after = surface.apply_all(refresh_effects(input, rows));
            &&& after.candidates == row_texts(rows)
            &&& forall|i: int|
                0 <= i < rows.len() ==> #[trigger] after.label_at(i) == Some(label_of(rows[i]))
            &&& after.auxiliary_text == input
            &&& after.candidates_visible == (rows.len() > 0)
            &&& after.auxiliary_visible == after.candidates_visible
            &&& after.document == surface.document
        }),
{
    let update = HostEffectView::UpdateAuxiliaryText(input);
    let clear = HostEffectView::ClearCandidates;
    let head = seq![update, clear];
    let body = row_effects(rows);
    let tail = if rows.len() > 0 {
        seq![HostEffectView::ShowAuxiliaryText, HostEffectView::ShowCandidates]
    } else {
        seq![HostEffectView::HideAuxiliaryText, HostEffectView::HideCandidates]
    };
    assert(refresh_effects(input, rows) == head + body + tail);
    surface.apply_all_concat(head + body, tail);
    surface.apply_all_concat(head, body);
    apply_two(surface, update, clear);
    let cleared = surface.apply(update).apply(clear);
    rows_fill_the_list(cleared, rows);
    let filled = cleared.apply_all(body);
    apply_two(filled, tail[0], tail[1]);
    assert(tail =~= seq![tail[0], tail[1]]);
    let after = surface.apply_all(refresh_effects(input, rows));
    assert(after == filled.apply(tail[0]).apply(tail[1]));
    assert forall|i: int| 0 <= i < rows.len() implies #[trigger] after.label_at(i) == Some(
        label_of(rows[i]),
    ) by {
        assert(filled.label_at(i) == Some(label_of(rows[i])));
    }
}

} // verus!
