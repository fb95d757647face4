//! The candidate list as the engine builds it: one row for each text that a
//! predicate offers, empty texts left out.

use vstd::prelude::*;
use vstd::string::StringExecFns;
use crate::host::{HostEffect, HostEffectView, effect_views};
use crate::translator::{Predicate, PredicateView, predicate_views};

verus! {

/// The predicate `predicate`, reduced to the one text `text`.
pub open spec fn single(predicate: PredicateView, text: Seq<char>) -> PredicateView {
    PredicateView {
        code: predicate.code,
        remaining_code: predicate.remaining_code,
        texts: seq![text],
        can_commit: predicate.can_commit,
    }
}

/// One row for each text of the predicate that is not empty, in the order of
/// the texts.
pub open spec fn split(predicate: PredicateView) -> Seq<PredicateView> {
    predicate.texts.filter(|text: Seq<char>| text.len() > 0).map_values(
        |text: Seq<char>| single(predicate, text),
    )
}

/// The rows of a list of predicates: those of the first, then those of the
/// second, and so on.
pub open spec fn split_all(predicates: Seq<PredicateView>) -> Seq<PredicateView> {
    predicates.flat_map(|predicate: PredicateView| split(predicate))
}

/// A row holds exactly one text, and that text is not empty.
pub open spec fn is_row(predicate: PredicateView) -> bool {
    predicate.texts.len() == 1 && predicate.texts[0].len() > 0
}

/// The label of a row: a tilde, then the code left to type.
pub open spec fn label_of(row: PredicateView) -> Seq<char> {
    seq!['~'] + row.remaining_code
}

/// The effects that put the rows into an empty candidate list: for each row,
/// its label at the row's index, then its text at the end of the list.
pub open spec fn row_effects(rows: Seq<PredicateView>) -> Seq<HostEffectView>
    decreases rows.len(),
{
    if rows.len() == 0 {
        Seq::empty()
    } else {
        row_effects(rows.drop_last()) + seq![
            HostEffectView::SetCandidateLabel(rows.len() - 1, label_of(rows.last())),
            HostEffectView::AppendCandidate(rows.last().texts[0]),
        ]
    }
}

/// The effects of a refresh: the auxiliary text takes the input, the
/// candidate list is rebuilt from the rows, and both are shown if there is a
/// row and hidden if there is none.
pub open spec fn refresh_effects(input: Seq<char>, rows: Seq<PredicateView>) -> Seq<HostEffectView> {
    seq![HostEffectView::UpdateAuxiliaryText(input), HostEffectView::ClearCandidates]
        + row_effects(rows) + if rows.len() > 0 {
        seq![HostEffectView::ShowAuxiliaryText, HostEffectView::ShowCandidates]
    } else {
        seq![HostEffectView::HideAuxiliaryText, HostEffectView::HideCandidates]
    }
}

/// The rows of one predicate come after those of the predicates before it.
pub proof fn split_all_push(predicates: Seq<PredicateView>, predicate: PredicateView)
    ensures
        split_all(predicates.push(predicate)) == split_all(predicates) + split(predicate),
{
    let f = |predicate: PredicateView| split(predicate);
    assert(predicates.push(predicate).map_values(f) =~= predicates.map_values(f).push(
        split(predicate),
    ));
    predicates.map_values(f).lemma_flatten_push(split(predicate));
}

/// The texts seen so far, with one more: its row is added if it is not empty.
proof fn split_texts_push(predicate: PredicateView, texts: Seq<Seq<char>>, text: Seq<char>)
    ensures
        split(PredicateView { texts: texts.push(text), ..predicate }) == split(
            PredicateView { texts, ..predicate },
        ) + if text.len() > 0 {
            seq![single(predicate, text)]
        } else {
            Seq::empty()
        },
{
    let keep = |text: Seq<char>| text.len() > 0;
    texts.lemma_filter_push(text, keep);
    let before = PredicateView { texts, ..predicate };
    let after = PredicateView { texts: texts.push(text), ..predicate };
    assert(split(after) =~= split(before) + if text.len() > 0 {
        seq![single(predicate, text)]
    } else {
        Seq::empty()
    });
}

/// The ordered rows of the candidate list.
pub struct Predicator {
    predicates: Vec<Predicate>,
}

impl View for Predicator {
    type V = Seq<PredicateView>;

    closed spec fn view(&self) -> Seq<PredicateView> {
        predicate_views(self.predicates@)
    }
}

impl Predicator {
    #[verifier::type_invariant]
    spec fn rows_only(self) -> bool {
        forall|i: int| 0 <= i < self.predicates@.len() ==> is_row(#[trigger] self.predicates@[i]@)
    }

    /// An empty list.
    pub fn init() -> (predicator: Predicator)
        ensures
            predicator@ == Seq::<PredicateView>::empty(),
    {
        let predicator = Predicator { predicates: Vec::new() };
        assert(predicator@ =~= Seq::<PredicateView>::empty());
        predicator
    }

    /// The rows, in order. Each holds one text, which is not empty.
    pub fn get(&self) -> (rows: &Vec<Predicate>)
        ensures
            predicate_views(rows@) == self@,
            forall|i: int| 0 <= i < self@.len() ==> is_row(#[trigger] self@[i]),
    {
        proof {
            use_type_invariant(self);
        }
        &self.predicates
    }

    /// The number of rows.
    pub fn len(&self) -> (len: usize)
        ensures
            len == self@.len(),
    {
        self.predicates.len()
    }

    /// Adds the rows of a predicate at the end of the list.
    pub fn add_predicate(&mut self, predicate: &Predicate)
        ensures
            final(self)@ == old(self)@ + split(predicate@),
    {
        proof {
            use_type_invariant(&*self);
        }
        let ghost before = self.predicates@;
        let ghost whole = predicate@;
        let mut rows: Vec<Predicate> = Vec::new();
        core::mem::swap(&mut rows, &mut self.predicates);
        let mut i: usize = 0;
        proof {
            assert(whole.texts.take(0) =~= Seq::<Seq<char>>::empty());
            assert(split(PredicateView { texts: whole.texts.take(0), ..whole }) =~= Seq::<
                PredicateView,
            >::empty());
        }
        while i < predicate.texts.len()
            invariant
                i <= predicate.texts.len(),
                whole == predicate@,
                predicate_views(rows@) == predicate_views(before) + split(
                    PredicateView { texts: whole.texts.take(i as int), ..whole },
                ),
                forall|j: int| 0 <= j < rows@.len() ==> is_row(#[trigger] rows@[j]@),
            decreases predicate.texts.len() - i,
        {
            let text = &predicate.texts[i];
            proof {
                assert(whole.texts.take(i + 1) =~= whole.texts.take(i as int).push(text@));
                split_texts_push(whole, whole.texts.take(i as int), text@);
            }
            if !text.as_str().is_empty() {
                let mut texts: Vec<String> = Vec::new();
                texts.push(text.clone());
                let row = Predicate {
                    code: predicate.code.clone(),
                    remaining_code: predicate.remaining_code.clone(),
                    texts,
                    can_commit: predicate.can_commit,
                };
                assert(row@.texts =~= seq![text@]);
                assert(row@ == single(whole, text@));
                let ghost earlier = rows@;
                rows.push(row);
                assert(predicate_views(rows@) =~= predicate_views(earlier).push(row@));
            }
            i += 1;
        }
        proof {
            assert(whole.texts.take(i as int) =~= whole.texts);
        }
        self.predicates = rows;
    }

    /// The rows of a list of predicates.
    pub fn from_predicates(predicates: Vec<Predicate>) -> (predicator: Predicator)
        ensures
            predicator@ == split_all(predicate_views(predicates@)),
    {
        let mut predicator = Predicator::init();
        let ghost all = predicate_views(predicates@);
        let mut i: usize = 0;
        proof {
            assert(all.take(0) =~= Seq::<PredicateView>::empty());
            assert(split_all(all.take(0)) =~= Seq::<PredicateView>::empty());
        }
        while i < predicates.len()
            invariant
                i <= predicates.len(),
                all == predicate_views(predicates@),
                predicator@ == split_all(all.take(i as int)),
            decreases predicates.len() - i,
        {
            let predicate = &predicates[i];
            proof {
                assert(all.take(i + 1) =~= all.take(i as int).push(all[i as int]));
                split_all_push(all.take(i as int), all[i as int]);
            }
            predicator.add_predicate(predicate);
            i += 1;
        }
        proof {
            assert(all.take(i as int) =~= all);
        }
        predicator
    }

    /// Releases the list.
    pub fn drop(self) {
    }

    /// The effects that show these rows for the given input.
    pub fn render(&self, input: &str) -> (effects: Vec<HostEffect>)
        ensures
            effect_views(effects@) == refresh_effects(input@, self@),
    {
        proof {
            use_type_invariant(self);
        }
        let mut effects: Vec<HostEffect> = Vec::new();
        effects.push(HostEffect::UpdateAuxiliaryText(String::from_str(input)));
        effects.push(HostEffect::ClearCandidates);
        let ghost head = seq![
            HostEffectView::UpdateAuxiliaryText(input@),
            HostEffectView::ClearCandidates,
        ];
        assert(effect_views(effects@) =~= head);
        let mut i: usize = 0;
        proof {
            assert(self@.take(0) =~= Seq::<PredicateView>::empty());
        }
        while i < self.predicates.len()
            invariant
                i <= self.predicates.len(),
                self@ == predicate_views(self.predicates@),
                effect_views(effects@) == head + row_effects(self@.take(i as int)),
                forall|j: int|
                    0 <= j < self.predicates@.len() ==> is_row(#[trigger] self.predicates@[j]@),
            decreases self.predicates.len() - i,
        {
            let row = &self.predicates[i];
            assert(is_row(row@));
            let mut label = String::from_str("~");
            label.append(row.remaining_code.as_str());
            proof {
                reveal_strlit("~");
                assert(label@ =~= label_of(row@));
                assert(self@.take(i + 1).drop_last() =~= self@.take(i as int));
                assert(self@.take(i + 1).last() == row@);
            }
            let ghost so_far = effect_views(effects@);
            let set_label = HostEffect::SetCandidateLabel(i, label);
            let append = HostEffect::AppendCandidate(row.texts[0].clone());
            assert(row@.texts[0] == row.texts@[0]@);
            effects.push(set_label);
            effects.push(append);
            assert(effect_views(effects@) =~= so_far + seq![set_label@, append@]);
            i += 1;
        }
        proof {
            assert(self@.take(i as int) =~= self@);
        }
        let ghost so_far = effect_views(effects@);
        if self.predicates.len() > 0 {
            effects.push(HostEffect::ShowAuxiliaryText);
            effects.push(HostEffect::ShowCandidates);
            assert(effect_views(effects@) =~= so_far + seq![
                HostEffectView::ShowAuxiliaryText,
                HostEffectView::ShowCandidates,
            ]);
        } else {
            effects.push(HostEffect::HideAuxiliaryText);
            effects.push(HostEffect::HideCandidates);
            assert(effect_views(effects@) =~= so_far + seq![
                HostEffectView::HideAuxiliaryText,
                HostEffectView::HideCandidates,
            ]);
        }
        effects
    }
}

} // verus!
