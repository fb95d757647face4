//! The host's display surface: the effects the engine asks of it, and a
//! model of what each effect does.

use vstd::prelude::*;
use crate::classifier::Navigation;

verus! {

/// How long the host is left alone after a deletion, in milliseconds.
pub const SETTLE_MILLIS: u64 = 10;

/// One request to the host. The engine hands them out in the order in which
/// they are to be performed.
#[derive(Debug, PartialEq, Eq)]
pub enum HostEffect {
    /// Replace the auxiliary (preview) text.
    UpdateAuxiliaryText(String),
    /// Empty the candidate list.
    ClearCandidates,
    /// Set the label of the row at the index.
    SetCandidateLabel(usize, String),
    /// Add a row at the end of the candidate list.
    AppendCandidate(String),
    /// Show the auxiliary text.
    ShowAuxiliaryText,
    /// Redraw the candidate list and make it visible.
    ShowCandidates,
    /// Hide the auxiliary text.
    HideAuxiliaryText,
    /// Hide the candidate list.
    HideCandidates,
    /// Move the highlight one row up or down.
    MoveCandidateCursor(Navigation),
    /// Insert the text at the cursor.
    CommitText(String),
    /// Delete that many characters before the cursor.
    DeleteBeforeCursor(u32),
    /// Wait that many milliseconds before going on.
    Settle(u64),
    /// Ask to be told the text around the cursor.
    RequestSurroundingText,
}

/// An effect with its text as a sequence of characters.
pub enum HostEffectView {
    UpdateAuxiliaryText(Seq<char>),
    ClearCandidates,
    SetCandidateLabel(int, Seq<char>),
    AppendCandidate(Seq<char>),
    ShowAuxiliaryText,
    ShowCandidates,
    HideAuxiliaryText,
    HideCandidates,
    MoveCandidateCursor(Navigation),
    CommitText(Seq<char>),
    DeleteBeforeCursor(nat),
    Settle(nat),
    RequestSurroundingText,
}

impl View for HostEffect {
    type V = HostEffectView;

    open spec fn view(&self) -> HostEffectView {
        match self {
            HostEffect::UpdateAuxiliaryText(text) => HostEffectView::UpdateAuxiliaryText(text@),
            HostEffect::ClearCandidates => HostEffectView::ClearCandidates,
            HostEffect::SetCandidateLabel(index, text) => HostEffectView::SetCandidateLabel(
                *index as int,
                text@,
            ),
            HostEffect::AppendCandidate(text) => HostEffectView::AppendCandidate(text@),
            HostEffect::ShowAuxiliaryText => HostEffectView::ShowAuxiliaryText,
            HostEffect::ShowCandidates => HostEffectView::ShowCandidates,
            HostEffect::HideAuxiliaryText => HostEffectView::HideAuxiliaryText,
            HostEffect::HideCandidates => HostEffectView::HideCandidates,
            HostEffect::MoveCandidateCursor(direction) => HostEffectView::MoveCandidateCursor(
                *direction,
            ),
            HostEffect::CommitText(text) => HostEffectView::CommitText(text@),
            HostEffect::DeleteBeforeCursor(count) => HostEffectView::DeleteBeforeCursor(
                *count as nat,
            ),
            HostEffect::Settle(millis) => HostEffectView::Settle(*millis as nat),
            HostEffect::RequestSurroundingText => HostEffectView::RequestSurroundingText,
        }
    }
}

/// The views of a list of effects, in order.
pub open spec fn effect_views(effects: Seq<HostEffect>) -> Seq<HostEffectView> {
    effects.map_values(|effect: HostEffect| effect@)
}

/// What the user sees: the text before the cursor, the auxiliary text, and
/// the candidate list with its labels and its highlight.
pub struct Surface {
    pub document: Seq<char>,
    pub auxiliary_text: Seq<char>,
    pub auxiliary_visible: bool,
    pub labels: Map<int, Seq<char>>,
    pub candidates: Seq<Seq<char>>,
    pub candidates_visible: bool,
    pub cursor: int,
}

impl Surface {
    /// The surface after one effect.
    pub open spec fn apply(self, effect: HostEffectView) -> Surface {
        match effect {
            HostEffectView::UpdateAuxiliaryText(text) => Surface { auxiliary_text: text, ..self },
            HostEffectView::ClearCandidates => Surface {
                candidates: Seq::empty(),
                cursor: 0,
                ..self
            },
            HostEffectView::SetCandidateLabel(index, text) => Surface {
                labels: self.labels.insert(index, text),
                ..self
            },
            HostEffectView::AppendCandidate(text) => Surface {
                candidates: self.candidates.push(text),
                ..self
            },
            HostEffectView::ShowAuxiliaryText => Surface { auxiliary_visible: true, ..self },
            HostEffectView::ShowCandidates => Surface { candidates_visible: true, ..self },
            HostEffectView::HideAuxiliaryText => Surface { auxiliary_visible: false, ..self },
            HostEffectView::HideCandidates => Surface { candidates_visible: false, ..self },
            HostEffectView::MoveCandidateCursor(Navigation::Up) => Surface {
                cursor: if self.cursor > 0 {
                    self.cursor - 1
                } else {
                    self.cursor
                },
                ..self
            },
            HostEffectView::MoveCandidateCursor(Navigation::Down) => Surface {
                cursor: if self.cursor + 1 < self.candidates.len() {
                    self.cursor + 1
                } else {
                    self.cursor
                },
                ..self
            },
            HostEffectView::CommitText(text) => Surface { document: self.document + text, ..self },
            HostEffectView::DeleteBeforeCursor(count) => Surface {
                document: if count <= self.document.len() {
                    self.document.take(self.document.len() - count)
                } else {
                    Seq::empty()
                },
                ..self
            },
            HostEffectView::Settle(_) => self,
            HostEffectView::RequestSurroundingText => self,
        }
    }

    /// The label set for the row at an index, if one was set.
    pub open spec fn label_at(self, index: int) -> Option<Seq<char>> {
        if self.labels.contains_key(index) {
            Some(self.labels[index])
        } else {
            None
        }
    }

    /// The surface after a list of effects, taken in order.
    pub open spec fn apply_all(self, effects: Seq<HostEffectView>) -> Surface
        decreases effects.len(),
    {
        if effects.len() == 0 {
            self
        } else {
            self.apply(effects.first()).apply_all(effects.drop_first())
        }
    }

    /// Effects come one after the other: applying two lists in turn is
    /// applying their concatenation.
    pub proof fn apply_all_concat(self, first: Seq<HostEffectView>, second: Seq<HostEffectView>)
        ensures
            self.apply_all(first + second) == self.apply_all(first).apply_all(second),
        decreases first.len(),
    {
        if first.len() == 0 {
            assert(first + second =~= second);
        } else {
            assert((first + second).first() == first.first());
            assert((first + second).drop_first() =~= first.drop_first() + second);
            self.apply(first.first()).apply_all_concat(first.drop_first(), second);
        }
    }
}

} // verus!
