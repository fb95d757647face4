//! The translator of `afrim_translator`, as far as the engine uses it.
//!
//! The type is opaque here. The keys of its dictionary and what `translate`
//! returns are named by spec functions, and the two calls the engine makes go
//! through wrappers whose contracts are taken on trust from the crate's
//! source.

use vstd::prelude::*;
use afrim_translator::Translator;

verus! {

#[verifier::external_type_specification]
#[verifier::external_body]
pub struct ExTranslator(afrim_translator::Translator);

/// A candidate completion: the texts it offers and the code left to type.
#[derive(Debug, PartialEq, Eq)]
pub struct Predicate {
    pub code: String,
    pub remaining_code: String,
    pub texts: Vec<String>,
    pub can_commit: bool,
}

/// A predicate with its strings as sequences of characters.
pub struct PredicateView {
    pub code: Seq<char>,
    pub remaining_code: Seq<char>,
    pub texts: Seq<Seq<char>>,
    pub can_commit: bool,
}

impl View for Predicate {
    type V = PredicateView;

    open spec fn view(&self) -> PredicateView {
        PredicateView {
            code: self.code@,
            remaining_code: self.remaining_code@,
            texts: self.texts@.map_values(|text: String| text@),
            can_commit: self.can_commit,
        }
    }
}

/// The views of a list of predicates, in order.
pub open spec fn predicate_views(predicates: Seq<Predicate>) -> Seq<PredicateView> {
    predicates.map_values(|predicate: Predicate| predicate@)
}

/// One entry of a dictionary: a code and the texts it stands for.
pub type Entry = (String, Vec<String>);

/// The codes of a list of dictionary entries.
pub open spec fn entry_keys(entries: Seq<Entry>) -> Set<Seq<char>> {
    Set::new(|key: Seq<char>| exists|i: int| 0 <= i < entries.len() && (#[trigger] entries[i]).0@ == key)
}

/// The codes that the translator's dictionary holds.
pub uninterp spec fn dictionary_keys(translator: Translator) -> Set<Seq<char>>;

/// Whether the translator was made to let exact matches commit by themselves.
pub uninterp spec fn auto_commit(translator: Translator) -> bool;

/// What `translate` returns for an input, best match first.
pub uninterp spec fn translation(translator: Translator, input: Seq<char>) -> Seq<PredicateView>;

/// The text is empty or starts with an ASCII character.
pub open spec fn leads_ascii(text: Seq<char>) -> bool {
    text.len() == 0 || (text[0] as u32) < 0x80
}

/// Every code of the dictionary is empty or starts with an ASCII character.
pub open spec fn keys_lead_ascii(translator: Translator) -> bool {
    forall|key: Seq<char>| #[trigger] dictionary_keys(translator).contains(key) ==> leads_ascii(key)
}

/// `translate` compares the first byte of the input with the first byte of
/// each code that is long enough, and fails where one of them is not a whole
/// character. It makes no such comparison for an input of fewer than two
/// characters.
pub open spec fn translatable(translator: Translator, input: Seq<char>) -> bool {
    input.len() < 2 || (leads_ascii(input) && keys_lead_ascii(translator))
}

/// `Translator::new` over the dictionary collected from `entries`: it holds
/// exactly their codes.
#[verifier::external_body]
pub(crate) fn new_translator(entries: Vec<Entry>, commits: bool) -> (translator: Translator)
    ensures
        dictionary_keys(translator) == entry_keys(entries@),
        auto_commit(translator) == commits,
{
    Translator::new(entries.into_iter().collect(), commits)
}

/// `Translator::translate`: the predicates for an input, each converted
/// field by field. The result is a function of the translator and the input,
/// and is empty for an input of fewer than two characters.
#[verifier::external_body]
pub(crate) fn translate(translator: &Translator, input: &str) -> (predicates: Vec<Predicate>)
    requires
        translatable(*translator, input@),
    ensures
        predicate_views(predicates@) == translation(*translator, input@),
        input@.len() < 2 ==> predicates@.len() == 0,
{
    translator.translate(input).into_iter().map(
        |p| Predicate {
            code: p.code,
            remaining_code: p.remaining_code,
            texts: p.texts,
            can_commit: p.can_commit,
        },
    ).collect()
}

} // verus!
