//! The session: a preprocessor and a translator made from one set of
//! settings, and the slot that holds the one session of a process.

use vstd::prelude::*;
use vstd::string::StrSliceExecFns;
use afrim_preprocessor::Preprocessor;
use afrim_translator::Translator;
use crate::command::{Command, CommandView};
use crate::keys::KeyStroke;
use crate::preprocessor::{
    buffer_limit, buffered, discarding, pending, processed, MAX_BUFFER_SIZE,
};
use crate::translator::{
    auto_commit, dictionary_keys, entry_keys, keys_lead_ascii, leads_ascii, predicate_views,
    translation, Entry, Predicate, PredicateView,
};

verus! {

/// The buffer size of a preprocessor whose settings name none.
pub const DEFAULT_BUFFER_SIZE: usize = 64;

/// What a configuration file resolves to.
pub struct Settings {
    /// Whether an exact match may commit by itself. Absent means no.
    pub auto_commit: Option<bool>,
    /// The size of the preprocessor's buffer. Absent means the default.
    pub buffer_size: Option<usize>,
    /// The symbol table of the preprocessor: key sequences and their values.
    pub data: Vec<(String, String)>,
    /// The dictionary of the translator: codes and the texts they stand for.
    pub translation: Vec<Entry>,
}

impl Settings {
    /// The auto-commit setting in force.
    pub open spec fn commits(self) -> bool {
        match self.auto_commit {
            Some(commits) => commits,
            None => false,
        }
    }

    /// The buffer size in force.
    pub open spec fn capacity(self) -> usize {
        match self.buffer_size {
            Some(size) => size,
            None => DEFAULT_BUFFER_SIZE,
        }
    }
}

/// Why settings were turned down.
#[derive(Clone, Copy, Debug, PartialEq, Eq, Structural)]
pub enum ConfigError {
    /// The buffer size is larger than a buffer can be.
    BufferSize(usize),
}

/// Whether a string is empty or starts with an ASCII character.
fn starts_ascii(text: &str) -> (leads: bool)
    ensures
        leads == leads_ascii(text@),
{
    text.is_empty() || (text.get_char(0) as u32) < 0x80
}

/// The entries whose code is empty or starts with an ASCII character, in
/// their order.
fn ascii_led_entries(entries: &Vec<Entry>) -> (kept: Vec<Entry>)
    ensures
        entry_keys(kept@) == entry_keys(entries@).filter(|key: Seq<char>| leads_ascii(key)),
{
    let mut kept: Vec<Entry> = Vec::new();
    let mut i: usize = 0;
    while i < entries.len()
        invariant
            i <= entries.len(),
            forall|j: int|
                0 <= j < kept@.len() ==> leads_ascii((#[trigger] kept@[j]).0@) && exists|k: int|
                    0 <= k < i && (#[trigger] entries@[k]).0@ == kept@[j].0@,
            forall|k: int|
                0 <= k < i && leads_ascii((#[trigger] entries@[k]).0@) ==> exists|j: int|
                    0 <= j < kept@.len() && (#[trigger] kept@[j]).0@ == entries@[k].0@,
        decreases entries.len() - i,
    {
        let entry = &entries[i];
        if starts_ascii(entry.0.as_str()) {
            let ghost earlier = kept@;
            let copy: Entry = (entry.0.clone(), entry.1.clone());
            kept.push(copy);
            assert(kept@[earlier.len() as int].0@ == entries@[i as int].0@);
            assert forall|k: int|
                0 <= k < i + 1 && leads_ascii((#[trigger] entries@[k]).0@) implies exists|j: int|
                0 <= j < kept@.len() && (#[trigger] kept@[j]).0@ == entries@[k].0@ by {
                if k < i {
                    let j = choose|j: int|
                        0 <= j < earlier.len() && (#[trigger] earlier[j]).0@ == entries@[k].0@;
                    assert(kept@[j] == earlier[j]);
                }
            }
            assert forall|j: int| 0 <= j < kept@.len() implies leads_ascii(
                (#[trigger] kept@[j]).0@,
            ) && exists|k: int| 0 <= k < i + 1 && (#[trigger] entries@[k]).0@ == kept@[j].0@ by {
                if j < earlier.len() {
                    assert(kept@[j] == earlier[j]);
                }
            }
        }
        i += 1;
    }
    assert(entry_keys(kept@) =~= entry_keys(entries@).filter(|key: Seq<char>| leads_ascii(key)));
    kept
}

/// One session: the preprocessor that buffers the input and queues the
/// commands, and the translator that proposes candidates.
pub struct Afrim {
    preprocessor: Preprocessor,
    translator: Translator,
}

impl Afrim {
    #[verifier::type_invariant]
    spec fn translates_safely(self) -> bool {
        keys_lead_ascii(self.translator)
    }

    /// The preprocessor of the session.
    pub closed spec fn preprocessor(self) -> Preprocessor {
        self.preprocessor
    }

    /// The translator of the session.
    pub closed spec fn translator(self) -> Translator {
        self.translator
    }

    /// The predicates that the session proposes for an input: those of the
    /// translator, and none for an input of two or more characters that
    /// starts outside ASCII.
    pub open spec fn candidates(self, input: Seq<char>) -> Seq<PredicateView> {
        if input.len() < 2 || leads_ascii(input) {
            translation(self.translator(), input)
        } else {
            Seq::empty()
        }
    }

    /// A session made from settings, with an empty queue and an empty
    /// buffer. The dictionary takes the entries whose code is empty or
    /// starts with an ASCII character. A buffer size beyond
    /// `MAX_BUFFER_SIZE` is turned down.
    pub fn from_config(settings: Settings) -> (result: Result<Afrim, ConfigError>)
        ensures
            result is Err <==> settings.capacity() > MAX_BUFFER_SIZE,
            result matches Err(error) ==> error == ConfigError::BufferSize(settings.capacity()),
            result matches Ok(afrim) ==> {
                &&& pending(afrim.preprocessor()) == Seq::<CommandView>::empty()
                &&& buffered(afrim.preprocessor()) == Seq::<char>::empty()
                &&& buffer_limit(afrim.preprocessor()) == settings.capacity()
                &&& auto_commit(afrim.translator()) == settings.commits()
                &&& dictionary_keys(afrim.translator()) == entry_keys(settings.translation@).filter(
                    |key: Seq<char>| leads_ascii(key),
                )
            },
    {
        let commits = match settings.auto_commit {
            Some(commits) => commits,
            None => false,
        };
        let buffer_size = match settings.buffer_size {
            Some(size) => size,
            None => DEFAULT_BUFFER_SIZE,
        };
        if buffer_size > MAX_BUFFER_SIZE {
            return Err(ConfigError::BufferSize(buffer_size));
        }
        let entries = ascii_led_entries(&settings.translation);
        let preprocessor = crate::preprocessor::new_preprocessor(&settings.data, buffer_size);
        let translator = crate::translator::new_translator(entries, commits);
        Ok(Afrim { preprocessor, translator })
    }

    /// Hands one key stroke to the preprocessor.
    pub fn process(&mut self, stroke: KeyStroke)
        ensures
            final(self).preprocessor() == processed(old(self).preprocessor(), stroke),
            final(self).translator() == old(self).translator(),
            pending(old(self).preprocessor()).is_prefix_of(pending(final(self).preprocessor())),
            buffer_limit(final(self).preprocessor()) == buffer_limit(old(self).preprocessor()),
            stroke is Shift || stroke is CapsLock ==> *final(self) == *old(self),
            stroke is Unidentified ==> pending(final(self).preprocessor()) == pending(
                old(self).preprocessor(),
            ) && buffered(final(self).preprocessor()) == Seq::<char>::empty(),
    {
        proof {
            use_type_invariant(&*self);
        }
        crate::preprocessor::process(&mut self.preprocessor, stroke);
    }

    /// Asks the preprocessor to commit a text in place of the buffered
    /// input.
    pub fn commit(&mut self, text: &str)
        ensures
            pending(final(self).preprocessor()) == pending(old(self).preprocessor()) + seq![
                CommandView::Pause,
            ] + discarding(old(self).preprocessor()) + seq![
                CommandView::CommitText(text@),
                CommandView::Resume,
            ],
            buffered(final(self).preprocessor()) == Seq::<char>::empty(),
            buffer_limit(final(self).preprocessor()) == buffer_limit(old(self).preprocessor()),
            final(self).translator() == old(self).translator(),
    {
        proof {
            use_type_invariant(&*self);
        }
        crate::preprocessor::commit(&mut self.preprocessor, text);
    }

    /// The input that the preprocessor holds.
    pub fn get_input(&self) -> (input: String)
        ensures
            input@ == buffered(self.preprocessor()),
    {
        crate::preprocessor::get_input(&self.preprocessor)
    }

    /// Takes the oldest command off the preprocessor's queue.
    pub fn pop_queue(&mut self) -> (next: Option<Command>)
        ensures
            pending(old(self).preprocessor()).len() == 0 ==> next is None && *final(self) == *old(
                self,
            ),
            pending(old(self).preprocessor()).len() > 0 ==> next is Some && next->0@ == pending(
                old(self).preprocessor(),
            ).first() && pending(final(self).preprocessor()) == pending(
                old(self).preprocessor(),
            ).drop_first(),
            buffered(final(self).preprocessor()) == buffered(old(self).preprocessor()),
            buffer_limit(final(self).preprocessor()) == buffer_limit(old(self).preprocessor()),
            final(self).translator() == old(self).translator(),
    {
        proof {
            use_type_invariant(&*self);
        }
        crate::preprocessor::pop_queue(&mut self.preprocessor)
    }

    /// The predicates for an input.
    pub fn translate(&self, input: &str) -> (predicates: Vec<Predicate>)
        ensures
            predicate_views(predicates@) == self.candidates(input@),
    {
        proof {
            use_type_invariant(self);
        }
        if starts_ascii(input) || input.unicode_len() < 2 {
            crate::translator::translate(&self.translator, input)
        } else {
            let predicates: Vec<Predicate> = Vec::new();
            assert(predicate_views(predicates@) =~= Seq::<PredicateView>::empty());
            predicates
        }
    }
}

/// The slot for the one session of a process. It starts empty, is filled
/// once, and is given up as a whole.
pub struct Singleton {
    afrim: Option<Afrim>,
}

impl Singleton {
    /// The session in the slot, if there is one.
    pub closed spec fn afrim(self) -> Option<Afrim> {
        self.afrim
    }

    /// An empty slot.
    pub fn init_afrim() -> (slot: Singleton)
        ensures
            slot.afrim() is None,
    {
        Singleton { afrim: None }
    }

    /// The session in the slot, if there is one.
    pub fn get_afrim(&self) -> (afrim: &Option<Afrim>)
        ensures
            *afrim == self.afrim(),
    {
        &self.afrim
    }

    /// Puts a session into the slot if it is empty, and says whether it did.
    /// A slot that holds a session keeps it.
    pub fn update_afrim(&mut self, afrim: Afrim) -> (installed: bool)
        ensures
            installed == old(self).afrim() is None,
            final(self).afrim() == if installed {
                Some(afrim)
            } else {
                old(self).afrim()
            },
    {
        if self.afrim.is_none() {
            self.afrim = Some(afrim);
            true
        } else {
            false
        }
    }

    /// Gives up the slot and the session in it.
    pub fn drop_afrim(self) {
    }

    /// Takes the session out of the slot, to work on it.
    pub(crate) fn take(&mut self) -> (afrim: Option<Afrim>)
        ensures
            afrim == old(self).afrim(),
            final(self).afrim() is None,
            old(self).afrim() is None ==> *final(self) == *old(self),
    {
        self.afrim.take()
    }

    /// Puts back the session that was taken out.
    pub(crate) fn put(&mut self, afrim: Afrim)
        requires
            old(self).afrim() is None,
        ensures
            final(self).afrim() == Some(afrim),
    {
        self.afrim = Some(afrim);
    }
}

} // verus!
