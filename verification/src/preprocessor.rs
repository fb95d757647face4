//! The preprocessor of `afrim_preprocessor`, as far as the engine uses it.
//!
//! The type is opaque here. Its queue of commands and its buffered input are
//! named by spec functions, and every method the engine calls goes through a
//! wrapper whose contract is taken on trust from the crate's source.

use vstd::prelude::*;
use afrim_preprocessor::Preprocessor;
use crate::command::{Command, CommandView};
use crate::keys::KeyStroke;

verus! {

#[verifier::external_type_specification]
#[verifier::external_body]
pub struct ExPreprocessor(afrim_preprocessor::Preprocessor);

/// The commands queued in the preprocessor, oldest first.
pub uninterp spec fn pending(preprocessor: Preprocessor) -> Seq<CommandView>;

/// The input held in the preprocessor's buffer, as `get_input` reports it.
pub uninterp spec fn buffered(preprocessor: Preprocessor) -> Seq<char>;

/// The buffer size that the preprocessor was made with.
pub uninterp spec fn buffer_limit(preprocessor: Preprocessor) -> nat;

/// The preprocessor after `process` has taken one key stroke.
pub uninterp spec fn processed(preprocessor: Preprocessor, stroke: KeyStroke) -> Preprocessor;

/// The commands by which `commit` discards the buffered input, between the
/// `Pause` it starts with and the `CommitText` it ends with.
pub uninterp spec fn discarding(preprocessor: Preprocessor) -> Seq<CommandView>;

/// The largest buffer size that a preprocessor can be made with. The buffer
/// holds one pointer per slot and is allocated at once; a larger one would
/// exceed what a single allocation may ask for.
pub const MAX_BUFFER_SIZE: usize = usize::MAX / 16;

/// `utils::build_map` and `Preprocessor::new`: a preprocessor over the symbol
/// table built from `data`, each entry a pair of a key sequence and its
/// value. It starts with an empty queue and an empty buffer.
#[verifier::external_body]
pub(crate) fn new_preprocessor(data: &Vec<(String, String)>, buffer_size: usize) -> (preprocessor:
    Preprocessor)
    requires
        buffer_size <= MAX_BUFFER_SIZE,
    ensures
        pending(preprocessor) == Seq::<CommandView>::empty(),
        buffered(preprocessor) == Seq::<char>::empty(),
        buffer_limit(preprocessor) == buffer_size,
{
    let pairs = data.iter().map(|(key, value)| vec![key.as_str(), value.as_str()]).collect();
    let memory = afrim_preprocessor::utils::build_map(pairs);
    Preprocessor::new(memory.into(), buffer_size)
}

/// `Preprocessor::process` on a key-down event of the given stroke. The
/// outcome is a function of the preprocessor and the stroke. The queue only
/// grows at its end. A shift or caps-lock stroke changes nothing, and an
/// unidentified one empties the buffer and queues nothing.
#[verifier::external_body]
pub(crate) fn process(preprocessor: &mut Preprocessor, stroke: KeyStroke)
    ensures
        *final(preprocessor) == processed(*old(preprocessor), stroke),
        pending(*old(preprocessor)).is_prefix_of(pending(*final(preprocessor))),
        buffer_limit(*final(preprocessor)) == buffer_limit(*old(preprocessor)),
        stroke is Shift || stroke is CapsLock ==> *final(preprocessor) == *old(preprocessor),
        stroke is Unidentified ==> pending(*final(preprocessor)) == pending(*old(preprocessor))
            && buffered(*final(preprocessor)) == Seq::<char>::empty(),
    no_unwind
{
    let key = match stroke {
        KeyStroke::Backspace => afrim_preprocessor::Key::Named(afrim_preprocessor::NamedKey::Backspace),
        KeyStroke::CapsLock => afrim_preprocessor::Key::Named(afrim_preprocessor::NamedKey::CapsLock),
        KeyStroke::Shift => afrim_preprocessor::Key::Named(afrim_preprocessor::NamedKey::Shift),
        KeyStroke::Character(c) => afrim_preprocessor::Key::Character(c.to_string()),
        KeyStroke::Unidentified => afrim_preprocessor::Key::Named(afrim_preprocessor::NamedKey::Unidentified),
    };
    let state = afrim_preprocessor::KeyState::Down;
    preprocessor.process(afrim_preprocessor::KeyboardEvent { key, state, ..Default::default() });
}

/// `Preprocessor::commit`: queues `Pause`, the commands that discard the
/// buffered input, `CommitText` with the given text and `Resume`, behind
/// what was queued before, and leaves the buffer empty.
#[verifier::external_body]
pub(crate) fn commit(preprocessor: &mut Preprocessor, text: &str)
    ensures
        pending(*final(preprocessor)) == pending(*old(preprocessor)) + seq![CommandView::Pause]
            + discarding(*old(preprocessor)) + seq![
            CommandView::CommitText(text@),
            CommandView::Resume,
        ],
        buffered(*final(preprocessor)) == Seq::<char>::empty(),
        buffer_limit(*final(preprocessor)) == buffer_limit(*old(preprocessor)),
    no_unwind
{
    preprocessor.commit(text.to_string());
}

/// `Preprocessor::get_input`: the buffered input.
#[verifier::external_body]
pub(crate) fn get_input(preprocessor: &Preprocessor) -> (input: String)
    ensures
        input@ == buffered(*preprocessor),
{
    preprocessor.get_input()
}

/// `Preprocessor::pop_queue`: takes the oldest command off the queue, or
/// returns `None` and changes nothing when the queue is empty. The buffer is
/// not touched.
#[verifier::external_body]
pub(crate) fn pop_queue(preprocessor: &mut Preprocessor) -> (next: Option<Command>)
    ensures
        pending(*old(preprocessor)).len() == 0 ==> next is None && *final(preprocessor) == *old(
            preprocessor,
        ),
        pending(*old(preprocessor)).len() > 0 ==> next is Some && next->0@ == pending(
            *old(preprocessor),
        ).first() && pending(*final(preprocessor)) == pending(*old(preprocessor)).drop_first(),
        buffered(*final(preprocessor)) == buffered(*old(preprocessor)),
        buffer_limit(*final(preprocessor)) == buffer_limit(*old(preprocessor)),
    no_unwind
{
    match preprocessor.pop_queue() {
        None => None,
        Some(afrim_preprocessor::Command::CommitText(text)) => Some(Command::CommitText(text)),
        Some(afrim_preprocessor::Command::CleanDelete) => Some(Command::CleanDelete),
        Some(afrim_preprocessor::Command::Delete) => Some(Command::Delete),
        Some(afrim_preprocessor::Command::Pause) => Some(Command::Pause),
        Some(afrim_preprocessor::Command::Resume) => Some(Command::Resume),
    }
}

} // verus!
