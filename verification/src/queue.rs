//! The audio thread's end of a bounded queue of commands.
use rtrb::Consumer;
use vstd::prelude::*;

use crate::deck::InstrumentCommand;
use crate::jet::JetCommand;
use crate::synth::Command;

verus! {

/// `rtrb::Consumer`: the reading end of a queue that another thread writes to. Nothing is known of what
/// that thread adds; what the reading end has seen waiting stays there until it is read.
#[verifier::external_type_specification]
#[verifier::external_body]
#[verifier::reject_recursive_types(T)]
pub struct ExConsumer<T>(Consumer<T>);

/// The items that have come and those that were taken fit together: what was known to wait before is
/// what was taken first, then what is known to wait.
pub open spec fn taken_in_order<T>(before: Seq<T>, taken: Seq<T>, after: Seq<T>) -> bool {
    before.is_prefix_of(taken + after)
}

/// The commands of a synth that the reading end has seen waiting: those between its copies of the read and the
/// write position, in the order they were written.
pub uninterp spec fn notes_known(rx: &Consumer<Command>) -> Seq<Command>;

/// `Consumer::slots` for commands of a synth: looks at the write position and returns how many items wait. Those seen
/// before are still the first; how many the writing thread has added is not known. The reading end
/// is borrowed mutably because its copy of the write position moves.
#[verifier::external_body]
pub(crate) fn notes_waiting(rx: &mut Consumer<Command>) -> (r: usize)
    ensures
        r == notes_known(&*final(rx)).len(),
        notes_known(&*old(rx)).is_prefix_of(notes_known(&*final(rx))),
{
    rx.slots()
}

/// `Consumer::pop` for commands of a synth: takes the item that has waited longest. Where one was seen waiting it is
/// that one, and the others stay; else it depends on the writing thread.
#[verifier::external_body]
pub(crate) fn notes_next(rx: &mut Consumer<Command>) -> (r: Option<Command>)
    ensures
        notes_known(&*old(rx)).len() > 0 ==> r == Some(notes_known(&*old(rx))[0]) && notes_known(&*final(rx)) == notes_known(&*old(rx)).skip(1),
        r is None ==> notes_known(&*final(rx)).len() == 0,
{
    rx.pop().ok()
}

/// The commands of a jet engine that the reading end has seen waiting: those between its copies of the read and the
/// write position, in the order they were written.
pub uninterp spec fn jet_known(rx: &Consumer<JetCommand>) -> Seq<JetCommand>;

/// `Consumer::slots` for commands of a jet engine: looks at the write position and returns how many items wait. Those seen
/// before are still the first; how many the writing thread has added is not known. The reading end
/// is borrowed mutably because its copy of the write position moves.
#[verifier::external_body]
pub(crate) fn jet_waiting(rx: &mut Consumer<JetCommand>) -> (r: usize)
    ensures
        r == jet_known(&*final(rx)).len(),
        jet_known(&*old(rx)).is_prefix_of(jet_known(&*final(rx))),
{
    rx.slots()
}

/// `Consumer::pop` for commands of a jet engine: takes the item that has waited longest. Where one was seen waiting it is
/// that one, and the others stay; else it depends on the writing thread.
#[verifier::external_body]
pub(crate) fn jet_next(rx: &mut Consumer<JetCommand>) -> (r: Option<JetCommand>)
    ensures
        jet_known(&*old(rx)).len() > 0 ==> r == Some(jet_known(&*old(rx))[0]) && jet_known(&*final(rx)) == jet_known(&*old(rx)).skip(1),
        r is None ==> jet_known(&*final(rx)).len() == 0,
{
    rx.pop().ok()
}

/// The commands of an instrument that the reading end has seen waiting: those between its copies of the read and the
/// write position, in the order they were written.
pub uninterp spec fn instrument_known(rx: &Consumer<InstrumentCommand>) -> Seq<InstrumentCommand>;

/// `Consumer::slots` for commands of an instrument: looks at the write position and returns how many items wait. Those seen
/// before are still the first; how many the writing thread has added is not known. The reading end
/// is borrowed mutably because its copy of the write position moves.
#[verifier::external_body]
pub(crate) fn instrument_waiting(rx: &mut Consumer<InstrumentCommand>) -> (r: usize)
    ensures
        r == instrument_known(&*final(rx)).len(),
        instrument_known(&*old(rx)).is_prefix_of(instrument_known(&*final(rx))),
{
    rx.slots()
}

/// `Consumer::pop` for commands of an instrument: takes the item that has waited longest. Where one was seen waiting it is
/// that one, and the others stay; else it depends on the writing thread.
#[verifier::external_body]
pub(crate) fn instrument_next(rx: &mut Consumer<InstrumentCommand>) -> (r: Option<InstrumentCommand>)
    ensures
        instrument_known(&*old(rx)).len() > 0 ==> r == Some(instrument_known(&*old(rx))[0]) && instrument_known(&*final(rx)) == instrument_known(&*old(rx)).skip(1),
        r is None ==> instrument_known(&*final(rx)).len() == 0,
{
    rx.pop().ok()
}

} // verus!
