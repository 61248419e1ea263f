//! What holds of every bank and every handle.

use vstd::prelude::*;
use crate::gpio::{
    ErasedPin, GpioView, Level, LineId, Mode, OutputType, PartiallyErasedPin, Pin, PinExt,
    Setting, Write,
};

verus! {

/// Driving a line changes the output latch of that line and nothing else:
/// every line keeps its mode and its sampled input, every other line keeps
/// its latch, no line is handed out, and exactly one write is recorded.
pub proof fn lemma_drive_touches_one_latch(hw: GpioView, id: LineId, level: Level)
    ensures
        hw.drive(id, level).output(id) == level,
        hw.drive(id, level).mode(id) == hw.mode(id),
        hw.drive(id, level).input(id) == hw.input(id),
        forall|other: LineId|
            other != id ==> #[trigger] hw.drive(id, level).lines[other] == hw.lines[other],
        hw.drive(id, level).claimed == hw.claimed,
        hw.drive(id, level).writes == hw.writes.push(
            Write { id, setting: Setting::Level(level) },
        ),
        hw.wf() && id.valid() ==> hw.drive(id, level).wf(),
{
    hw.lemma_apply(Write { id, setting: Setting::Level(level) });
}

/// A line that was driven high reads back as driven high, and one that was
/// driven low reads back as driven low.
pub proof fn lemma_readback(hw: GpioView, id: LineId)
    ensures
        hw.drive(id, Level::High).output(id) == Level::High,
        hw.drive(id, Level::Low).output(id) == Level::Low,
{
}

/// Toggling a line inverts its latch, and toggling it twice brings every line
/// of the bank back to the state it had. The two writes stay recorded.
pub proof fn lemma_toggle_twice(hw: GpioView, id: LineId)
    requires
        hw.wf(),
        id.valid(),
    ensures
        hw.toggle(id).output(id) == hw.output(id).inverted(),
        hw.toggle(id).toggle(id).lines == hw.lines,
        hw.toggle(id).toggle(id).claimed == hw.claimed,
        hw.toggle(id).toggle(id).writes.len() == hw.writes.len() + 2,
{
    assert(hw.toggle(id).toggle(id).lines =~= hw.lines);
}

/// Two mode changes in a row leave the line where one change to the second
/// mode would leave it: in the second mode, with the same latch and the same
/// sampled input. No other line is touched by either.
pub proof fn lemma_mode_changes_keep_the_line(hw: GpioView, id: LineId, first: Mode, second: Mode)
    ensures
        hw.configure(id, first).configure(id, second).mode(id) == second,
        hw.configure(id, first).configure(id, second).mode(id) == hw.configure(id, second).mode(
            id,
        ),
        hw.configure(id, first).configure(id, second).output(id) == hw.output(id),
        hw.configure(id, first).configure(id, second).input(id) == hw.input(id),
        forall|other: LineId|
            other != id ==> #[trigger] hw.configure(id, first).configure(id, second).lines[other]
                == hw.lines[other],
        hw.configure(id, first).configure(id, second).claimed == hw.claimed,
{
    hw.lemma_configure(id, first);
    hw.lemma_configure(id, second);
    hw.configure(id, first).lemma_configure(id, second);
}

/// Typed handles of one line stand for that line whatever their mode tags.
pub proof fn lemma_mode_tag_keeps_the_line<const P: u8, const N: u8, M1, M2>(
    before: Pin<P, N, M1>,
    after: Pin<P, N, M2>,
)
    ensures
        before.id() == after.id(),
        before.id() == (LineId { port: P, line: N }),
{
}

/// Erasing the line number, the port, or both gives a handle of the same
/// line. So every operation through the erased handle writes what the same
/// operation through the typed handle writes, and reads what it reads.
pub proof fn lemma_erasure_equivalence<const P: u8, const N: u8, MODE>(
    pin: Pin<P, N, MODE>,
    hw: GpioView,
    level: Level,
    mode: Mode,
)
    ensures
        pin.erased().id() == pin.id(),
        pin.number_erased().id() == pin.id(),
        pin.number_erased().erased() == pin.erased(),
        hw.drive(pin.erased().id(), level) == hw.drive(pin.id(), level),
        hw.drive(pin.number_erased().id(), level) == hw.drive(pin.id(), level),
        hw.toggle(pin.erased().id()) == hw.toggle(pin.id()),
        hw.toggle(pin.number_erased().id()) == hw.toggle(pin.id()),
        hw.configure(pin.erased().id(), mode) == hw.configure(pin.id(), mode),
        hw.configure(pin.number_erased().id(), mode) == hw.configure(pin.id(), mode),
        hw.output(pin.erased().id()) == hw.output(pin.id()),
        hw.output(pin.number_erased().id()) == hw.output(pin.id()),
        hw.input(pin.erased().id()) == hw.input(pin.id()),
        hw.input(pin.number_erased().id()) == hw.input(pin.id()),
{
    ErasedPin::<MODE>::lemma_of_line(pin.id());
    PartiallyErasedPin::<P, MODE>::lemma_of_line(N);
}

/// While an input is being turned into an output that drives `level`, the
/// line never drives the other level: after each of the writes, if the line
/// is an output, it is one with the requested output stage and its latch
/// holds `level`. After the last write it is such an output.
pub proof fn lemma_bridge_is_glitch_free(
    hw: GpioView,
    id: LineId,
    level: Level,
    otype: OutputType,
    k: int,
)
    requires
        !hw.mode(id).is_output(),
        0 <= k <= GpioView::bridge_writes(id, level, Mode::Output(otype)).len(),
    ensures
        ({
            let during = hw.apply_all(GpioView::bridge_writes(id, level, Mode::Output(otype)).take(k));
            during.mode(id).is_output() ==> during.mode(id) == Mode::Output(otype)
                && during.output(id) == level
        }),
        ({
            let done = hw.apply_all(GpioView::bridge_writes(id, level, Mode::Output(otype)));
            done.mode(id) == Mode::Output(otype) && done.output(id) == level
        }),
        GpioView::bridge_writes(id, level, Mode::Output(otype)).len() == 3,
{
    reveal_with_fuel(GpioView::apply_all, 4);
    let ws = GpioView::bridge_writes(id, level, Mode::Output(otype));
    assert(ws =~= seq![ws[0], ws[1], ws[2]]);
    assert(ws.drop_last() =~= seq![ws[0], ws[1]]);
    assert(ws.drop_last().drop_last() =~= seq![ws[0]]);
    assert(ws.drop_last().drop_last().drop_last() =~= Seq::empty());
    assert(ws.take(0) =~= Seq::empty());
    assert(ws.take(1) =~= seq![ws[0]]);
    assert(ws.take(1).drop_last() =~= Seq::empty());
    assert(ws.take(2) =~= seq![ws[0], ws[1]]);
    assert(ws.take(2).drop_last() =~= seq![ws[0]]);
    assert(ws.take(2).drop_last().drop_last() =~= Seq::empty());
    assert(ws.take(3) =~= ws);
}

} // verus!
