//! The bank of ports that pin handles act on.
//!
//! `Gpio` holds the registers of every port, the set of lines that have been
//! handed out, and the history of register writes. Its view, `GpioView`, is
//! the same state line by line. Every operation of a handle is stated as a
//! function from `GpioView` to `GpioView`.

use vstd::prelude::*;
use crate::gpio::bits::{bit, get_bit, lemma_with_bit, spec_with_bit};
use crate::gpio::line::{
    Function, Level, LineId, LineState, Mode, OutputType, Setting, Write, ALTERNATE_COUNT,
    LINES_PER_PORT, PORT_COUNT,
};
use crate::gpio::port::PortRegs;
use crate::gpio::{Input, Pin};

verus! {

/// The state of the bank, line by line.
#[verifier::ext_equal]
pub struct GpioView {
    /// The state of each line of the bank.
    pub lines: Map<LineId, LineState>,
    /// The lines that have been handed out.
    pub claimed: Set<LineId>,
    /// Every register write made so far, oldest first.
    pub writes: Seq<Write>,
}

impl GpioView {
    /// The view speaks of exactly the lines of the bank.
    pub open spec fn wf(self) -> bool {
        &&& forall|id: LineId| self.lines.dom().contains(id) <==> id.valid()
        &&& forall|id: LineId| self.claimed.contains(id) ==> id.valid()
        &&& forall|id: LineId| id.valid() ==> (#[trigger] self.lines[id]).alt < ALTERNATE_COUNT
    }

    /// The bank after reset: every line a digital input, none handed out,
    /// nothing written.
    pub open spec fn reset() -> GpioView {
        GpioView {
            lines: Map::new(|id: LineId| id.valid(), |id: LineId| LineState::reset()),
            claimed: Set::empty(),
            writes: Seq::empty(),
        }
    }

    /// The electrical configuration of line `id`.
    pub open spec fn mode(self, id: LineId) -> Mode {
        self.lines[id].mode()
    }

    /// The level in the output latch of line `id`.
    pub open spec fn output(self, id: LineId) -> Level {
        self.lines[id].output
    }

    /// The level last sampled at the pad of line `id`.
    pub open spec fn input(self, id: LineId) -> Level {
        self.lines[id].input
    }

    /// The line exists, has not been handed out and is a digital input.
    pub open spec fn free(self, id: LineId) -> bool {
        id.valid() && !self.claimed.contains(id) && self.mode(id) == Mode::Input
    }

    /// The bank after line `id` was handed out.
    pub open spec fn claim(self, id: LineId) -> GpioView {
        GpioView { claimed: self.claimed.insert(id), ..self }
    }

    /// The bank after the pad of line `id` was sampled at `level`.
    pub open spec fn sample(self, id: LineId, level: Level) -> GpioView {
        GpioView { lines: self.lines.insert(id, LineState { input: level, ..self.lines[id] }), ..self }
    }

    /// The bank after one register write.
    pub open spec fn apply(self, w: Write) -> GpioView {
        GpioView {
            lines: self.lines.insert(w.id, self.lines[w.id].with(w.setting)),
            writes: self.writes.push(w),
            ..self
        }
    }

    /// The bank after a sequence of register writes, made in order.
    pub open spec fn apply_all(self, ws: Seq<Write>) -> GpioView
        decreases ws.len(),
    {
        if ws.len() == 0 {
            self
        } else {
            self.apply_all(ws.drop_last()).apply(ws.last())
        }
    }

    /// The bank after the output latch of line `id` was set to `level`.
    pub open spec fn drive(self, id: LineId, level: Level) -> GpioView {
        self.apply(Write { id, setting: Setting::Level(level) })
    }

    /// The bank after the output latch of line `id` was inverted.
    pub open spec fn toggle(self, id: LineId) -> GpioView {
        self.drive(id, self.output(id).inverted())
    }

    /// The register writes that bring line `id` into `mode`: the output stage
    /// first, then the multiplexer setting, and the function last.
    pub open spec fn mode_writes(id: LineId, mode: Mode) -> Seq<Write> {
        match mode {
            Mode::Input => seq![Write { id, setting: Setting::Function(Function::Input) }],
            Mode::Analog => seq![Write { id, setting: Setting::Function(Function::Analog) }],
            Mode::Output(otype) => seq![
                Write { id, setting: Setting::OutputType(otype) },
                Write { id, setting: Setting::Function(Function::Output) },
            ],
            Mode::Alternate(alt, otype) => seq![
                Write { id, setting: Setting::OutputType(otype) },
                Write { id, setting: Setting::Alternate(alt) },
                Write { id, setting: Setting::Function(Function::Alternate) },
            ],
        }
    }

    /// The register writes that set the output latch of line `id` to `level`
    /// and then bring the line into `mode`.
    pub open spec fn bridge_writes(id: LineId, level: Level, mode: Mode) -> Seq<Write> {
        seq![Write { id, setting: Setting::Level(level) }] + Self::mode_writes(id, mode)
    }

    /// The bank after line `id` was brought into `mode`.
    pub open spec fn configure(self, id: LineId, mode: Mode) -> GpioView {
        self.apply_all(Self::mode_writes(id, mode))
    }
}

impl GpioView {
    /// One register write changes one field of one line, records itself, and
    /// changes nothing else.
    pub proof fn lemma_apply(self, w: Write)
        ensures
            self.apply(w).lines[w.id] == self.lines[w.id].with(w.setting),
            forall|id: LineId| id != w.id ==> #[trigger] self.apply(w).lines[id] == self.lines[id],
            self.apply(w).lines.dom() == self.lines.dom().insert(w.id),
            self.apply(w).claimed == self.claimed,
            self.apply(w).writes == self.writes.push(w),
            self.wf() && w.valid() ==> self.apply(w).wf(),
    {
    }

    /// Making one register write is making the sequence that holds it alone.
    pub proof fn lemma_apply_one(self, w: Write)
        ensures
            self.apply_all(seq![w]) == self.apply(w),
    {
        reveal_with_fuel(GpioView::apply_all, 2);
        assert(seq![w].drop_last() =~= Seq::empty());
    }

    /// Making two sequences of writes one after the other is making their
    /// concatenation.
    pub proof fn lemma_apply_all_add(self, a: Seq<Write>, b: Seq<Write>)
        ensures
            self.apply_all(a + b) == self.apply_all(a).apply_all(b),
        decreases b.len(),
    {
        if b.len() == 0 {
            assert(a + b =~= a);
        } else {
            self.lemma_apply_all_add(a, b.drop_last());
            assert((a + b).drop_last() =~= a + b.drop_last());
            assert((a + b).last() == b.last());
        }
    }

    /// A sequence of register writes is recorded in order, after what was
    /// recorded before, and hands out no line.
    pub proof fn lemma_apply_all(self, ws: Seq<Write>)
        ensures
            self.apply_all(ws).writes == self.writes + ws,
            self.apply_all(ws).claimed == self.claimed,
            forall|id: LineId|
                (forall|i: int| 0 <= i < ws.len() ==> ws[i].id != id) ==> #[trigger] self.apply_all(
                    ws,
                ).lines[id] == self.lines[id],
            self.wf() && (forall|i: int| 0 <= i < ws.len() ==> ws[i].valid()) ==> self.apply_all(
                ws,
            ).wf(),
        decreases ws.len(),
    {
        if ws.len() == 0 {
            assert(self.writes + ws =~= self.writes);
        } else {
            let before = self.apply_all(ws.drop_last());
            self.lemma_apply_all(ws.drop_last());
            before.lemma_apply(ws.last());
            assert(self.writes + ws =~= (self.writes + ws.drop_last()).push(ws.last()));
        }
    }

    /// Bringing a line into a mode leaves the line in that mode, keeps its
    /// output latch and its sampled input, and touches no other line.
    pub proof fn lemma_configure(self, id: LineId, mode: Mode)
        ensures
            self.configure(id, mode).mode(id) == mode,
            self.configure(id, mode).output(id) == self.output(id),
            self.configure(id, mode).input(id) == self.input(id),
            forall|other: LineId|
                other != id ==> #[trigger] self.configure(id, mode).lines[other]
                    == self.lines[other],
            self.configure(id, mode).claimed == self.claimed,
            self.configure(id, mode).writes == self.writes + Self::mode_writes(id, mode),
            self.wf() && id.valid() && mode.valid() ==> self.configure(id, mode).wf(),
    {
        reveal_with_fuel(GpioView::apply_all, 4);
        let ws = Self::mode_writes(id, mode);
        self.lemma_apply_all(ws);
        match mode {
            Mode::Input | Mode::Analog => {
                assert(ws.drop_last() =~= Seq::empty());
            },
            Mode::Output(_) => {
                assert(ws.drop_last() =~= seq![ws[0]]);
                assert(ws.drop_last().drop_last() =~= Seq::empty());
            },
            Mode::Alternate(_, _) => {
                assert(ws.drop_last() =~= seq![ws[0], ws[1]]);
                assert(ws.drop_last().drop_last() =~= seq![ws[0]]);
                assert(ws.drop_last().drop_last().drop_last() =~= Seq::empty());
            },
        }
    }
}


/// The bank of ports.
pub struct Gpio {
    ports: [PortRegs; 11],
    claimed: [u32; 11],
    writes: Vec<Write>,
}

impl View for Gpio {
    type V = GpioView;

    closed spec fn view(&self) -> GpioView {
        GpioView {
            lines: Map::new(
                |id: LineId| id.valid(),
                |id: LineId| self.ports@[id.port as int].line(id.line),
            ),
            claimed: Set::new(
                |id: LineId| id.valid() && bit(self.claimed@[id.port as int], id.line as u32),
            ),
            writes: self.writes@,
        }
    }
}

impl Gpio {
    /// The view of a bank always speaks of exactly the lines of the bank.
    pub proof fn lemma_view_wf(self)
        ensures
            self@.wf(),
    {
        assert forall|id: LineId| id.valid() implies (#[trigger] self@.lines[id]).alt
            < ALTERNATE_COUNT by {
            let regs = self.ports@[id.port as int];
            crate::gpio::bits::lemma_field_bounds(regs.afrl, id.line as u32);
            crate::gpio::bits::lemma_field_bounds(regs.afrh, (id.line - 8) as u32);
        }
    }

    /// A bank in its reset state.
    pub fn new() -> (hw: Gpio)
        ensures
            hw@ == GpioView::reset(),
    {
        let regs = PortRegs::reset();
        let hw = Gpio { ports: [regs; 11], claimed: [0u32; 11], writes: Vec::new() };
        proof {
            assert forall|id: LineId| id.valid() implies !bit(
                hw.claimed@[id.port as int],
                id.line as u32,
            ) by {
                lemma_with_bit(0, id.line as u32, false, id.line as u32);
                assert(spec_with_bit(0, id.line as u32, false) == 0) by (bit_vector);
            }
            assert(hw@.lines =~= GpioView::reset().lines);
            assert(hw@.claimed =~= GpioView::reset().claimed);
            assert(hw@.writes =~= GpioView::reset().writes);
        }
        hw
    }

    /// What the bank holds about line `id`; `None` if there is no such line.
    pub fn line(&self, id: LineId) -> (r: Option<LineState>)
        ensures
            r == (if id.valid() {
                Some(self@.lines[id])
            } else {
                None
            }),
    {
        if id.port < PORT_COUNT && id.line < LINES_PER_PORT {
            Some(self.ports[id.port as usize].get(id.line))
        } else {
            None
        }
    }

    /// Whether line `id` has been handed out.
    pub fn is_claimed(&self, id: LineId) -> (r: bool)
        ensures
            r == self@.claimed.contains(id),
    {
        if id.port < PORT_COUNT && id.line < LINES_PER_PORT {
            get_bit(self.claimed[id.port as usize], id.line as u32)
        } else {
            false
        }
    }

    /// Every register write made so far, oldest first.
    pub fn writes(&self) -> (r: &Vec<Write>)
        ensures
            r@ == self@.writes,
    {
        &self.writes
    }

    /// Presents `level` at the pad of line `id`, as the world outside the
    /// chip does. Does nothing if there is no such line.
    pub fn set_input(&mut self, id: LineId, level: Level)
        ensures
            final(self)@ == (if id.valid() {
                old(self)@.sample(id, level)
            } else {
                old(self)@
            }),
    {
        if id.port < PORT_COUNT && id.line < LINES_PER_PORT {
            let p: usize = id.port as usize;
            let mut regs: PortRegs = self.ports[p];
            regs.sample(id.line, level);
            self.ports[p] = regs;
            proof {
                let a = self@;
                let b = old(self)@.sample(id, level);
                assert forall|k: LineId| k.valid() implies a.lines[k] == b.lines[k] by {
                    if k.port == id.port {
                        assert(regs.line(k.line) == a.lines[k]);
                    }
                }
                assert(a.lines =~= b.lines);
                assert(a.claimed =~= b.claimed);
            }
        }
    }

    /// Hands out the handle of line `N` of port `P`, if the line is free.
    pub fn take<const P: u8, const N: u8>(&mut self) -> (r: Option<Pin<P, N, Input>>)
        ensures
            r is Some <==> old(self)@.free(LineId { port: P, line: N }),
            final(self)@ == (if r is Some {
                old(self)@.claim(LineId { port: P, line: N })
            } else {
                old(self)@
            }),
    {
        if self.try_claim(LineId { port: P, line: N }) {
            Some(Pin::new())
        } else {
            None
        }
    }

    /// Marks line `id` as handed out, if it is free.
    pub(crate) fn try_claim(&mut self, id: LineId) -> (ok: bool)
        ensures
            ok == old(self)@.free(id),
            final(self)@ == (if ok {
                old(self)@.claim(id)
            } else {
                old(self)@
            }),
    {
        if !(id.port < PORT_COUNT && id.line < LINES_PER_PORT) {
            return false;
        }
        let p: usize = id.port as usize;
        let n: u32 = id.line as u32;
        let mask: u32 = self.claimed[p];
        if get_bit(mask, n) {
            return false;
        }
        match self.ports[p].get(id.line).function {
            Function::Input => {},
            _ => {
                return false;
            },
        }
        let marked: u32 = mask | (1u32 << n);
        self.claimed[p] = marked;
        proof {
            let a = self@;
            let b = old(self)@.claim(id);
            assert(marked == spec_with_bit(mask, n, true));
            assert forall|k: LineId| a.claimed.contains(k) == b.claimed.contains(k) by {
                if k.valid() && k.port == id.port {
                    lemma_with_bit(mask, n, true, k.line as u32);
                }
            }
            assert(a.claimed =~= b.claimed);
            assert(a.lines =~= b.lines);
        }
        true
    }

    /// Makes one register write.
    pub(crate) fn write(&mut self, w: Write)
        requires
            w.valid(),
        ensures
            final(self)@ == old(self)@.apply(w),
    {
        let p: usize = w.id.port as usize;
        let mut regs: PortRegs = self.ports[p];
        regs.set(w.id.line, w.setting);
        self.ports[p] = regs;
        self.writes.push(w);
        proof {
            let a = self@;
            let b = old(self)@.apply(w);
            assert forall|k: LineId| k.valid() implies a.lines[k] == b.lines[k] by {
                if k.port == w.id.port {
                    assert(regs.line(k.line) == a.lines[k]);
                }
            }
            assert(a.lines =~= b.lines);
            assert(a.claimed =~= b.claimed);
        }
    }

    /// Reads the output latch of line `id`.
    pub(crate) fn output(&self, id: LineId) -> (level: Level)
        requires
            id.valid(),
        ensures
            level == self@.output(id),
    {
        self.ports[id.port as usize].get(id.line).output
    }

    /// Reads the level last sampled at the pad of line `id`.
    pub(crate) fn input(&self, id: LineId) -> (level: Level)
        requires
            id.valid(),
        ensures
            level == self@.input(id),
    {
        self.ports[id.port as usize].get(id.line).input
    }

    /// Sets the output latch of line `id` to `level`.
    pub(crate) fn drive(&mut self, id: LineId, level: Level)
        requires
            id.valid(),
        ensures
            final(self)@ == old(self)@.drive(id, level),
    {
        self.write(Write { id, setting: Setting::Level(level) });
    }

    /// Inverts the output latch of line `id`.
    pub(crate) fn toggle(&mut self, id: LineId)
        requires
            id.valid(),
        ensures
            final(self)@ == old(self)@.toggle(id),
    {
        match self.output(id) {
            Level::Low => self.drive(id, Level::High),
            Level::High => self.drive(id, Level::Low),
        }
    }

    /// Brings line `id` into `mode`.
    pub(crate) fn configure(&mut self, id: LineId, mode: Mode)
        requires
            id.valid(),
            mode.valid(),
        ensures
            final(self)@ == old(self)@.configure(id, mode),
    {
        proof {
            reveal_with_fuel(GpioView::apply_all, 4);
        }
        let ghost ws = GpioView::mode_writes(id, mode);
        match mode {
            Mode::Input => {
                self.write(Write { id, setting: Setting::Function(Function::Input) });
                proof {
                    assert(ws.drop_last() =~= Seq::empty());
                }
            },
            Mode::Analog => {
                self.write(Write { id, setting: Setting::Function(Function::Analog) });
                proof {
                    assert(ws.drop_last() =~= Seq::empty());
                }
            },
            Mode::Output(otype) => {
                self.write(Write { id, setting: Setting::OutputType(otype) });
                self.write(Write { id, setting: Setting::Function(Function::Output) });
                proof {
                    assert(ws.drop_last() =~= seq![ws[0]]);
                    assert(ws.drop_last().drop_last() =~= Seq::empty());
                }
            },
            Mode::Alternate(alt, otype) => {
                self.write(Write { id, setting: Setting::OutputType(otype) });
                self.write(Write { id, setting: Setting::Alternate(alt) });
                self.write(Write { id, setting: Setting::Function(Function::Alternate) });
                proof {
                    assert(ws.drop_last() =~= seq![ws[0], ws[1]]);
                    assert(ws.drop_last().drop_last() =~= seq![ws[0]]);
                    assert(ws.drop_last().drop_last().drop_last() =~= Seq::empty());
                }
            },
        }
    }
}

} // verus!
