//! The system clock: runs the CPU one instruction at a time and advances the
//! PPU three dots and the APU one cycle per CPU cycle, passing NMI and IRQ
//! requests to the CPU and performing OAM DMA.
use vstd::prelude::*;

use crate::bus::{Bus, BusView};
use crate::cartridge::{spec_from_ines, Cartridge, CartridgeError};
use crate::cpu::{mach, Cpu, Machine};
use crate::ppu::PpuView;

verus! {

/// A whole console.
pub struct Emulator {
    pub cpu: Cpu,
    pub bus: Bus,
    pub total_cycles: u64,
}

/// The abstract state of the console.
#[verifier::ext_equal]
pub struct EmuState {
    pub cpu: Cpu,
    pub bus: BusView,
    pub total_cycles: u64,
}

impl View for Emulator {
    type V = EmuState;

    open spec fn view(&self) -> EmuState {
        EmuState { cpu: self.cpu, bus: self.bus@, total_cycles: self.total_cycles }
    }
}

/// Largest value `dots_to_frame_end` takes: a full frame of 262 lines of 341 dots.
pub open spec fn max_frame_dots() -> int {
    262 * 341 - 1
}

/// Counter headroom that `run_frame` needs.
pub const HEADROOM: u64 = 1_000_000;

impl EmuState {
    pub open spec fn wf(self) -> bool {
        self.bus.wf()
    }

    /// One PPU dot; an NMI the PPU raised is handed to the CPU.
    #[verifier::opaque]
    pub open spec fn ppu_dot(self) -> (EmuState, bool) {
        let (p, done) = self.bus.ppu.spec_tick(self.bus.cart);
        if p.nmi_occurred {
            (EmuState {
                bus: BusView { ppu: PpuView { nmi_occurred: false, ..p }, ..self.bus },
                cpu: Cpu { nmi_pending: true, ..self.cpu },
                ..self
            }, done)
        } else {
            (EmuState { bus: BusView { ppu: p, ..self.bus }, ..self }, done)
        }
    }

    /// Three PPU dots (one CPU cycle's worth); true when any completed a frame.
    pub open spec fn ppu_dots3(self) -> (EmuState, bool) {
        let (s1, d1) = self.ppu_dot();
        let (s2, d2) = s1.ppu_dot();
        let (s3, d3) = s2.ppu_dot();
        (s3, d1 || d2 || d3)
    }

    /// How a run of at most `dots` PPU dots relates the frame counters. A run
    /// that did not complete a frame keeps the frame number and brings the
    /// PPU closer to the frame's end, by at most two dots per dot (one is
    /// skipped on odd frames). A run that did complete one started within
    /// reach of the frame's end, advanced the frame number by exactly one,
    /// and left the PPU near the start of the next frame.
    pub open spec fn frame_progress(self, next: EmuState, done: bool, dots: int) -> bool {
        &&& !done ==> next.bus.ppu.frame == self.bus.ppu.frame
        &&& !done ==> self.frame_dots_left() - 2 * dots <= next.frame_dots_left() < self.frame_dots_left()
        &&& done ==> next.bus.ppu.frame == self.bus.ppu.frame + 1
        &&& done ==> self.frame_dots_left() <= 2 * dots
        &&& done ==> next.frame_dots_left() >= max_frame_dots() - 2 * dots
        &&& next.frame_dots_left() >= 0
    }

    /// The end of each CPU cycle after an instruction: one APU cycle, then the
    /// mapper and APU frame interrupts passed on as a pending IRQ.
    #[verifier::opaque]
    pub open spec fn end_cycle(self) -> EmuState {
        let s2 = EmuState { bus: self.bus.tick_apu(), ..self };
        let s3 = if s2.bus.cart.irq_active() {
            EmuState {
                bus: BusView { cart: s2.bus.cart.irq_clear(), ..s2.bus },
                cpu: Cpu { irq_pending: true, ..s2.cpu },
                ..s2
            }
        } else {
            s2
        };
        if s3.bus.apu.frame_irq {
            EmuState {
                bus: BusView { apu: crate::apu::Apu { frame_irq: false, ..s3.bus.apu }, ..s3.bus },
                cpu: Cpu { irq_pending: true, ..s3.cpu },
                ..s3
            }
        } else {
            s3
        }
    }

    /// One CPU cycle after an instruction: the cycle count, three PPU dots,
    /// then `end_cycle`.
    #[verifier::opaque]
    pub open spec fn cycle(self) -> (EmuState, bool) {
        let (s1, done) = EmuState { total_cycles: (self.total_cycles + 1) as u64, ..self }.ppu_dots3();
        (s1.end_cycle(), done)
    }

    /// `n` CPU cycles.
    pub open spec fn cycles(self, n: nat) -> (EmuState, bool)
        decreases n,
    {
        if n == 0 {
            (self, false)
        } else {
            let (s1, d1) = self.cycle();
            let (s2, d2) = s1.cycles((n - 1) as nat);
            (s2, d1 || d2)
        }
    }

    /// The transfer half of an OAM DMA cycle: wait for alignment, then
    /// alternately read a byte from page `dma_page` and write it to OAM, 256
    /// bytes in all.
    #[verifier::opaque]
    pub open spec fn dma_transfer(self) -> EmuState {
        let b = self.bus;
        if !b.dma_sync {
            if self.total_cycles % 2 == 1 {
                EmuState { bus: BusView { dma_sync: true, ..b }, ..self }
            } else {
                self
            }
        } else if self.total_cycles % 2 == 0 {
            EmuState { bus: b.dma_fetch(), ..self }
        } else {
            EmuState { bus: b.dma_store(), ..self }
        }
    }

    /// One CPU cycle of OAM DMA: the transfer step, while the PPU and APU
    /// keep running.
    #[verifier::opaque]
    pub open spec fn dma_cycle(self) -> (EmuState, bool) {
        let (s2, done) = self.dma_transfer().ppu_dots3();
        (EmuState { bus: s2.bus.tick_apu(), total_cycles: (s2.total_cycles + 1) as u64, ..s2 }, done)
    }

    /// One call of `clock`: a DMA cycle while DMA is active, else one CPU
    /// step followed by as many cycles as it took.
    pub open spec fn clock(self) -> (EmuState, bool) {
        if self.bus.dma_active {
            self.dma_cycle()
        } else {
            let (m, n) = mach(self.cpu, self.bus).spec_step();
            EmuState { cpu: m.cpu, bus: m.bus, ..self }.cycles(n as nat)
        }
    }

    /// The state after `n` calls of `clock`, and whether the last of them
    /// completed a frame.
    pub open spec fn clocks(self, n: nat) -> (EmuState, bool)
        decreases n,
    {
        if n == 0 {
            (self, false)
        } else {
            self.clocks((n - 1) as nat).0.clock()
        }
    }

    /// Whether one of the first `n` calls of `clock` completes a frame.
    pub open spec fn frame_within(self, n: nat) -> bool
        decreases n,
    {
        if n == 0 {
            false
        } else {
            self.frame_within((n - 1) as nat) || self.clocks(n).1
        }
    }

    /// What `run_frame` leaves: the state after the first call of `clock`
    /// that completes a frame.
    pub open spec fn ran_frame(self, next: EmuState) -> bool {
        exists|n: nat| #![trigger self.clocks(n)]
            n >= 1 && self.clocks(n).0 == next && self.clocks(n).1 && !self.frame_within((n - 1) as nat)
    }

    /// A console freshly built from a cartridge and reset.
    pub open spec fn spec_new(cart: crate::cartridge::CartridgeView, sample_rate: u32) -> EmuState {
        let m = mach(Cpu::spec_new(), Bus::spec_new(cart, sample_rate)).spec_reset();
        EmuState { cpu: m.cpu, bus: m.bus, total_cycles: 0 }
    }

    /// NMI hand-off law: after a PPU dot the PPU holds no undelivered NMI,
    /// and the CPU has an NMI pending exactly when it had one before or the
    /// dot raised one.
    pub proof fn lemma_nmi_delivered(self)
        ensures
            !self.ppu_dot().0.bus.ppu.nmi_occurred,
            self.ppu_dot().0.cpu.nmi_pending
                == (self.cpu.nmi_pending || self.bus.ppu.spec_tick(self.bus.cart).0.nmi_occurred),
    {
        reveal(EmuState::ppu_dot);
    }

    /// IRQ hand-off law: at the end of a CPU cycle the APU's frame interrupt
    /// flag is clear, and the CPU has an IRQ pending exactly when it had one
    /// before, the cartridge's mapper signalled one, or the APU cycle raised
    /// its frame interrupt.
    pub proof fn lemma_irq_delivered(self)
        ensures
            !self.end_cycle().bus.apu.frame_irq,
            self.end_cycle().cpu.irq_pending == (self.cpu.irq_pending || self.bus.cart.irq_active()
                || self.bus.tick_apu().apu.frame_irq),
    {
        reveal(EmuState::end_cycle);
        reveal(BusView::tick_apu);
    }

    /// Power-on law: a freshly built console starts the CPU at the address
    /// stored in the cartridge's reset vector ($FFFC low byte, $FFFD high
    /// byte), with SP = $FD, A = X = Y = 0 and P = U | I (interrupts
    /// disabled), and the
    /// PPU at the start of its first frame.
    pub proof fn lemma_power_on(cart: crate::cartridge::CartridgeView, sample_rate: u32)
        ensures
            EmuState::spec_new(cart, sample_rate).cpu.pc == crate::cpu::word(cart.cpu_read(0xFFFC), cart.cpu_read(0xFFFD)),
            EmuState::spec_new(cart, sample_rate).cpu.sp == 0xFD,
            EmuState::spec_new(cart, sample_rate).cpu.a == 0,
            EmuState::spec_new(cart, sample_rate).cpu.x == 0,
            EmuState::spec_new(cart, sample_rate).cpu.y == 0,
            EmuState::spec_new(cart, sample_rate).cpu.p == crate::cpu::FLAG_U | crate::cpu::FLAG_I,
            EmuState::spec_new(cart, sample_rate).bus.ppu.frame == 0,
            EmuState::spec_new(cart, sample_rate).total_cycles == 0,
    {
        reveal(crate::cpu::Machine::spec_reset);
        reveal(BusView::read);
    }

    /// Dots the PPU has left before it completes the current frame.
    pub open spec fn frame_dots_left(self) -> int {
        self.bus.ppu.dots_to_frame_end()
    }
}

impl Emulator {
    pub open spec fn wf(&self) -> bool {
        self@.wf()
    }

    /// Load an iNES image, build the console and reset the CPU.
    pub fn new(rom_data: &[u8], audio_sample_rate: u32) -> (r: Result<Self, CartridgeError>)
        ensures
            match (r, spec_from_ines(rom_data@)) {
                (Ok(e), Ok(c)) => e@ == EmuState::spec_new(c, audio_sample_rate) && e.wf(),
                (Err(e), Err(f)) => e == f,
                _ => false,
            },
    {
        let cartridge = match Cartridge::from_ines(rom_data) {
            Ok(c) => c,
            Err(e) => return Err(e),
        };
        let mut bus = Bus::new(cartridge, audio_sample_rate);
        let mut cpu = Cpu::new();
        cpu.reset(&mut bus);
        Ok(Emulator { cpu, bus, total_cycles: 0 })
    }

    /// One PPU dot, handing a raised NMI to the CPU.
    #[verifier::rlimit(100)]
    fn ppu_dot(&mut self) -> (done: bool)
        requires
            old(self).wf(),
            old(self).bus.ppu.frame < u64::MAX,
        ensures
            (final(self)@, done) == old(self)@.ppu_dot(),
            final(self).wf(),
            final(self).total_cycles == old(self).total_cycles,
            final(self).bus.apu == old(self).bus.apu,
            old(self)@.frame_progress(final(self)@, done, 1),
    {
        proof {
            reveal(EmuState::ppu_dot);
        }
        let done = self.bus.ppu.tick(&mut self.bus.cartridge);
        if self.bus.ppu.nmi_occurred {
            self.bus.ppu.nmi_occurred = false;
            self.cpu.nmi_pending = true;
        }
        done
    }

    /// Three PPU dots.
    fn ppu_dots3(&mut self) -> (done: bool)
        requires
            old(self).wf(),
            old(self).bus.ppu.frame < u64::MAX - 3,
        ensures
            (final(self)@, done) == old(self)@.ppu_dots3(),
            final(self).wf(),
            final(self).total_cycles == old(self).total_cycles,
            final(self).bus.apu == old(self).bus.apu,
            old(self)@.frame_progress(final(self)@, done, 3),
    {
        let d1 = self.ppu_dot();
        let d2 = self.ppu_dot();
        let d3 = self.ppu_dot();
        d1 || d2 || d3
    }

    /// One APU cycle and the interrupt hand-off.
    fn end_cycle(&mut self)
        requires
            old(self).wf(),
            old(self).bus.apu.cycle < u64::MAX,
        ensures
            final(self)@ == old(self)@.end_cycle(),
            final(self).wf(),
            final(self)@.bus.ppu == old(self)@.bus.ppu,
            final(self).total_cycles == old(self).total_cycles,
            final(self).bus.apu.cycle == old(self).bus.apu.cycle + 1,
    {
        proof {
            reveal(EmuState::end_cycle);
        }
        self.bus.tick_apu();
        if self.bus.cartridge.irq_active() {
            self.bus.cartridge.irq_clear();
            self.cpu.irq_pending = true;
        }
        if self.bus.apu.frame_irq {
            self.bus.apu.frame_irq = false;
            self.cpu.irq_pending = true;
        }
    }

    /// One CPU cycle's worth of PPU, APU and interrupt work.
    fn cycle(&mut self) -> (done: bool)
        requires
            old(self).wf(),
            old(self).bus.ppu.frame < u64::MAX - 3,
            old(self).total_cycles < u64::MAX,
            old(self).bus.apu.cycle < u64::MAX,
        ensures
            (final(self)@, done) == old(self)@.cycle(),
            final(self).wf(),
            final(self).total_cycles == old(self).total_cycles + 1,
            final(self).bus.apu.cycle == old(self).bus.apu.cycle + 1,
            old(self)@.frame_progress(final(self)@, done, 3),
    {
        proof {
            reveal(EmuState::cycle);
        }
        self.total_cycles += 1;
        let done = self.ppu_dots3();
        self.end_cycle();
        done
    }

    /// `n` CPU cycles' worth of work.
    fn run_cycles(&mut self, n: u8) -> (done: bool)
        requires
            old(self).wf(),
            1 <= n <= 8,
            old(self).bus.ppu.frame < u64::MAX - 24,
            old(self).total_cycles < u64::MAX - 8,
            old(self).bus.apu.cycle < u64::MAX - 8,
        ensures
            (final(self)@, done) == old(self)@.cycles(n as nat),
            final(self).wf(),
            final(self).total_cycles == old(self).total_cycles + n,
            final(self).bus.apu.cycle == old(self).bus.apu.cycle + n,
            old(self)@.frame_progress(final(self)@, done, 3 * n),
    {
        let mut done = false;
        let mut k: u8 = 0;
        while k < n
            invariant
                self.wf(),
                k <= n <= 8,
                ({
                    let (f, d) = self@.cycles((n - k) as nat);
                    (f, done || d)
                }) == old(self)@.cycles(n as nat),
                self.total_cycles == old(self).total_cycles + k,
                self.bus.apu.cycle == old(self).bus.apu.cycle + k,
                old(self).bus.ppu.frame < u64::MAX - 24,
                old(self).total_cycles < u64::MAX - 8,
                old(self).bus.apu.cycle < u64::MAX - 8,
                !done ==> self.bus.ppu.frame == old(self).bus.ppu.frame,
                !done ==> self@.frame_dots_left() + k <= old(self)@.frame_dots_left(),
                !done ==> old(self)@.frame_dots_left() - 6 * k <= self@.frame_dots_left(),
                done ==> self.bus.ppu.frame == old(self).bus.ppu.frame + 1,
                done ==> old(self)@.frame_dots_left() <= 6 * k,
                done ==> self@.frame_dots_left() >= max_frame_dots() - 6 * k,
                self@.frame_dots_left() >= 0,
                old(self)@.frame_dots_left() >= 0,
            decreases n - k,
        {
            let d = self.cycle();
            if d {
                done = true;
            }
            k += 1;
        }
        done
    }

    /// The transfer half of one OAM DMA cycle.
    fn dma_transfer(&mut self)
        requires
            old(self).wf(),
        ensures
            final(self)@ == old(self)@.dma_transfer(),
            final(self).wf(),
            final(self)@.bus.same_clock(old(self)@.bus),
            final(self).total_cycles == old(self).total_cycles,
    {
        proof {
            reveal(EmuState::dma_transfer);
        }
        if !self.bus.dma_sync {
            if self.total_cycles % 2 == 1 {
                self.bus.dma_sync = true;
            }
        } else {
            if self.total_cycles % 2 == 0 {
                self.bus.dma_fetch();
            } else {
                self.bus.dma_store();
            }
        }
    }

    /// One cycle of OAM DMA.
    fn dma_cycle(&mut self) -> (done: bool)
        requires
            old(self).wf(),
            old(self).bus.ppu.frame < u64::MAX - 3,
            old(self).total_cycles < u64::MAX,
            old(self).bus.apu.cycle < u64::MAX,
        ensures
            (final(self)@, done) == old(self)@.dma_cycle(),
            final(self).wf(),
            final(self).total_cycles == old(self).total_cycles + 1,
            final(self).bus.apu.cycle == old(self).bus.apu.cycle + 1,
            old(self)@.frame_progress(final(self)@, done, 3),
    {
        proof {
            reveal(EmuState::dma_cycle);
        }
        self.dma_transfer();
        let done = self.ppu_dots3();
        self.bus.tick_apu();
        self.total_cycles += 1;
        done
    }

    /// Step the system by one CPU instruction (or one DMA cycle).
    /// Returns true when a video frame was completed.
    pub fn clock(&mut self) -> (frame_done: bool)
        requires
            old(self).wf(),
            old(self).bus.ppu.frame < u64::MAX - 24,
            old(self).total_cycles < u64::MAX - 8,
            old(self).bus.apu.cycle < u64::MAX - 8,
        ensures
            (final(self)@, frame_done) == old(self)@.clock(),
            final(self).wf(),
            old(self).total_cycles < final(self).total_cycles <= old(self).total_cycles + 8,
            final(self).bus.apu.cycle - old(self).bus.apu.cycle == final(self).total_cycles - old(self).total_cycles,
            old(self)@.frame_progress(final(self)@, frame_done, 24),
    {
        if self.bus.dma_active {
            return self.dma_cycle();
        }
        let cpu_cycles = self.cpu.step(&mut self.bus);
        self.run_cycles(cpu_cycles)
    }

    /// Run until one complete frame has been produced.
    pub fn run_frame(&mut self)
        requires
            old(self).wf(),
            old(self).bus.ppu.frame < u64::MAX - 24,
            old(self).total_cycles < u64::MAX - HEADROOM,
            old(self).bus.apu.cycle < u64::MAX - HEADROOM,
        ensures
            old(self)@.ran_frame(final(self)@),
            final(self).wf(),
            final(self).bus.ppu.frame == old(self).bus.ppu.frame + 1,
    {
        let ghost start = self@;
        let ghost k0 = self.total_cycles + 8 * self@.frame_dots_left();
        let ghost a0 = self.bus.apu.cycle + 8 * self@.frame_dots_left();
        let ghost mut n: nat = 0;
        loop
            invariant_except_break
                self.bus.ppu.frame == old(self).bus.ppu.frame,
                self@.frame_dots_left() >= 0,
                self.total_cycles + 8 * self@.frame_dots_left() <= k0,
                self.bus.apu.cycle + 8 * self@.frame_dots_left() <= a0,
                self@ == start.clocks(n).0,
                !start.frame_within(n),
            invariant
                self.wf(),
                start == old(self)@,
                k0 <= old(self).total_cycles + 8 * max_frame_dots(),
                a0 <= old(self).bus.apu.cycle + 8 * max_frame_dots(),
                old(self).bus.ppu.frame < u64::MAX - 24,
                old(self).total_cycles < u64::MAX - HEADROOM,
                old(self).bus.apu.cycle < u64::MAX - HEADROOM,
            ensures
                self.wf(),
                self.bus.ppu.frame == old(self).bus.ppu.frame + 1,
                start.ran_frame(self@),
            decreases self@.frame_dots_left(),
        {
            let done = self.clock();
            proof {
                n = n + 1;
                assert(start.clocks(n) == start.clocks((n - 1) as nat).0.clock());
            }
            if done {
                proof {
                    assert(start.clocks(n).1);
                    assert(!start.frame_within((n - 1) as nat));
                }
                break;
            }
        }
    }
}

} // verus!
