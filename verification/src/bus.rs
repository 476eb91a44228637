//! The CPU's memory bus: address decoding for RAM, PPU and APU registers,
//! controllers, OAM DMA and the cartridge.
use vstd::prelude::*;

use crate::apu::{Apu, ChannelLevels};
use crate::cartridge::{Cartridge, CartridgeView};
use crate::controller::Controller;
use crate::ppu::{Ppu, PpuView};

verus! {

/// Bytes of internal CPU RAM (mirrored four times in $0000-$1FFF).
pub const RAM_BYTES: usize = 2048;

/// Everything attached to the CPU bus.
pub struct Bus {
    pub ram: Vec<u8>,
    pub ppu: Ppu,
    pub apu: Apu,
    pub cartridge: Cartridge,
    pub controller1: Controller,
    pub controller2: Controller,
    pub dma_page: u8,
    pub dma_addr: u8,
    pub dma_data: u8,
    pub dma_active: bool,
    pub dma_sync: bool,
    /// Channel levels at each audio sample point, oldest first, until the
    /// host takes them.
    pub audio_levels: Vec<ChannelLevels>,
}

/// The abstract state of the bus and its devices.
#[verifier::ext_equal]
pub struct BusView {
    pub ram: Seq<u8>,
    pub ppu: PpuView,
    pub apu: Apu,
    pub cart: CartridgeView,
    pub c1: Controller,
    pub c2: Controller,
    pub dma_page: u8,
    pub dma_addr: u8,
    pub dma_data: u8,
    pub dma_active: bool,
    pub dma_sync: bool,
    pub audio: Seq<ChannelLevels>,
}

impl View for Bus {
    type V = BusView;

    open spec fn view(&self) -> BusView {
        BusView {
            ram: self.ram@,
            ppu: self.ppu@,
            apu: self.apu,
            cart: self.cartridge@,
            c1: self.controller1,
            c2: self.controller2,
            dma_page: self.dma_page,
            dma_addr: self.dma_addr,
            dma_data: self.dma_data,
            dma_active: self.dma_active,
            dma_sync: self.dma_sync,
            audio: self.audio_levels@,
        }
    }
}

/// `n` PPU dots in a row; the boolean is true when any of them completed a frame.
pub open spec fn ppu_dots(p: PpuView, cart: CartridgeView, n: nat) -> (PpuView, bool)
    decreases n,
{
    if n == 0 {
        (p, false)
    } else {
        let (q, d) = ppu_dots(p, cart, (n - 1) as nat);
        let (r, e) = q.spec_tick(cart);
        (r, d || e)
    }
}

impl BusView {
    /// The counters that CPU bus accesses never change: the PPU's position in
    /// the frame and the APU's cycle count.
    pub open spec fn same_clock(self, other: BusView) -> bool {
        &&& self.ppu.scanline == other.ppu.scanline
        &&& self.ppu.dot == other.ppu.dot
        &&& self.ppu.frame == other.ppu.frame
        &&& self.apu.cycle == other.apu.cycle
    }

    pub open spec fn wf(self) -> bool {
        &&& self.ram.len() == RAM_BYTES
        &&& self.ppu.wf()
        &&& self.apu.wf()
        &&& self.cart.wf()
    }

    /// A CPU read of `addr`: the bus afterwards (reads of PPU registers and
    /// controllers have side effects) and the byte read.
    #[verifier::opaque]
    pub open spec fn read(self, addr: u16) -> (BusView, u8) {
        if addr <= 0x1FFF {
            (self, self.ram[(addr & 0x07FFu16) as int])
        } else if addr <= 0x3FFF {
            let (p, v) = self.ppu.spec_cpu_read(addr & 0x0007u16, self.cart);
            (BusView { ppu: p, ..self }, v)
        } else if addr == 0x4015 {
            (self, self.apu.spec_cpu_read(addr))
        } else if addr == 0x4016 {
            (BusView { c1: self.c1.after_read(), ..self }, self.c1.read_value())
        } else if addr == 0x4017 {
            (BusView { c2: self.c2.after_read(), ..self }, self.c2.read_value())
        } else if addr >= 0x4020 {
            (self, self.cart.cpu_read(addr))
        } else {
            (self, 0)
        }
    }

    /// A CPU write of `val` to `addr`.
    #[verifier::opaque]
    pub open spec fn write(self, addr: u16, val: u8) -> BusView {
        if addr <= 0x1FFF {
            BusView { ram: self.ram.update((addr & 0x07FFu16) as int, val), ..self }
        } else if addr <= 0x3FFF {
            let (p, c) = self.ppu.spec_cpu_write(addr & 0x0007u16, val, self.cart);
            BusView { ppu: p, cart: c, ..self }
        } else if 0x4000 <= addr <= 0x4013 || addr == 0x4015 || addr == 0x4017 {
            BusView { apu: self.apu.spec_cpu_write(addr, val), ..self }
        } else if addr == 0x4014 {
            BusView { dma_page: val, dma_addr: 0, dma_active: true, ..self }
        } else if addr == 0x4016 {
            BusView { c1: self.c1.after_write(val), c2: self.c2.after_write(val), ..self }
        } else if addr >= 0x4020 {
            BusView { cart: self.cart.cpu_write(addr, val), ..self }
        } else {
            self
        }
    }

    /// One APU cycle; when a sample is due at the host's rate the channel
    /// levels it leaves are recorded.
    #[verifier::opaque]
    pub open spec fn tick_apu(self) -> BusView {
        let a = self.apu.spec_tick();
        if a.spec_sample_due() {
            BusView { apu: a, audio: self.audio.push(a.spec_levels()), ..self }
        } else {
            BusView { apu: a, ..self }
        }
    }

    /// The OAM DMA read: the byte at `dma_addr` of page `dma_page` is fetched
    /// into `dma_data` (the read has the side effects of any CPU read).
    pub open spec fn dma_fetch(self) -> BusView {
        let (b, v) = self.read(crate::cpu::word(self.dma_addr, self.dma_page));
        BusView { dma_data: v, ..b }
    }

    /// The OAM DMA write: `dma_data` goes to OAM byte `dma_addr`, the address
    /// advances, and the transfer ends after the 256th byte.
    pub open spec fn dma_store(self) -> BusView {
        let a = crate::cpu::add8(self.dma_addr, 1);
        let b = BusView {
            ppu: PpuView { oam: self.ppu.oam.update(self.dma_addr as int, self.dma_data), ..self.ppu },
            dma_addr: a,
            ..self
        };
        if a == 0 {
            BusView { dma_active: false, dma_sync: false, ..b }
        } else {
            b
        }
    }

    /// Three PPU dots and one APU cycle; the boolean is true when one of the
    /// dots completed a frame.
    pub open spec fn tick_components(self) -> (BusView, bool) {
        let (p, done) = ppu_dots(self.ppu, self.cart, 3);
        (BusView { ppu: p, ..self }.tick_apu(), done)
    }

    /// `n` APU cycles in a row.
    pub open spec fn apu_ticks(self, n: nat) -> BusView
        decreases n,
    {
        if n == 0 {
            self
        } else {
            self.apu_ticks((n - 1) as nat).tick_apu()
        }
    }

    /// Audio sampling law: over `n` APU cycles the recorded channel levels
    /// grow by exactly the number of samples due at the host's rate in those
    /// cycles (`samples_through` of the end minus that of the start), and
    /// the levels recorded before are kept, in order.
    pub proof fn lemma_audio_sample_count(self, n: nat)
        requires
            self.apu.sample_rate <= crate::apu::CPU_CLOCK,
            self.apu.cycle + n <= u64::MAX,
        ensures
            self.apu_ticks(n).apu.cycle == self.apu.cycle + n,
            self.apu_ticks(n).apu.sample_rate == self.apu.sample_rate,
            self.apu_ticks(n).audio.len() == self.audio.len()
                + self.apu.samples_through(self.apu.cycle + n) - self.apu.samples_through(self.apu.cycle as int),
            self.apu.samples_through(self.apu.cycle as int) <= self.apu.samples_through(self.apu.cycle + n),
            self.apu_ticks(n).audio.subrange(0, self.audio.len() as int) == self.audio,
        decreases n,
    {
        if n > 0 {
            self.lemma_audio_sample_count((n - 1) as nat);
            let prev = self.apu_ticks((n - 1) as nat);
            reveal(BusView::tick_apu);
            let c = self.apu.cycle + n;
            self.apu.lemma_samples_step(c);
            assert(prev.tick_apu().audio.subrange(0, self.audio.len() as int)
                =~= prev.audio.subrange(0, self.audio.len() as int));
        }
    }

    /// OAM DMA law: a write of `page` to $4014 starts a transfer at byte 0
    /// of that page. Each transfer step reads byte `dma_addr` of page
    /// `dma_page` (CPU address `256 * dma_page + dma_addr`), stores it in
    /// OAM byte `dma_addr`, leaves the other OAM bytes alone and moves on to
    /// the next byte; the transfer ends after byte 255.
    pub proof fn lemma_oam_dma(self, page: u8, i: int)
        requires
            self.wf(),
            0 <= i < 256,
        ensures
            self.write(0x4014, page).dma_page == page,
            self.write(0x4014, page).dma_addr == 0,
            self.write(0x4014, page).dma_active,
            ({
                let f = self.dma_fetch();
                let st = f.dma_store();
                &&& f.dma_data == self.read((256 * self.dma_page + self.dma_addr) as u16).1
                &&& st.ppu.oam[self.dma_addr as int] == f.dma_data
                &&& i != self.dma_addr ==> st.ppu.oam[i] == self.ppu.oam[i]
                &&& st.dma_addr == (self.dma_addr + 1) % 256
                &&& st.dma_active == (self.dma_active && self.dma_addr != 255)
            }),
    {
        reveal(BusView::read);
        reveal(BusView::write);
        crate::cpu::lemma_word_value(self.dma_addr, self.dma_page);
    }

    /// RAM mirroring law: $0000-$07FF repeats every 2 KB up to $1FFF.
    pub proof fn lemma_ram_mirror(self, addr: u16)
        requires
            addr <= 0x1FFF,
        ensures
            self.read(addr).1 == self.read((addr & 0x07FFu16) as u16).1,
            self.read(addr).0 == self,
    {
        reveal(BusView::read);
        let a = addr;
        crate::bits::lemma_word_fields();
        assert((a & 0x07FFu16) <= 0x1FFF && ((a & 0x07FFu16) & 0x07FFu16) == (a & 0x07FFu16));
    }

    /// Read-after-write law for RAM: a write to any of the four mirrors of a
    /// RAM cell is what a later read of any mirror of that cell returns, and
    /// the other cells keep their values.
    pub proof fn lemma_ram_read_after_write(self, waddr: u16, raddr: u16, val: u8)
        requires
            self.wf(),
            waddr <= 0x1FFF,
            raddr <= 0x1FFF,
        ensures
            (waddr & 0x07FFu16) == (raddr & 0x07FFu16) ==> self.write(waddr, val).read(raddr).1 == val,
            (waddr & 0x07FFu16) != (raddr & 0x07FFu16) ==> self.write(waddr, val).read(raddr).1 == self.read(raddr).1,
    {
        reveal(BusView::read);
        reveal(BusView::write);
        let a = waddr;
        let b = raddr;
        crate::bits::lemma_word_fields();
        assert((a & 0x07FFu16) < 2048 && (b & 0x07FFu16) < 2048);
    }
}

impl Bus {
    pub open spec fn wf(&self) -> bool {
        self@.wf()
    }

    pub open spec fn spec_new(cart: CartridgeView, sample_rate: u32) -> BusView {
        BusView {
            ram: Seq::new(RAM_BYTES as nat, |i: int| 0u8),
            ppu: PpuView::initial(),
            apu: Apu::spec_new(sample_rate),
            cart,
            c1: Controller::initial(),
            c2: Controller::initial(),
            dma_page: 0,
            dma_addr: 0,
            dma_data: 0,
            dma_active: false,
            dma_sync: false,
            audio: Seq::empty(),
        }
    }

    pub fn new(cartridge: Cartridge, sample_rate: u32) -> (b: Self)
        requires
            cartridge.wf(),
        ensures
            b@ == Bus::spec_new(cartridge@, sample_rate),
            b.wf(),
    {
        let b = Bus {
            ram: vec![0u8; RAM_BYTES],
            ppu: Ppu::new(),
            apu: Apu::new(sample_rate),
            cartridge,
            controller1: Controller::new(),
            controller2: Controller::new(),
            dma_page: 0,
            dma_addr: 0,
            dma_data: 0,
            dma_active: false,
            dma_sync: false,
            audio_levels: Vec::new(),
        };
        proof {
            assert(b@.ram =~= Bus::spec_new(cartridge@, sample_rate).ram);
        }
        b
    }

    /// CPU read of `addr`.
    pub fn cpu_read(&mut self, addr: u16) -> (val: u8)
        requires
            old(self).wf(),
        ensures
            (final(self)@, val) == old(self)@.read(addr),
            final(self).wf(),
            final(self)@.same_clock(old(self)@),
    {
        reveal(BusView::read);
        if addr <= 0x1FFF {
            proof {
                let a = addr;
                crate::bits::lemma_word_fields();
                assert(a & 0x07FFu16 < 2048);
            }
            self.ram[(addr & 0x07FF) as usize]
        } else if addr <= 0x3FFF {
            let reg = addr & 0x0007;
            self.ppu.cpu_read(reg, &mut self.cartridge)
        } else if addr == 0x4015 {
            self.apu.cpu_read(addr)
        } else if addr == 0x4016 {
            self.controller1.read()
        } else if addr == 0x4017 {
            self.controller2.read()
        } else if addr >= 0x4020 {
            self.cartridge.cpu_read(addr)
        } else {
            0
        }
    }

    /// CPU write of `val` to `addr`.
    pub fn cpu_write(&mut self, addr: u16, val: u8)
        requires
            old(self).wf(),
        ensures
            final(self)@ == old(self)@.write(addr, val),
            final(self).wf(),
            final(self)@.same_clock(old(self)@),
    {
        reveal(BusView::write);
        if addr <= 0x1FFF {
            proof {
                let a = addr;
                crate::bits::lemma_word_fields();
                assert(a & 0x07FFu16 < 2048);
            }
            let idx = (addr & 0x07FF) as usize;
            self.ram.set(idx, val);
        } else if addr <= 0x3FFF {
            let reg = addr & 0x0007;
            self.ppu.cpu_write(reg, val, &mut self.cartridge);
        } else if (addr >= 0x4000 && addr <= 0x4013) || addr == 0x4015 || addr == 0x4017 {
            self.apu.cpu_write(addr, val);
        } else if addr == 0x4014 {
            self.dma_page = val;
            self.dma_addr = 0;
            self.dma_active = true;
        } else if addr == 0x4016 {
            self.controller1.write(val);
            self.controller2.write(val);
        } else if addr >= 0x4020 {
            self.cartridge.cpu_write(addr, val);
        }
    }

    /// The read half of an OAM DMA transfer.
    pub(crate) fn dma_fetch(&mut self)
        requires
            old(self).wf(),
        ensures
            final(self)@ == old(self)@.dma_fetch(),
            final(self).wf(),
            final(self)@.same_clock(old(self)@),
    {
        let addr = ((self.dma_page as u16) << 8) | self.dma_addr as u16;
        self.dma_data = self.cpu_read(addr);
    }

    /// The write half of an OAM DMA transfer.
    pub(crate) fn dma_store(&mut self)
        requires
            old(self).wf(),
        ensures
            final(self)@ == old(self)@.dma_store(),
            final(self).wf(),
            final(self)@.same_clock(old(self)@),
    {
        self.ppu.write_oam(self.dma_addr, self.dma_data);
        self.dma_addr = self.dma_addr.wrapping_add(1);
        if self.dma_addr == 0 {
            self.dma_active = false;
            self.dma_sync = false;
        }
    }

    /// Advance the APU by one CPU cycle and record the channel levels.
    pub fn tick_apu(&mut self)
        requires
            old(self).wf(),
            old(self).apu.cycle < u64::MAX,
        ensures
            final(self)@ == old(self)@.tick_apu(),
            final(self).wf(),
            final(self)@.ppu == old(self)@.ppu,
            final(self)@.cart == old(self)@.cart,
            final(self).apu.cycle == old(self).apu.cycle + 1,
            final(self).apu == old(self).apu.spec_tick(),
    {
        reveal(BusView::tick_apu);
        self.apu.tick();
        if self.apu.sample_due() {
            let levels = self.apu.levels();
            self.audio_levels.push(levels);
        }
    }

    /// Hand over the recorded channel levels, oldest first, leaving none.
    pub fn take_audio_levels(&mut self) -> (levels: Vec<ChannelLevels>)
        ensures
            levels@ == old(self).audio_levels@,
            final(self)@ == (BusView { audio: Seq::empty(), ..old(self)@ }),
    {
        let mut out: Vec<ChannelLevels> = Vec::new();
        std::mem::swap(&mut out, &mut self.audio_levels);
        out
    }

    /// Three PPU dots and one APU cycle; true when the PPU completed a frame.
    pub fn tick_components(&mut self) -> (frame_done: bool)
        requires
            old(self).wf(),
            old(self).apu.cycle < u64::MAX,
            old(self).ppu.frame < u64::MAX - 3,
        ensures
            (final(self)@, frame_done) == old(self)@.tick_components(),
            final(self).wf(),
    {
        let mut frame_done = false;
        let mut k: u8 = 0;
        while k < 3
            invariant
                self.wf(),
                k <= 3,
                (self.ppu@, frame_done) == ppu_dots(old(self).ppu@, old(self).cartridge@, k as nat),
                self@ == (BusView { ppu: self.ppu@, ..old(self)@ }),
                self.ppu.frame <= old(self).ppu.frame + k,
                old(self).ppu.frame < u64::MAX - 3,
                old(self).apu.cycle < u64::MAX,
            decreases 3 - k,
        {
            if self.ppu.tick(&mut self.cartridge) {
                frame_done = true;
            }
            k += 1;
        }
        self.tick_apu();
        frame_done
    }
}

} // verus!
