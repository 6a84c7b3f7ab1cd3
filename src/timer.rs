use vstd::prelude::*;

verus! {

/// The divider-driven timer: a free-running 16-bit counter, the TIMA
/// counter register, its reload value TMA, and the TAC control bits.
pub struct Timer {
    pub counter: u16,
    pub tima: u8,
    pub tma: u8,
    pub enable: bool,
    /// Clock select, 0..=3 (the two low bits of TAC).
    pub clock: u8,
    /// Value of the gated counter bit at the last synchronisation.
    pub prev: bool,
    /// Timer interrupt pending.
    pub int: bool,
}

/// Mask of the counter bit that the clock select value gates on.
pub open spec fn clock_mask(clock: u8) -> u16 {
    if clock == 0 {
        0x200
    } else if clock == 1 {
        0x8
    } else if clock == 2 {
        0x20
    } else {
        0x80
    }
}

/// The gated signal: the selected counter bit, while the timer is enabled.
pub open spec fn gate(counter: u16, enable: bool, clock: u8) -> bool {
    enable && (counter & clock_mask(clock)) != 0
}

pub open spec fn inc8(v: u8) -> u8 {
    ((v + 1) % 256) as u8
}

impl Timer {
    pub open spec fn wf(&self) -> bool {
        self.clock < 4
    }

    /// Edge detection: a falling edge of the gated bit increments TIMA; when it
    /// wraps past 0xFF it reloads from TMA and raises the interrupt.
    pub open spec fn synced(self) -> Timer {
        let cur = gate(self.counter, self.enable, self.clock);
        if self.prev && !cur {
            if inc8(self.tima) == 0 {
                Timer { tima: self.tma, int: true, prev: cur, ..self }
            } else {
                Timer { tima: inc8(self.tima), prev: cur, ..self }
            }
        } else {
            Timer { prev: cur, ..self }
        }
    }

    /// One counter increment followed by edge detection.
    pub open spec fn ticked(self) -> Timer {
        Timer { counter: ((self.counter + 1) % 0x10000) as u16, ..self }.synced()
    }

    /// The power-on state: everything cleared, clock select 0.
    pub open spec fn initial() -> Timer {
        Timer { counter: 0, tima: 0, tma: 0, enable: false, clock: 0, prev: false, int: false }
    }

    pub fn new() -> (r: Timer)
        ensures
            r == Timer::initial(),
    {
        Timer { counter: 0, tima: 0, tma: 0, enable: false, clock: 0, prev: false, int: false }
    }

    fn clock_bit(&self) -> (r: u16)
        requires
            self.wf(),
        ensures
            r == clock_mask(self.clock),
    {
        if self.clock == 0 {
            0x200
        } else if self.clock == 1 {
            0x8
        } else if self.clock == 2 {
            0x20
        } else {
            0x80
        }
    }

    pub fn sync(&mut self)
        requires
            old(self).wf(),
        ensures
            *final(self) == old(self).synced(),
    {
        let mut cur = false;
        if self.enable {
            let bit = self.clock_bit();
            cur = self.counter & bit != 0;
        }
        if self.prev && !cur {
            self.tima = if self.tima == 255 { 0 } else { self.tima + 1 };
            if self.tima == 0 {
                self.tima = self.tma;
                self.int = true;
            }
        }
        self.prev = cur;
    }

    pub fn tick(&mut self)
        requires
            old(self).wf(),
        ensures
            *final(self) == old(self).ticked(),
    {
        self.counter = if self.counter == 0xFFFF { 0 } else { self.counter + 1 };
        self.sync();
    }

    /// DIV is the high byte of the counter.
    pub fn read_div(&self) -> (r: u8)
        ensures
            r == self.counter / 256,
    {
        (self.counter / 256) as u8
    }

    /// Any write to DIV resets the whole counter.
    pub fn write_div(&mut self, _val: u8)
        ensures
            *final(self) == (Timer { counter: 0, ..*old(self) }),
    {
        self.counter = 0;
    }

    pub fn read_tima(&self) -> (r: u8)
        ensures
            r == self.tima,
    {
        self.tima
    }

    /// Synchronises first, so that a pending edge lands before the write.
    pub fn write_tima(&mut self, val: u8)
        requires
            old(self).wf(),
        ensures
            *final(self) == (Timer { tima: val, ..old(self).synced() }),
    {
        self.sync();
        self.tima = val;
    }

    pub fn read_tma(&self) -> (r: u8)
        ensures
            r == self.tma,
    {
        self.tma
    }

    /// Synchronises first, so that a pending edge reloads the old value.
    pub fn write_tma(&mut self, val: u8)
        requires
            old(self).wf(),
        ensures
            *final(self) == (Timer { tma: val, ..old(self).synced() }),
    {
        self.sync();
        self.tma = val;
    }

    /// TAC: bit 2 is the enable flag, bits 1..0 the clock select.
    pub fn read_tac(&self) -> (r: u8)
        requires
            self.wf(),
        ensures
            r == (if self.enable { 4u8 } else { 0u8 }) + self.clock,
    {
        (if self.enable { 4u8 } else { 0u8 }) + self.clock
    }

    pub fn write_tac(&mut self, val: u8)
        ensures
            *final(self) == (Timer { enable: val & 4 != 0, clock: val & 3, ..*old(self) }),
            final(self).wf(),
    {
        self.enable = val & 4 != 0;
        self.clock = val & 3;
        assert(val & 3 < 4) by (bit_vector);
    }
}

} // verus!

verus! {

impl Default for Timer {
    fn default() -> (r: Timer)
        ensures
            r == Timer::initial(),
    {
        Timer::new()
    }
}

} // verus!

verus! {

/// The falling edge of counter bit 9 happens exactly when the counter
/// reaches a multiple of 1024.
proof fn lemma_bit9_edge(c: u16, d: u16)
    requires
        d == (c + 1) % 0x10000,
    ensures
        ((c & 0x200) != 0 && (d & 0x200) == 0) == (d % 1024 == 0),
{
    if c == 0xFFFF {
        assert(d == 0);
        assert(((c & 0x200) != 0 && (d & 0x200) == 0) == (d % 1024 == 0)) by (bit_vector)
            requires
                c == 0xFFFF,
                d == 0,
        ;
    } else {
        assert(((c & 0x200) != 0 && (d & 0x200) == 0) == (d % 1024 == 0)) by (bit_vector)
            requires
                c < 0xFFFF,
                d == c + 1,
        ;
    }
}

/// The effect of one tick with the timer enabled on counter bit 9 and its
/// edge detector in step with the counter: TIMA moves exactly when the new
/// counter value is a multiple of 1024; moving past 0xFF it is reloaded from
/// TMA and the interrupt is raised in that same tick.
pub proof fn lemma_timer_tick(t: Timer)
    requires
        t.wf(),
        t.enable,
        t.clock == 0,
        t.prev == gate(t.counter, t.enable, t.clock),
    ensures
        t.ticked().counter == (t.counter + 1) % 0x10000,
        t.ticked().prev == gate(t.ticked().counter, t.enable, t.clock),
        t.ticked().enable && t.ticked().clock == 0 && t.ticked().tma == t.tma,
        t.ticked().counter % 1024 == 0 ==> if t.tima == 0xFF {
            t.ticked().tima == t.tma && t.ticked().int
        } else {
            t.ticked().tima == t.tima + 1 && t.ticked().int == t.int
        },
        t.ticked().counter % 1024 != 0 ==> t.ticked().tima == t.tima && t.ticked().int == t.int,
{
    lemma_bit9_edge(t.counter, t.ticked().counter);
}

/// Over 1024 ticks with the timer enabled on counter bit 9 and its edge
/// detector in step, TIMA moves exactly once: at one tick it is incremented
/// (or, past 0xFF, reloaded from TMA with the interrupt raised), and at every
/// other tick it and the interrupt request stay as they were.
pub proof fn lemma_timer_period(s: Seq<Timer>)
    requires
        s.len() == 1025,
        s[0].wf(),
        s[0].enable,
        s[0].clock == 0,
        s[0].prev == gate(s[0].counter, s[0].enable, s[0].clock),
        forall|i: int| 0 <= i < 1024 ==> #[trigger] s[i + 1] == s[i].ticked(),
    ensures
        exists|k: int|
            #![trigger s[k]]
            1 <= k <= 1024 && (if s[k - 1].tima == 0xFF {
                s[k].tima == s[0].tma && s[k].int
            } else {
                s[k].tima == s[k - 1].tima + 1 && s[k].int == s[k - 1].int
            }) && forall|i: int|
                1 <= i <= 1024 && i != k ==> #[trigger] s[i].tima == s[i - 1].tima && s[i].int
                    == s[i - 1].int,
{
    lemma_timer_run(s, 1024);
    let u = s[0].counter % 1024;
    let k = 1024 - u;
    assert forall|i: int| 1 <= i <= 1024 implies (s[i].counter % 1024 == 0) == (i == k) by {
        vstd::arithmetic::div_mod::lemma_mod_mod(s[0].counter + i, 1024, 64);
        vstd::arithmetic::div_mod::lemma_add_mod_noop(s[0].counter as int, i, 1024);
        assert((u + i) % 1024 == (s[0].counter + i) % 1024);
    }
    let j = k - 1;
    assert(s[j + 1] == s[j].ticked());
    lemma_timer_tick(s[j]);
    assert forall|i: int| 1 <= i <= 1024 && i != k implies #[trigger] s[i].tima == s[i - 1].tima
        && s[i].int == s[i - 1].int by {
        let m = i - 1;
        assert(s[m + 1] == s[m].ticked());
        lemma_timer_tick(s[m]);
    }
    assert(s[k] == s[k]);
}

proof fn lemma_timer_run(s: Seq<Timer>, j: int)
    requires
        s.len() == 1025,
        0 <= j <= 1024,
        s[0].wf(),
        s[0].enable,
        s[0].clock == 0,
        s[0].prev == gate(s[0].counter, s[0].enable, s[0].clock),
        forall|i: int| 0 <= i < 1024 ==> #[trigger] s[i + 1] == s[i].ticked(),
    ensures
        forall|i: int|
            0 <= i <= j ==> {
                &&& #[trigger] s[i].counter == (s[0].counter + i) % 0x10000
                &&& s[i].wf() && s[i].enable && s[i].clock == 0 && s[i].tma == s[0].tma
                &&& s[i].prev == gate(s[i].counter, s[i].enable, s[i].clock)
            },
    decreases j,
{
    if j > 0 {
        lemma_timer_run(s, j - 1);
        let m = j - 1;
        assert(s[m + 1] == s[m].ticked());
        assert(s[m].counter == (s[0].counter + m) % 0x10000);
        lemma_timer_tick(s[m]);
        vstd::arithmetic::div_mod::lemma_add_mod_noop(s[0].counter + m, 1, 0x10000);
    }
}

} // verus!
