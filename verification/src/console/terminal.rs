//! The state a console backend on the host terminal keeps: the history of
//! a console's output (kept to redraw the screen when the console comes to
//! the front again, and watched for the hot keys that switch consoles), and
//! the queue of input waiting for the guest.

use std::collections::VecDeque;
use vstd::prelude::*;

verus! {

/// The most output bytes a console keeps.
pub const MAX_OUTPUT_BUFFER_SIZE: usize = 65536;

/// What a hot key at the end of the output asks for.
#[derive(Debug, Clone, Copy, PartialEq, Eq, Structural)]
pub enum ConsoleSwitch {
    /// No hot key.
    Stay,
    /// Alt+F1: bring console 0 to the front.
    ToFirst,
    /// Alt+F2: bring console 1 to the front.
    ToSecond,
    /// Alt+F3: recognised, nothing to switch.
    Third,
}

/// Whether six bytes are the echo of Alt+F`n`: `^[1;3` or `^[1;9`, then `key`.
pub open spec fn is_alt_key(t: Seq<u8>, key: u8) -> bool {
    &&& t.len() == 6
    &&& t[0] == 0x5e
    &&& t[1] == 0x5b
    &&& t[2] == 0x31
    &&& t[3] == 0x3b
    &&& (t[4] == 0x33 || t[4] == 0x39)
    &&& t[5] == key
}

/// The hot key that the last six output bytes form, given the console now
/// in front: Alt+F1 and Alt+F2 count only when they name another console.
pub open spec fn hotkey(t: Seq<u8>, current: usize) -> ConsoleSwitch {
    if is_alt_key(t, 0x50) && current != 0 {
        ConsoleSwitch::ToFirst
    } else if is_alt_key(t, 0x51) && current != 1 {
        ConsoleSwitch::ToSecond
    } else if is_alt_key(t, 0x52) {
        ConsoleSwitch::Third
    } else {
        ConsoleSwitch::Stay
    }
}

/// The six bytes a terminal echoes for Alt+F`n`: `^[1;`, the modifier
/// digit `modifier` (`3` or `9`, as terminals differ), and the key letter
/// (`P`, `Q`, `R` for F1, F2, F3).
pub open spec fn alt_echo(modifier: u8, key: u8) -> Seq<u8> {
    seq![0x5eu8, 0x5bu8, 0x31u8, 0x3bu8, modifier, key]
}

/// What the hot key Alt+F1/F2/F3 (key letter `key`) asks for, with console
/// `current` in front: Alt+F1 brings console 0 to the front and Alt+F2
/// console 1, unless that console is already there; Alt+F3 is recognised and
/// switches nothing.
pub open spec fn intended_switch(key: u8, current: usize) -> ConsoleSwitch {
    if key == 0x50 {
        if current != 0 {
            ConsoleSwitch::ToFirst
        } else {
            ConsoleSwitch::Stay
        }
    } else if key == 0x51 {
        if current != 1 {
            ConsoleSwitch::ToSecond
        } else {
            ConsoleSwitch::Stay
        }
    } else {
        ConsoleSwitch::Third
    }
}

/// The hot keys are recognised in both echoes: output that ends in
/// Alt+F1, F2 or F3, with either modifier digit, makes `record` (whose
/// result is `hotkey` of the last six bytes of the capped history) ask for
/// the switch the key names, whatever came before it, and the two echoes of
/// a key always ask for the same.
pub proof fn lemma_hot_keys_recognised(h: Seq<u8>, data: Seq<u8>, modifier: u8, key: u8, current: usize)
    requires
        h.len() <= MAX_OUTPUT_BUFFER_SIZE,
        6 <= data.len() <= MAX_OUTPUT_BUFFER_SIZE,
        modifier == 0x33 || modifier == 0x39,
        key == 0x50 || key == 0x51 || key == 0x52,
        data.subrange(data.len() - 6, data.len() as int) == alt_echo(modifier, key),
    ensures
        ({
            let c = capped(h, data);
            &&& c.len() >= 6
            &&& c.subrange(c.len() - 6, c.len() as int) == alt_echo(modifier, key)
            &&& hotkey(c.subrange(c.len() - 6, c.len() as int), current) == intended_switch(key, current)
        }),
        hotkey(alt_echo(0x33, key), current) == hotkey(alt_echo(0x39, key), current),
{
    let all = h + data;
    let c = capped(h, data);
    assert(c.subrange(c.len() - 6, c.len() as int) =~= data.subrange(data.len() - 6, data.len() as int));
    let t = alt_echo(modifier, key);
    assert(t[4] == modifier && t[5] == key && t.len() == 6);
}

/// The history after `data` was appended, the oldest bytes dropped to keep
/// at most `MAX_OUTPUT_BUFFER_SIZE`.
pub open spec fn capped(h: Seq<u8>, data: Seq<u8>) -> Seq<u8> {
    let all = h + data;
    if all.len() > MAX_OUTPUT_BUFFER_SIZE {
        all.subrange(all.len() - MAX_OUTPUT_BUFFER_SIZE, all.len() as int)
    } else {
        all
    }
}

/// The history of a console's output.
pub struct OutputHistory {
    buf: Vec<u8>,
}

impl View for OutputHistory {
    type V = Seq<u8>;

    closed spec fn view(&self) -> Seq<u8> {
        self.buf@
    }
}

impl OutputHistory {
    /// An empty history.
    pub fn new() -> (h: Self)
        ensures
            h@ == Seq::<u8>::empty(),
    {
        OutputHistory { buf: Vec::new() }
    }

    /// The history's bytes.
    pub fn as_slice(&self) -> (s: &[u8])
        ensures
            s@ == self@,
    {
        self.buf.as_slice()
    }

    /// Records `data`, dropping the oldest bytes beyond the cap; a hot key
    /// at the end of the history is taken out of it and returned.
    pub fn record(&mut self, data: &[u8], current: usize) -> (s: ConsoleSwitch)
        requires
            old(self)@.len() <= MAX_OUTPUT_BUFFER_SIZE,
            data@.len() <= MAX_OUTPUT_BUFFER_SIZE,
        ensures
            ({
                let c = capped(old(self)@, data@);
                let k = if c.len() >= 6 {
                    hotkey(c.subrange(c.len() - 6, c.len() as int), current)
                } else {
                    ConsoleSwitch::Stay
                };
                &&& s == k
                &&& final(self)@ == (if k != ConsoleSwitch::Stay {
                    c.subrange(0, c.len() - 6)
                } else {
                    c
                })
            }),
            final(self)@.len() <= MAX_OUTPUT_BUFFER_SIZE,
    {
        let ghost h0 = self@;
        let total = self.buf.len() + data.len();
        let mut kept: Vec<u8> = Vec::new();
        let mut i: usize = if total > MAX_OUTPUT_BUFFER_SIZE {
            total - MAX_OUTPUT_BUFFER_SIZE
        } else {
            0
        };
        let start = i;
        while i < self.buf.len()
            invariant
                start <= i <= self.buf@.len() || self.buf@.len() < start,
                self.buf@ == h0,
                start == (if h0.len() + data@.len() > MAX_OUTPUT_BUFFER_SIZE {
                    h0.len() + data@.len() - MAX_OUTPUT_BUFFER_SIZE
                } else {
                    0
                }),
                i >= start,
                kept@ == h0.subrange(start as int, i as int),
            decreases self.buf@.len() - i,
        {
            kept.push(self.buf[i]);
            i = i + 1;
            proof {
                assert(kept@ =~= h0.subrange(start as int, i as int));
            }
        }
        let mut j: usize = 0;
        while j < data.len()
            invariant
                j <= data@.len(),
                start <= h0.len(),
                kept@ == h0.subrange(start as int, h0.len() as int) + data@.subrange(0, j as int),
            decreases data@.len() - j,
        {
            kept.push(data[j]);
            j = j + 1;
            proof {
                assert(kept@ =~= h0.subrange(start as int, h0.len() as int) + data@.subrange(0, j as int));
            }
        }
        proof {
            let all = h0 + data@;
            assert(kept@ =~= all.subrange(start as int, all.len() as int));
            assert(kept@ =~= capped(h0, data@));
        }
        let n = kept.len();
        let mut switch = ConsoleSwitch::Stay;
        if n >= 6 {
            let t0 = kept[n - 6];
            let t1 = kept[n - 5];
            let t2 = kept[n - 4];
            let t3 = kept[n - 3];
            let t4 = kept[n - 2];
            let t5 = kept[n - 1];
            let prefix = t0 == 0x5e && t1 == 0x5b && t2 == 0x31 && t3 == 0x3b && (t4 == 0x33 || t4 == 0x39);
            if prefix && t5 == 0x50 && current != 0 {
                switch = ConsoleSwitch::ToFirst;
            } else if prefix && t5 == 0x51 && current != 1 {
                switch = ConsoleSwitch::ToSecond;
            } else if prefix && t5 == 0x52 {
                switch = ConsoleSwitch::Third;
            }
            proof {
                let t = kept@.subrange(n - 6, n as int);
                assert(t[0] == t0 && t[1] == t1 && t[2] == t2 && t[3] == t3 && t[4] == t4 && t[5] == t5);
            }
            if switch != ConsoleSwitch::Stay {
                kept.truncate(n - 6);
            }
        }
        self.buf = kept;
        switch
    }
}

/// Input from the host terminal, waiting for the guest.
pub struct InputQueue {
    queue: VecDeque<u8>,
}

impl View for InputQueue {
    type V = Seq<u8>;

    closed spec fn view(&self) -> Seq<u8> {
        self.queue@
    }
}

impl InputQueue {
    /// An empty queue.
    pub fn new() -> (q: Self)
        ensures
            q@ == Seq::<u8>::empty(),
    {
        InputQueue { queue: VecDeque::new() }
    }

    /// Queues `data` behind the input already waiting.
    pub fn inject(&mut self, data: &[u8])
        ensures
            final(self)@ == old(self)@ + data@,
    {
        let ghost q0 = self@;
        let mut i: usize = 0;
        while i < data.len()
            invariant
                i <= data@.len(),
                self@ == q0 + data@.subrange(0, i as int),
            decreases data@.len() - i,
        {
            self.queue.push_back(data[i]);
            i = i + 1;
            proof {
                assert(self@ =~= q0 + data@.subrange(0, i as int));
            }
        }
        proof {
            assert(data@.subrange(0, data@.len() as int) =~= data@);
        }
    }

    /// Drops all waiting input.
    pub fn clear(&mut self)
        ensures
            final(self)@ == Seq::<u8>::empty(),
    {
        self.queue.clear();
    }

    /// The number of bytes waiting.
    pub fn len(&self) -> (n: usize)
        ensures
            n == self@.len(),
    {
        self.queue.len()
    }

    /// Moves as much waiting input as fits into `buffer`, oldest first;
    /// returns how many bytes moved.
    pub fn take_into(&mut self, buffer: &mut [u8]) -> (n: usize)
        ensures
            n == (if old(self)@.len() < old(buffer)@.len() {
                old(self)@.len()
            } else {
                old(buffer)@.len() as nat
            }),
            final(buffer)@ == old(self)@.subrange(0, n as int) + old(buffer)@.subrange(
                n as int,
                old(buffer)@.len() as int,
            ),
            final(self)@ == old(self)@.subrange(n as int, old(self)@.len() as int),
    {
        let ghost q0 = self@;
        let ghost b0 = buffer@;
        let mut i: usize = 0;
        while i < buffer.len()
            invariant_except_break
                i <= b0.len(),
                buffer@.len() == b0.len(),
                i <= q0.len(),
                self@ == q0.subrange(i as int, q0.len() as int),
                forall|k: int| 0 <= k < i ==> buffer@[k] == q0[k],
                forall|k: int| i <= k < b0.len() ==> buffer@[k] == b0[k],
            ensures
                i <= b0.len(),
                i <= q0.len(),
                buffer@.len() == b0.len(),
                i == b0.len() || i == q0.len(),
                self@ == q0.subrange(i as int, q0.len() as int),
                forall|k: int| 0 <= k < i ==> buffer@[k] == q0[k],
                forall|k: int| i <= k < b0.len() ==> buffer@[k] == b0[k],
            decreases b0.len() - i,
        {
            match self.queue.pop_front() {
                Some(byte) => {
                    buffer[i] = byte;
                    i = i + 1;
                    proof {
                        assert(self@ =~= q0.subrange(i as int, q0.len() as int));
                    }
                },
                None => {
                    break;
                },
            }
        }
        proof {
            assert(buffer@ =~= q0.subrange(0, i as int) + b0.subrange(i as int, b0.len() as int));
        }
        i
    }
}

} // verus!
