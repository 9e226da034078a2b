//! Song position tracking from MIDI system messages: clock pulses, song
//! position pointers and transport start/continue/stop.

use vstd::prelude::*;

verus! {

/// MIDI timing clock (24 pulses per quarter note).
pub const CLOCK: u8 = 248;
/// MIDI transport start.
pub const START: u8 = 250;
/// MIDI transport continue.
pub const CONTINUE: u8 = 251;
/// MIDI transport stop.
pub const STOP: u8 = 252;
/// MIDI song position pointer, counted in sixteenth notes.
pub const SONG_POSITION: u8 = 242;
/// Clock pulses per quarter note.
pub const PULSES_PER_QUARTER_NOTE: u32 = 24;
/// Song position ticks per quarter note.
pub const TICKS_PER_QUARTER_NOTE: u32 = 960;

/// The position of the song as reported by MIDI: the song position in ticks
/// (960 per quarter note) and the clock pulses (24 per quarter note) received
/// since that position was set. In beats the position is
/// `song_position / 960 + clock_count / 24`.
#[derive(Clone, Copy, Debug, PartialEq, Eq, Structural)]
pub struct SongPosition {
    pub clock_count: u32,
    pub song_position: u32,
}

/// The song position pointer carried by a message's two data bytes.
pub open spec fn pointer_value(lsb: u8, msb: u8) -> u32 {
    ((msb as u32) << 7u32) | (lsb as u32)
}

/// The position after one MIDI message: a clock pulse advances the clock
/// count (wrapping at 2^32); a song position pointer sets the position, one
/// sixteenth note being 240 ticks, and restarts the clock count; a start
/// restarts the clock count; other messages change nothing.
pub open spec fn song_step(p: SongPosition, message: Seq<u8>) -> SongPosition {
    if message.len() == 0 {
        p
    } else if message[0] == CLOCK {
        SongPosition { clock_count: p.clock_count.wrapping_add(1), ..p }
    } else if message[0] == SONG_POSITION {
        SongPosition {
            clock_count: 0,
            song_position: (pointer_value(message[1], message[2]) * 240) as u32,
        }
    } else if message[0] == START {
        SongPosition { clock_count: 0, ..p }
    } else {
        p
    }
}

/// The position after a sequence of messages, applied in order.
pub open spec fn song_steps(p: SongPosition, messages: Seq<Seq<u8>>) -> SongPosition
    decreases messages.len(),
{
    if messages.len() == 0 {
        p
    } else {
        song_step(song_steps(p, messages.drop_last()), messages.last())
    }
}

/// The position in ticks (960 per beat): the song position plus 40 ticks per
/// clock pulse. In beats this is the song position over 960 plus the clock
/// count over 24.
pub open spec fn position_ticks(p: SongPosition) -> int {
    p.song_position + p.clock_count * 40
}

impl SongPosition {
    pub fn new() -> (r: SongPosition)
        ensures
            r.clock_count == 0,
            r.song_position == 0,
    {
        SongPosition { clock_count: 0, song_position: 0 }
    }

    /// Applies one MIDI message. A song position pointer must carry its two
    /// data bytes.
    pub fn on_message(&mut self, message: &[u8])
        requires
            message@.len() >= 1 && message@[0] == SONG_POSITION ==> message@.len() >= 3,
        ensures
            *final(self) == song_step(*old(self), message@),
            message@.len() >= 1 && message@[0] == CLOCK ==> final(self).clock_count == old(
                self,
            ).clock_count.wrapping_add(1) && final(self).song_position == old(self).song_position,
            message@.len() >= 1 && message@[0] == START ==> final(self).clock_count == 0
                && final(self).song_position == old(self).song_position,
            message@.len() == 0 || (message@[0] != CLOCK && message@[0] != SONG_POSITION
                && message@[0] != START) ==> *final(self) == *old(self),
    {
        if message.len() < 1 {
            return ;
        }
        let status = message[0];
        if status == CLOCK {
            self.clock_count = self.clock_count.wrapping_add(1);
        } else if status == SONG_POSITION {
            let lsb = message[1] as u32;
            let msb = message[2] as u32;
            assert((msb << 7u32) | lsb <= 0x7fff) by (bit_vector)
                requires
                    lsb < 256,
                    msb < 256,
            ;
            let position: u32 = (msb << 7u32) | lsb;
            self.song_position = position * (TICKS_PER_QUARTER_NOTE / 4);
            self.clock_count = 0;
        } else if status == START {
            self.clock_count = 0;
        }
    }

    /// The position in ticks, 960 per beat.
    pub fn position_in_ticks(&self) -> (r: u64)
        ensures
            r == position_ticks(*self),
    {
        self.song_position as u64 + self.clock_count as u64 * 40
    }
}

/// After a song position pointer for sixteenth note `lsb + 128 * msb` (seven-bit
/// data bytes) followed by `n` clock pulses, the position is that many
/// sixteenths at 240 ticks each plus 40 ticks per pulse.
pub proof fn law_pointer_then_clocks(p: SongPosition, lsb: u8, msb: u8, n: nat)
    requires
        lsb < 128,
        msb < 128,
        n < 0x1_0000_0000,
    ensures
        ({
            let messages = Seq::new(n + 1, |i: int| if i == 0 {
                seq![SONG_POSITION, lsb, msb]
            } else {
                seq![CLOCK]
            });
            let q = song_steps(p, messages);
            &&& q.song_position == (msb * 128 + lsb) * 240
            &&& q.clock_count == n
            &&& position_ticks(q) == (msb * 128 + lsb) * 240 + n * 40
        }),
    decreases n,
{
    lemma_pointer_value_seven_bit(lsb, msb);
    let messages = Seq::new(n + 1, |i: int| if i == 0 {
        seq![SONG_POSITION, lsb, msb]
    } else {
        seq![CLOCK]
    });
    if n == 0 {
        assert(messages.drop_last() =~= Seq::<Seq<u8>>::empty());
    } else {
        law_pointer_then_clocks(p, lsb, msb, (n - 1) as nat);
        let prev = Seq::new(n as nat, |i: int| if i == 0 {
            seq![SONG_POSITION, lsb, msb]
        } else {
            seq![CLOCK]
        });
        assert(messages.drop_last() =~= prev);
        let q = song_steps(p, prev);
        assert(q.clock_count == n - 1);
        assert(messages.last() == seq![CLOCK]);
        assert(q.clock_count.wrapping_add(1) == n);
    }
}

/// Only clock pulses, song position pointers and start messages move the
/// position: any other message, continue and stop among them, leaves it as it
/// was.
pub proof fn law_other_messages_keep_position(p: SongPosition, message: Seq<u8>)
    requires
        message.len() == 0 || (message[0] != CLOCK && message[0] != SONG_POSITION && message[0]
            != START),
    ensures
        song_step(p, message) == p,
        song_step(p, seq![CONTINUE]) == p,
        song_step(p, seq![STOP]) == p,
{
}

/// A start message rewinds the clock count and keeps the song position.
pub proof fn law_start_restarts_clock(p: SongPosition)
    ensures
        song_step(p, seq![START]) == (SongPosition { clock_count: 0, ..p }),
{
}

/// Transport messages that restart or stop playback.
#[derive(Clone, Copy, Debug, PartialEq, Eq, Structural)]
pub enum TransportMessage {
    Start,
    Continue,
    Stop,
}

/// The transport message carried by a MIDI message, if any.
pub fn transport_message(message: &[u8]) -> (r: Option<TransportMessage>)
    requires
        message@.len() >= 1,
    ensures
        r == (if message@[0] == START {
            Some(TransportMessage::Start)
        } else if message@[0] == CONTINUE {
            Some(TransportMessage::Continue)
        } else if message@[0] == STOP {
            Some(TransportMessage::Stop)
        } else {
            None
        }),
{
    let status = message[0];
    if status == START {
        Some(TransportMessage::Start)
    } else if status == CONTINUE {
        Some(TransportMessage::Continue)
    } else if status == STOP {
        Some(TransportMessage::Stop)
    } else {
        None
    }
}

/// The pointer value of the two data bytes equals `msb * 128 + lsb` when the
/// data bytes are proper seven-bit MIDI data.
pub proof fn lemma_pointer_value_seven_bit(lsb: u8, msb: u8)
    requires
        lsb < 128,
        msb < 128,
    ensures
        pointer_value(lsb, msb) == msb * 128 + lsb,
{
    let l = lsb as u32;
    let m = msb as u32;
    assert((m << 7u32) | l == m * 128 + l) by (bit_vector)
        requires
            l < 128,
            m < 128,
    ;
}

} // verus!
