//! The 16-bit parallel bus transport: serializes command bytes and data words
//! onto the wire, toggling the command/data select line before each transfer.
//!
//! The wire itself is modeled by the transcript `written`: every word pushed
//! onto the transmit FIFO, in FIFO order, tagged with the level the select
//! line held when it was written. That transcript is what the higher layers'
//! contracts are stated over.

use vstd::prelude::*;

use crate::control::Level;
use crate::control::SelectLine;

verus! {

/// A transport-level failure: the select line could not be driven, or the
/// caller asked for a payload encoding the transport does not implement.
#[derive(Clone, Copy, Debug, PartialEq, Eq, Structural)]
pub enum DisplayError {
    /// The command/data select line failed to change state.
    DCError,
    /// The requested payload encoding is not implemented; nothing was
    /// transmitted.
    DataFormatNotImplemented,
    /// A contiguous fill overlapped the canvas edge, which the
    /// addressing-window-only wire protocol cannot honour.
    OutOfBoundsError,
}

/// One bus transfer: a 16-bit word, tagged with the select-line level it was
/// written at. Command bytes travel widened into the low byte of a word.
#[derive(Clone, Copy, Debug, PartialEq, Eq, Structural)]
pub enum BusWord {
    /// A word written while the select line was low.
    Cmd(u16),
    /// A word written while the select line was high.
    Dat(u16),
}

/// The payload encodings a caller can hand to the transport. Raw bytes and
/// little-endian 16-bit words are transmitted; big-endian words are not
/// implemented.
pub enum DataFormat<'a> {
    /// A raw byte sequence; each byte occupies one bus cycle.
    U8(&'a [u8]),
    /// Little-endian 16-bit words; each word occupies one bus cycle.
    U16LE(&'a [u16]),
    /// Big-endian 16-bit words: not implemented by this transport.
    U16BE(&'a [u16]),
}

/// Whether the transport implements the payload encoding.
pub open spec fn df_supported(data: DataFormat) -> bool {
    !(data matches DataFormat::U16BE(_))
}

/// The 16-bit words a payload occupies on the bus, in transmission order.
pub open spec fn df_word_values(data: DataFormat) -> Seq<u16> {
    match data {
        DataFormat::U8(s) => s@.map(|i: int, b: u8| b as u16),
        DataFormat::U16LE(s) => s@,
        DataFormat::U16BE(s) => s@,
    }
}

/// Tags each word with the select-line level it is written at.
pub open spec fn tag_words(level: Level, words: Seq<u16>) -> Seq<BusWord> {
    words.map(
        |i: int, w: u16|
            if level == Level::Low {
                BusWord::Cmd(w)
            } else {
                BusWord::Dat(w)
            },
    )
}

/// A write-only command/data transport, as the controller driver consumes
/// it. An implementation exposes as specification state the transcript of
/// tagged words it has put on the wire, the level its select line rests at,
/// and whether that line is usable; both operations are specified over those
/// three.
pub trait WriteOnlyDataCommand: Sized {
    /// The tagged words written to the wire so far, in transmission order.
    spec fn words(&self) -> Seq<BusWord>;

    /// The level the command/data select line currently rests at.
    spec fn level(&self) -> Level;

    /// Whether the select line cannot be driven.
    spec fn broken(&self) -> bool;

    /// Asserts the command select (line low), then transmits the payload as
    /// command words.
    fn send_commands(&mut self, cmd: DataFormat<'_>) -> (r: Result<(), DisplayError>)
        ensures
            final(self).broken() == old(self).broken(),
            old(self).broken() ==> (r matches Err(DisplayError::DCError)) && final(self).words()
                == old(self).words() && final(self).level() == old(self).level(),
            !old(self).broken() ==> final(self).level() == Level::Low && (if df_supported(cmd) {
                r is Ok && final(self).words() == old(self).words() + tag_words(
                    Level::Low,
                    df_word_values(cmd),
                )
            } else {
                (r matches Err(DisplayError::DataFormatNotImplemented)) && final(self).words()
                    == old(self).words()
            }),
    ;

    /// Asserts the data select (line high), then transmits the payload as
    /// data words.
    fn send_data(&mut self, buf: DataFormat<'_>) -> (r: Result<(), DisplayError>)
        ensures
            final(self).broken() == old(self).broken(),
            old(self).broken() ==> (r matches Err(DisplayError::DCError)) && final(self).words()
                == old(self).words() && final(self).level() == old(self).level(),
            !old(self).broken() ==> final(self).level() == Level::High && (if df_supported(buf) {
                r is Ok && final(self).words() == old(self).words() + tag_words(
                    Level::High,
                    df_word_values(buf),
                )
            } else {
                (r matches Err(DisplayError::DataFormatNotImplemented)) && final(self).words()
                    == old(self).words()
            }),
    ;
}

/// The bus transport: a transmit FIFO plus the command/data select line.
/// `written` records every word in FIFO order, tagged with the level the
/// select line held when the word was written.
pub struct Pio16BitBus {
    pub written: Vec<BusWord>,
    pub dc: SelectLine,
}

impl Pio16BitBus {
    /// A transport with an empty transcript over the given select line.
    pub fn new(dc: SelectLine) -> (bus: Pio16BitBus)
        ensures
            bus.written@ == Seq::<BusWord>::empty(),
            bus.dc == dc,
    {
        Pio16BitBus { written: Vec::new(), dc }
    }

    /// Writes each byte as one bus cycle, widened into the low byte of a
    /// 16-bit word, at the current select-line level.
    fn write_iter(&mut self, bytes: &[u8]) -> (r: Result<(), DisplayError>)
        ensures
            r is Ok,
            final(self).dc == old(self).dc,
            final(self).written@ == old(self).written@ + tag_words(
                old(self).dc.level,
                bytes@.map(|i: int, b: u8| b as u16),
            ),
    {
        let ghost target = tag_words(self.dc.level, bytes@.map(|i: int, b: u8| b as u16));
        let mut i: usize = 0;
        while i < bytes.len()
            invariant
                i <= bytes.len(),
                target == tag_words(self.dc.level, bytes@.map(|i: int, b: u8| b as u16)),
                self.dc == old(self).dc,
                self.written@ == old(self).written@ + target.take(i as int),
            decreases bytes.len() - i,
        {
            let word = bytes[i] as u16;
            let tagged = if matches!(self.dc.level, Level::Low) {
                BusWord::Cmd(word)
            } else {
                BusWord::Dat(word)
            };
            self.written.push(tagged);
            proof {
                assert(target.take(i + 1) =~= target.take(i as int).push(target[i as int]));
            }
            i = i + 1;
        }
        proof {
            assert(target.take(bytes@.len() as int) =~= target);
        }
        Ok(())
    }

    /// Writes each 16-bit word as one bus cycle at the current select-line
    /// level.
    fn write_iter16(&mut self, words: &[u16]) -> (r: Result<(), DisplayError>)
        ensures
            r is Ok,
            final(self).dc == old(self).dc,
            final(self).written@ == old(self).written@ + tag_words(old(self).dc.level, words@),
    {
        let ghost target = tag_words(self.dc.level, words@);
        let mut i: usize = 0;
        while i < words.len()
            invariant
                i <= words.len(),
                target == tag_words(self.dc.level, words@),
                self.dc == old(self).dc,
                self.written@ == old(self).written@ + target.take(i as int),
            decreases words.len() - i,
        {
            let word = words[i];
            let tagged = if matches!(self.dc.level, Level::Low) {
                BusWord::Cmd(word)
            } else {
                BusWord::Dat(word)
            };
            self.written.push(tagged);
            proof {
                assert(target.take(i + 1) =~= target.take(i as int).push(target[i as int]));
            }
            i = i + 1;
        }
        proof {
            assert(target.take(words@.len() as int) =~= target);
        }
        Ok(())
    }

    /// Transmits a payload at the current select-line level. An unsupported
    /// encoding is rejected whole: nothing is transmitted.
    pub fn write_data(&mut self, data: DataFormat<'_>) -> (r: Result<(), DisplayError>)
        ensures
            final(self).dc == old(self).dc,
            df_supported(data) ==> r is Ok && final(self).written@ == old(self).written@
                + tag_words(old(self).dc.level, df_word_values(data)),
            !df_supported(data) ==> (r matches Err(DisplayError::DataFormatNotImplemented))
                && final(self).written@ == old(self).written@,
    {
        match data {
            DataFormat::U8(slice) => self.write_iter(slice),
            DataFormat::U16LE(slice) => self.write_iter16(slice),
            DataFormat::U16BE(_) => Err(DisplayError::DataFormatNotImplemented),
        }
    }

}

impl WriteOnlyDataCommand for Pio16BitBus {
    open spec fn words(&self) -> Seq<BusWord> {
        self.written@
    }

    open spec fn level(&self) -> Level {
        self.dc.level
    }

    open spec fn broken(&self) -> bool {
        self.dc.broken
    }

    fn send_commands(&mut self, cmd: DataFormat<'_>) -> (r: Result<(), DisplayError>) {
        match self.dc.set_low() {
            Ok(_) => {},
            Err(_) => {
                return Err(DisplayError::DCError);
            },
        }
        self.write_data(cmd)
    }

    fn send_data(&mut self, buf: DataFormat<'_>) -> (r: Result<(), DisplayError>) {
        match self.dc.set_high() {
            Ok(_) => {},
            Err(_) => {
                return Err(DisplayError::DCError);
            },
        }
        self.write_data(buf)
    }
}

} // verus!
