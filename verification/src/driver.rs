//! The ILI9488 controller driver: panel-protocol semantics on top of the bus
//! transport. It owns the transport, the optional reset and backlight lines
//! and the panel geometry, and exposes the command primitives, the
//! address-window primitive and the reset/initialization sequences.

use vstd::prelude::*;

use crate::bus::BusWord;
use crate::bus::DataFormat;
use crate::bus::DisplayError;
use crate::bus::WriteOnlyDataCommand;
use crate::bus::tag_words;
use crate::color::Rgb565;
use crate::control::ControlLine;
use crate::control::DelaySource;
use crate::control::Level;

verus! {

/// One command byte followed by its data bytes, as bus words.
pub open spec fn cmd_words(cmd: u8, data: Seq<u8>) -> Seq<BusWord> {
    seq![BusWord::Cmd(cmd as u16)] + data.map(|i: int, b: u8| BusWord::Dat(b as u16))
}

/// The words of an address-window program: the column address set command
/// with the two x bounds as big-endian byte pairs, then the row address set
/// command with the two y bounds likewise.
pub open spec fn addr_window_words(xs: u16, ys: u16, xe: u16, ye: u16) -> Seq<BusWord> {
    seq![
        BusWord::Cmd(0x2a),
        BusWord::Dat(xs >> 8),
        BusWord::Dat(xs & 0xff),
        BusWord::Dat(xe >> 8),
        BusWord::Dat(xe & 0xff),
        BusWord::Cmd(0x2b),
        BusWord::Dat(ys >> 8),
        BusWord::Dat(ys & 0xff),
        BusWord::Dat(ye >> 8),
        BusWord::Dat(ye & 0xff),
    ]
}

/// `n` copies of the same data word: a solid pixel stream.
pub open spec fn repeat_words(word: u16, n: nat) -> Seq<BusWord> {
    Seq::new(n, |i: int| BusWord::Dat(word))
}

/// A pixel stream: each colour packed to its wire word, in input order.
pub open spec fn pixel_words(colors: Seq<Rgb565>) -> Seq<BusWord> {
    colors.map(|i: int, c: Rgb565| BusWord::Dat(c.packed()))
}

/// The transitions a hard reset drives onto the reset line: high, low, high
/// when the line is wired, nothing when it is not.
pub open spec fn reset_transitions(rst: Option<ControlLine>) -> Seq<Level> {
    if rst is Some {
        seq![Level::High, Level::Low, Level::High]
    } else {
        Seq::<Level>::empty()
    }
}

/// The settling pauses a hard reset requests: one after each transition.
pub open spec fn reset_delays(rst: Option<ControlLine>) -> Seq<u32> {
    if rst is Some {
        seq![10u32, 10u32, 10u32]
    } else {
        Seq::<u32>::empty()
    }
}

/// The levels recorded on an optional line; an absent line records nothing.
pub open spec fn opt_driven(line: Option<ControlLine>) -> Seq<Level> {
    match line {
        Some(l) => l.driven@,
        None => Seq::<Level>::empty(),
    }
}

/// Whether an optional line is wired but unusable.
pub open spec fn opt_broken(line: Option<ControlLine>) -> bool {
    match line {
        Some(l) => l.broken,
        None => false,
    }
}

/// The full vendor configuration replayed by `init`: power control, VCOM,
/// frame rate, display function, memory access control (BGR with row/column
/// order), 16-bit pixel format and both gamma curves, ended by sleep-out and
/// display-on.
pub open spec fn init_words() -> Seq<BusWord> {
    cmd_words(0xf7, seq![0xa9u8, 0x51u8, 0x2cu8, 0x82u8]) + cmd_words(0xc0, seq![0x11u8, 0x09u8])
        + cmd_words(0xc1, seq![0x41u8]) + cmd_words(0xc5, seq![0x00u8, 0x28u8, 0x80u8])
        + cmd_words(0xb1, seq![0xb0u8, 0x11u8]) + cmd_words(0xb4, seq![0x02u8]) + cmd_words(
        0xb6,
        seq![0x02u8, 0x22u8],
    ) + cmd_words(0xb7, seq![0xc6u8]) + cmd_words(0xbe, seq![0x00u8, 0x04u8]) + cmd_words(
        0xe9,
        seq![0x00u8],
    ) + cmd_words(0x36, seq![0x68u8]) + cmd_words(0x3a, seq![0x55u8]) + cmd_words(
        0xe0,
        seq![
            0x00u8,
            0x07u8,
            0x10u8,
            0x09u8,
            0x17u8,
            0x0bu8,
            0x41u8,
            0x89u8,
            0x4bu8,
            0x0au8,
            0x0cu8,
            0x0eu8,
            0x18u8,
            0x1bu8,
            0x0fu8,
        ],
    ) + cmd_words(
        0xe1,
        seq![
            0x00u8,
            0x17u8,
            0x1au8,
            0x04u8,
            0x0eu8,
            0x06u8,
            0x2fu8,
            0x45u8,
            0x43u8,
            0x02u8,
            0x0au8,
            0x09u8,
            0x32u8,
            0x36u8,
            0x0fu8,
        ],
    ) + cmd_words(0x11, Seq::<u8>::empty()) + cmd_words(0x29, Seq::<u8>::empty())
}

/// A data word carrying one byte: what each address-window coordinate is
/// decomposed into.
pub open spec fn is_data_byte(w: BusWord) -> bool {
    w matches BusWord::Dat(b) && b < 256
}

/// The two data bytes of a big-endian pair recompose to the original word:
/// what `addr_window_words` carries for each coordinate is exactly its
/// big-endian decomposition.
pub proof fn lemma_be_recompose(v: u16)
    ensures
        (v >> 8) < 256,
        (v & 0xff) < 256,
        (v >> 8) * 0x100 + (v & 0xff) == v,
{
    assert((v >> 8) < 256 && (v & 0xff) < 256 && (v >> 8) * 0x100 + (v & 0xff) == v)
        by (bit_vector);
}

/// An address-window program is exactly two commands, the column address set
/// then the row address set, each followed by exactly four data bytes that
/// are the big-endian decompositions of its two coordinates.
pub proof fn lemma_addr_window_big_endian(xs: u16, ys: u16, xe: u16, ye: u16)
    ensures
        addr_window_words(xs, ys, xe, ye).len() == 10,
        addr_window_words(xs, ys, xe, ye)[0] == BusWord::Cmd(0x2a),
        addr_window_words(xs, ys, xe, ye)[5] == BusWord::Cmd(0x2b),
        forall|i: int|
            0 <= i < 10 && i != 0 && i != 5 ==> is_data_byte(
                #[trigger] addr_window_words(xs, ys, xe, ye)[i],
            ),
        addr_window_words(xs, ys, xe, ye)[1]->Dat_0 * 0x100 + addr_window_words(
            xs,
            ys,
            xe,
            ye,
        )[2]->Dat_0 == xs,
        addr_window_words(xs, ys, xe, ye)[3]->Dat_0 * 0x100 + addr_window_words(
            xs,
            ys,
            xe,
            ye,
        )[4]->Dat_0 == xe,
        addr_window_words(xs, ys, xe, ye)[6]->Dat_0 * 0x100 + addr_window_words(
            xs,
            ys,
            xe,
            ye,
        )[7]->Dat_0 == ys,
        addr_window_words(xs, ys, xe, ye)[8]->Dat_0 * 0x100 + addr_window_words(
            xs,
            ys,
            xe,
            ye,
        )[9]->Dat_0 == ye,
{
    lemma_be_recompose(xs);
    lemma_be_recompose(ys);
    lemma_be_recompose(xe);
    lemma_be_recompose(ye);
}

/// The byte casts the address-window primitive performs preserve the value:
/// both halves of a big-endian pair fit a byte.
proof fn lemma_be_byte_casts(v: u16)
    ensures
        ((v >> 8) as u8) as u16 == v >> 8,
        ((v & 0xff) as u8) as u16 == v & 0xff,
{
    assert(((v >> 8) as u8) as u16 == v >> 8 && ((v & 0xff) as u8) as u16 == v & 0xff)
        by (bit_vector);
}

/// The ILI9488 controller driver: the bus transport, the optional reset and
/// backlight lines, and the immutable panel geometry in pixels.
pub struct ILI9488<DI: WriteOnlyDataCommand> {
    pub di: DI,
    pub rst: Option<ControlLine>,
    pub bl: Option<ControlLine>,
    pub size_x: u16,
    pub size_y: u16,
}

impl<DI: WriteOnlyDataCommand> ILI9488<DI> {
    /// The panel has at least one pixel in each direction.
    pub open spec fn wf(self) -> bool {
        self.size_x >= 1 && self.size_y >= 1
    }

    /// Everything a pure bus operation leaves alone: the control lines, the
    /// geometry, and the health of the select line.
    pub open spec fn frame(self, pre: ILI9488<DI>) -> bool {
        &&& self.rst == pre.rst
        &&& self.bl == pre.bl
        &&& self.size_x == pre.size_x
        &&& self.size_y == pre.size_y
        &&& self.di.broken() == pre.di.broken()
    }

    /// The operation appended exactly `words` to the bus transcript and left
    /// the select line at `level`.
    pub open spec fn emitted(self, pre: ILI9488<DI>, words: Seq<BusWord>, level: Level) -> bool {
        self.di.words() == pre.di.words() + words && self.di.level() == level
    }

    /// The operation produced no bus activity at all.
    pub open spec fn bus_unchanged(self, pre: ILI9488<DI>) -> bool {
        self.di.words() == pre.di.words() && self.di.level() == pre.di.level()
    }

    /// The select line can be driven, so bus operations succeed.
    pub open spec fn bus_ok(self) -> bool {
        !self.di.broken()
    }

    /// A driver over the given transport, optional control lines and panel
    /// geometry. The geometry is fixed for the driver's lifetime.
    pub fn new(di: DI, rst: Option<ControlLine>, bl: Option<ControlLine>, size_x: u16,
        size_y: u16) -> (d: ILI9488<DI>)
        requires
            size_x >= 1,
            size_y >= 1,
        ensures
            d.di == di,
            d.rst == rst,
            d.bl == bl,
            d.size_x == size_x,
            d.size_y == size_y,
            d.wf(),
    {
        ILI9488 { di, rst, bl, size_x, size_y }
    }

    /// Sends one command byte: one bus cycle with the command select
    /// asserted.
    pub fn write_command(&mut self, cmd: u8) -> (r: Result<(), DisplayError>)
        ensures
            final(self).frame(*old(self)),
            !old(self).bus_ok() ==> (r matches Err(DisplayError::DCError)) && final(self).bus_unchanged(*old(self)),
            old(self).bus_ok() ==> r is Ok && final(self).emitted(
                *old(self),
                seq![BusWord::Cmd(cmd as u16)],
                Level::Low,
            ),
    {
        let buf: Vec<u8> = vec![cmd];
        let r = self.di.send_commands(DataFormat::U8(buf.as_slice()));
        proof {
            assert(buf@.map(|i: int, b: u8| b as u16) =~= seq![cmd as u16]);
            assert(tag_words(Level::Low, seq![cmd as u16]) =~= seq![BusWord::Cmd(cmd as u16)]);
        }
        r
    }

    /// Sends one data byte: one bus cycle with the data select asserted.
    pub fn write_data(&mut self, buf: u8) -> (r: Result<(), DisplayError>)
        ensures
            final(self).frame(*old(self)),
            !old(self).bus_ok() ==> (r matches Err(DisplayError::DCError)) && final(self).bus_unchanged(*old(self)),
            old(self).bus_ok() ==> r is Ok && final(self).emitted(
                *old(self),
                seq![BusWord::Dat(buf as u16)],
                Level::High,
            ),
    {
        let v: Vec<u8> = vec![buf];
        let r = self.di.send_data(DataFormat::U8(v.as_slice()));
        proof {
            assert(v@.map(|i: int, b: u8| b as u16) =~= seq![buf as u16]);
            assert(tag_words(Level::High, seq![buf as u16]) =~= seq![BusWord::Dat(buf as u16)]);
        }
        r
    }

    /// Sends a slice of 16-bit words as data, little-endian on the wire, one
    /// bus cycle per word.
    pub fn write_data16(&mut self, buf: &[u16]) -> (r: Result<(), DisplayError>)
        ensures
            final(self).frame(*old(self)),
            !old(self).bus_ok() ==> (r matches Err(DisplayError::DCError)) && final(self).bus_unchanged(*old(self)),
            old(self).bus_ok() ==> r is Ok && final(self).emitted(
                *old(self),
                tag_words(Level::High, buf@),
                Level::High,
            ),
    {
        self.di.send_data(DataFormat::U16LE(buf))
    }

    /// Sends one command byte followed by its data bytes: the shape every
    /// entry of the vendor configuration table takes.
    pub(crate) fn write_cmd_data(&mut self, cmd: u8, data: Vec<u8>) -> (r: Result<(), DisplayError>)
        ensures
            final(self).frame(*old(self)),
            !old(self).bus_ok() ==> (r matches Err(DisplayError::DCError)) && final(self).bus_unchanged(*old(self)),
            old(self).bus_ok() ==> r is Ok && final(self).di.words() == old(self).di.words()
                + cmd_words(cmd, data@),
            old(self).bus_ok() && data@.len() > 0 ==> final(self).di.level() == Level::High,
            old(self).bus_ok() && data@.len() == 0 ==> final(self).di.level() == Level::Low,
    {
        self.write_command(cmd)?;
        let ghost pre = self.di.words();
        let mut i: usize = 0;
        while i < data.len()
            invariant
                i <= data.len(),
                self.frame(*old(self)),
                self.bus_ok(),
                self.di.words() == pre + data@.take(i as int).map(
                    |j: int, b: u8| BusWord::Dat(b as u16),
                ),
                i == 0 ==> self.di.level() == Level::Low,
                i > 0 ==> self.di.level() == Level::High,
            decreases data.len() - i,
        {
            self.write_data(data[i])?;
            proof {
                let f = |j: int, b: u8| BusWord::Dat(b as u16);
                assert(data@.take(i + 1).map(f) =~= data@.take(i as int).map(f).push(
                    BusWord::Dat(data@[i as int] as u16),
                ));
            }
            i = i + 1;
        }
        proof {
            assert(data@.take(data@.len() as int) =~= data@);
            assert(pre + data@.map(|j: int, b: u8| BusWord::Dat(b as u16)) =~= old(
                self,
            ).di.words() + cmd_words(cmd, data@));
        }
        Ok(())
    }

    /// Streams `n` copies of one data word, produced one at a time: large
    /// solid fills need no buffer.
    pub(crate) fn write_repeated16(&mut self, word: u16, n: u64) -> (r: Result<(), DisplayError>)
        ensures
            final(self).frame(*old(self)),
            n == 0 ==> r is Ok && final(self).di == old(self).di,
            n > 0 && !old(self).bus_ok() ==> (r matches Err(DisplayError::DCError)) && final(self).bus_unchanged(*old(self)),
            n > 0 && old(self).bus_ok() ==> r is Ok && final(self).emitted(
                *old(self),
                repeat_words(word, n as nat),
                Level::High,
            ),
    {
        let buf: Vec<u16> = vec![word];
        let mut i: u64 = 0;
        while i < n
            invariant
                i <= n,
                buf@ =~= seq![word],
                self.frame(*old(self)),
                i == 0 ==> self.di == old(self).di,
                i > 0 ==> self.bus_ok() && self.emitted(
                    *old(self),
                    repeat_words(word, i as nat),
                    Level::High,
                ),
            decreases n - i,
        {
            self.write_data16(buf.as_slice())?;
            proof {
                assert(tag_words(Level::High, seq![word]) =~= seq![BusWord::Dat(word)]);
                assert(repeat_words(word, (i + 1) as nat) =~= repeat_words(word, i as nat).push(
                    BusWord::Dat(word),
                ));
                assert(old(self).di.words() + repeat_words(word, i as nat) + seq![
                    BusWord::Dat(word),
                ] =~= old(self).di.words() + repeat_words(word, (i + 1) as nat));
            }
            i = i + 1;
        }
        Ok(())
    }

    /// Sends one diagnostic command so a live panel can be probed without
    /// running the full configuration.
    pub fn init_test(&mut self) -> (r: Result<(), DisplayError>)
        ensures
            final(self).frame(*old(self)),
            !old(self).bus_ok() ==> (r matches Err(DisplayError::DCError)) && final(self).bus_unchanged(*old(self)),
            old(self).bus_ok() ==> r is Ok && final(self).emitted(
                *old(self),
                seq![BusWord::Cmd(0x55)],
                Level::Low,
            ),
    {
        self.write_command(0x55)?;
        Ok(())
    }

    /// Pulses the reset line high, low, high with a settling pause after each
    /// transition. An absent reset line means "not wired": the call does
    /// nothing and is not an error.
    pub fn hard_reset(&mut self, delay_source: &mut DelaySource)
        requires
            !opt_broken(old(self).rst),
        ensures
            final(self).di == old(self).di,
            final(self).bl == old(self).bl,
            final(self).size_x == old(self).size_x,
            final(self).size_y == old(self).size_y,
            final(self).rst is Some <==> old(self).rst is Some,
            opt_broken(final(self).rst) == opt_broken(old(self).rst),
            opt_driven(final(self).rst) == opt_driven(old(self).rst) + reset_transitions(
                old(self).rst,
            ),
            final(delay_source).log@ == old(delay_source).log@ + reset_delays(old(self).rst),
    {
        match &mut self.rst {
            Some(rst) => {
                rst.set_high().unwrap();
                delay_source.delay_ms(10);
                rst.set_low().unwrap();
                delay_source.delay_ms(10);
                rst.set_high().unwrap();
                delay_source.delay_ms(10);
            },
            None => {},
        }
        proof {
            assert(opt_driven(final(self).rst) =~= opt_driven(old(self).rst) + reset_transitions(
                old(self).rst,
            ));
            assert(final(delay_source).log@ =~= old(delay_source).log@ + reset_delays(
                old(self).rst,
            ));
        }
    }

    /// Brings the panel up: hard reset, backlight full on if wired, the
    /// vendor register configuration replayed verbatim, sleep-out, a 60 ms
    /// settling pause, display-on.
    #[verifier::rlimit(60)]
    pub fn init(&mut self, delay_source: &mut DelaySource) -> (r: Result<(), DisplayError>)
        requires
            !opt_broken(old(self).rst),
            !opt_broken(old(self).bl),
        ensures
            final(self).size_x == old(self).size_x,
            final(self).size_y == old(self).size_y,
            final(self).di.broken() == old(self).di.broken(),
            final(self).rst is Some <==> old(self).rst is Some,
            final(self).bl is Some <==> old(self).bl is Some,
            opt_broken(final(self).rst) == opt_broken(old(self).rst),
            opt_broken(final(self).bl) == opt_broken(old(self).bl),
            opt_driven(final(self).rst) == opt_driven(old(self).rst) + reset_transitions(
                old(self).rst,
            ),
            opt_driven(final(self).bl) == opt_driven(old(self).bl) + (if old(self).bl is Some {
                seq![Level::High]
            } else {
                Seq::<Level>::empty()
            }),
            !old(self).bus_ok() ==> (r matches Err(DisplayError::DCError)) && final(self).bus_unchanged(*old(self)) && final(delay_source).log@ == old(delay_source).log@
                + reset_delays(old(self).rst),
            old(self).bus_ok() ==> r is Ok && final(self).emitted(
                *old(self),
                init_words(),
                Level::Low,
            ) && final(delay_source).log@ == old(delay_source).log@ + reset_delays(old(self).rst)
                + seq![60u32],
    {
        self.hard_reset(delay_source);

        match &mut self.bl {
            Some(bl) => {
                bl.set_high().unwrap();
            },
            None => {},
        }

        self.write_cmd_data(0xf7, vec![0xa9u8, 0x51, 0x2c, 0x82])?;
        self.write_cmd_data(0xc0, vec![0x11u8, 0x09])?;
        self.write_cmd_data(0xc1, vec![0x41u8])?;
        self.write_cmd_data(0xc5, vec![0x00u8, 0x28, 0x80])?;
        self.write_cmd_data(0xb1, vec![0xb0u8, 0x11])?;
        self.write_cmd_data(0xb4, vec![0x02u8])?;
        self.write_cmd_data(0xb6, vec![0x02u8, 0x22])?;
        self.write_cmd_data(0xb7, vec![0xc6u8])?;
        self.write_cmd_data(0xbe, vec![0x00u8, 0x04])?;
        self.write_cmd_data(0xe9, vec![0x00u8])?;
        // Memory access control: BGR order with row and column order flipped.
        self.write_cmd_data(0x36, vec![0x68u8])?;
        // Pixel format: 16 bits per pixel.
        self.write_cmd_data(0x3a, vec![0x55u8])?;
        self.write_cmd_data(
            0xe0,
            vec![
                0x00u8,
                0x07,
                0x10,
                0x09,
                0x17,
                0x0b,
                0x41,
                0x89,
                0x4b,
                0x0a,
                0x0c,
                0x0e,
                0x18,
                0x1b,
                0x0f,
            ],
        )?;
        self.write_cmd_data(
            0xe1,
            vec![
                0x00u8,
                0x17,
                0x1a,
                0x04,
                0x0e,
                0x06,
                0x2f,
                0x45,
                0x43,
                0x02,
                0x0a,
                0x09,
                0x32,
                0x36,
                0x0f,
            ],
        )?;

        self.write_command(0x11)?;
        delay_source.delay_ms(60);
        self.write_command(0x29)?;

        proof {
            assert(self.di.words() =~= old(self).di.words() + init_words());
        }
        Ok(())
    }

    /// Programs the address window: the rectangle of panel memory the next
    /// pixel stream will fill. Does not issue the memory-write command;
    /// callers choose when the pixel stream starts.
    pub fn set_addr_win(&mut self, xs: u16, ys: u16, xe: u16, ye: u16) -> (r: Result<
        (),
        DisplayError,
    >)
        ensures
            final(self).frame(*old(self)),
            !old(self).bus_ok() ==> (r matches Err(DisplayError::DCError)) && final(self).bus_unchanged(*old(self)),
            old(self).bus_ok() ==> r is Ok && final(self).emitted(
                *old(self),
                addr_window_words(xs, ys, xe, ye),
                Level::High,
            ),
    {
        proof {
            lemma_be_byte_casts(xs);
            lemma_be_byte_casts(ys);
            lemma_be_byte_casts(xe);
            lemma_be_byte_casts(ye);
        }
        self.write_command(0x2a)?;
        self.write_data((xs >> 8) as u8)?;
        self.write_data((xs & 0xff) as u8)?;
        self.write_data((xe >> 8) as u8)?;
        self.write_data((xe & 0xff) as u8)?;

        self.write_command(0x2b)?;
        self.write_data((ys >> 8) as u8)?;
        self.write_data((ys & 0xff) as u8)?;
        self.write_data((ye >> 8) as u8)?;
        self.write_data((ye & 0xff) as u8)?;

        proof {
            assert(self.di.words() =~= old(self).di.words() + addr_window_words(
                xs,
                ys,
                xe,
                ye,
            ));
        }
        Ok(())
    }

    /// Streams a packed pixel sequence as data words, in input order.
    pub fn write_pixels(&mut self, colors: &[Rgb565]) -> (r: Result<(), DisplayError>)
        ensures
            final(self).frame(*old(self)),
            !old(self).bus_ok() ==> (r matches Err(DisplayError::DCError)) && final(self).bus_unchanged(*old(self)),
            old(self).bus_ok() ==> r is Ok && final(self).emitted(
                *old(self),
                pixel_words(colors@),
                Level::High,
            ),
    {
        let mut words: Vec<u16> = Vec::new();
        let mut i: usize = 0;
        while i < colors.len()
            invariant
                i <= colors.len(),
                words@ == colors@.take(i as int).map(|j: int, c: Rgb565| c.packed()),
            decreases colors.len() - i,
        {
            words.push(colors[i].into_storage());
            proof {
                let f = |j: int, c: Rgb565| c.packed();
                assert(colors@.take(i + 1).map(f) =~= colors@.take(i as int).map(f).push(
                    colors@[i as int].packed(),
                ));
            }
            i = i + 1;
        }
        proof {
            assert(colors@.take(colors@.len() as int) =~= colors@);
        }
        let r = self.di.send_data(DataFormat::U16LE(words.as_slice()));
        proof {
            assert(tag_words(Level::High, colors@.map(|j: int, c: Rgb565| c.packed()))
                =~= pixel_words(colors@));
        }
        r
    }

    /// Fills the whole panel with one colour: programs the full-canvas
    /// address window, issues the memory-write command, then streams
    /// width*height copies of the packed colour, one word per pixel. A
    /// dedicated fast path that does not go through the generic fill.
    pub fn clear(&mut self, color: Rgb565) -> (r: Result<(), DisplayError>)
        requires
            old(self).wf(),
        ensures
            final(self).frame(*old(self)),
            !old(self).bus_ok() ==> (r matches Err(DisplayError::DCError)) && final(self).bus_unchanged(*old(self)),
            old(self).bus_ok() ==> r is Ok && final(self).emitted(
                *old(self),
                addr_window_words(
                    0,
                    0,
                    (old(self).size_x - 1) as u16,
                    (old(self).size_y - 1) as u16,
                ) + seq![BusWord::Cmd(0x2c)] + repeat_words(
                    color.packed(),
                    (old(self).size_x * old(self).size_y) as nat,
                ),
                Level::High,
            ),
    {
        let word = color.into_storage();
        proof {
            let sx = self.size_x;
            let sy = self.size_y;
            assert(1 <= (sx as int) * (sy as int) <= 0xffff * 0xffff) by (nonlinear_arith)
                requires
                    1 <= sx <= 0xffff,
                    1 <= sy <= 0xffff,
            ;
        }
        let size: u64 = (self.size_x as u64) * (self.size_y as u64);
        self.set_addr_win(0, 0, self.size_x - 1, self.size_y - 1)?;
        self.write_command(0x2c)?;
        self.write_repeated16(word, size)?;
        proof {
            assert(self.di.words() =~= old(self).di.words() + (addr_window_words(
                0,
                0,
                (old(self).size_x - 1) as u16,
                (old(self).size_y - 1) as u16,
            ) + seq![BusWord::Cmd(0x2c)] + repeat_words(
                color.packed(),
                (old(self).size_x * old(self).size_y) as nat,
            )));
        }
        Ok(())
    }
}

} // verus!
