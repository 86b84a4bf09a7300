//! An interface without a bus behind it.
//!
//! A [`Recorder`] keeps a trace of what an interface with a chip-select line,
//! a data/command line and a byte-wide bus would have done to its hardware,
//! and it can be told to fail where such hardware fails. A driver can be
//! tried out against it without a display, and it shows that what
//! [`WriteOnlyDataCommand`] asks of an interface can be met.

use crate::byte_order::{
    lemma_conversion_keeps_or_swaps, lemma_converted_words_in_memory, memory_bytes, stream,
    swapped, words_in,
};
use crate::error::DisplayError;
use crate::format::{DataFormat, FormatKind};
use crate::interface::{Mode, Transfer, WriteOnlyDataCommand};
use vstd::endian::{endianness, Endian};
use vstd::prelude::*;

verus! {

/// A failure that a [`Recorder`] can be told to run into.
#[derive(Clone, Copy, Debug, PartialEq, Eq, Structural)]
pub enum Fault {
    /// Chip-select cannot be asserted.
    ChipSelect,
    /// The data/command line cannot be driven.
    DataCommand,
    /// The write to the bus fails.
    BusWrite,
}

impl Fault {
    /// The error that a call reports when it runs into this fault.
    pub open spec fn spec_error(self) -> DisplayError {
        match self {
            Fault::ChipSelect => DisplayError::CSError,
            Fault::DataCommand => DisplayError::DCError,
            Fault::BusWrite => DisplayError::BusWriteError,
        }
    }

    /// The error that a call reports when it runs into this fault.
    #[verifier::when_used_as_spec(spec_error)]
    pub fn error(self) -> (error: DisplayError)
        ensures
            error == self.spec_error(),
    {
        match self {
            Fault::ChipSelect => DisplayError::CSError,
            Fault::DataCommand => DisplayError::DCError,
            Fault::BusWrite => DisplayError::BusWriteError,
        }
    }
}

/// One thing that happened on the lines of the bus.
#[derive(Debug, PartialEq, Eq)]
pub enum BusEvent {
    /// Chip-select was asserted.
    Select,
    /// The data/command line was driven to the level of this mode.
    SetMode(Mode),
    /// These bytes were written, first to last.
    Write(Vec<u8>),
    /// Chip-select was released and the bus is at rest again.
    Release,
}

/// A [`BusEvent`] as a mathematical value.
pub enum Signal {
    /// Chip-select was asserted.
    Select,
    /// The data/command line was driven to the level of this mode.
    SetMode(Mode),
    /// These bytes were written, first to last.
    Write(Seq<u8>),
    /// Chip-select was released and the bus is at rest again.
    Release,
}

impl View for BusEvent {
    type V = Signal;

    open spec fn view(&self) -> Signal {
        match self {
            BusEvent::Select => Signal::Select,
            BusEvent::SetMode(mode) => Signal::SetMode(*mode),
            BusEvent::Write(bytes) => Signal::Write(bytes@),
            BusEvent::Release => Signal::Release,
        }
    }
}

/// A display interface that stands in for a bus.
///
/// It does to its trace what an interface with a chip-select line, a
/// data/command line and a byte-wide bus does to its hardware, and to the
/// caller's buffers what such an interface does to them: words with an
/// explicit byte order are converted where they lie and then written as they
/// lie in memory.
#[derive(Debug)]
pub struct Recorder {
    /// The formats that this interface transmits.
    pub formats: Vec<FormatKind>,
    /// The fault that every call runs into, if there is one.
    pub fault: Option<Fault>,
    /// What has happened on the lines of the bus, oldest first.
    pub trace: Vec<BusEvent>,
}

impl View for Recorder {
    type V = Seq<Signal>;

    /// The trace, each event as a mathematical value.
    open spec fn view(&self) -> Seq<Signal> {
        Seq::new(self.trace@.len(), |i: int| self.trace@[i]@)
    }
}

/// The result of a call, given whether the format is transmitted and the
/// fault, if there is one: a format that is not transmitted is refused
/// before any fault can strike, a fault gives its own error, and nothing
/// else goes wrong.
pub open spec fn outcome(supported: bool, fault: Option<Fault>) -> Result<(), DisplayError> {
    if !supported {
        Err(DisplayError::DataFormatNotImplemented)
    } else {
        match fault {
            Some(fault) => Err(fault.error()),
            None => Ok(()),
        }
    }
}

/// What a call in `mode` that is to transmit `bytes` does to the lines of the
/// bus, first to last.
///
/// A format that is not transmitted leaves the lines alone. Otherwise
/// chip-select is asserted, the mode is set and stays while the bytes are
/// written, and chip-select is released. A fault ends the call where it
/// strikes: nothing later happens but the release of a chip-select that was
/// asserted.
pub open spec fn footprint(
    supported: bool,
    fault: Option<Fault>,
    mode: Mode,
    bytes: Seq<u8>,
) -> Seq<Signal> {
    if !supported {
        seq![]
    } else {
        match fault {
            Some(Fault::ChipSelect) => seq![],
            Some(Fault::DataCommand) => seq![Signal::Select, Signal::Release],
            Some(Fault::BusWrite) => seq![Signal::Select, Signal::SetMode(mode), Signal::Release],
            None => seq![
                Signal::Select,
                Signal::SetMode(mode),
                Signal::Write(bytes),
                Signal::Release,
            ],
        }
    }
}

/// Whether a call gets as far as the write, which is where a buffer with an
/// explicit byte order is brought into that order.
pub open spec fn reaches_write(supported: bool, fault: Option<Fault>) -> bool {
    supported && (fault is None || fault == Some(Fault::BusWrite))
}

/// The buffer of a carrier with an explicit byte order after a call, given
/// the buffer before it.
pub open spec fn buffer_after(
    order: Endian,
    supported: bool,
    fault: Option<Fault>,
    before: Seq<u16>,
) -> Seq<u16> {
    if reaches_write(supported, fault) {
        words_in(order, before)
    } else {
        before
    }
}

/// The mode that the data/command line has at the end of `trace`, if it was
/// driven since chip-select was last asserted.
pub open spec fn mode_in_force(trace: Seq<Signal>) -> Option<Mode>
    decreases trace.len(),
{
    if trace.len() == 0 {
        None
    } else {
        match trace.last() {
            Signal::SetMode(mode) => Some(mode),
            Signal::Write(_) => mode_in_force(trace.drop_last()),
            Signal::Select | Signal::Release => None,
        }
    }
}

/// The transfers that a trace shows: one for each write, in the mode that
/// was in force when it was made. A write with no mode in force is none.
pub open spec fn transfers(trace: Seq<Signal>) -> Seq<Transfer>
    decreases trace.len(),
{
    if trace.len() == 0 {
        Seq::empty()
    } else {
        let earlier = transfers(trace.drop_last());
        match (trace.last(), mode_in_force(trace.drop_last())) {
            (Signal::Write(bytes), Some(mode)) => earlier.push(Transfer { mode, bytes }),
            _ => earlier,
        }
    }
}

/// Whether a trace ends with the bus at rest: nothing has happened yet, or
/// the last thing that happened was the release of chip-select.
pub open spec fn at_rest(trace: Seq<Signal>) -> bool {
    trace.len() == 0 || trace.last() == Signal::Release
}

/// A trace that is extended by the footprint of a call shows one more
/// transfer, of the bytes of the call in the mode of the call, if the call
/// succeeds, and the same transfers as before if it fails.
pub proof fn lemma_transfers_after_call(
    trace: Seq<Signal>,
    supported: bool,
    fault: Option<Fault>,
    mode: Mode,
    bytes: Seq<u8>,
)
    ensures
        outcome(supported, fault) is Ok ==> transfers(
            trace + footprint(supported, fault, mode, bytes),
        ) == transfers(trace).push((Transfer { mode, bytes })),
        outcome(supported, fault) is Err ==> transfers(
            trace + footprint(supported, fault, mode, bytes),
        ) == transfers(trace),
{
    let after = trace + footprint(supported, fault, mode, bytes);
    let t1 = trace.push(Signal::Select);
    assert(t1.drop_last() =~= trace);
    assert(transfers(t1) == transfers(trace));
    if !supported {
        assert(after =~= trace);
    } else {
        match fault {
            Some(Fault::ChipSelect) => {
                assert(after =~= trace);
            },
            Some(Fault::DataCommand) => {
                let t2 = t1.push(Signal::Release);
                assert(t2.drop_last() =~= t1);
                assert(transfers(t2) == transfers(t1));
                assert(after =~= t2);
            },
            Some(Fault::BusWrite) => {
                let t2 = t1.push(Signal::SetMode(mode));
                let t3 = t2.push(Signal::Release);
                assert(t2.drop_last() =~= t1);
                assert(t3.drop_last() =~= t2);
                assert(transfers(t2) == transfers(t1));
                assert(transfers(t3) == transfers(t2));
                assert(after =~= t3);
            },
            None => {
                let t2 = t1.push(Signal::SetMode(mode));
                let t3 = t2.push(Signal::Write(bytes));
                let t4 = t3.push(Signal::Release);
                assert(t2.drop_last() =~= t1);
                assert(t3.drop_last() =~= t2);
                assert(t4.drop_last() =~= t3);
                assert(transfers(t2) == transfers(t1));
                assert(mode_in_force(t2) == Some(mode));
                assert(transfers(t3) == transfers(t2).push(Transfer { mode, bytes }));
                assert(transfers(t4) == transfers(t3));
                assert(after =~= t4);
            },
        }
    }
}

/// A call that finds the bus at rest leaves it at rest, whether it succeeds
/// or fails.
pub proof fn lemma_call_leaves_bus_at_rest(
    trace: Seq<Signal>,
    supported: bool,
    fault: Option<Fault>,
    mode: Mode,
    bytes: Seq<u8>,
)
    requires
        at_rest(trace),
    ensures
        at_rest(trace + footprint(supported, fault, mode, bytes)),
{
    let added = footprint(supported, fault, mode, bytes);
    if added.len() == 0 {
        assert(trace + added =~= trace);
    } else {
        assert((trace + added).last() == added.last());
    }
}

/// After a call that got as far as the write, a buffer with an explicit byte
/// order lies in memory as its bytes went out. On a machine of the other
/// byte order that is every word with its bytes exchanged; on a machine of
/// the same order the buffer is as it was.
pub proof fn lemma_buffer_shows_what_went_out(
    order: Endian,
    supported: bool,
    fault: Option<Fault>,
    before: Seq<u16>,
)
    requires
        reaches_write(supported, fault),
    ensures
        stream(endianness(), buffer_after(order, supported, fault, before)) == stream(
            order,
            before,
        ),
        order != endianness() ==> buffer_after(order, supported, fault, before) == swapped(
            before,
        ),
        order == endianness() ==> buffer_after(order, supported, fault, before) == before,
{
    lemma_converted_words_in_memory(order, before);
    lemma_conversion_keeps_or_swaps(order, before);
}

/// A list of the four formats holds every format.
pub proof fn lemma_all_formats(formats: Seq<FormatKind>)
    requires
        formats == seq![FormatKind::U8, FormatKind::U16, FormatKind::U16BE, FormatKind::U16LE],
    ensures
        forall|kind: FormatKind| formats.contains(kind),
{
    assert forall|kind: FormatKind| formats.contains(kind) by {
        let at: int = match kind {
            FormatKind::U8 => 0,
            FormatKind::U16 => 1,
            FormatKind::U16BE => 2,
            FormatKind::U16LE => 3,
        };
        assert(formats[at] == kind);
    }
}

/// Brings every word of `words` into the given byte order, where it lies.
fn convert(order: Endian, words: &mut [u16])
    ensures
        final(words)@ == words_in(order, old(words)@),
{
    let ghost before = words@;
    let mut i: usize = 0;
    while i < words.len()
        invariant
            i <= words@.len(),
            words@.len() == before.len(),
            forall|j: int| 0 <= j < i ==> words@[j] == words_in(order, before)[j],
            forall|j: int| i <= j < before.len() ==> words@[j] == before[j],
        decreases words@.len() - i,
    {
        let word: u16 = words[i];
        words[i] = match order {
            Endian::Big => word.to_be(),
            Endian::Little => word.to_le(),
        };
        i += 1;
    }
    assert(words@ =~= words_in(order, before));
}

/// Appends the words to `out` as they lie in memory.
fn push_words(out: &mut Vec<u8>, words: &[u16])
    ensures
        final(out)@ == old(out)@ + stream(endianness(), words@),
{
    let ghost start = out@;
    let mut i: usize = 0;
    while i < words.len()
        invariant
            i <= words@.len(),
            out@.len() == start.len() + 2 * i,
            forall|j: int| 0 <= j < start.len() ==> out@[j] == start[j],
            forall|j: int|
                0 <= j < 2 * i ==> out@[start.len() + j] == stream(endianness(), words@)[j],
        decreases words@.len() - i,
    {
        let bytes: [u8; 2] = memory_bytes(words[i]);
        out.push(bytes[0]);
        out.push(bytes[1]);
        i += 1;
    }
    assert(out@ =~= start + stream(endianness(), words@));
}

/// The bytes that go out for `data`. Words with an explicit byte order are
/// converted in the caller's buffer first.
fn encode(data: DataFormat<'_>) -> (bytes: Vec<u8>)
    ensures
        bytes@ == data.wire_bytes(),
        data matches DataFormat::U16BE(words) ==> final(words)@ == words_in(Endian::Big, words@),
        data matches DataFormat::U16LE(words) ==> final(words)@ == words_in(
            Endian::Little,
            words@,
        ),
{
    let mut bytes: Vec<u8> = Vec::new();
    match data {
        DataFormat::U8(source) => {
            let mut i: usize = 0;
            while i < source.len()
                invariant
                    i <= source@.len(),
                    bytes@ == source@.subrange(0, i as int),
                decreases source@.len() - i,
            {
                bytes.push(source[i]);
                assert(source@.subrange(0, i + 1) =~= source@.subrange(0, i as int).push(
                    source@[i as int],
                ));
                i += 1;
            }
            assert(source@.subrange(0, i as int) =~= source@);
        },
        DataFormat::U16(words) => {
            push_words(&mut bytes, words);
        },
        DataFormat::U16BE(words) => {
            proof {
                lemma_converted_words_in_memory(Endian::Big, words@);
            }
            convert(Endian::Big, words);
            push_words(&mut bytes, words);
        },
        DataFormat::U16LE(words) => {
            proof {
                lemma_converted_words_in_memory(Endian::Little, words@);
            }
            convert(Endian::Little, words);
            push_words(&mut bytes, words);
        },
    }
    bytes
}

impl Recorder {
    /// An interface that transmits every format, meets no fault and has
    /// recorded nothing yet.
    pub fn new() -> (recorder: Self)
        ensures
            recorder.formats@ == seq![
                FormatKind::U8,
                FormatKind::U16,
                FormatKind::U16BE,
                FormatKind::U16LE,
            ],
            recorder.fault is None,
            recorder.trace@.len() == 0,
            forall|kind: FormatKind| #[trigger] recorder.supports(kind),
    {
        let formats: Vec<FormatKind> = vec![
            FormatKind::U8,
            FormatKind::U16,
            FormatKind::U16BE,
            FormatKind::U16LE,
        ];
        let recorder = Recorder { formats, fault: None, trace: Vec::new() };
        proof {
            lemma_all_formats(recorder.formats@);
        }
        recorder
    }

    /// Whether `kind` is among the formats that this interface transmits.
    fn transmits(&self, kind: FormatKind) -> (found: bool)
        ensures
            found == self.supports(kind),
    {
        let mut i: usize = 0;
        while i < self.formats.len()
            invariant
                i <= self.formats@.len(),
                forall|j: int| 0 <= j < i ==> self.formats@[j] != kind,
            decreases self.formats@.len() - i,
        {
            if self.formats[i] == kind {
                return true;
            }
            i += 1;
        }
        false
    }

    /// Adds `event` to the end of the trace.
    fn record(&mut self, event: BusEvent)
        ensures
            final(self)@ == old(self)@.push(event@),
            final(self).formats == old(self).formats,
            final(self).fault == old(self).fault,
    {
        self.trace.push(event);
        assert(self@ =~= old(self)@.push(event@));
    }

    /// One call of the interface in the given mode.
    fn transfer(&mut self, mode: Mode, data: DataFormat<'_>) -> (result: Result<(), DisplayError>)
        ensures
            final(self).formats == old(self).formats,
            final(self).fault == old(self).fault,
            result == outcome(old(self).supports(data.kind()), old(self).fault),
            final(self)@ == old(self)@ + footprint(
                old(self).supports(data.kind()),
                old(self).fault,
                mode,
                data.wire_bytes(),
            ),
            data matches DataFormat::U16BE(words) ==> final(words)@ == buffer_after(
                Endian::Big,
                old(self).supports(FormatKind::U16BE),
                old(self).fault,
                words@,
            ),
            data matches DataFormat::U16LE(words) ==> final(words)@ == buffer_after(
                Endian::Little,
                old(self).supports(FormatKind::U16LE),
                old(self).fault,
                words@,
            ),
    {
        let ghost before = self@;
        let ghost wire = data.wire_bytes();
        if !self.transmits(data.kind()) {
            assert(before + footprint(false, self.fault, mode, wire) =~= before);
            return Err(DisplayError::DataFormatNotImplemented);
        }
        if let Some(Fault::ChipSelect) = self.fault {
            assert(before + footprint(true, self.fault, mode, wire) =~= before);
            return Err(DisplayError::CSError);
        }
        self.record(BusEvent::Select);
        if let Some(Fault::DataCommand) = self.fault {
            self.record(BusEvent::Release);
            assert(self@ =~= before + footprint(true, self.fault, mode, wire));
            return Err(DisplayError::DCError);
        }
        self.record(BusEvent::SetMode(mode));
        let bytes = encode(data);
        if let Some(Fault::BusWrite) = self.fault {
            self.record(BusEvent::Release);
            assert(self@ =~= before + footprint(true, self.fault, mode, wire));
            return Err(DisplayError::BusWriteError);
        }
        self.record(BusEvent::Write(bytes));
        self.record(BusEvent::Release);
        assert(self@ =~= before + footprint(true, self.fault, mode, wire));
        Ok(())
    }
}

impl WriteOnlyDataCommand for Recorder {
    /// A format is transmitted if it is listed in `formats`.
    open spec fn supports(&self, kind: FormatKind) -> bool {
        self.formats@.contains(kind)
    }

    /// The transfers that the trace shows.
    open spec fn completed(&self) -> Seq<Transfer> {
        transfers(self@)
    }

    /// Records what sending `cmd` as commands does to the bus, and does to
    /// the buffer of `cmd` what sending it does.
    fn send_commands(&mut self, cmd: DataFormat<'_>) -> (result: Result<(), DisplayError>)
        ensures
            final(self).formats == old(self).formats,
            final(self).fault == old(self).fault,
            result == outcome(old(self).supports(cmd.kind()), old(self).fault),
            final(self)@ == old(self)@ + footprint(
                old(self).supports(cmd.kind()),
                old(self).fault,
                Mode::Command,
                cmd.wire_bytes(),
            ),
            cmd matches DataFormat::U16BE(words) ==> final(words)@ == buffer_after(
                Endian::Big,
                old(self).supports(FormatKind::U16BE),
                old(self).fault,
                words@,
            ),
            cmd matches DataFormat::U16LE(words) ==> final(words)@ == buffer_after(
                Endian::Little,
                old(self).supports(FormatKind::U16LE),
                old(self).fault,
                words@,
            ),
    {
        proof {
            lemma_transfers_after_call(
                self@,
                self.supports(cmd.kind()),
                self.fault,
                Mode::Command,
                cmd.wire_bytes(),
            );
        }
        self.transfer(Mode::Command, cmd)
    }

    /// Records what sending `buf` as pixel data does to the bus, and does to
    /// the buffer of `buf` what sending it does.
    fn send_data(&mut self, buf: DataFormat<'_>) -> (result: Result<(), DisplayError>)
        ensures
            final(self).formats == old(self).formats,
            final(self).fault == old(self).fault,
            result == outcome(old(self).supports(buf.kind()), old(self).fault),
            final(self)@ == old(self)@ + footprint(
                old(self).supports(buf.kind()),
                old(self).fault,
                Mode::Data,
                buf.wire_bytes(),
            ),
            buf matches DataFormat::U16BE(words) ==> final(words)@ == buffer_after(
                Endian::Big,
                old(self).supports(FormatKind::U16BE),
                old(self).fault,
                words@,
            ),
            buf matches DataFormat::U16LE(words) ==> final(words)@ == buffer_after(
                Endian::Little,
                old(self).supports(FormatKind::U16LE),
                old(self).fault,
                words@,
            ),
    {
        proof {
            lemma_transfers_after_call(
                self@,
                self.supports(buf.kind()),
                self.fault,
                Mode::Data,
                buf.wire_bytes(),
            );
        }
        self.transfer(Mode::Data, buf)
    }
}

} // verus!
