//! What a display driver may rely on from the bus underneath it.

use crate::byte_order::to_order;
use crate::error::DisplayError;
use crate::format::{DataFormat, FormatKind};
use vstd::endian::Endian;
use vstd::prelude::*;

verus! {

/// What the display is to take a transfer for.
#[derive(Clone, Copy, Debug, PartialEq, Eq, Structural)]
pub enum Mode {
    /// The bytes are commands.
    Command,
    /// The bytes are pixel data.
    Data,
}

/// One transfer that went through: the mode the display was in, and the
/// bytes it was given in that mode, first to last.
pub struct Transfer {
    /// What the display took the bytes for.
    pub mode: Mode,
    /// The bytes, in the order in which they went out.
    pub bytes: Seq<u8>,
}

/// What one call of an interface owes its caller, given whether the
/// interface transmits the format of the carrier (`supported`), the transfers
/// completed `before` and `after` the call, the `mode` of the call, the
/// `bytes` the carrier stood for, and the `result` of the call.
///
/// - A format that the interface does not transmit is answered with
///   [`DisplayError::DataFormatNotImplemented`], and no other call is.
/// - A call that succeeds has completed one more transfer, of exactly `bytes`
///   in `mode`; a call that fails has completed none.
pub open spec fn honours(
    supported: bool,
    before: Seq<Transfer>,
    after: Seq<Transfer>,
    mode: Mode,
    bytes: Seq<u8>,
    result: Result<(), DisplayError>,
) -> bool {
    &&& result == Err::<(), DisplayError>(DisplayError::DataFormatNotImplemented) <==> !supported
    &&& result is Ok ==> after == before.push(Transfer { mode, bytes })
    &&& result is Err ==> after == before
}

/// What a call may have done to a buffer that it borrowed mutably: each word
/// is either as it was or converted to the byte order of the carrier, and a
/// call that does not transmit the format at all has left every word alone.
pub open spec fn kept_or_converted(
    order: Endian,
    supported: bool,
    before: Seq<u16>,
    after: Seq<u16>,
) -> bool {
    &&& after.len() == before.len()
    &&& forall|i: int|
        0 <= i < before.len() ==> #[trigger] after[i] == before[i] || (supported && after[i]
            == to_order(order, before[i]))
}

/// A write-only bus to a display that tells commands from data.
///
/// Both operations take the interface exclusively, so no two transfers on one
/// bus can interleave. Each call stands for itself: it puts the bus into the
/// mode it needs, transfers, and leaves the bus at rest, whether it succeeds
/// or fails. Nothing is retried; a failure is returned to the caller.
///
/// Which formats an interface transmits does not change from call to call,
/// so a driver that was refused one format can settle on another for good.
pub trait WriteOnlyDataCommand {
    /// Whether this interface transmits carriers of the given kind.
    spec fn supports(&self, kind: FormatKind) -> bool;

    /// The transfers that went through on this interface, oldest first.
    spec fn completed(&self) -> Seq<Transfer>;

    /// Sends `cmd` to the display as commands.
    fn send_commands(&mut self, cmd: DataFormat<'_>) -> (result: Result<(), DisplayError>)
        ensures
            forall|kind: FormatKind| #[trigger]
                final(self).supports(kind) == old(self).supports(kind),
            honours(
                old(self).supports(cmd.kind()),
                old(self).completed(),
                final(self).completed(),
                Mode::Command,
                cmd.wire_bytes(),
                result,
            ),
            cmd matches DataFormat::U16BE(words) ==> kept_or_converted(
                Endian::Big,
                old(self).supports(FormatKind::U16BE),
                words@,
                final(words)@,
            ),
            cmd matches DataFormat::U16LE(words) ==> kept_or_converted(
                Endian::Little,
                old(self).supports(FormatKind::U16LE),
                words@,
                final(words)@,
            ),
    ;

    /// Sends `buf` to the display as pixel data.
    fn send_data(&mut self, buf: DataFormat<'_>) -> (result: Result<(), DisplayError>)
        ensures
            forall|kind: FormatKind| #[trigger]
                final(self).supports(kind) == old(self).supports(kind),
            honours(
                old(self).supports(buf.kind()),
                old(self).completed(),
                final(self).completed(),
                Mode::Data,
                buf.wire_bytes(),
                result,
            ),
            buf matches DataFormat::U16BE(words) ==> kept_or_converted(
                Endian::Big,
                old(self).supports(FormatKind::U16BE),
                words@,
                final(words)@,
            ),
            buf matches DataFormat::U16LE(words) ==> kept_or_converted(
                Endian::Little,
                old(self).supports(FormatKind::U16LE),
                words@,
                final(words)@,
            ),
    ;
}

} // verus!
