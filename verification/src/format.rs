//! The carrier in which a driver hands data to a display interface.

use crate::byte_order::stream;
use vstd::endian::{endianness, Endian};
use vstd::prelude::*;
use vstd::std_specs::convert::FromSpecImpl;

verus! {

/// Which kind of carrier a [`DataFormat`] is, without the data it borrows.
#[derive(Clone, Copy, Debug, PartialEq, Eq, Structural)]
#[non_exhaustive]
pub enum FormatKind {
    /// Bytes.
    U8,
    /// 16-bit words in the byte order of the machine.
    U16,
    /// 16-bit words that go out most significant byte first.
    U16BE,
    /// 16-bit words that go out least significant byte first.
    U16LE,
}

/// Data on its way to a display: a borrowed buffer together with the width
/// and byte order in which its elements are meant to go out.
///
/// A carrier never owns its data. The two kinds with an explicit byte order
/// borrow their buffer mutably, so that an interface can bring the words into
/// wire order where they lie instead of copying them; after such a call the
/// buffer may hold the converted words. Further kinds may be added later,
/// which is why a `match` outside this crate needs a fallback arm.
#[non_exhaustive]
pub enum DataFormat<'a> {
    /// Bytes.
    U8(&'a [u8]),
    /// 16-bit words, sent as they lie in memory. Which byte goes out first
    /// then depends on the machine, so prefer one of the explicit orders.
    U16(&'a [u16]),
    /// 16-bit words, each sent most significant byte first.
    U16BE(&'a mut [u16]),
    /// 16-bit words, each sent least significant byte first.
    U16LE(&'a mut [u16]),
}

impl<'a> DataFormat<'a> {
    /// Which kind of carrier this is.
    pub open spec fn spec_kind(&self) -> FormatKind {
        match self {
            DataFormat::U8(_) => FormatKind::U8,
            DataFormat::U16(_) => FormatKind::U16,
            DataFormat::U16BE(_) => FormatKind::U16BE,
            DataFormat::U16LE(_) => FormatKind::U16LE,
        }
    }

    /// The bytes that transmitting this carrier puts on the bus, first to
    /// last.
    pub open spec fn wire_bytes(&self) -> Seq<u8> {
        match self {
            DataFormat::U8(bytes) => bytes@,
            DataFormat::U16(words) => stream(endianness(), words@),
            DataFormat::U16BE(words) => stream(Endian::Big, words@),
            DataFormat::U16LE(words) => stream(Endian::Little, words@),
        }
    }

    /// Which kind of carrier this is.
    #[verifier::when_used_as_spec(spec_kind)]
    pub fn kind(&self) -> (kind: FormatKind)
        ensures
            kind == self.spec_kind(),
    {
        match self {
            DataFormat::U8(_) => FormatKind::U8,
            DataFormat::U16(_) => FormatKind::U16,
            DataFormat::U16BE(_) => FormatKind::U16BE,
            DataFormat::U16LE(_) => FormatKind::U16LE,
        }
    }
}

impl<'a> From<&'a [u8]> for DataFormat<'a> {
    /// A byte slice becomes a byte carrier that borrows that very slice.
    fn from(arr_ref: &'a [u8]) -> (carrier: Self)
        ensures
            carrier == DataFormat::U8(arr_ref),
    {
        Self::U8(arr_ref)
    }
}

impl<'a> FromSpecImpl<&'a [u8]> for DataFormat<'a> {
    open spec fn obeys_from_spec() -> bool {
        true
    }

    open spec fn from_spec(arr_ref: &'a [u8]) -> Self {
        DataFormat::U8(arr_ref)
    }
}

impl<'a> From<&'a [u16]> for DataFormat<'a> {
    /// A slice of words becomes a carrier in machine byte order that borrows
    /// that very slice. A carrier with an explicit byte order is never made
    /// this way: the choice of order is the caller's to spell out.
    fn from(arr_ref: &'a [u16]) -> (carrier: Self)
        ensures
            carrier == DataFormat::U16(arr_ref),
    {
        Self::U16(arr_ref)
    }
}

impl<'a> FromSpecImpl<&'a [u16]> for DataFormat<'a> {
    open spec fn obeys_from_spec() -> bool {
        true
    }

    open spec fn from_spec(arr_ref: &'a [u16]) -> Self {
        DataFormat::U16(arr_ref)
    }
}

} // verus!
