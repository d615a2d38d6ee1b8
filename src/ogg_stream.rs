//! The Ogg page layer, provided by the ogg crate's packet writer.

use vstd::prelude::*;
use ogg::writing::{PacketWriteEndInfo, PacketWriter};

verus! {

/// An Ogg packet writer over a growing byte vector, known by the packets
/// written into it.
#[verifier::external_body]
pub struct OggWriter {
    inner: PacketWriter<'static, Vec<u8>>,
}

#[verifier::external_type_specification]
#[verifier::external_body]
pub struct ExIoError(std::io::Error);

/// How a packet closes what it is written into.
#[derive(Debug, Clone, Copy, PartialEq, Eq, Structural)]
pub enum PacketEnd {
    /// Nothing ends with the packet.
    Normal,
    /// The packet ends its page.
    EndPage,
    /// The packet ends the logical stream.
    EndStream,
}

/// One packet handed to the page layer: its bytes, the stream serial, how it
/// ends, and its granule position.
pub type PacketSpec = (Seq<u8>, u32, PacketEnd, u64);

/// The packets written into `w` so far, in order.
pub uninterp spec fn packets_written(w: OggWriter) -> Seq<PacketSpec>;

/// The bytes of the Ogg pages that writing `packets`, in this order, completes;
/// packets still pending on an unfinished page are not among them.
pub uninterp spec fn ogg_pages(packets: Seq<PacketSpec>) -> Seq<u8>;

/// Relies on ogg's `PacketWriter::new`: a writer over an empty byte vector,
/// holding no packet yet.
#[verifier::external_body]
pub(crate) fn new_writer() -> (r: OggWriter)
    ensures
        packets_written(r) == Seq::<PacketSpec>::empty(),
{
    OggWriter { inner: PacketWriter::new(Vec::new()) }
}

/// Relies on ogg's `PacketWriter::write_packet`: the packet is appended to
/// those written, with its serial, end and granule position. Writing into a
/// byte vector never fails.
#[verifier::external_body]
pub(crate) fn write_packet(
    w: &mut OggWriter,
    data: Vec<u8>,
    serial: u32,
    end: PacketEnd,
    granule: u64,
) -> (r: Result<(), std::io::Error>)
    ensures
        r is Ok,
        packets_written(*final(w)) == packets_written(*old(w)).push(
            (data@, serial, end, granule),
        ),
{
    let info = match end {
        PacketEnd::Normal => PacketWriteEndInfo::NormalPacket,
        PacketEnd::EndPage => PacketWriteEndInfo::EndPage,
        PacketEnd::EndStream => PacketWriteEndInfo::EndStream,
    };
    w.inner.write_packet(data, serial, info, granule)
}

/// Relies on ogg's `PacketWriter::into_inner`: the byte vector, holding the
/// pages completed so far, which the packets written determine.
#[verifier::external_body]
pub(crate) fn into_bytes(w: OggWriter) -> (r: Vec<u8>)
    ensures
        r@ == ogg_pages(packets_written(w)),
{
    w.inner.into_inner()
}

} // verus!
