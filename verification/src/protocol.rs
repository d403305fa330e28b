//! The low-level protocol types.

use crate::codec::write_all;
use crate::command::MAX_PAYLOAD_SIZE;
use vstd::prelude::*;

verus! {

/// The size of the command header.
pub const COMMAND_HEADER_SIZE: usize = 4;

/// The size of a command frame on the wire.
pub const COMMAND_FRAME_SIZE: usize = 64;

/// The magic byte that opens the second half of every outbound header.
pub const COMMAND_MAGIC: u8 = 0xAA;

/// The header for a command message.
#[derive(Copy, Clone, Debug, PartialEq, Eq, Structural)]
pub struct CommandHeader {
    pub id: u8,
    pub status: u8,
    pub magic: u8,
    pub length: u8,
}

/// A command message: the header and the payload it announces.
#[derive(Clone, Debug)]
pub struct Command {
    pub header: CommandHeader,
    pub payload: Vec<u8>,
}

/// `count` zero bytes.
pub open spec fn zeros(count: nat) -> Seq<u8> {
    Seq::new(count, |i: int| 0u8)
}

/// The wire frame of a message: header, payload, then zeros up to the frame
/// size.
pub open spec fn frame_of(header: CommandHeader, payload: Seq<u8>) -> Seq<u8> {
    header.bytes() + payload + zeros(
        (COMMAND_FRAME_SIZE - COMMAND_HEADER_SIZE - payload.len()) as nat,
    )
}

/// The header of an outbound message with the given identifier and payload
/// length.
pub open spec fn outbound_header(id: u8, length: nat) -> CommandHeader {
    CommandHeader { id, status: 0, magic: COMMAND_MAGIC, length: length as u8 }
}

impl CommandHeader {
    /// The four header bytes in wire order.
    pub open spec fn bytes(self) -> Seq<u8> {
        seq![self.id, self.status, self.magic, self.length]
    }

    pub fn raw_bytes(&self) -> (raw: Vec<u8>)
        ensures
            raw@ == self.bytes(),
    {
        let mut raw: Vec<u8> = Vec::new();
        raw.push(self.id);
        raw.push(self.status);
        raw.push(self.magic);
        raw.push(self.length);
        raw
    }
}

impl Command {
    /// The header bytes followed by the payload.
    pub open spec fn bytes(self) -> Seq<u8> {
        self.header.bytes() + self.payload@
    }

    /// An outbound message as the device expects it: status zero, the magic
    /// byte in place, and a length byte that counts a payload which fits the
    /// frame.
    pub open spec fn well_formed(self) -> bool {
        &&& self.payload@.len() <= MAX_PAYLOAD_SIZE
        &&& self.header.length == self.payload@.len()
        &&& self.header.magic == COMMAND_MAGIC
        &&& self.header.status == 0
    }

    /// Builds the outbound message with the given identifier and payload.
    /// A payload that does not fit a frame gives `None`.
    pub fn new(id: u8, payload: Vec<u8>) -> (command: Option<Command>)
        ensures
            payload@.len() <= MAX_PAYLOAD_SIZE ==> command == Some(
                Command { header: outbound_header(id, payload@.len()), payload },
            ) && command->Some_0.well_formed(),
            payload@.len() > MAX_PAYLOAD_SIZE ==> command is None,
    {
        if payload.len() > MAX_PAYLOAD_SIZE {
            return None;
        }
        let header = CommandHeader {
            id,
            status: 0,
            magic: COMMAND_MAGIC,
            length: payload.len() as u8,
        };
        Some(Command { header, payload })
    }

    pub fn raw_bytes(&self) -> (raw: Vec<u8>)
        ensures
            raw@ == self.bytes(),
    {
        let mut raw_bytes = self.header.raw_bytes();
        write_all(&mut raw_bytes, self.payload.as_slice());
        raw_bytes
    }

    /// The frame that goes on the wire: the raw bytes, zero-padded to the
    /// frame size.
    pub fn frame(&self) -> (frame: [u8; 64])
        requires
            self.payload@.len() <= MAX_PAYLOAD_SIZE,
        ensures
            frame@ == frame_of(self.header, self.payload@),
    {
        let raw = self.raw_bytes();
        let mut frame: [u8; 64] = [0u8; 64];
        let mut i: usize = 0;
        while i < raw.len()
            invariant
                i <= raw@.len() <= COMMAND_FRAME_SIZE,
                forall|k: int| 0 <= k < i ==> frame@[k] == raw@[k],
                forall|k: int| i <= k < COMMAND_FRAME_SIZE ==> frame@[k] == 0u8,
            decreases raw@.len() - i,
        {
            frame[i] = raw[i];
            i = i + 1;
        }
        frame
    }
}

/// The layout of a frame: it is sixty-four bytes long; the first four are
/// the header in the order id, status, magic, length; the payload follows;
/// every byte behind the payload is zero.
pub proof fn lemma_frame_layout(header: CommandHeader, payload: Seq<u8>)
    requires
        payload.len() <= MAX_PAYLOAD_SIZE,
    ensures
        frame_of(header, payload).len() == COMMAND_FRAME_SIZE,
        frame_of(header, payload)[0] == header.id,
        frame_of(header, payload)[1] == header.status,
        frame_of(header, payload)[2] == header.magic,
        frame_of(header, payload)[3] == header.length,
        frame_of(header, payload).subrange(4, 4 + payload.len() as int) == payload,
        forall|i: int|
            4 + payload.len() <= i < COMMAND_FRAME_SIZE ==> frame_of(header, payload)[i] == 0u8,
{
}

/// An outbound header carries the magic byte, a zero status, and a length
/// byte that counts the payload.
pub proof fn lemma_outbound_header(id: u8, length: nat)
    requires
        length <= MAX_PAYLOAD_SIZE,
    ensures
        outbound_header(id, length).id == id,
        outbound_header(id, length).magic == 0xAA,
        outbound_header(id, length).status == 0,
        outbound_header(id, length).length == length,
{
}

} // verus!
