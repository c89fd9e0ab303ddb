//! The packets of the game as bytes.
//!
//! A number on the wire is a single-precision binary number of four bytes,
//! least significant first. It is held here by its bit pattern.

use vstd::prelude::*;

verus! {

/// The four bytes of a bit pattern, least significant first.
pub open spec fn le_bytes(x: u32) -> Seq<u8> {
    seq![
        (x % 256) as u8,
        (x / 256 % 256) as u8,
        (x / 65536 % 256) as u8,
        (x / 16777216) as u8,
    ]
}

/// Appends the four bytes of `x`, least significant first.
fn push_le_bytes(out: &mut Vec<u8>, x: u32)
    ensures
        final(out)@ == old(out)@ + le_bytes(x),
{
    out.push((x % 256) as u8);
    out.push((x / 256 % 256) as u8);
    out.push((x / 65536 % 256) as u8);
    out.push((x / 16777216) as u8);
    assert(out@ =~= old(out)@ + le_bytes(x));
}

/// A point in space as it goes over the wire.
#[derive(Clone, Copy, Debug, PartialEq, Eq, Structural)]
pub struct Vector3 {
    pub x: u32,
    pub y: u32,
    pub z: u32,
}

impl Vector3 {
    /// The twelve bytes of the point.
    pub open spec fn bytes(self) -> Seq<u8> {
        le_bytes(self.x) + le_bytes(self.y) + le_bytes(self.z)
    }

    /// The point with the given coordinates.
    pub fn new(x: u32, y: u32, z: u32) -> (r: Vector3)
        ensures
            r == (Vector3 { x, y, z }),
    {
        Vector3 { x, y, z }
    }

    /// The point as bytes: its coordinates one after the other.
    pub fn binary_data(&self) -> (r: Vec<u8>)
        ensures
            r@ == self.bytes(),
    {
        let mut out: Vec<u8> = Vec::new();
        push_le_bytes(&mut out, self.x);
        push_le_bytes(&mut out, self.y);
        push_le_bytes(&mut out, self.z);
        assert(out@ =~= self.bytes());
        out
    }
}

/// Where a car is and how it is turned, as it goes over the wire.
#[derive(Clone, Copy, Debug, PartialEq, Eq, Structural)]
pub struct StatusUpdate {
    pub position: Vector3,
    pub rotation: u32,
}

impl StatusUpdate {
    /// The bytes of the packet: the kind, one, then the position, then the
    /// rotation.
    pub open spec fn bytes(self) -> Seq<u8> {
        seq![1u8] + self.position.bytes() + le_bytes(self.rotation)
    }

    /// The status with the given position and rotation.
    pub fn new(position: Vector3, rotation: u32) -> (r: StatusUpdate)
        ensures
            r == (StatusUpdate { position, rotation }),
    {
        StatusUpdate { position, rotation }
    }

    /// The status as a packet of seventeen bytes.
    pub fn binary_data(&self) -> (r: Vec<u8>)
        ensures
            r@ == self.bytes(),
    {
        let mut out: Vec<u8> = Vec::new();
        out.push(1u8);
        push_le_bytes(&mut out, self.position.x);
        push_le_bytes(&mut out, self.position.y);
        push_le_bytes(&mut out, self.position.z);
        push_le_bytes(&mut out, self.rotation);
        assert(out@ =~= self.bytes());
        out
    }
}

/// A packet of the game.
#[derive(Clone, Copy, Debug, PartialEq, Eq, Structural)]
pub enum GamePacket {
    /// A client asks to take part.
    Register,
    /// The server tells a client its number.
    Inform { player_id: u8 },
    /// A client tells where its car is.
    StatusUpdate(StatusUpdate),
    /// The server tells that a player has left.
    DropPlayer { player_id: u8 },
    /// A client leaves.
    End { player_id: u8 },
}

impl GamePacket {
    /// The bytes of the packet: its kind, then what it carries.
    pub open spec fn bytes(self) -> Seq<u8> {
        match self {
            GamePacket::Register => seq![0u8],
            GamePacket::Inform { player_id } => seq![5u8, player_id],
            GamePacket::StatusUpdate(s) => s.bytes(),
            GamePacket::DropPlayer { player_id } => seq![4u8, player_id],
            GamePacket::End { player_id } => seq![3u8, player_id],
        }
    }

    /// The packet as bytes.
    pub fn binary_data(&self) -> (r: Vec<u8>)
        ensures
            r@ == self.bytes(),
    {
        match self {
            GamePacket::Register => {
                let mut out: Vec<u8> = Vec::new();
                out.push(0u8);
                assert(out@ =~= seq![0u8]);
                out
            },
            GamePacket::Inform { player_id } => {
                let mut out: Vec<u8> = Vec::new();
                out.push(5u8);
                out.push(*player_id);
                assert(out@ =~= seq![5u8, *player_id]);
                out
            },
            GamePacket::StatusUpdate(s) => s.binary_data(),
            GamePacket::DropPlayer { player_id } => {
                let mut out: Vec<u8> = Vec::new();
                out.push(4u8);
                out.push(*player_id);
                assert(out@ =~= seq![4u8, *player_id]);
                out
            },
            GamePacket::End { player_id } => {
                let mut out: Vec<u8> = Vec::new();
                out.push(3u8);
                out.push(*player_id);
                assert(out@ =~= seq![3u8, *player_id]);
                out
            },
        }
    }
}

/// The bit pattern whose four bytes, least significant first, are the given
/// ones.
pub open spec fn from_le_bytes(b0: u8, b1: u8, b2: u8, b3: u8) -> u32 {
    (b0 + b1 * 256 + b2 * 65536 + b3 * 16777216) as u32
}

/// The bit pattern whose four bytes stand at `at`, least significant first.
fn read_le_bytes(data: &[u8], at: usize) -> (x: u32)
    requires
        at + 4 <= data@.len(),
    ensures
        x == from_le_bytes(data@[at as int], data@[at + 1], data@[at + 2], data@[at + 3]),
        le_bytes(x) == data@.subrange(at as int, at + 4),
{
    let b0: u8 = data[at];
    let b1: u8 = data[at + 1];
    let b2: u8 = data[at + 2];
    let b3: u8 = data[at + 3];
    let x: u32 = b0 as u32 + b1 as u32 * 256 + b2 as u32 * 65536 + b3 as u32 * 16777216;
    proof {
        lemma_bytes_of_sum(b0, b1, b2, b3);
        assert(le_bytes(x) =~= seq![b0, b1, b2, b3]);
        assert(data@.subrange(at as int, at + 4) =~= seq![b0, b1, b2, b3]);
    }
    x
}

impl GamePacket {
    /// Reads a packet. The bytes of every packet read back as that packet,
    /// and nothing else reads as a packet.
    pub fn parse(data: &[u8]) -> (r: Option<GamePacket>)
        ensures
            match r {
                Some(packet) => packet.bytes() == data@,
                None => forall|packet: GamePacket| packet.bytes() != data@,
            },
            forall|packet: GamePacket| packet.bytes() == data@ ==> r == Some(packet),
    {
        let r = GamePacket::read(data);
        proof {
            assert forall|packet: GamePacket| packet.bytes() == data@ implies r == Some(packet) by {
                lemma_framing_is_faithful(packet, r->Some_0);
            }
        }
        r
    }

    /// Reads a packet.
    fn read(data: &[u8]) -> (r: Option<GamePacket>)
        ensures
            match r {
                Some(packet) => packet.bytes() == data@,
                None => forall|packet: GamePacket| packet.bytes() != data@,
            },
    {
        if data.len() == 0 {
            assert forall|packet: GamePacket| packet.bytes() != data@ by {
                assert(packet.bytes().len() > 0);
            }
            return None;
        }
        let kind = data[0];
        if kind == 0 && data.len() == 1 {
            assert(data@ =~= GamePacket::Register.bytes());
            Some(GamePacket::Register)
        } else if kind == 5 && data.len() == 2 {
            let packet = GamePacket::Inform { player_id: data[1] };
            assert(data@ =~= packet.bytes());
            Some(packet)
        } else if kind == 4 && data.len() == 2 {
            let packet = GamePacket::DropPlayer { player_id: data[1] };
            assert(data@ =~= packet.bytes());
            Some(packet)
        } else if kind == 3 && data.len() == 2 {
            let packet = GamePacket::End { player_id: data[1] };
            assert(data@ =~= packet.bytes());
            Some(packet)
        } else if kind == 1 && data.len() == 17 {
            let status = StatusUpdate {
                position: Vector3 {
                    x: read_le_bytes(data, 1),
                    y: read_le_bytes(data, 5),
                    z: read_le_bytes(data, 9),
                },
                rotation: read_le_bytes(data, 13),
            };
            assert(data@ =~= status.bytes());
            Some(GamePacket::StatusUpdate(status))
        } else {
            assert forall|packet: GamePacket| packet.bytes() != data@ by {
                assert(packet.bytes()[0] == data@[0] ==> packet.bytes().len() != data@.len());
            }
            None
        }
    }
}

/// The framing is faithful: two packets with the same bytes are the same
/// packet.
pub proof fn lemma_framing_is_faithful(packet: GamePacket, other: GamePacket)
    requires
        packet.bytes() == other.bytes(),
    ensures
        packet == other,
{
    lemma_packet_shape(packet);
    lemma_packet_shape(other);
    match packet {
        GamePacket::StatusUpdate(s) => {
            let t = other->StatusUpdate_0;
            lemma_status_injective(s, t);
        },
        _ => {},
    }
}

/// The kind and the length of the bytes of a packet, and the number that
/// it carries behind its kind.
proof fn lemma_packet_shape(packet: GamePacket)
    ensures
        packet is Register ==> packet.bytes().len() == 1 && packet.bytes()[0] == 0,
        packet is Inform ==> packet.bytes().len() == 2 && packet.bytes()[0] == 5
            && packet.bytes()[1] == packet->Inform_player_id,
        packet is StatusUpdate ==> packet.bytes().len() == 17 && packet.bytes()[0] == 1,
        packet is DropPlayer ==> packet.bytes().len() == 2 && packet.bytes()[0] == 4
            && packet.bytes()[1] == packet->DropPlayer_player_id,
        packet is End ==> packet.bytes().len() == 2 && packet.bytes()[0] == 3
            && packet.bytes()[1] == packet->End_player_id,
{
}

/// Two statuses with the same bytes are the same.
proof fn lemma_status_injective(s: StatusUpdate, t: StatusUpdate)
    requires
        s.bytes() == t.bytes(),
    ensures
        s == t,
{
    let a = s.bytes();
    let b = t.bytes();
    assert(a.subrange(1, 5) =~= le_bytes(s.position.x));
    assert(b.subrange(1, 5) =~= le_bytes(t.position.x));
    lemma_le_bytes_injective(s.position.x, t.position.x);
    assert(a.subrange(5, 9) =~= le_bytes(s.position.y));
    assert(b.subrange(5, 9) =~= le_bytes(t.position.y));
    lemma_le_bytes_injective(s.position.y, t.position.y);
    assert(a.subrange(9, 13) =~= le_bytes(s.position.z));
    assert(b.subrange(9, 13) =~= le_bytes(t.position.z));
    lemma_le_bytes_injective(s.position.z, t.position.z);
    assert(a.subrange(13, 17) =~= le_bytes(s.rotation));
    assert(b.subrange(13, 17) =~= le_bytes(t.rotation));
    lemma_le_bytes_injective(s.rotation, t.rotation);
}

/// The bytes of a bit pattern put together from four bytes are those
/// bytes.
proof fn lemma_bytes_of_sum(b0: u8, b1: u8, b2: u8, b3: u8)
    ensures
        le_bytes(from_le_bytes(b0, b1, b2, b3)) =~= seq![b0, b1, b2, b3],
        from_le_bytes(b0, b1, b2, b3) == b0 + b1 * 256 + b2 * 65536 + b3 * 16777216,
{
    let x = from_le_bytes(b0, b1, b2, b3);
    let (w0, w1, w2, w3) = (b0 as u32, b1 as u32, b2 as u32, b3 as u32);
    assert(w0 < 256 && w1 < 256 && w2 < 256 && w3 < 256);
    assert(x == w0 + w1 * 256 + w2 * 65536 + w3 * 16777216);
    assert(x % 256 == w0 && x / 256 % 256 == w1 && x / 65536 % 256 == w2 && x / 16777216 == w3)
        by (bit_vector)
        requires
            x == w0 + w1 * 256 + w2 * 65536 + w3 * 16777216,
            w0 < 256 && w1 < 256 && w2 < 256 && w3 < 256,
    ;
}

/// Two bit patterns with the same bytes are the same.
pub proof fn lemma_le_bytes_injective(x: u32, y: u32)
    requires
        le_bytes(x) == le_bytes(y),
    ensures
        x == y,
{
    assert(le_bytes(x)[0] == le_bytes(y)[0]);
    assert(le_bytes(x)[1] == le_bytes(y)[1]);
    assert(le_bytes(x)[2] == le_bytes(y)[2]);
    assert(le_bytes(x)[3] == le_bytes(y)[3]);
}

} // verus!
