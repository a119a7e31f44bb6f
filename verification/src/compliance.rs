//! Construction of the compliance proving input: a fixed 225-byte resource
//! layout is cut into its seven field elements and ephemerality flag, each
//! field element is rendered as a hexadecimal string, and the Merkle path
//! positions are read off the bits of the leaf position. Turning the result
//! into its JSON wire form is serialization plumbing and lives outside the
//! library.
use vstd::prelude::*;

use crate::field::{be_val, stark_prime, sub_bytes};
use crate::hashing::{felt_to_string, hex_str_of};

verus! {

/// The hexadecimal rendering of the field element encoded big-endian by the
/// 32 bytes of `bytes` starting at `start`.
pub open spec fn felt_hex(bytes: Seq<u8>, start: int) -> Seq<char> {
    hex_str_of(be_val(bytes.subrange(start, start + 32)) % stark_prime())
}

/// `pos` with its `i` lowest bits shifted out.
pub open spec fn shifted(pos: nat, i: nat) -> nat
    decreases i,
{
    if i == 0 {
        pos
    } else {
        shifted(pos, (i - 1) as nat) / 2
    }
}

/// Bit `i` of a Merkle leaf position: whether the node at depth `i` of the
/// path is a right child.
pub open spec fn path_bit(pos: nat, i: int) -> bool {
    shifted(pos, i as nat) % 2 == 1
}

/// A resource of the compliance input, with each field element rendered
/// hexadecimally.
#[derive(Debug)]
pub struct ResourceJson {
    pub logic: String,
    pub label: String,
    pub quantity: String,
    pub data: String,
    pub eph: bool,
    pub nonce: String,
    pub npk: String,
    pub rseed: String,
}

/// One step of a Merkle authentication path: the sibling hash and whether the
/// present node is a right child.
#[derive(Debug)]
pub struct PathNode {
    pub fst: String,
    pub snd: bool,
}

/// The full compliance proving input: both resources, the nullifier key, the
/// Merkle path, and the commitment randomness.
#[derive(Debug)]
pub struct ComplianceInputJson {
    pub input: ResourceJson,
    pub output: ResourceJson,
    pub input_nf_key: String,
    pub merkle_path: Vec<PathNode>,
    pub rcv: String,
    pub eph_root: String,
}

/// The fields of `r` are the renderings of the seven 32-byte windows of
/// `bytes` in the fixed resource layout, and the flag at offset 224.
pub open spec fn resource_matches(r: ResourceJson, bytes: Seq<u8>) -> bool {
    &&& r.logic@ == felt_hex(bytes, 0)
    &&& r.label@ == felt_hex(bytes, 32)
    &&& r.quantity@ == felt_hex(bytes, 64)
    &&& r.data@ == felt_hex(bytes, 96)
    &&& r.nonce@ == felt_hex(bytes, 128)
    &&& r.npk@ == felt_hex(bytes, 160)
    &&& r.rseed@ == felt_hex(bytes, 192)
    &&& r.eph == (bytes[224] != 0)
}

impl ResourceJson {
    /// Cuts a resource out of its 225-byte layout: seven 32-byte field
    /// elements (logic, label, quantity, data, nonce, npk, rseed) followed by
    /// the one-byte ephemerality flag.
    pub fn from_bytes(bytes: &Vec<u8>) -> (r: ResourceJson)
        requires
            bytes@.len() >= 225,
        ensures
            resource_matches(r, bytes@),
    {
        ResourceJson {
            logic: felt_to_string(&sub_bytes(bytes, 0, 32)),
            label: felt_to_string(&sub_bytes(bytes, 32, 64)),
            quantity: felt_to_string(&sub_bytes(bytes, 64, 96)),
            data: felt_to_string(&sub_bytes(bytes, 96, 128)),
            nonce: felt_to_string(&sub_bytes(bytes, 128, 160)),
            npk: felt_to_string(&sub_bytes(bytes, 160, 192)),
            rseed: felt_to_string(&sub_bytes(bytes, 192, 224)),
            eph: bytes[224] != 0,
        }
    }
}

impl ComplianceInputJson {
    /// Assembles the compliance input from raw byte material: both resources
    /// from their 225-byte layouts, the scalars as hexadecimal strings, and
    /// the Merkle path with each step's side taken from the matching bit of
    /// the leaf position.
    pub fn from_parts(
        input_resource: &Vec<u8>,
        output_resource: &Vec<u8>,
        path: &Vec<Vec<u8>>,
        pos: u64,
        input_nf_key: &Vec<u8>,
        eph_root: &Vec<u8>,
        rcv: &Vec<u8>,
    ) -> (r: ComplianceInputJson)
        requires
            input_resource@.len() >= 225,
            output_resource@.len() >= 225,
            forall|i: int| 0 <= i < path@.len() ==> (#[trigger] path@[i])@.len() == 32,
            input_nf_key@.len() == 32,
            eph_root@.len() == 32,
            rcv@.len() == 32,
        ensures
            resource_matches(r.input, input_resource@),
            resource_matches(r.output, output_resource@),
            r.input_nf_key@ == hex_str_of(be_val(input_nf_key@) % stark_prime()),
            r.rcv@ == hex_str_of(be_val(rcv@) % stark_prime()),
            r.eph_root@ == hex_str_of(be_val(eph_root@) % stark_prime()),
            r.merkle_path@.len() == path@.len(),
            forall|i: int| 0 <= i < path@.len() ==> (#[trigger] r.merkle_path@[i]).fst@
                == hex_str_of(be_val(path@[i]@) % stark_prime()) && r.merkle_path@[i].snd
                == path_bit(pos as nat, i),
    {
        let input = ResourceJson::from_bytes(input_resource);
        let output = ResourceJson::from_bytes(output_resource);

        let rcv_hex = felt_to_string(rcv);
        let eph_root_hex = felt_to_string(eph_root);
        let input_nf_key_hex = felt_to_string(input_nf_key);

        let mut next_pos: u64 = pos;
        let mut merkle_path: Vec<PathNode> = Vec::new();
        let n: usize = path.len();
        let mut i: usize = 0;
        while i < n
            invariant
                n == path@.len(),
                i <= n,
                forall|j: int| 0 <= j < n ==> (#[trigger] path@[j])@.len() == 32,
                next_pos as nat == shifted(pos as nat, i as nat),
                merkle_path@.len() == i,
                forall|j: int| 0 <= j < i ==> (#[trigger] merkle_path@[j]).fst@ == hex_str_of(
                    be_val(path@[j]@) % stark_prime(),
                ) && merkle_path@[j].snd == path_bit(pos as nat, j),
            decreases n - i,
        {
            let snd: bool = next_pos % 2 != 0;
            merkle_path.push(PathNode { fst: felt_to_string(&path[i]), snd });
            next_pos = next_pos / 2;
            i = i + 1;
        }

        ComplianceInputJson {
            input,
            output,
            input_nf_key: input_nf_key_hex,
            merkle_path,
            rcv: rcv_hex,
            eph_root: eph_root_hex,
        }
    }
}

} // verus!
