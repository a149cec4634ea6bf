//! The address deriver: stable, reproducible locations for the registry, each
//! lottery, and each ticket, computed from a namespace tag and numeric seeds.
//!
//! No directory is kept anywhere: any party can recompute where a record
//! lives from its seeds alone. The derivation itself (a bounded, deterministic
//! search of the host's address space) is done by the host SDK; this module
//! builds the seed groups, fixes the byte layout of an address, and exposes
//! the derived location of each kind of record.

use vstd::prelude::*;

use vstd::bytes::{
    lemma_auto_spec_u64_to_from_le_bytes, spec_u32_to_le_bytes, spec_u64_to_le_bytes,
    u32_to_le_bytes, u64_from_le_bytes, u64_to_le_bytes,
};
use vstd::slice::slice_subrange;

verus! {

/// A 32-byte ledger address, held as four little-endian 64-bit words
/// (`w0` covers bytes 0..8 of the address, `w3` bytes 24..32).
#[derive(Clone, Copy, PartialEq, Eq, Structural, Debug)]
pub struct Address {
    pub w0: u64,
    pub w1: u64,
    pub w2: u64,
    pub w3: u64,
}

/// The 32-byte serialisation of an address.
pub open spec fn address_bytes(a: Address) -> Seq<u8> {
    spec_u64_to_le_bytes(a.w0) + spec_u64_to_le_bytes(a.w1) + spec_u64_to_le_bytes(a.w2)
        + spec_u64_to_le_bytes(a.w3)
}

/// Serialises an address into its 32 bytes.
pub fn address_to_bytes(a: &Address) -> (r: Vec<u8>)
    ensures
        r@ == address_bytes(*a),
        r@.len() == 32,
{
    proof {
        lemma_auto_spec_u64_to_from_le_bytes();
    }
    let mut r = u64_to_le_bytes(a.w0);
    let mut r1 = u64_to_le_bytes(a.w1);
    let mut r2 = u64_to_le_bytes(a.w2);
    let mut r3 = u64_to_le_bytes(a.w3);
    r.append(&mut r1);
    r.append(&mut r2);
    r.append(&mut r3);
    r
}

/// Reads an address back from its 32-byte serialisation.
pub fn address_of_bytes(b: Vec<u8>) -> (r: Address)
    requires
        b@.len() == 32,
    ensures
        address_bytes(r) == b@,
{
    let s = b.as_slice();
    let r = Address {
        w0: u64_from_le_bytes(slice_subrange(s, 0, 8)),
        w1: u64_from_le_bytes(slice_subrange(s, 8, 16)),
        w2: u64_from_le_bytes(slice_subrange(s, 16, 24)),
        w3: u64_from_le_bytes(slice_subrange(s, 24, 32)),
    };
    proof {
        lemma_auto_spec_u64_to_from_le_bytes();
        assert(address_bytes(r) =~= b@);
    }
    r
}

/// The namespace tag of the registry record: the bytes of `"registry"`.
pub open spec fn registry_tag() -> Seq<u8> {
    seq![114u8, 101u8, 103u8, 105u8, 115u8, 116u8, 114u8, 121u8]
}

/// The namespace tag of a lottery record: the bytes of `"lottery"`.
pub open spec fn lottery_tag() -> Seq<u8> {
    seq![108u8, 111u8, 116u8, 116u8, 101u8, 114u8, 121u8]
}

/// The namespace tag of a ticket record: the bytes of `"ticket"`.
pub open spec fn ticket_tag() -> Seq<u8> {
    seq![116u8, 105u8, 99u8, 107u8, 101u8, 116u8]
}

/// The seed group of the registry record: `"registry"`.
pub open spec fn registry_seeds_spec() -> Seq<Seq<u8>> {
    seq![registry_tag()]
}

/// The seed group of a lottery record: `"lottery" || id`.
pub open spec fn lottery_seeds_spec(id: u32) -> Seq<Seq<u8>> {
    seq![lottery_tag(), spec_u32_to_le_bytes(id)]
}

/// The seed group of a ticket record: `"ticket" || lottery_address || ticket_id`.
pub open spec fn ticket_seeds_spec(lottery: Address, ticket_id: u32) -> Seq<Seq<u8>> {
    seq![ticket_tag(), address_bytes(lottery), spec_u32_to_le_bytes(ticket_id)]
}

fn registry_tag_vec() -> (v: Vec<u8>)
    ensures
        v@ == registry_tag(),
{
    let mut v: Vec<u8> = Vec::new();
    v.push(114u8);
    v.push(101u8);
    v.push(103u8);
    v.push(105u8);
    v.push(115u8);
    v.push(116u8);
    v.push(114u8);
    v.push(121u8);
    proof {
        assert(v@ =~= registry_tag());
    }
    v
}

fn lottery_tag_vec() -> (v: Vec<u8>)
    ensures
        v@ == lottery_tag(),
{
    let mut v: Vec<u8> = Vec::new();
    v.push(108u8);
    v.push(111u8);
    v.push(116u8);
    v.push(116u8);
    v.push(101u8);
    v.push(114u8);
    v.push(121u8);
    proof {
        assert(v@ =~= lottery_tag());
    }
    v
}

fn ticket_tag_vec() -> (v: Vec<u8>)
    ensures
        v@ == ticket_tag(),
{
    let mut v: Vec<u8> = Vec::new();
    v.push(116u8);
    v.push(105u8);
    v.push(99u8);
    v.push(107u8);
    v.push(101u8);
    v.push(116u8);
    proof {
        assert(v@ =~= ticket_tag());
    }
    v
}

/// Builds the seed group of the registry record.
pub fn registry_seeds() -> (s: Vec<Vec<u8>>)
    ensures
        s.deep_view() == registry_seeds_spec(),
{
    let mut s: Vec<Vec<u8>> = Vec::new();
    s.push(registry_tag_vec());
    proof {
        assert(s.deep_view() =~~= registry_seeds_spec());
    }
    s
}

/// Builds the seed group of the lottery record with the given id.
pub fn lottery_seeds(id: u32) -> (s: Vec<Vec<u8>>)
    ensures
        s.deep_view() == lottery_seeds_spec(id),
{
    let mut s: Vec<Vec<u8>> = Vec::new();
    s.push(lottery_tag_vec());
    s.push(u32_to_le_bytes(id));
    proof {
        assert(s.deep_view() =~~= lottery_seeds_spec(id));
    }
    s
}

/// Builds the seed group of the ticket record with the given sequence number
/// within the lottery at the given address.
pub fn ticket_seeds(lottery: &Address, ticket_id: u32) -> (s: Vec<Vec<u8>>)
    ensures
        s.deep_view() == ticket_seeds_spec(*lottery, ticket_id),
{
    let mut s: Vec<Vec<u8>> = Vec::new();
    s.push(ticket_tag_vec());
    s.push(address_to_bytes(lottery));
    s.push(u32_to_le_bytes(ticket_id));
    proof {
        assert(s.deep_view() =~~= ticket_seeds_spec(*lottery, ticket_id));
    }
    s
}

/// What the host SDK's bounded search derives from a seed group under a
/// deriving program: a pure function of the two, `None` exactly when the
/// search finds no viable discriminant.
pub uninterp spec fn derived_address_of(seeds: Seq<Seq<u8>>, program: Address) -> Option<Address>;

/// Relies on `solana_pubkey::Pubkey::try_find_program_address` (reached
/// through `anchor_lang`): a deterministic, bounded search over bump
/// discriminants whose whole result — the derived address, or `None` when no
/// viable discriminant exists — depends on the seed group and the deriving
/// program alone.
#[verifier::external_body]
fn derive_address(seeds: &Vec<Vec<u8>>, program: &Address) -> (r: Option<Address>)
    ensures
        r == derived_address_of(seeds.deep_view(), *program),
{
    let groups: Vec<&[u8]> = seeds.iter().map(|s| s.as_slice()).collect();
    let key_bytes: [u8; 32] = address_to_bytes(program).try_into().unwrap();
    let program_key = anchor_lang::prelude::Pubkey::new_from_array(key_bytes);
    anchor_lang::prelude::Pubkey::try_find_program_address(&groups, &program_key)
        .map(|(key, _bump)| address_of_bytes(key.to_bytes().to_vec()))
}

/// The derived location of the registry record under the given program.
pub fn registry_address(program: &Address) -> (r: Option<Address>)
    ensures
        r == derived_address_of(registry_seeds_spec(), *program),
{
    derive_address(&registry_seeds(), program)
}

/// The derived location of the lottery record with the given id.
pub fn lottery_address(program: &Address, id: u32) -> (r: Option<Address>)
    ensures
        r == derived_address_of(lottery_seeds_spec(id), *program),
{
    derive_address(&lottery_seeds(id), program)
}

/// The derived location of the ticket record with the given sequence number
/// within the lottery at the given address.
pub fn ticket_address(program: &Address, lottery: &Address, ticket_id: u32) -> (r: Option<
    Address,
>)
    ensures
        r == derived_address_of(ticket_seeds_spec(*lottery, ticket_id), *program),
{
    derive_address(&ticket_seeds(lottery, ticket_id), program)
}

} // verus!
