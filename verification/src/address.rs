use vstd::prelude::*;
use vstd::slice::slice_to_vec;
use vstd::std_specs::cmp::PartialEqSpecImpl;
use vstd::utf8::encode_utf8;

verus! {

/// A 32-byte identity: a signer, an asset mint, or the location of a record.
#[derive(Clone, Copy, Debug)]
pub struct Pubkey {
    pub bytes: [u8; 32],
}

impl View for Pubkey {
    type V = Seq<u8>;

    open spec fn view(&self) -> Seq<u8> {
        self.bytes@
    }
}

impl PartialEq for Pubkey {
    fn eq(&self, other: &Pubkey) -> (same: bool) {
        let mut i: usize = 0;
        while i < 32
            invariant
                i <= 32,
                forall|j: int| 0 <= j < i ==> self.bytes[j] == other.bytes[j],
            decreases 32 - i,
        {
            if self.bytes[i] != other.bytes[i] {
                return false;
            }
            i += 1;
        }
        assert(self.bytes =~= other.bytes);
        true
    }
}

impl Eq for Pubkey {

}

impl PartialEqSpecImpl for Pubkey {
    open spec fn obeys_eq_spec() -> bool {
        true
    }

    open spec fn eq_spec(&self, other: &Pubkey) -> bool {
        *self == *other
    }
}

impl Pubkey {
    pub fn new_from_array(bytes: [u8; 32]) -> (key: Pubkey)
        ensures
            key.bytes == bytes,
    {
        Pubkey { bytes }
    }

    pub fn to_bytes(&self) -> (bytes: [u8; 32])
        ensures
            bytes == self.bytes,
    {
        self.bytes
    }
}

/// Two keys with the same bytes are the same key.
pub proof fn lemma_pubkey_by_bytes(a: Pubkey, b: Pubkey)
    ensures
        (a@ == b@) <==> (a == b),
{
    if a@ == b@ {
        assert(a.bytes =~= b.bytes);
    }
}

/// The two kinds of calendar event an owner may hold at once.
#[derive(Clone, Copy, Debug, PartialEq, Eq, Structural)]
pub enum EventKind {
    Simple,
    Gated,
}

impl EventKind {
    pub open spec fn spec_discriminator(self) -> u8 {
        match self {
            EventKind::Simple => 0u8,
            EventKind::Gated => 1u8,
        }
    }

    /// The byte that keeps the two kinds of one owner apart.
    pub fn discriminator(&self) -> (byte: u8)
        ensures
            byte == self.spec_discriminator(),
    {
        match self {
            EventKind::Simple => 0u8,
            EventKind::Gated => 1u8,
        }
    }
}

/// The address and bump seed that the program-address derivation yields for
/// `seeds` under `program_id`, or `None` where it yields none.
pub uninterp spec fn program_address(seeds: Seq<Seq<u8>>, program_id: Seq<u8>) -> Option<(Seq<u8>, u8)>;

pub open spec fn seed_bytes(seeds: Seq<Vec<u8>>) -> Seq<Seq<u8>> {
    Seq::new(seeds.len(), |i: int| seeds[i]@)
}

pub open spec fn found_view(found: Option<(Pubkey, u8)>) -> Option<(Seq<u8>, u8)> {
    match found {
        Some((address, bump)) => Some((address@, bump)),
        None => None,
    }
}

/// Calls `Pubkey::try_find_program_address` of anchor_lang's prelude.
/// Trusted: the outcome is the derivation's value on these seeds and this
/// program id, which depends on nothing else. The call returns `None`
/// rather than panicking where the seeds are too many or too long, or
/// no bump seed fits.
#[verifier::external_body]
fn try_find_program_address(seeds: &Vec<Vec<u8>>, program_id: &Pubkey) -> (found: Option<(Pubkey, u8)>)
    ensures
        found_view(found) == program_address(seed_bytes(seeds@), program_id@),
{
    let parts: Vec<&[u8]> = seeds.iter().map(|seed| seed.as_slice()).collect();
    let id = anchor_lang::prelude::Pubkey::new_from_array(program_id.bytes);
    match anchor_lang::prelude::Pubkey::try_find_program_address(&parts, &id) {
        Some((address, bump)) => Some((Pubkey { bytes: address.to_bytes() }, bump)),
        None => None,
    }
}

pub open spec fn calendar_event_seeds(owner: Seq<u8>, kind: EventKind) -> Seq<Seq<u8>> {
    seq![encode_utf8("calendar_event"@), owner, seq![kind.spec_discriminator()]]
}

pub open spec fn token_gate_seeds(event: Seq<u8>) -> Seq<Seq<u8>> {
    seq![encode_utf8("token_gate"@), event]
}

pub open spec fn payment_seeds(payer: Seq<u8>) -> Seq<Seq<u8>> {
    seq![encode_utf8("payment"@), payer]
}

fn key_seed(key: &Pubkey) -> (seed: Vec<u8>)
    ensures
        seed@ == key@,
{
    slice_to_vec(key.bytes.as_slice())
}

fn tag_seed(tag: &str) -> (seed: Vec<u8>)
    ensures
        seed@ == encode_utf8(tag@),
{
    slice_to_vec(tag.as_bytes())
}

/// Where the calendar event of `owner` and `kind` is kept, with its bump seed.
pub fn calendar_event_address(owner: &Pubkey, kind: EventKind, program_id: &Pubkey) -> (found: Option<(Pubkey, u8)>)
    ensures
        found_view(found) == program_address(calendar_event_seeds(owner@, kind), program_id@),
{
    let mut last: Vec<u8> = Vec::new();
    last.push(kind.discriminator());
    let mut seeds: Vec<Vec<u8>> = Vec::new();
    seeds.push(tag_seed("calendar_event"));
    seeds.push(key_seed(owner));
    seeds.push(last);
    assert(seed_bytes(seeds@) =~= calendar_event_seeds(owner@, kind)) by {
        assert(seeds@[2]@ =~= seq![kind.spec_discriminator()]);
    }
    try_find_program_address(&seeds, program_id)
}

/// Where the token gate of the calendar event at `event` is kept.
pub fn token_gate_address(event: &Pubkey, program_id: &Pubkey) -> (found: Option<(Pubkey, u8)>)
    ensures
        found_view(found) == program_address(token_gate_seeds(event@), program_id@),
{
    let mut seeds: Vec<Vec<u8>> = Vec::new();
    seeds.push(tag_seed("token_gate"));
    seeds.push(key_seed(event));
    assert(seed_bytes(seeds@) =~= token_gate_seeds(event@));
    try_find_program_address(&seeds, program_id)
}

/// Where the scheduled payment of `payer` is kept.
pub fn payment_address(payer: &Pubkey, program_id: &Pubkey) -> (found: Option<(Pubkey, u8)>)
    ensures
        found_view(found) == program_address(payment_seeds(payer@), program_id@),
{
    let mut seeds: Vec<Vec<u8>> = Vec::new();
    seeds.push(tag_seed("payment"));
    seeds.push(key_seed(payer));
    assert(seed_bytes(seeds@) =~= payment_seeds(payer@));
    try_find_program_address(&seeds, program_id)
}

} // verus!
