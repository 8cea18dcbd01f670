//! The offer record: the persistent description of one open escrow.

use vstd::prelude::*;
use vstd::bytes::{
    lemma_auto_spec_u64_to_from_le_bytes, spec_u64_from_le_bytes, spec_u64_to_le_bytes, u64_from_le_bytes,
    u64_to_le_bytes,
};
use vstd::slice::slice_subrange;
use crate::address::{lemma_address_by_bytes, Address};
use crate::tag::{begins_with, check_tag};

verus! {

/// The number of bytes of an offer record.
pub const OFFER_BYTES: usize = 113;

/// The number of bytes of the account that stores an offer record: the tag, then the
/// record.
pub const OFFER_ACCOUNT_BYTES: usize = 121;

/// The bytes that mark an account as an offer record: the first eight bytes of the
/// SHA-256 digest of `account:Offer`.
pub open spec fn offer_tag() -> Seq<u8> {
    seq![215u8, 88u8, 60u8, 71u8, 170u8, 162u8, 73u8, 229u8]
}

/// One proposed swap. The record lives at an address derived from the maker and
/// `id`, and that address is the authority over the vault holding the escrowed asset.
#[derive(Clone, Copy, Debug, PartialEq, Eq)]
pub struct Offer {
    /// The identifier the maker chose; together with the maker it determines the
    /// record's address.
    pub id: u64,
    /// Who made the offer and will receive the wanted asset.
    pub maker: Address,
    /// The asset type locked in the vault.
    pub mint_a: Address,
    /// The asset type a taker has to pay.
    pub mint_b: Address,
    /// The exact amount of `mint_b` a taker has to pay.
    pub wanted_amount: u64,
    /// The bump seed that completes the seeds of the record's address.
    pub bump: u8,
}

impl Offer {
    /// The record field by field: the identifier in eight little-endian bytes, the
    /// maker, the offered asset type, the wanted asset type, the wanted amount in
    /// eight little-endian bytes, the bump seed.
    pub open spec fn layout(self) -> Seq<u8> {
        spec_u64_to_le_bytes(self.id) + self.maker@ + self.mint_a@ + self.mint_b@ + spec_u64_to_le_bytes(
            self.wanted_amount,
        ) + seq![self.bump]
    }

    /// The record field by field.
    pub fn to_bytes(&self) -> (bytes: Vec<u8>)
        ensures
            bytes@ == self.layout(),
            bytes@.len() == OFFER_BYTES,
    {
        let mut bytes = u64_to_le_bytes(self.id);
        let mut maker = self.maker.to_vec();
        let mut mint_a = self.mint_a.to_vec();
        let mut mint_b = self.mint_b.to_vec();
        let mut wanted_amount = u64_to_le_bytes(self.wanted_amount);
        bytes.append(&mut maker);
        bytes.append(&mut mint_a);
        bytes.append(&mut mint_b);
        bytes.append(&mut wanted_amount);
        bytes.push(self.bump);
        bytes
    }

    /// Reads a record field by field. Any sequence of exactly [`OFFER_BYTES`] bytes
    /// is the form of exactly one record; every other length is refused.
    pub fn from_bytes(bytes: &[u8]) -> (record: Option<Offer>)
        ensures
            record is Some <==> bytes@.len() == OFFER_BYTES,
            record matches Some(read) ==> read.layout() == bytes@,
            record matches Some(read) ==> {
                &&& read.id == spec_u64_from_le_bytes(bytes@.subrange(0, 8))
                &&& read.maker@ == bytes@.subrange(8, 40)
                &&& read.mint_a@ == bytes@.subrange(40, 72)
                &&& read.mint_b@ == bytes@.subrange(72, 104)
                &&& read.wanted_amount == spec_u64_from_le_bytes(bytes@.subrange(104, 112))
                &&& read.bump == bytes@[112]
            },
    {
        if bytes.len() != OFFER_BYTES {
            return None;
        }
        let id = u64_from_le_bytes(slice_subrange(bytes, 0, 8));
        let maker = match Address::read(bytes, 8) {
            Some(maker) => maker,
            None => return None,
        };
        let mint_a = match Address::read(bytes, 40) {
            Some(mint_a) => mint_a,
            None => return None,
        };
        let mint_b = match Address::read(bytes, 72) {
            Some(mint_b) => mint_b,
            None => return None,
        };
        let wanted_amount = u64_from_le_bytes(slice_subrange(bytes, 104, 112));
        let bump = bytes[112];
        let read = Offer { id, maker, mint_a, mint_b, wanted_amount, bump };
        proof {
            lemma_auto_spec_u64_to_from_le_bytes();
        }
        Some(read)
    }
}

impl Offer {
    /// The content of the account that stores the record: the tag of offer records,
    /// then the record field by field.
    pub open spec fn stored(self) -> Seq<u8> {
        offer_tag() + self.layout()
    }

    /// The content of the account that stores the record.
    pub fn to_account_data(&self) -> (data: Vec<u8>)
        ensures
            data@ == self.stored(),
            data@.len() == OFFER_ACCOUNT_BYTES,
    {
        let mut data: Vec<u8> = Vec::new();
        data.push(215);
        data.push(88);
        data.push(60);
        data.push(71);
        data.push(170);
        data.push(162);
        data.push(73);
        data.push(229);
        let mut record = self.to_bytes();
        data.append(&mut record);
        data
    }

    /// Reads the record that an account stores. The content has to be of exactly
    /// [`OFFER_ACCOUNT_BYTES`] bytes and begin with the tag of offer records;
    /// everything else is refused.
    pub fn from_account_data(data: &[u8]) -> (record: Option<Offer>)
        ensures
            record is Some <==> data@.len() == OFFER_ACCOUNT_BYTES && begins_with(data@, offer_tag()),
            record matches Some(read) ==> read.stored() == data@,
    {
        let tag: [u8; 8] = [215, 88, 60, 71, 170, 162, 73, 229];
        if data.len() != OFFER_ACCOUNT_BYTES || !check_tag(data, &tag) {
            return None;
        }
        Offer::from_bytes(slice_subrange(data, 8, OFFER_ACCOUNT_BYTES))
    }
}

/// A record is read back as it was stored: no two records share a form.
pub proof fn lemma_layout_tells_records_apart(a: Offer, b: Offer)
    requires
        a.layout() == b.layout(),
    ensures
        a == b,
{
    lemma_auto_spec_u64_to_from_le_bytes();
    let s = a.layout();
    assert(s.subrange(0, 8) =~= spec_u64_to_le_bytes(a.id));
    assert(s.subrange(0, 8) =~= spec_u64_to_le_bytes(b.id));
    assert(s.subrange(8, 40) =~= a.maker@);
    assert(s.subrange(8, 40) =~= b.maker@);
    assert(s.subrange(40, 72) =~= a.mint_a@);
    assert(s.subrange(40, 72) =~= b.mint_a@);
    assert(s.subrange(72, 104) =~= a.mint_b@);
    assert(s.subrange(72, 104) =~= b.mint_b@);
    assert(s.subrange(104, 112) =~= spec_u64_to_le_bytes(a.wanted_amount));
    assert(s.subrange(104, 112) =~= spec_u64_to_le_bytes(b.wanted_amount));
    assert(s[112] == a.bump && s[112] == b.bump);
    lemma_address_by_bytes(a.maker, b.maker);
    lemma_address_by_bytes(a.mint_a, b.mint_a);
    lemma_address_by_bytes(a.mint_b, b.mint_b);
}

} // verus!
