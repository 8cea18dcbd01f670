use anchor_lang::prelude::borsh;
use swap_escrow::state::offer::OFFER_BYTES;
use swap_escrow::{Address, Offer};

fn sample() -> Offer {
    let mut maker = [0u8; 32];
    for (i, b) in maker.iter_mut().enumerate() {
        *b = i as u8;
    }
    Offer {
        id: 0x0102_0304_0506_0708,
        maker: Address::new(maker),
        mint_a: Address::new([0xaa; 32]),
        mint_b: Address::new([0xbb; 32]),
        wanted_amount: 50,
        bump: 254,
    }
}

#[test]
fn offer_record_is_stored_field_by_field() {
    let bytes = sample().to_bytes();
    assert_eq!(bytes.len(), 113);
    assert_eq!(OFFER_BYTES, 113);
    assert_eq!(&bytes[0..8], &[8u8, 7, 6, 5, 4, 3, 2, 1]);
    assert_eq!(&bytes[8..40], &sample().maker.bytes);
    assert_eq!(bytes[8], 0);
    assert_eq!(bytes[39], 31);
    assert_eq!(&bytes[40..72], &[0xaa; 32]);
    assert_eq!(&bytes[72..104], &[0xbb; 32]);
    assert_eq!(&bytes[104..112], &[50u8, 0, 0, 0, 0, 0, 0, 0]);
    assert_eq!(bytes[112], 254);
}

#[test]
fn offer_record_is_stored_as_borsh_stores_its_fields() {
    let record = sample();
    let expected = borsh::to_vec(&(
        record.id,
        record.maker.bytes,
        record.mint_a.bytes,
        record.mint_b.bytes,
        record.wanted_amount,
        record.bump,
    ))
    .unwrap();
    assert_eq!(record.to_bytes(), expected);
}

#[test]
fn offer_record_is_read_as_borsh_reads_its_fields() {
    let bytes = sample().to_bytes();
    let (id, maker, mint_a, mint_b, wanted_amount, bump): (u64, [u8; 32], [u8; 32], [u8; 32], u64, u8) =
        borsh::from_slice(&bytes).unwrap();
    assert_eq!(
        Offer::from_bytes(&bytes),
        Some(Offer {
            id,
            maker: Address::new(maker),
            mint_a: Address::new(mint_a),
            mint_b: Address::new(mint_b),
            wanted_amount,
            bump,
        })
    );
}

#[test]
fn offer_record_reads_back_as_stored() {
    let blank = Offer {
        id: 0,
        maker: Address::new([0u8; 32]),
        mint_a: Address::new([0u8; 32]),
        mint_b: Address::new([0u8; 32]),
        wanted_amount: 0,
        bump: 0,
    };
    for record in [sample(), blank, Offer { id: u64::MAX, wanted_amount: u64::MAX, bump: 255, ..sample() }] {
        assert_eq!(Offer::from_bytes(&record.to_bytes()), Some(record));
    }
}

#[test]
fn offer_record_bytes_store_back_as_read() {
    let mut bytes = vec![0u8; 113];
    for (i, b) in bytes.iter_mut().enumerate() {
        *b = (i * 7 % 256) as u8;
    }
    let record = Offer::from_bytes(&bytes).unwrap();
    assert_eq!(record.to_bytes(), bytes);
    assert_eq!(record.bump, bytes[112]);
    assert_eq!(record.id, u64::from_le_bytes([0, 7, 14, 21, 28, 35, 42, 49]));
}

#[test]
fn offer_record_of_another_length_is_refused() {
    let bytes = sample().to_bytes();
    assert_eq!(Offer::from_bytes(&bytes[..112]), None);
    assert_eq!(Offer::from_bytes(&[]), None);
    let mut longer = bytes.clone();
    longer.push(0);
    assert_eq!(Offer::from_bytes(&longer), None);
}

#[test]
fn address_is_read_where_thirty_two_bytes_stand() {
    let mut bytes = vec![0u8; 40];
    for (i, b) in bytes.iter_mut().enumerate() {
        *b = i as u8;
    }
    let read = Address::read(&bytes, 8).unwrap();
    assert_eq!(read.bytes[0], 8);
    assert_eq!(read.bytes[31], 39);
    assert_eq!(Address::read(&bytes, 0).unwrap().bytes[31], 31);
    assert_eq!(Address::read(&bytes, 9), None);
    assert_eq!(Address::read(&bytes, usize::MAX), None);
    assert_eq!(Address::read(&bytes[..31], 0), None);
}
