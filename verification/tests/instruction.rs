use anchor_lang::prelude::borsh;
use swap_escrow::state::offer::{OFFER_ACCOUNT_BYTES, OFFER_BYTES};
use swap_escrow::tag::check_tag;
use swap_escrow::{Address, DecodeError, Instruction, Offer};

const MAKE_OFFER_TAG: [u8; 8] = [214, 98, 97, 35, 59, 12, 44, 178];
const TAKE_OFFER_TAG: [u8; 8] = [128, 156, 242, 207, 237, 192, 103, 240];
const OFFER_TAG: [u8; 8] = [215, 88, 60, 71, 170, 162, 73, 229];

fn record() -> Offer {
    Offer {
        id: 1,
        maker: Address::new([1u8; 32]),
        mint_a: Address::new([10u8; 32]),
        mint_b: Address::new([11u8; 32]),
        wanted_amount: 50,
        bump: 253,
    }
}

#[test]
fn make_offer_is_sent_as_its_tag_and_three_amounts() {
    let sent = Instruction::MakeOffer { id: 1, offer_amount: 100, wanted_amount: 50 }.encode();
    let mut expected = MAKE_OFFER_TAG.to_vec();
    expected.extend_from_slice(&[1, 0, 0, 0, 0, 0, 0, 0]);
    expected.extend_from_slice(&[100, 0, 0, 0, 0, 0, 0, 0]);
    expected.extend_from_slice(&[50, 0, 0, 0, 0, 0, 0, 0]);
    assert_eq!(sent, expected);
    assert_eq!(sent.len(), 32);
}

#[test]
fn make_offer_arguments_are_sent_as_borsh_sends_them() {
    let sent = Instruction::MakeOffer { id: 7, offer_amount: u64::MAX, wanted_amount: 1 << 40 }.encode();
    let arguments = borsh::to_vec(&(7u64, u64::MAX, 1u64 << 40)).unwrap();
    assert_eq!(&sent[..8], &MAKE_OFFER_TAG);
    assert_eq!(&sent[8..], &arguments[..]);
    let read: (u64, u64, u64) = borsh::from_slice(&sent[8..]).unwrap();
    assert_eq!(
        Instruction::decode(&sent),
        Ok(Instruction::MakeOffer { id: read.0, offer_amount: read.1, wanted_amount: read.2 })
    );
}

#[test]
fn take_offer_is_sent_as_its_tag() {
    assert_eq!(Instruction::TakeOffer.encode(), TAKE_OFFER_TAG.to_vec());
    assert_eq!(Instruction::decode(&TAKE_OFFER_TAG), Ok(Instruction::TakeOffer));
}

#[test]
fn instructions_read_back_as_sent() {
    for instruction in [
        Instruction::TakeOffer,
        Instruction::MakeOffer { id: 0, offer_amount: 0, wanted_amount: 0 },
        Instruction::MakeOffer { id: 1, offer_amount: 100, wanted_amount: 50 },
        Instruction::MakeOffer { id: u64::MAX, offer_amount: u64::MAX - 1, wanted_amount: u64::MAX - 2 },
    ] {
        let mut sent = instruction.encode();
        assert_eq!(Instruction::decode(&sent), Ok(instruction));
        sent.extend_from_slice(&[9, 9, 9]);
        assert_eq!(Instruction::decode(&sent), Ok(instruction));
    }
}

#[test]
fn data_that_names_no_instruction_is_refused() {
    let unknown = Err(DecodeError::UnknownInstruction);
    assert_eq!(Instruction::decode(&[]), unknown);
    assert_eq!(Instruction::decode(&TAKE_OFFER_TAG[..7]), unknown);
    assert_eq!(Instruction::decode(&MAKE_OFFER_TAG[..7]), unknown);
    assert_eq!(Instruction::decode(&[0u8; 32]), unknown);
    assert_eq!(Instruction::decode(&OFFER_TAG), unknown);
    let full = Instruction::MakeOffer { id: 1, offer_amount: 100, wanted_amount: 50 }.encode();
    let mut other = full.clone();
    other[7] ^= 1;
    assert_eq!(Instruction::decode(&other), unknown);
    let mut other = full;
    other[0] ^= 1;
    assert_eq!(Instruction::decode(&other), unknown);
}

#[test]
fn make_offer_without_all_its_arguments_is_refused() {
    let missing = Err(DecodeError::MissingArguments);
    let full = Instruction::MakeOffer { id: 1, offer_amount: 100, wanted_amount: 50 }.encode();
    assert_eq!(Instruction::decode(&full[..31]), missing);
    assert_eq!(Instruction::decode(&full[..24]), missing);
    assert_eq!(Instruction::decode(&full[..8]), missing);
    assert_eq!(Instruction::decode(&full[..32]), Ok(Instruction::MakeOffer { id: 1, offer_amount: 100, wanted_amount: 50 }));
}

#[test]
fn tag_is_found_only_at_the_beginning() {
    let mut data = OFFER_TAG.to_vec();
    assert!(check_tag(&data, &OFFER_TAG));
    assert!(!check_tag(&data, &MAKE_OFFER_TAG));
    assert!(!check_tag(&data[..7], &OFFER_TAG));
    assert!(!check_tag(&[], &OFFER_TAG));
    data.push(0);
    assert!(check_tag(&data, &OFFER_TAG));
    data.insert(0, 0);
    assert!(!check_tag(&data, &OFFER_TAG));
}

#[test]
fn offer_account_stores_the_tag_and_then_the_record() {
    let stored = record().to_account_data();
    assert_eq!(stored.len(), 121);
    assert_eq!((OFFER_BYTES, OFFER_ACCOUNT_BYTES), (113, 121));
    assert_eq!(&stored[..8], &OFFER_TAG);
    assert_eq!(&stored[8..], &record().to_bytes()[..]);
    assert_eq!(Offer::from_account_data(&stored), Some(record()));
}

#[test]
fn offer_account_with_another_tag_or_length_is_refused() {
    let stored = record().to_account_data();
    assert_eq!(Offer::from_account_data(&stored[..120]), None);
    assert_eq!(Offer::from_account_data(&stored[8..]), None);
    assert_eq!(Offer::from_account_data(&[]), None);
    let mut longer = stored.clone();
    longer.push(0);
    assert_eq!(Offer::from_account_data(&longer), None);
    let mut other = stored.clone();
    other[0] = MAKE_OFFER_TAG[0];
    assert_eq!(Offer::from_account_data(&other), None);
    assert_eq!(Offer::from_account_data(&[0u8; 121]), None);
    let mut changed = stored;
    changed[120] = 7;
    assert_eq!(Offer::from_account_data(&changed), Some(Offer { bump: 7, ..record() }));
}
