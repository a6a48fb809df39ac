use auction::{
    apply, process_instruction, AuctionError, AuctionSummary, Instruction, Pubkey,
    INSTRUCTION_LEN, SUMMARY_DATA_LEN,
};

fn key(b: u8) -> Pubkey {
    Pubkey { bytes: [b; 32] }
}

fn sample() -> AuctionSummary {
    AuctionSummary { deadline: 1000, winning_bid: 50, winning_pubkey: key(0xAA) }
}

fn encoded(r: &AuctionSummary) -> Vec<u8> {
    let mut v = vec![0u8; SUMMARY_DATA_LEN];
    r.pack_into_slice(&mut v[..]);
    v
}

#[test]
fn scenario_higher_bid_wins() {
    let out = apply(&sample(), &Instruction::PlaceBid(70), 500, Some(key(0xBB)));
    assert_eq!(
        out,
        Ok(AuctionSummary { deadline: 1000, winning_bid: 70, winning_pubkey: key(0xBB) })
    );
}

#[test]
fn scenario_lower_bid_is_ignored() {
    let out = apply(&sample(), &Instruction::PlaceBid(30), 500, Some(key(0xBB)));
    assert_eq!(out, Ok(sample()));
}

#[test]
fn scenario_bid_after_deadline_fails() {
    let out = apply(&sample(), &Instruction::PlaceBid(70), 1001, Some(key(0xBB)));
    assert_eq!(out, Err(AuctionError::AuctionEnded));
}

#[test]
fn scenario_instruction_tags() {
    assert_eq!(Instruction::unpack_from_slice(&[0]), Ok(Instruction::GetSummary));
    assert_eq!(
        Instruction::unpack_from_slice(&[2, 0, 0, 0, 0]),
        Err(AuctionError::InvalidInstruction)
    );
}

#[test]
fn record_layout_is_little_endian() {
    let r = AuctionSummary {
        deadline: 0x0102_0304_0506_0708,
        winning_bid: 0x0A0B_0C0D,
        winning_pubkey: key(0x11),
    };
    let v = encoded(&r);
    assert_eq!(&v[0..8], &[0x08, 0x07, 0x06, 0x05, 0x04, 0x03, 0x02, 0x01]);
    assert_eq!(&v[8..12], &[0x0D, 0x0C, 0x0B, 0x0A]);
    assert_eq!(&v[12..44], &[0x11u8; 32][..]);
}

#[test]
fn record_round_trip() {
    let mut bytes = [0u8; 32];
    for (i, b) in bytes.iter_mut().enumerate() {
        *b = i as u8;
    }
    let r = AuctionSummary {
        deadline: u64::MAX,
        winning_bid: 123_456_789,
        winning_pubkey: Pubkey { bytes },
    };
    let v = encoded(&r);
    assert_eq!(AuctionSummary::unpack_from_slice(&v), Ok(r));
}

#[test]
fn record_pack_overwrites_all_and_keeps_tail() {
    let mut v = vec![0xFFu8; 50];
    let r = AuctionSummary { deadline: 0, winning_bid: 0, winning_pubkey: key(0) };
    r.pack_into_slice(&mut v[..]);
    assert!(v[..44].iter().all(|b| *b == 0));
    assert!(v[44..].iter().all(|b| *b == 0xFF));
}

#[test]
fn record_decode_ignores_extra_bytes() {
    let mut v = encoded(&sample());
    v.extend_from_slice(&[9, 9, 9]);
    assert_eq!(AuctionSummary::unpack_from_slice(&v), Ok(sample()));
}

#[test]
fn record_decode_short_input_fails() {
    let v = encoded(&sample());
    assert_eq!(AuctionSummary::unpack_from_slice(&v[..43]), Err(AuctionError::MalformedRecord));
    assert_eq!(AuctionSummary::unpack_from_slice(&[]), Err(AuctionError::MalformedRecord));
}

#[test]
fn record_decode_zero_deadline() {
    let v = vec![0u8; 44];
    let r = AuctionSummary::unpack_from_slice(&v).unwrap();
    assert_eq!(r.deadline, 0);
    assert_eq!(r.winning_bid, 0);
}

#[test]
fn instruction_round_trip() {
    for i in [Instruction::GetSummary, Instruction::PlaceBid(0), Instruction::PlaceBid(u32::MAX)] {
        let mut v = vec![0xEEu8; INSTRUCTION_LEN];
        i.pack_into_slice(&mut v[..]);
        assert_eq!(Instruction::unpack_from_slice(&v), Ok(i));
    }
}

#[test]
fn instruction_bid_is_little_endian() {
    assert_eq!(
        Instruction::unpack_from_slice(&[1, 0x78, 0x56, 0x34, 0x12]),
        Ok(Instruction::PlaceBid(0x1234_5678))
    );
    let mut v = vec![0u8; 5];
    Instruction::PlaceBid(0x1234_5678).pack_into_slice(&mut v[..]);
    assert_eq!(v, vec![1, 0x78, 0x56, 0x34, 0x12]);
}

#[test]
fn instruction_get_summary_ignores_rest() {
    assert_eq!(Instruction::unpack_from_slice(&[0, 7, 7]), Ok(Instruction::GetSummary));
}

#[test]
fn instruction_too_short() {
    assert_eq!(Instruction::unpack_from_slice(&[]), Err(AuctionError::MalformedInstruction));
    assert_eq!(
        Instruction::unpack_from_slice(&[1, 0, 0, 0]),
        Err(AuctionError::MalformedInstruction)
    );
}

#[test]
fn get_summary_keeps_record() {
    for now in [0u64, 1000, u64::MAX] {
        assert_eq!(apply(&sample(), &Instruction::GetSummary, now, None), Ok(sample()));
    }
}

#[test]
fn deadline_is_inclusive() {
    let at = apply(&sample(), &Instruction::PlaceBid(60), 1000, Some(key(1)));
    assert_eq!(at, Ok(AuctionSummary { deadline: 1000, winning_bid: 60, winning_pubkey: key(1) }));
    let after = apply(&sample(), &Instruction::PlaceBid(60), 1001, Some(key(1)));
    assert_eq!(after, Err(AuctionError::AuctionEnded));
}

#[test]
fn tie_keeps_incumbent() {
    let out = apply(&sample(), &Instruction::PlaceBid(50), 10, Some(key(0xBB))).unwrap();
    assert_eq!(out.winning_pubkey, key(0xAA));
    assert_eq!(out, sample());
}

#[test]
fn bids_in_sequence_never_lower_winner() {
    let mut r = sample();
    let mut last = r.winning_bid;
    for (amount, now) in [(40u32, 1u64), (60, 2), (55, 3), (60, 4), (90, 2000), (80, 999)] {
        if let Ok(next) = apply(&r, &Instruction::PlaceBid(amount), now, Some(key(amount as u8))) {
            r = next;
        }
        assert!(r.winning_bid >= last);
        last = r.winning_bid;
    }
    assert_eq!(r.winning_bid, 80);
    assert_eq!(r.winning_pubkey, key(80));
}

#[test]
fn bid_without_bidder() {
    assert_eq!(
        apply(&sample(), &Instruction::PlaceBid(70), 500, None),
        Err(AuctionError::MissingBidder)
    );
}

#[test]
fn pubkey_comparison() {
    assert!(key(3).same_as(&key(3)));
    let mut b = [3u8; 32];
    b[31] = 4;
    assert!(!key(3).same_as(&Pubkey { bytes: b }));
}

#[test]
fn process_places_bid_in_storage() {
    let program = key(7);
    let mut data = encoded(&sample());
    data.push(0x5A);
    let ix = [1, 70, 0, 0, 0];
    assert_eq!(process_instruction(&program, &program, &mut data[..], &ix, 500, Some(key(0xBB))), Ok(()));
    let expected = AuctionSummary { deadline: 1000, winning_bid: 70, winning_pubkey: key(0xBB) };
    assert_eq!(&data[..44], &encoded(&expected)[..]);
    assert_eq!(data[44], 0x5A);
}

#[test]
fn process_get_summary_rewrites_same_bytes() {
    let program = key(7);
    let mut data = encoded(&sample());
    let before = data.clone();
    assert_eq!(process_instruction(&program, &program, &mut data[..], &[0], 5000, None), Ok(()));
    assert_eq!(data, before);
}

#[test]
fn process_errors_leave_storage_untouched() {
    let program = key(7);
    let before = encoded(&sample());

    let mut data = before.clone();
    let r = process_instruction(&program, &key(8), &mut data[..], &[0], 0, None);
    assert_eq!(r, Err(AuctionError::WrongOwner));
    assert_eq!(data, before);

    let r = process_instruction(&program, &program, &mut data[..], &[9], 0, None);
    assert_eq!(r, Err(AuctionError::InvalidInstruction));
    assert_eq!(data, before);

    let r = process_instruction(&program, &program, &mut data[..], &[1, 0], 0, None);
    assert_eq!(r, Err(AuctionError::MalformedInstruction));
    assert_eq!(data, before);

    let r = process_instruction(&program, &program, &mut data[..], &[1, 99, 0, 0, 0], 1001, Some(key(1)));
    assert_eq!(r, Err(AuctionError::AuctionEnded));
    assert_eq!(data, before);

    let mut short = before[..40].to_vec();
    let r = process_instruction(&program, &program, &mut short[..], &[0], 0, None);
    assert_eq!(r, Err(AuctionError::MalformedRecord));
    assert_eq!(short, before[..40].to_vec());
}
