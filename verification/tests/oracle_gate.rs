use anchor_lang::Discriminator;
use proof_of_wasted_work::difficulty::EXPECTED_BITCOIN_VERSION;
use proof_of_wasted_work::error::{ErrorCode, SubmitError};
use proof_of_wasted_work::oracle::{
    block_tip, decode_feed, get_tip_data, has_aggregator_shape, read_feed, AggregatorRecord,
    BlockTip, FeedReading, ResolutionMode, AGGREGATOR_ACCOUNT_LEN, AGGREGATOR_TAG_LEN, TIP_BITS,
};
use switchboard_v2::{AggregatorAccountData, AggregatorResolutionMode};

fn aggregator(record: &AggregatorRecord) -> AggregatorAccountData {
    let mut account: AggregatorAccountData = bytemuck::Zeroable::zeroed();
    account.min_oracle_results = record.min_oracle_results;
    account.resolution_mode = match record.resolution_mode {
        ResolutionMode::Round => AggregatorResolutionMode::ModeRoundResolution,
        ResolutionMode::Sliding => AggregatorResolutionMode::ModeSlidingResolution,
    };
    account.latest_confirmed_round.num_success = record.num_success;
    account.latest_confirmed_round.num_error = record.num_error;
    account.latest_confirmed_round.round_open_timestamp = record.round_open_timestamp;
    account.latest_confirmed_round.result.mantissa = record.mantissa;
    // Fields that the protocol does not read.
    account.current_round.num_success = 77;
    account.latest_confirmed_round.result.scale = 9;
    account
}

fn feed_of(record: &AggregatorRecord) -> Vec<u8> {
    let mut data = AggregatorAccountData::discriminator().to_vec();
    data.extend_from_slice(bytemuck::bytes_of(&aggregator(record)));
    data
}

fn sample() -> AggregatorRecord {
    AggregatorRecord {
        min_oracle_results: 2,
        resolution_mode: ResolutionMode::Round,
        num_success: 3,
        num_error: 1,
        round_open_timestamp: 1_700_000_123,
        mantissa: 840_000,
    }
}

#[test]
fn feed_account_length_is_that_of_an_aggregator() {
    assert_eq!(AGGREGATOR_ACCOUNT_LEN, 3851);
    assert_eq!(
        AGGREGATOR_ACCOUNT_LEN,
        8 + std::mem::size_of::<AggregatorAccountData>()
    );
    assert_eq!(feed_of(&sample()).len(), AGGREGATOR_ACCOUNT_LEN);
}

#[test]
fn feed_is_decoded_into_the_fields_the_protocol_reads() {
    assert_eq!(decode_feed(&feed_of(&sample())), Some(sample()));
    let other = AggregatorRecord {
        min_oracle_results: u32::MAX,
        resolution_mode: ResolutionMode::Sliding,
        num_success: 0,
        num_error: u32::MAX,
        round_open_timestamp: i64::MIN,
        mantissa: i128::MIN + 5,
    };
    assert_eq!(decode_feed(&feed_of(&other)), Some(other));
}

#[test]
fn feed_of_the_wrong_length_is_not_decoded() {
    let data = feed_of(&sample());
    assert_eq!(decode_feed(&[]), None);
    assert_eq!(decode_feed(&data[..7]), None);
    assert_eq!(decode_feed(&data[..8]), None);
    assert_eq!(decode_feed(&data[..AGGREGATOR_ACCOUNT_LEN - 1]), None);
    let mut longer = data.clone();
    longer.push(0);
    assert_eq!(decode_feed(&longer), None);
    assert_eq!(read_feed(&longer), Err(ErrorCode::InvalidOracleValue));
    assert_eq!(read_feed(&[]), Err(ErrorCode::InvalidOracleValue));
}

/// Where the decoder keeps what `set` changes in an aggregator that is
/// otherwise zero: the places in the account whose bytes differ.
fn places(set: fn(&mut AggregatorAccountData)) -> Vec<usize> {
    let plain: AggregatorAccountData = bytemuck::Zeroable::zeroed();
    let mut changed: AggregatorAccountData = bytemuck::Zeroable::zeroed();
    set(&mut changed);
    let (a, b) = (bytemuck::bytes_of(&plain), bytemuck::bytes_of(&changed));
    (0..a.len()).filter(|&i| a[i] != b[i]).map(|i| i + AGGREGATOR_TAG_LEN).collect()
}

fn set_mode(account: &mut AggregatorAccountData) {
    account.resolution_mode = AggregatorResolutionMode::ModeSlidingResolution;
}

fn set_flags(account: &mut AggregatorAccountData) {
    account.is_locked = true;
    account.disable_crank = true;
    account.latest_confirmed_round.is_closed = true;
    account.latest_confirmed_round.medians_fulfilled = [true; 16];
    account.latest_confirmed_round.errors_fulfilled = [true; 16];
    account.current_round.is_closed = true;
    account.current_round.medians_fulfilled = [true; 16];
    account.current_round.errors_fulfilled = [true; 16];
}

fn set_numbers(account: &mut AggregatorAccountData) {
    account.min_oracle_results = u32::MAX;
    account.latest_confirmed_round.num_success = u32::MAX;
    account.latest_confirmed_round.num_error = u32::MAX;
    account.latest_confirmed_round.round_open_timestamp = -1;
    account.latest_confirmed_round.result.mantissa = -1;
}

#[test]
fn feed_with_a_byte_that_is_no_mode_is_not_decoded() {
    let at = places(set_mode);
    assert_eq!(at.len(), 1);
    for mode in [2u8, 7, 128, 255] {
        let mut data = feed_of(&sample());
        data[at[0]] = mode;
        assert!(!has_aggregator_shape(&data));
        assert_eq!(decode_feed(&data), None);
        assert_eq!(read_feed(&data), Err(ErrorCode::InvalidOracleValue));
        assert_eq!(
            get_tip_data(&data, 5),
            Err(SubmitError::Protocol(ErrorCode::InvalidOracleValue))
        );
    }
    let mut data = feed_of(&sample());
    data[at[0]] = 1;
    assert_eq!(
        decode_feed(&data),
        Some(AggregatorRecord { resolution_mode: ResolutionMode::Sliding, ..sample() })
    );
}

#[test]
fn feed_with_a_byte_that_is_no_flag_is_not_decoded() {
    let at = places(set_flags);
    assert_eq!(at.len(), 68);
    for place in at {
        let mut data = feed_of(&sample());
        data[place] = 1;
        assert!(has_aggregator_shape(&data));
        assert_eq!(decode_feed(&data), Some(sample()));
        data[place] = 7;
        assert!(!has_aggregator_shape(&data));
        assert_eq!(decode_feed(&data), None);
    }
}

#[test]
fn feed_may_hold_any_byte_where_a_number_lies() {
    let numbers = places(set_numbers);
    assert_eq!(numbers.len(), 4 + 4 + 4 + 8 + 16);
    let marked: Vec<usize> = places(set_flags).into_iter().chain(places(set_mode)).collect();
    let mut data = feed_of(&sample());
    for place in AGGREGATOR_TAG_LEN..AGGREGATOR_ACCOUNT_LEN {
        if !marked.contains(&place) {
            data[place] = 0xff;
        }
    }
    assert!(has_aggregator_shape(&data));
    assert_eq!(
        decode_feed(&data),
        Some(AggregatorRecord {
            min_oracle_results: u32::MAX,
            resolution_mode: ResolutionMode::Round,
            num_success: u32::MAX,
            num_error: u32::MAX,
            round_open_timestamp: -1,
            mantissa: -1,
        })
    );
}

#[test]
fn shape_needs_the_length_of_an_aggregator() {
    let data = feed_of(&sample());
    assert!(has_aggregator_shape(&data));
    assert!(!has_aggregator_shape(&data[..AGGREGATOR_ACCOUNT_LEN - 1]));
    assert!(!has_aggregator_shape(&[]));
    // The tag is not part of the shape: it is the decoder that reads it.
    assert!(has_aggregator_shape(&vec![0u8; AGGREGATOR_ACCOUNT_LEN]));
    assert_eq!(AGGREGATOR_TAG_LEN, 8);
}

#[test]
fn feed_with_another_tag_is_not_decoded() {
    let mut data = feed_of(&sample());
    data[0] ^= 0xff;
    assert_eq!(decode_feed(&data), None);
    assert_eq!(read_feed(&data), Err(ErrorCode::InvalidOracleValue));
    assert_eq!(read_feed(&vec![0u8; AGGREGATOR_ACCOUNT_LEN]), Err(ErrorCode::InvalidOracleValue));
    assert_eq!(
        get_tip_data(&data, 5),
        Err(SubmitError::Protocol(ErrorCode::InvalidOracleValue))
    );
}

#[test]
fn reading_takes_result_time_and_counts() {
    assert_eq!(
        read_feed(&feed_of(&sample())),
        Ok(FeedReading {
            value: 840_000,
            feed_timestamp: 1_700_000_123,
            success_count: 3,
            error_count: 1,
        })
    );
}

#[test]
fn reading_cuts_result_and_time_to_their_width() {
    let record = AggregatorRecord {
        round_open_timestamp: 0x1_0000_0005,
        mantissa: -1,
        ..sample()
    };
    assert_eq!(
        record.reading(),
        FeedReading {
            value: u64::MAX,
            feed_timestamp: 5,
            success_count: 3,
            error_count: 1,
        }
    );
    let negative = AggregatorRecord { round_open_timestamp: -1, mantissa: 1 << 64, ..sample() };
    assert_eq!(negative.reading().feed_timestamp, u32::MAX);
    assert_eq!(negative.reading().value, 0);
    assert_eq!(read_feed(&feed_of(&record)), Ok(record.reading()));
}

#[test]
fn reading_without_a_successful_round_is_not_trusted() {
    let reading = FeedReading { value: 1, feed_timestamp: 2, success_count: 0, error_count: 9 };
    assert_eq!(reading.reference_timestamp(), Err(ErrorCode::InvalidOracleValue));
    let trusted = FeedReading { success_count: 1, ..reading };
    assert_eq!(trusted.reference_timestamp(), Ok(2));
}

#[test]
fn result_rule_is_the_feeds_own() {
    let modes = [ResolutionMode::Round, ResolutionMode::Sliding];
    for mode in modes {
        for min_oracle_results in [0u32, 1, 2, 3, u32::MAX] {
            for num_success in [0u32, 1, 2, 3, u32::MAX] {
                let record = AggregatorRecord {
                    min_oracle_results,
                    resolution_mode: mode,
                    num_success,
                    ..sample()
                };
                let theirs = aggregator(&record).get_result();
                match record.get_result() {
                    Ok(mantissa) => {
                        assert_eq!(mantissa, 840_000);
                        let value = theirs.unwrap();
                        let got = value.mantissa;
                        assert_eq!(got, 840_000);
                    }
                    Err(e) => {
                        assert_eq!(e, SubmitError::InvalidAggregatorRound);
                        assert!(theirs.is_err());
                        assert!(mode == ResolutionMode::Round && min_oracle_results > num_success);
                    }
                }
            }
        }
    }
}

#[test]
fn tip_takes_its_hashes_from_the_mantissa() {
    let mantissa: i128 = 0x0f0e_0d0c_0b0a_0908_0706_0504_0302_0100;
    let tip = block_tip(mantissa, 1_700_000_000);
    let mut previousblockhash = [0u8; 32];
    previousblockhash[..8].copy_from_slice(&[0, 1, 2, 3, 4, 5, 6, 7]);
    let mut merkle_root = [0u8; 32];
    merkle_root[..8].copy_from_slice(&[8, 9, 10, 11, 12, 13, 14, 15]);
    assert_eq!(
        tip,
        BlockTip {
            previousblockhash,
            merkle_root,
            version: EXPECTED_BITCOIN_VERSION,
            timestamp: 1_700_000_000,
            bits: 0x1d00_ffff,
            height: 0,
        }
    );
    assert_eq!(TIP_BITS, 0x1d00_ffff);
}

#[test]
fn tip_of_a_negative_mantissa_is_its_twos_complement() {
    for mantissa in [-1i128, -2, i128::MIN, i128::MAX, -(1 << 64), 0, 255, 256] {
        let tip = block_tip(mantissa, -1);
        let bytes = mantissa.to_le_bytes();
        let mut previousblockhash = [0u8; 32];
        previousblockhash[..8].copy_from_slice(&bytes[0..8]);
        let mut merkle_root = [0u8; 32];
        merkle_root[..8].copy_from_slice(&bytes[8..16]);
        assert_eq!(tip.previousblockhash, previousblockhash);
        assert_eq!(tip.merkle_root, merkle_root);
        assert_eq!(tip.timestamp, u32::MAX);
        assert_eq!(tip.height, 0);
    }
}

#[test]
fn tip_is_read_from_the_feed() {
    let tip = get_tip_data(&feed_of(&sample()), 42).unwrap();
    assert_eq!(tip, block_tip(840_000, 42));
    assert_eq!(tip.previousblockhash[..3], [0x40, 0xd1, 0x0c]);
    assert_eq!(tip.height, 0);
}

#[test]
fn tip_needs_a_result_by_the_feeds_rule() {
    let starved = AggregatorRecord { min_oracle_results: 4, ..sample() };
    assert_eq!(
        get_tip_data(&feed_of(&starved), 42),
        Err(SubmitError::InvalidAggregatorRound)
    );
    let sliding = AggregatorRecord { resolution_mode: ResolutionMode::Sliding, ..starved };
    assert_eq!(get_tip_data(&feed_of(&sliding), 42), Ok(block_tip(840_000, 42)));
}
