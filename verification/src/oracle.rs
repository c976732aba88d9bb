//! The oracle gate: what the protocol reads from the feed account that
//! anchors it to the chain it follows.

use crate::difficulty::EXPECTED_BITCOIN_VERSION;
use crate::error::{ErrorCode, SubmitError};
use crate::header::u64_le_bytes;
use anchor_lang::AccountDeserialize;
use switchboard_v2::{AggregatorAccountData, AggregatorResolutionMode};
use vstd::prelude::*;

verus! {

/// Length of the tag that opens an account.
pub const AGGREGATOR_TAG_LEN: usize = 8;

/// Length of a feed account: its tag, then the packed aggregator.
pub const AGGREGATOR_ACCOUNT_LEN: usize = 3851;

/// The difficulty bits that every tip is reported with.
pub const TIP_BITS: u32 = 0x1d00ffff;

/// How a feed settles on its result.
#[derive(Clone, Copy, Debug, PartialEq, Eq, Structural)]
pub enum ResolutionMode {
    /// Round by round: a result counts once enough oracles have answered.
    Round,
    /// Over a sliding window of answers.
    Sliding,
}

/// What the protocol reads from a decoded feed account.
#[derive(Clone, Copy, Debug, PartialEq, Eq, Structural)]
pub struct AggregatorRecord {
    /// Number of successful responses that the feed asks of a round.
    pub min_oracle_results: u32,
    pub resolution_mode: ResolutionMode,
    /// Successful responses in the latest confirmed round.
    pub num_success: u32,
    /// Failed responses in the latest confirmed round.
    pub num_error: u32,
    /// When the latest confirmed round was opened, in seconds.
    pub round_open_timestamp: i64,
    /// Mantissa of the latest confirmed round's result.
    pub mantissa: i128,
}

/// What the protocol takes from the feed to judge a submission.
#[derive(Clone, Copy, Debug, PartialEq, Eq, Structural)]
pub struct FeedReading {
    pub value: u64,
    pub feed_timestamp: u32,
    pub success_count: u32,
    pub error_count: u32,
}

/// The chain tip as the feed reports it.
#[derive(Clone, Copy, Debug, PartialEq, Eq)]
pub struct BlockTip {
    pub previousblockhash: [u8; 32],
    pub merkle_root: [u8; 32],
    pub version: u32,
    pub timestamp: u32,
    pub bits: u32,
    pub height: u32,
}

/// The bytes, after the tag, of an aggregator account in which every flag
/// is `flags`, the resolution mode is `mode`, and everything else is zero:
/// as `bytemuck` lays an `AggregatorAccountData` out.
pub uninterp spec fn aggregator_image(flags: bool, mode: ResolutionMode) -> Seq<u8>;

/// Calls `bytemuck::bytes_of` on an `AggregatorAccountData` that
/// `bytemuck::Zeroable::zeroed` made and whose flags and mode are set from
/// the arguments. Trusted: the bytes depend on the arguments alone, and
/// there are as many as the account has after its tag.
#[verifier::external_body]
fn image_of_aggregator(flags: bool, mode: ResolutionMode) -> (image: Vec<u8>)
    ensures
        image@ == aggregator_image(flags, mode),
        image@.len() == AGGREGATOR_ACCOUNT_LEN - AGGREGATOR_TAG_LEN,
{
    let mut account: AggregatorAccountData = bytemuck::Zeroable::zeroed();
    account.is_locked = flags;
    account.disable_crank = flags;
    account.latest_confirmed_round.is_closed = flags;
    account.latest_confirmed_round.medians_fulfilled = [flags; 16];
    account.latest_confirmed_round.errors_fulfilled = [flags; 16];
    account.current_round = account.latest_confirmed_round;
    account.resolution_mode = match mode {
        ResolutionMode::Round => AggregatorResolutionMode::ModeRoundResolution,
        ResolutionMode::Sliding => AggregatorResolutionMode::ModeSlidingResolution,
    };
    bytemuck::bytes_of(&account).to_vec()
}

/// Which bytes of an account are read as a flag or as the resolution mode:
/// those that are set in the image of an aggregator with every flag up and
/// the sliding mode, where all else is zero. The positions are taken from
/// the decoder itself, which is free to order the fields as it likes.
pub open spec fn flag_marks() -> Seq<u8> {
    aggregator_image(true, ResolutionMode::Sliding)
}

/// Whether the bytes of `feed` from `from` on that are read as a flag or as
/// the mode hold a flag or a mode: zero or one.
pub open spec fn flags_settled_from(feed: Seq<u8>, from: int) -> bool {
    forall|i: int|
        from <= i < flag_marks().len() && flag_marks()[i] != 0 ==> #[trigger] feed[
            AGGREGATOR_TAG_LEN + i] <= 1
}

/// Whether a feed account has the shape of an aggregator: the length of
/// one, and zero or one in every byte that is read as a flag or as the
/// resolution mode. Any other byte there has no meaning to the decoder.
pub open spec fn aggregator_shaped(feed: Seq<u8>) -> bool {
    feed.len() == AGGREGATOR_ACCOUNT_LEN && flags_settled_from(feed, 0)
}

/// The record that `switchboard_v2` decodes from the bytes of a feed
/// account of an aggregator's shape, if it accepts them. The decoder reads
/// the account in the byte order and the field order of the program it is
/// built into: the name stands for the decoding of that program.
pub uninterp spec fn aggregator_record(data: Seq<u8>) -> Option<AggregatorRecord>;

/// Calls `AggregatorAccountData::try_deserialize`. Trusted: whether the
/// bytes are accepted, and the six fields read from the decoded account,
/// depend on the bytes alone. The shape is asked for because the call
/// panics on an account that carries the aggregator's tag and has any
/// other length, and because it hands out flags and a mode that must each
/// be zero or one to mean anything.
#[verifier::external_body]
fn deserialize_aggregator(data: &[u8]) -> (record: Option<AggregatorRecord>)
    requires
        aggregator_shaped(data@),
    ensures
        record == aggregator_record(data@),
{
    let mut buf: &[u8] = data;
    let account = AggregatorAccountData::try_deserialize(&mut buf).ok()?;
    Some(AggregatorRecord {
        min_oracle_results: account.min_oracle_results,
        resolution_mode: match account.resolution_mode {
            AggregatorResolutionMode::ModeRoundResolution => ResolutionMode::Round,
            AggregatorResolutionMode::ModeSlidingResolution => ResolutionMode::Sliding,
        },
        num_success: account.latest_confirmed_round.num_success,
        num_error: account.latest_confirmed_round.num_error,
        round_open_timestamp: account.latest_confirmed_round.round_open_timestamp,
        mantissa: account.latest_confirmed_round.result.mantissa,
    })
}

/// The record in a feed account: none if the account has not the shape of
/// an aggregator, or is not accepted as one.
pub open spec fn feed_record(feed: Seq<u8>) -> Option<AggregatorRecord> {
    if aggregator_shaped(feed) {
        aggregator_record(feed)
    } else {
        None
    }
}

/// Whether a feed account has the shape of an aggregator.
pub fn has_aggregator_shape(feed: &[u8]) -> (shaped: bool)
    ensures
        shaped == aggregator_shaped(feed@),
{
    if feed.len() != AGGREGATOR_ACCOUNT_LEN {
        return false;
    }
    let marks = image_of_aggregator(true, ResolutionMode::Sliding);
    let mut i: usize = marks.len();
    while i > 0
        invariant
            i <= marks.len(),
            marks@ == flag_marks(),
            marks@.len() == AGGREGATOR_ACCOUNT_LEN - AGGREGATOR_TAG_LEN,
            feed@.len() == AGGREGATOR_ACCOUNT_LEN,
            flags_settled_from(feed@, i as int),
        decreases i,
    {
        i = i - 1;
        if marks[i] != 0 && feed[AGGREGATOR_TAG_LEN + i] > 1 {
            assert(!flags_settled_from(feed@, 0));
            return false;
        }
    }
    true
}

/// Decodes a feed account.
pub fn decode_feed(feed: &[u8]) -> (record: Option<AggregatorRecord>)
    ensures
        record == feed_record(feed@),
{
    if !has_aggregator_shape(feed) {
        return None;
    }
    deserialize_aggregator(feed)
}

impl AggregatorRecord {
    /// The reading that a submission is judged by: the result and the
    /// opening time of the latest confirmed round, each cut to the width it
    /// is used in, and the round's counts.
    pub open spec fn spec_reading(self) -> FeedReading {
        FeedReading {
            value: self.mantissa as u64,
            feed_timestamp: self.round_open_timestamp as u32,
            success_count: self.num_success,
            error_count: self.num_error,
        }
    }

    /// The reading that a submission is judged by.
    #[verifier::when_used_as_spec(spec_reading)]
    pub fn reading(self) -> (reading: FeedReading)
        ensures
            reading == self.spec_reading(),
    {
        FeedReading {
            value: self.mantissa as u64,
            feed_timestamp: self.round_open_timestamp as u32,
            success_count: self.num_success,
            error_count: self.num_error,
        }
    }
}

impl AggregatorRecord {
    /// The feed's own rule for its result: a feed that resolves round by
    /// round has none while its confirmed round holds fewer successful
    /// responses than it asks for. The rule is that of
    /// `AggregatorAccountData::get_result`.
    pub open spec fn spec_get_result(self) -> Result<i128, SubmitError> {
        if self.resolution_mode == ResolutionMode::Round && self.min_oracle_results
            > self.num_success {
            Err(SubmitError::InvalidAggregatorRound)
        } else {
            Ok(self.mantissa)
        }
    }

    /// The mantissa of the feed's result, if the feed has one.
    #[verifier::when_used_as_spec(spec_get_result)]
    pub fn get_result(self) -> (result: Result<i128, SubmitError>)
        ensures
            result == self.spec_get_result(),
    {
        match self.resolution_mode {
            ResolutionMode::Sliding => Ok(self.mantissa),
            ResolutionMode::Round => {
                if self.min_oracle_results > self.num_success {
                    Err(SubmitError::InvalidAggregatorRound)
                } else {
                    Ok(self.mantissa)
                }
            },
        }
    }
}

impl FeedReading {
    /// The time that submitted headers are hashed with: the feed's, if the
    /// feed is to be trusted. A feed whose confirmed round holds no
    /// successful response is not.
    pub open spec fn spec_reference_timestamp(self) -> Result<u32, ErrorCode> {
        if self.success_count == 0 {
            Err(ErrorCode::InvalidOracleValue)
        } else {
            Ok(self.feed_timestamp)
        }
    }

    /// The time that submitted headers are hashed with.
    #[verifier::when_used_as_spec(spec_reference_timestamp)]
    pub fn reference_timestamp(self) -> (timestamp: Result<u32, ErrorCode>)
        ensures
            timestamp == self.spec_reference_timestamp(),
    {
        if self.success_count == 0 {
            Err(ErrorCode::InvalidOracleValue)
        } else {
            Ok(self.feed_timestamp)
        }
    }
}

/// What `read_feed` returns for a feed account with these bytes.
pub open spec fn spec_read_feed(feed: Seq<u8>) -> Result<FeedReading, ErrorCode> {
    match feed_record(feed) {
        Some(record) => Ok(record.spec_reading()),
        None => Err(ErrorCode::InvalidOracleValue),
    }
}

/// Reads the feed: its latest confirmed result, when that round was opened,
/// and how many responses succeeded and failed. A feed that cannot be
/// decoded is an invalid oracle value.
pub fn read_feed(feed: &[u8]) -> (reading: Result<FeedReading, ErrorCode>)
    ensures
        reading == spec_read_feed(feed@),
{
    match decode_feed(feed) {
        Some(record) => Ok(record.reading()),
        None => Err(ErrorCode::InvalidOracleValue),
    }
}

/// The sixteen bytes of a mantissa, as an unsigned number: its two's
/// complement.
pub open spec fn mantissa_bits(mantissa: i128) -> u128 {
    if mantissa >= 0 {
        mantissa as u128
    } else {
        (mantissa + 0x1_0000_0000_0000_0000_0000_0000_0000_0000) as u128
    }
}

/// A hash whose first eight bytes are `word`, least significant byte first,
/// and whose other bytes are zero.
pub open spec fn hash_of_word(word: u64) -> Seq<u8> {
    u64_le_bytes(word) + Seq::new(24, |i: int| 0u8)
}

/// The tip that a feed result stands for. The low half of the mantissa
/// opens the previous block's hash and the high half opens the merkle root;
/// the time is that of the call, cut to 32 bits. The height is not carried
/// by the feed and is always zero.
pub open spec fn tip_view(mantissa: i128, unix_timestamp: i64) -> BlockTipView {
    BlockTipView {
        previousblockhash: hash_of_word((mantissa_bits(mantissa) % 0x1_0000_0000_0000_0000) as u64),
        merkle_root: hash_of_word((mantissa_bits(mantissa) / 0x1_0000_0000_0000_0000) as u64),
        version: EXPECTED_BITCOIN_VERSION,
        timestamp: unix_timestamp as u32,
        bits: TIP_BITS,
        height: 0,
    }
}

/// A chain tip as a mathematical value.
pub struct BlockTipView {
    pub previousblockhash: Seq<u8>,
    pub merkle_root: Seq<u8>,
    pub version: u32,
    pub timestamp: u32,
    pub bits: u32,
    pub height: u32,
}

impl View for BlockTip {
    type V = BlockTipView;

    open spec fn view(&self) -> BlockTipView {
        BlockTipView {
            previousblockhash: self.previousblockhash@,
            merkle_root: self.merkle_root@,
            version: self.version,
            timestamp: self.timestamp,
            bits: self.bits,
            height: self.height,
        }
    }
}

fn word_hash(word: u64) -> (hash: [u8; 32])
    ensures
        hash@ == hash_of_word(word),
{
    let mut hash = [0u8; 32];
    hash[0] = (word % 0x100) as u8;
    hash[1] = (word / 0x100 % 0x100) as u8;
    hash[2] = (word / 0x1_0000 % 0x100) as u8;
    hash[3] = (word / 0x100_0000 % 0x100) as u8;
    hash[4] = (word / 0x1_0000_0000 % 0x100) as u8;
    hash[5] = (word / 0x100_0000_0000 % 0x100) as u8;
    hash[6] = (word / 0x1_0000_0000_0000 % 0x100) as u8;
    hash[7] = (word / 0x100_0000_0000_0000 % 0x100) as u8;
    hash
}

/// Reads a feed result as a chain tip.
pub fn block_tip(mantissa: i128, unix_timestamp: i64) -> (tip: BlockTip)
    ensures
        tip@ == tip_view(mantissa, unix_timestamp),
{
    let bits: u128 = if mantissa >= 0 {
        mantissa as u128
    } else {
        u128::MAX - ((-(mantissa + 1)) as u128)
    };
    BlockTip {
        previousblockhash: word_hash((bits % 0x1_0000_0000_0000_0000) as u64),
        merkle_root: word_hash((bits / 0x1_0000_0000_0000_0000) as u64),
        version: EXPECTED_BITCOIN_VERSION,
        timestamp: unix_timestamp as u32,
        bits: TIP_BITS,
        height: 0,
    }
}

/// What `get_tip_data` returns for a feed account with these bytes, read at
/// this time.
pub open spec fn spec_tip_data(feed: Seq<u8>, unix_timestamp: i64) -> Result<
    BlockTipView,
    SubmitError,
> {
    match feed_record(feed) {
        None => Err(SubmitError::Protocol(ErrorCode::InvalidOracleValue)),
        Some(record) => match record.spec_get_result() {
            Err(e) => Err(e),
            Ok(mantissa) => Ok(tip_view(mantissa, unix_timestamp)),
        },
    }
}

/// Reads the chain tip from the feed. The feed is decoded anew, apart from
/// the reading that a submission is judged by, and must have a result by
/// its own rule.
pub fn get_tip_data(feed: &[u8], unix_timestamp: i64) -> (tip: Result<BlockTip, SubmitError>)
    ensures
        match tip {
            Ok(t) => spec_tip_data(feed@, unix_timestamp) == Ok::<BlockTipView, SubmitError>(t@),
            Err(e) => spec_tip_data(feed@, unix_timestamp) == Err::<BlockTipView, SubmitError>(e),
        },
{
    let record = match decode_feed(feed) {
        Some(record) => record,
        None => {
            return Err(SubmitError::Protocol(ErrorCode::InvalidOracleValue));
        },
    };
    let mantissa = match record.get_result() {
        Ok(mantissa) => mantissa,
        Err(e) => {
            return Err(e);
        },
    };
    Ok(block_tip(mantissa, unix_timestamp))
}

} // verus!
