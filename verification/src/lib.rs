//! Serial protocol and polling cache for a four-channel USB water-quality
//! instrument.
//!
//! The crate verifies the parts of the bridge that carry real invariants:
//! the 8-bit checksum over packet bytes, the packet codec (framing, message
//! kinds and their fixed payload sizes), the decoder that turns a 20-byte
//! response into four independently-valid sensor channels, the rule that
//! picks the instrument's serial endpoint, and the staleness-gated cache
//! that rate-limits hardware access. I/O itself (serial transport, HTTP)
//! stays outside and hands this crate plain byte buffers and timestamps.

mod cache;
mod checksum;
mod codec;
mod locate;
mod msg;
mod params;
mod readings;

pub use cache::CacheGuard;
pub use cache::REFRESH_INTERVAL;
pub use cache::lemma_fresh_within_interval;
pub use cache::lemma_stale_after_interval;
pub use checksum::CRC_POLY;
pub use checksum::ChecksumTable;
pub use checksum::crc_entry_spec;
pub use checksum::crc_fold;
pub use checksum::lemma_fold_single_difference;
pub use codec::DecodeError;
pub use codec::EncodeError;
pub use codec::Packet;
pub use codec::decode;
pub use codec::encode;
pub use codec::flip_bit;
pub use codec::lemma_corruption_rejected;
pub use codec::lemma_round_trip;
pub use codec::lemma_tag_corruption_rejected;
pub use codec::spec_decode;
pub use codec::spec_encode;
pub use locate::EndpointInfo;
pub use locate::locate;
pub use locate::spec_is_monitor;
pub use msg::CONTROLS_SIZE;
pub use msg::MAX_PAYLOAD_SIZE;
pub use msg::MsgType;
pub use msg::PARAMS_SIZE;
pub use msg::lemma_tag_round_trip;
pub use params::Params;
pub use readings::OK_BIT;
pub use readings::READINGS_SIZE;
pub use readings::Readings;
pub use readings::SensorError;
pub use readings::be_word;
pub use readings::bytes_to_float_bits;
pub use readings::lemma_channel_independence;
pub use readings::readings_request;
pub use readings::spec_channel;
pub use readings::spec_default_readings;
