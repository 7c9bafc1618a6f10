//! Hardware-only video codec facade for real-time applications: codec and
//! capability descriptors, the backend registry with its preference order,
//! encoder/decoder configuration checks, pixel-buffer helpers, H.264
//! bitstream framing and slice parsing, and the decisions of the
//! MediaCodec, Media Foundation and NVENC backends.

pub mod backend;
pub mod bitstream;
pub mod capability;
pub mod codec;
pub mod decoder;
pub mod encoder;
pub mod error;
pub mod frame;
pub mod h264;
pub mod mediacodec;
pub mod mf;
pub mod nvenc;
pub mod pixel;
pub mod platform;
pub mod probe;
pub mod registry;
pub mod session;
pub mod slice_coding;
pub mod text;
pub mod util;
pub mod vaapi;

pub use backend::{register, Backend};
pub use bitstream::BitstreamFormat;
pub use capability::{BackendId, CodecCapability, CodecCapabilityBuilder};
pub use codec::{CodecId, Direction, Profile};
pub use decoder::{DecoderConfig, VideoDecoder};
pub use encoder::{EncoderConfig, VideoEncoder};
pub use error::Error;
pub use frame::{DecodedFrame, EncodedUnit, VideoFrame};
pub use pixel::PixelFormat;
pub use probe::{enumerate, enumerate_codec, open_decoder, open_encoder, reset_registry};
pub use registry::Registry;
