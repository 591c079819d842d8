//! In-memory content buffers tagged with a MIME type, converters that fill
//! them from pixel grids and audio samples through external codecs, and an
//! emitter that frames the base64-encoded bytes in a line-oriented text
//! protocol for an interactive host to display.

use vstd::prelude::*;

mod audio;
mod buffer;
mod emit;
mod picture;

pub use audio::interleave_i16;
pub use audio::interleaved;
pub use audio::lemma_interleaved_alternates;

pub use picture::GridView;
pub use picture::PixelFormat;
pub use picture::PixelGrid;
pub use picture::png_accepts;
pub use picture::png_of;

pub use emit::b64_alphabet;
pub use emit::b64_digit;
pub use emit::base64_of;
pub use emit::frame_of;
pub use emit::is_audio_mime;
pub use emit::lemma_display_idempotent;
pub use emit::lemma_ogg_frame_shape;
pub use emit::lemma_png_frame_shape;

pub use buffer::ContentView;
pub use buffer::EvcxrContent;
pub use buffer::SeekFrom;
pub use buffer::seek_target;
pub use buffer::write_at;

verus! {

/// The failures a conversion can surface: the external codec rejected the
/// input or could not be set up, the codec refused to drain its remaining
/// output, or the in-memory sink reported an error.
#[derive(Clone, Copy, Debug, PartialEq, Eq, Structural)]
pub enum ContentError {
    CodecFailure,
    FlushFailure,
    SinkFailure,
}

} // verus!
