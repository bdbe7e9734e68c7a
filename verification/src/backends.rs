//! Concrete demuxers, decoders and outputs.
pub mod aaudio;
pub mod android_output;
pub mod pcm;
pub mod simulated_audio;
pub mod wav;
pub mod wav_factory;
