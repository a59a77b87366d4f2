//! Audio and transfer encodings: the PCM WAV serialization of synthesized
//! samples and the base64 transport encoding of cached audio bytes.

use vstd::prelude::*;
use std::io::Cursor;
use base64::Engine;

verus! {

/// The bytes of a mono, 24 kHz, 16-bit signed PCM WAV file holding the given
/// samples. The byte layout is a pure function of the samples; the parts the
/// callers rely on are stated on the writer below.
pub uninterp spec fn wav_pcm16_of(samples: Seq<i16>) -> Seq<u8>;

/// Relies on `hound::WavWriter` with a 16-bit mono 24 kHz integer spec: a
/// 44-byte RIFF/WAVE header followed by each sample as two little-endian
/// bytes, all determined by the samples alone.
#[verifier::external_body]
pub fn encode_wav_pcm16(samples: &Vec<i16>) -> (r: Vec<u8>)
    requires
        samples@.len() < 0x4000_0000,
    ensures
        r@ == wav_pcm16_of(samples@),
        r@.len() == 44 + 2 * samples@.len(),
{
    let spec = hound::WavSpec {
        channels: 1,
        sample_rate: 24000,
        bits_per_sample: 16,
        sample_format: hound::SampleFormat::Int,
    };
    let mut cursor = Cursor::new(Vec::new());
    let mut writer = hound::WavWriter::new(&mut cursor, spec).expect("in-memory write cannot fail");
    for sample in samples {
        writer.write_sample(*sample).expect("in-memory write cannot fail");
    }
    writer.finalize().expect("in-memory write cannot fail");
    cursor.into_inner()
}

/// The standard (padded) base64 rendering of a byte sequence.
pub uninterp spec fn base64_std_of(data: Seq<u8>) -> Seq<char>;

/// Relies on `base64::engine::general_purpose::STANDARD`: the padded standard
/// alphabet encoding, four output characters for every three input bytes,
/// determined by the input alone. The length bound keeps the computed output
/// size within `usize`, where the encoder would give up.
#[verifier::external_body]
pub fn base64_standard(data: &Vec<u8>) -> (r: String)
    requires
        data@.len() < 0x4000_0000_0000_0000,
    ensures
        r@ == base64_std_of(data@),
        r@.len() == 4 * ((data@.len() + 2) / 3),
{
    base64::engine::general_purpose::STANDARD.encode(data)
}

} // verus!
