//! Voice handling state and audio buffers: the listening flag, the wake
//! word, the stand-in detectors, conversion of raw PCM bytes to WAV, and the
//! buffering of continuously captured audio.

use vstd::prelude::*;
use vstd::utf8::encode_utf8;

verus! {

/// An audio device as the agent lists it.
#[derive(Clone, Debug)]
pub struct AudioDevice {
    pub id: String,
    pub name: String,
    pub is_input: bool,
    pub is_default: bool,
}

/// Why audio could not be converted.
#[derive(Clone, Copy, Debug, PartialEq, Eq, Structural)]
pub enum VoiceError {
    /// The WAV writer reported an error.
    WavEncodingFailed,
}

/// The voice processor's settings and listening state. It is not `Clone`:
/// there is one listening flag per processor, and everything that listens
/// or stops listening shares the processor itself (the shell holds it
/// behind a lock), so all of them see the same flag.
#[derive(Debug)]
pub struct VoiceProcessor {
    listening: bool,
    wake_word: String,
    language: String,
}

/// The size of the buffer at which continuously captured audio is examined.
pub const AUDIO_WINDOW: usize = 16384;

/// The stand-in command that `extract_command` reports for index `i`.
pub open spec fn extracted_command(i: int) -> Seq<char> {
    if i == 0 {
        "Show me today's leads"@
    } else if i == 1 {
        "Create a new lead for John Doe"@
    } else if i == 2 {
        "Send WhatsApp message to customer"@
    } else if i == 3 {
        "Open Excel and create sales report"@
    } else {
        "Schedule a meeting for tomorrow"@
    }
}

/// The stand-in command that continuous processing reports for index `i`.
pub open spec fn continuous_command(i: int) -> Seq<char> {
    if i == 0 {
        "Show me today's leads"@
    } else if i == 1 {
        "Create Excel report"@
    } else if i == 2 {
        "Send WhatsApp message"@
    } else if i == 3 {
        "Schedule meeting"@
    } else {
        "Open calculator"@
    }
}

/// The number of bytes of the UTF-8 encoding of `s`.
pub open spec fn utf8_len(s: Seq<char>) -> nat {
    encode_utf8(s).len()
}

/// The stand-in wake-word test of continuous processing: the audio is
/// longer than a thousand bytes per byte of the wake word.
pub open spec fn wake_word_heard(audio_len: nat, wake_word: Seq<char>) -> bool {
    audio_len > utf8_len(wake_word) * 1000
}

/// One step of continuous processing with wake word `wake_word`: `chunk`
/// is appended to `before`; once that holds `AUDIO_WINDOW` bytes or more it
/// is examined and emptied (`after`), and a command comes out (`r`) when the
/// wake word was heard.
pub open spec fn window_step(
    before: Seq<u8>,
    chunk: Seq<u8>,
    wake_word: Seq<char>,
    after: Seq<u8>,
    r: Option<String>,
) -> bool {
    let filled = before + chunk;
    if filled.len() >= AUDIO_WINDOW {
        &&& after.len() == 0
        &&& match r {
            Some(c) => wake_word_heard(filled.len(), wake_word) && c@ == continuous_command(
                (filled.len() % 5) as int,
            ),
            None => !wake_word_heard(filled.len(), wake_word),
        }
    } else {
        after == filled && r is None
    }
}

impl VoiceProcessor {
    /// Whether the processor is listening.
    pub closed spec fn listening(&self) -> bool {
        self.listening
    }

    /// The wake word.
    pub closed spec fn wake_word(&self) -> Seq<char> {
        self.wake_word@
    }

    /// The recognition language.
    pub closed spec fn language(&self) -> Seq<char> {
        self.language@
    }

    /// A processor that is not listening, with wake word "Hey NeeN" and
    /// language "en-US".
    pub fn new() -> (v: Self)
        ensures
            !v.listening(),
            v.wake_word() == "Hey NeeN"@,
            v.language() == "en-US"@,
    {
        VoiceProcessor {
            listening: false,
            wake_word: String::from_str("Hey NeeN"),
            language: String::from_str("en-US"),
        }
    }

    /// The wake word.
    pub fn wake_word_text(&self) -> (r: &str)
        ensures
            r@ == self.wake_word(),
    {
        self.wake_word.as_str()
    }

    /// Marks the processor as listening.
    pub fn start_listening(&mut self)
        ensures
            final(self).listening(),
            final(self).wake_word() == old(self).wake_word(),
            final(self).language() == old(self).language(),
    {
        self.listening = true;
    }

    /// Marks the processor as not listening.
    pub fn stop_listening(&mut self)
        ensures
            !final(self).listening(),
            final(self).wake_word() == old(self).wake_word(),
            final(self).language() == old(self).language(),
    {
        self.listening = false;
    }

    /// Whether the processor is listening.
    pub fn is_listening(&self) -> (r: bool)
        ensures
            r == self.listening(),
    {
        self.listening
    }

    /// Sets the wake word.
    pub fn set_wake_word(&mut self, wake_word: String)
        ensures
            final(self).wake_word() == wake_word@,
            final(self).listening() == old(self).listening(),
            final(self).language() == old(self).language(),
    {
        self.wake_word = wake_word;
    }

    /// Sets the recognition language.
    pub fn set_language(&mut self, language: String)
        ensures
            final(self).language() == language@,
            final(self).listening() == old(self).listening(),
            final(self).wake_word() == old(self).wake_word(),
    {
        self.language = language;
    }

    /// The stand-in wake-word detector: audio of more than 1000 bytes counts
    /// as holding the wake word.
    pub fn detect_wake_word(&self, audio_data: &[u8]) -> (r: bool)
        ensures
            r == (audio_data@.len() > 1000),
    {
        audio_data.len() > 1000
    }

    /// The stand-in command extractor: one of five fixed commands, chosen by
    /// the audio length modulo five.
    pub fn extract_command(&self, audio_data: &[u8]) -> (r: String)
        ensures
            r@ == extracted_command((audio_data@.len() % 5) as int),
    {
        let i = audio_data.len() % 5;
        if i == 0 {
            String::from_str("Show me today's leads")
        } else if i == 1 {
            String::from_str("Create a new lead for John Doe")
        } else if i == 2 {
            String::from_str("Send WhatsApp message to customer")
        } else if i == 3 {
            String::from_str("Open Excel and create sales report")
        } else {
            String::from_str("Schedule a meeting for tomorrow")
        }
    }

    /// The wake-word test used while processing audio continuously.
    pub fn simulate_wake_word_detection(audio_data: &[u8], wake_word: &str) -> (r: bool)
        requires
            utf8_len(wake_word@) * 1000 <= usize::MAX,
        ensures
            r == wake_word_heard(audio_data@.len(), wake_word@),
    {
        let threshold = wake_word.len() * 1000;
        audio_data.len() > threshold
    }

    /// The command extraction used while processing audio continuously.
    pub fn simulate_command_extraction(audio_data: &[u8]) -> (r: String)
        ensures
            r@ == continuous_command((audio_data@.len() % 5) as int),
    {
        let i = audio_data.len() % 5;
        if i == 0 {
            String::from_str("Show me today's leads")
        } else if i == 1 {
            String::from_str("Create Excel report")
        } else if i == 2 {
            String::from_str("Send WhatsApp message")
        } else if i == 3 {
            String::from_str("Schedule meeting")
        } else {
            String::from_str("Open calculator")
        }
    }

    /// One step of continuous processing: `chunk` is appended to `buffer`;
    /// once the buffer holds `AUDIO_WINDOW` bytes or more it is examined and
    /// emptied, and a command comes out when the wake word was heard.
    pub fn process_audio_chunk(&self, buffer: &mut Vec<u8>, chunk: &[u8]) -> (r: Option<String>)
        requires
            utf8_len(self.wake_word()) * 1000 <= usize::MAX,
            old(buffer)@.len() + chunk@.len() <= usize::MAX,
        ensures
            window_step(old(buffer)@, chunk@, self.wake_word(), final(buffer)@, r),
    {
        Self::process_audio_window(self.wake_word.as_str(), buffer, chunk)
    }

    /// The step of `process_audio_chunk` for the wake word `wake_word`, as
    /// continuous processing runs it with the wake word it took at its start.
    pub fn process_audio_window(wake_word: &str, buffer: &mut Vec<u8>, chunk: &[u8]) -> (r: Option<String>)
        requires
            utf8_len(wake_word@) * 1000 <= usize::MAX,
            old(buffer)@.len() + chunk@.len() <= usize::MAX,
        ensures
            window_step(old(buffer)@, chunk@, wake_word@, final(buffer)@, r),
    {
        let ghost start = buffer@;
        let n = chunk.len();
        let mut i: usize = 0;
        while i < n
            invariant
                i <= n,
                n == chunk@.len(),
                buffer@ == start + chunk@.take(i as int),
            decreases n - i,
        {
            buffer.push(chunk[i]);
            proof {
                assert(chunk@.take(i + 1) =~= chunk@.take(i as int).push(chunk@[i as int]));
            }
            i += 1;
        }
        proof {
            assert(chunk@.take(n as int) =~= chunk@);
        }
        if buffer.len() >= AUDIO_WINDOW {
            let result = if Self::simulate_wake_word_detection(buffer.as_slice(), wake_word) {
                Some(Self::simulate_command_extraction(buffer.as_slice()))
            } else {
                None
            };
            buffer.clear();
            result
        } else {
            None
        }
    }

    /// The audio devices: a default and a built-in microphone, and built-in
    /// speakers.
    pub fn get_audio_devices(&self) -> (r: Vec<AudioDevice>)
        ensures
            r@.len() == 3,
            r@[0].id@ == "default"@ && r@[0].name@ == "Default Microphone"@ && r@[0].is_input
                && r@[0].is_default,
            r@[1].id@ == "builtin"@ && r@[1].name@ == "Built-in Microphone"@ && r@[1].is_input
                && !r@[1].is_default,
            r@[2].id@ == "speakers"@ && r@[2].name@ == "Built-in Speakers"@ && !r@[2].is_input
                && r@[2].is_default,
    {
        let mut r: Vec<AudioDevice> = Vec::new();
        r.push(
            AudioDevice {
                id: String::from_str("default"),
                name: String::from_str("Default Microphone"),
                is_input: true,
                is_default: true,
            },
        );
        r.push(
            AudioDevice {
                id: String::from_str("builtin"),
                name: String::from_str("Built-in Microphone"),
                is_input: true,
                is_default: false,
            },
        );
        r.push(
            AudioDevice {
                id: String::from_str("speakers"),
                name: String::from_str("Built-in Speakers"),
                is_input: false,
                is_default: true,
            },
        );
        r
    }

    /// Converts raw 16-bit little-endian mono PCM to a WAV file at
    /// `sample_rate`; a trailing odd byte is dropped. The WAV format counts
    /// its size in 32 bits: the samples and the 36 bytes of header after the
    /// size field must fit. The header holds the byte rate (twice the sample
    /// rate) in 32 bits and is checked by dividing it by the sample rate, so
    /// the sample rate is positive and at most half of `u32::MAX`. The
    /// result is the 44-byte header followed by the input's byte pairs.
    pub fn convert_to_wav(&self, audio_data: &[u8], sample_rate: u32) -> (r: Result<Vec<u8>, VoiceError>)
        requires
            (audio_data@.len() / 2) * 2 + 36 <= u32::MAX,
            0 < sample_rate,
            sample_rate * 2 <= u32::MAX,
        ensures
            r matches Ok(bytes) && bytes@ == wav_mono16_layout(
                sample_rate,
                pcm16_samples_spec(audio_data@),
            ) && bytes@.len() == 44 + 2 * (audio_data@.len() / 2) && bytes@.skip(44)
                == audio_data@.take(2 * (audio_data@.len() / 2) as int),
    {
        proof {
            lemma_pcm_bytes_round_trip(audio_data@, (audio_data@.len() / 2) as int);
            assert(pcm16_samples_spec(audio_data@).take((audio_data@.len() / 2) as int)
                =~= pcm16_samples_spec(audio_data@));
            let layout = wav_mono16_layout(sample_rate, pcm16_samples_spec(audio_data@));
            let body = samples_bytes(pcm16_samples_spec(audio_data@));
            assert(layout.skip(44) =~= body);
        }
        let samples = pcm16_samples(audio_data);
        match encode_wav_mono16(samples.as_slice(), sample_rate) {
            Ok(bytes) => Ok(bytes),
            Err(_) => Err(VoiceError::WavEncodingFailed),
        }
    }
}

/// The signed 16-bit value of a little-endian byte pair.
pub open spec fn le_i16(lo: u8, hi: u8) -> i16 {
    let v = lo as int + 256 * hi as int;
    (if v >= 32768 {
        v - 65536
    } else {
        v
    }) as i16
}

/// The samples of raw 16-bit little-endian PCM: one per complete byte pair.
pub open spec fn pcm16_samples_spec(bytes: Seq<u8>) -> Seq<i16> {
    Seq::new(bytes.len() / 2, |i: int| le_i16(bytes[2 * i], bytes[2 * i + 1]))
}

/// The two bytes of `x` (below 2^16), least significant first.
pub open spec fn le16_bytes(x: int) -> Seq<u8> {
    seq![(x % 256) as u8, (x / 256) as u8]
}

/// The four bytes of `x` (below 2^32), least significant first.
pub open spec fn le32_bytes(x: int) -> Seq<u8> {
    seq![(x % 256) as u8, ((x / 256) % 256) as u8, ((x / 65536) % 256) as u8, (x / 16777216) as u8]
}

/// The two bytes of a sample in two's complement, least significant first.
pub open spec fn sample_bytes(s: i16) -> Seq<u8> {
    le16_bytes(if s < 0 {
        s + 65536
    } else {
        s as int
    })
}

/// The bytes of the samples, one pair per sample, in order.
pub open spec fn samples_bytes(samples: Seq<i16>) -> Seq<u8>
    decreases samples.len(),
{
    if samples.len() == 0 {
        Seq::empty()
    } else {
        samples_bytes(samples.drop_last()) + sample_bytes(samples.last())
    }
}

/// A mono WAV file of 16-bit integer samples: the RIFF header with the size
/// of what follows it, the 16-byte format chunk (PCM, one channel, the
/// sample rate, the byte rate, two bytes per frame, 16 bits per sample) and
/// the data chunk with the samples.
pub open spec fn wav_mono16_layout(sample_rate: u32, samples: Seq<i16>) -> Seq<u8> {
    let data_len: int = 2 * (samples.len() as int);
    seq![0x52u8, 0x49u8, 0x46u8, 0x46u8] + le32_bytes(data_len + 36) + seq![
        0x57u8,
        0x41u8,
        0x56u8,
        0x45u8,
    ] + seq![0x66u8, 0x6du8, 0x74u8, 0x20u8] + le32_bytes(16) + le16_bytes(1) + le16_bytes(1)
        + le32_bytes(sample_rate as int) + le32_bytes(2 * sample_rate) + le16_bytes(2)
        + le16_bytes(16) + seq![0x64u8, 0x61u8, 0x74u8, 0x61u8] + le32_bytes(data_len)
        + samples_bytes(samples)
}

/// A sample read from a byte pair is written back as the same pair.
proof fn lemma_sample_round_trip(lo: u8, hi: u8)
    ensures
        sample_bytes(le_i16(lo, hi)) == seq![lo, hi],
{
    let v = lo as int + 256 * hi as int;
    assert(v % 256 == lo as int && v / 256 == hi as int) by (nonlinear_arith)
        requires
            v == lo as int + 256 * hi as int,
            0 <= lo < 256,
            0 <= hi < 256,
    ;
    assert(sample_bytes(le_i16(lo, hi)) =~= seq![lo, hi]);
}

/// The first `k` samples read from `bytes` are written back as its first
/// `2k` bytes.
proof fn lemma_pcm_bytes_round_trip(bytes: Seq<u8>, k: int)
    requires
        0 <= k <= bytes.len() / 2,
    ensures
        samples_bytes(pcm16_samples_spec(bytes).take(k)) == bytes.take(2 * k),
    decreases k,
{
    let s = pcm16_samples_spec(bytes);
    if k == 0 {
        assert(s.take(0) =~= Seq::<i16>::empty());
        assert(bytes.take(0) =~= Seq::<u8>::empty());
    } else {
        let j = k - 1;
        lemma_pcm_bytes_round_trip(bytes, j);
        assert(s.take(k).drop_last() =~= s.take(j));
        assert(s.take(k).last() == le_i16(bytes[2 * j], bytes[2 * j + 1]));
        lemma_sample_round_trip(bytes[2 * j], bytes[2 * j + 1]);
        assert(bytes.take(2 * k) =~= bytes.take(2 * j) + seq![bytes[2 * j], bytes[2 * j + 1]]);
    }
}

/// Splits raw 16-bit little-endian PCM into samples.
pub fn pcm16_samples(bytes: &[u8]) -> (r: Vec<i16>)
    ensures
        r@ == pcm16_samples_spec(bytes@),
{
    let mut r: Vec<i16> = Vec::new();
    let n = bytes.len() / 2;
    let mut i: usize = 0;
    while i < n
        invariant
            i <= n,
            n == bytes@.len() / 2,
            bytes@.len() <= usize::MAX,
            r@.len() == i,
            forall|j: int| 0 <= j < i ==> #[trigger] r@[j] == le_i16(bytes@[2 * j], bytes@[2 * j + 1]),
        decreases n - i,
    {
        assert(2 * i + 1 < bytes@.len());
        let lo = bytes[2 * i];
        let hi = bytes[2 * i + 1];
        let v: i32 = lo as i32 + 256 * (hi as i32);
        let sample: i16 = if v >= 32768 {
            (v - 65536) as i16
        } else {
            v as i16
        };
        r.push(sample);
        i += 1;
    }
    assert(r@ =~= pcm16_samples_spec(bytes@));
    r
}

#[verifier::external_type_specification]
#[verifier::external_body]
pub struct ExHoundError(hound::Error);

/// Writes `samples` into an in-memory WAV file with `hound::WavWriter`
/// (`new`, `write_sample` per sample, `finalize`), one channel of 16-bit
/// integers, and returns the bytes that the writer lays out: `write_headers`
/// with the PCM format chunk, `write_le_i16` per sample, and the two sizes
/// filled in by `update_header`. The writer reports an error only for an
/// unsupported bit depth (16 is supported), for a last frame left
/// unfinished (one channel never leaves one), or when its underlying writer
/// fails, and writing to a `Cursor` over a `Vec<u8>` grows the vector as
/// needed; so the writing succeeds. The writer counts the data bytes, and
/// the data bytes plus 36, in `u32` arithmetic that overflows (and so panics
/// in checked builds) beyond `u32::MAX`; its header computes the byte rate as
/// twice the sample rate in `u32` and divides it by the sample rate, which
/// panics for a sample rate of 0 or above half of `u32::MAX`. `requires`
/// rules these inputs out.
#[verifier::external_body]
fn encode_wav_mono16(samples: &[i16], sample_rate: u32) -> (r: Result<Vec<u8>, hound::Error>)
    requires
        samples@.len() * 2 + 36 <= u32::MAX,
        0 < sample_rate,
        sample_rate * 2 <= u32::MAX,
    ensures
        r is Ok,
        r matches Ok(bytes) ==> bytes@ == wav_mono16_layout(sample_rate, samples@),
{
    let spec = hound::WavSpec { channels: 1, sample_rate, bits_per_sample: 16, sample_format: hound::SampleFormat::Int };
    let mut out: Vec<u8> = Vec::new();
    let mut writer = hound::WavWriter::new(std::io::Cursor::new(&mut out), spec)?;
    for s in samples {
        writer.write_sample(*s)?;
    }
    writer.finalize()?;
    Ok(out)
}

/// Law: continuous processing feeds chunks of 4096 bytes into an empty
/// buffer; the first three are only kept, the fourth fills the window of
/// `AUDIO_WINDOW` bytes, which is examined and emptied, and a command comes
/// out exactly when the wake word takes at most 16 bytes of UTF-8.
pub proof fn law_four_chunks_fill_window(
    wake_word: Seq<char>,
    chunks: Seq<Seq<u8>>,
    buffers: Seq<Seq<u8>>,
    results: Seq<Option<String>>,
)
    requires
        chunks.len() == 4,
        buffers.len() == 5,
        results.len() == 4,
        buffers[0].len() == 0,
        forall|i: int| 0 <= i < 4 ==> (#[trigger] chunks[i]).len() == 4096,
        forall|i: int|
            0 <= i < 4 ==> window_step(buffers[i], chunks[i], wake_word, buffers[i + 1], #[trigger] results[i]),
    ensures
        results[0] is None,
        results[1] is None,
        results[2] is None,
        results[3] is Some <==> utf8_len(wake_word) <= 16,
        buffers[4].len() == 0,
{
    assert(chunks[0].len() == 4096 && chunks[1].len() == 4096);
    assert(chunks[2].len() == 4096 && chunks[3].len() == 4096);
    assert(window_step(buffers[0], chunks[0], wake_word, buffers[1], results[0]));
    assert(window_step(buffers[1], chunks[1], wake_word, buffers[2], results[1]));
    assert(window_step(buffers[2], chunks[2], wake_word, buffers[3], results[2]));
    assert(window_step(buffers[3], chunks[3], wake_word, buffers[4], results[3]));
}

} // verus!
