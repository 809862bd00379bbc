//! Compression sniffing, and reassembly of a multi-frame zstd stream into one buffer.
use vstd::prelude::*;
use ruzstd::frame::ReadFrameHeaderError;
use ruzstd::frame_decoder::FrameDecoderError;
use ruzstd::{BlockDecodingStrategy, FrameDecoder};
use vstd::slice::slice_to_vec;
use crate::bytes::le_value;
use crate::error::{Compression, DecodeError};

verus! {

/// ruzstd's decoder of one zstd frame at a time, opaque here; what the decoding
/// relies on is stated over the `decoder_*` names below. Verified code gets a
/// decoder only from `start_frame`, one fresh decoder per frame, so that how a
/// frame decodes depends on the frame's bytes alone.
#[verifier::external_type_specification]
#[verifier::external_body]
pub struct ExFrameDecoder(FrameDecoder);

/// The bytes that the zstd frame at the start of `rest` decompresses to.
pub uninterp spec fn frame_content(rest: Seq<u8>) -> Seq<u8>;

/// How many bytes the zstd frame at the start of `rest` spans, header to checksum.
pub uninterp spec fn frame_size(rest: Seq<u8>) -> nat;

/// Whether a fresh ruzstd decoder reads a frame header at the start of `rest` and
/// then decodes the frame's blocks, up to the last one and its checksum, without error.
pub uninterp spec fn frame_decodes(rest: Seq<u8>) -> bool;

/// The input from the start of the frame that `d` is decoding.
pub uninterp spec fn decoder_source(d: FrameDecoder) -> Seq<u8>;

/// The bytes of the current frame that `d` has handed out so far.
pub uninterp spec fn decoder_taken(d: FrameDecoder) -> Seq<u8>;

/// The decoded bytes that `d` can hand out now.
pub uninterp spec fn decoder_ready(d: FrameDecoder) -> Seq<u8>;

/// How many input bytes of the current frame `d` has read.
pub uninterp spec fn decoder_consumed(d: FrameDecoder) -> nat;

/// Whether `d` has read the last block (and the checksum, if any) of its frame.
pub uninterp spec fn decoder_finished(d: FrameDecoder) -> bool;

/// Whether `rest` starts with a complete skippable-frame header: a magic number in
/// `0x184D2A50..=0x184D2A5F` and a 32-bit length, both little-endian.
pub open spec fn is_skip_frame(rest: Seq<u8>) -> bool {
    &&& rest.len() >= 8
    &&& 0x184D2A50 <= le_value(rest.subrange(0, 4)) <= 0x184D2A5F
}

/// The number of bytes a skippable frame at the start of `rest` declares after its header.
pub open spec fn skip_len(rest: Seq<u8>) -> nat {
    le_value(rest.subrange(4, 8))
}

/// The output of the zstd stream `s` from position `pos` on: skippable frames give
/// nothing, each other frame gives its content. This is the output when every
/// frame decodes.
pub open spec fn zstd_stream(s: Seq<u8>, pos: int) -> Seq<u8>
    decreases s.len() - pos,
{
    if pos < 0 || pos >= s.len() {
        Seq::empty()
    } else {
        let rest = s.subrange(pos, s.len() as int);
        if is_skip_frame(rest) {
            let next = pos + 8 + skip_len(rest);
            if next < s.len() {
                zstd_stream(s, next)
            } else {
                Seq::empty()
            }
        } else {
            let next = pos + frame_size(rest);
            if pos < next < s.len() {
                frame_content(rest) + zstd_stream(s, next)
            } else {
                frame_content(rest)
            }
        }
    }
}

/// Whether the zstd stream `s` decodes from position `pos` on: every frame that is
/// not skippable decodes. Skippable frames always pass.
pub open spec fn zstd_decodes(s: Seq<u8>, pos: int) -> bool
    decreases s.len() - pos,
{
    if pos < 0 || pos >= s.len() {
        true
    } else {
        let rest = s.subrange(pos, s.len() as int);
        if is_skip_frame(rest) {
            let next = pos + 8 + skip_len(rest);
            if next < s.len() {
                zstd_decodes(s, next)
            } else {
                true
            }
        } else {
            let next = pos + frame_size(rest);
            frame_decodes(rest) && if pos < next < s.len() {
                zstd_decodes(s, next)
            } else {
                true
            }
        }
    }
}

/// How reading a frame header at some position went.
pub enum FrameStart {
    /// A frame begins: a decoder started on it, and the length of its header.
    Frame(FrameDecoder, usize),
    /// A skippable frame, with the length it declares after its eight-byte header.
    Skip(u32),
    /// The header is malformed; the decoder's report.
    Failed(String),
}

/// Relies on `FrameDecoder::new` and `FrameDecoder::reset`: a fresh decoder reads a
/// frame header from the input at `pos`. It reports a skippable frame exactly when
/// the input there starts with a skippable-frame header. On a frame it gives the
/// decoder, started on it with nothing read out, and the header's length. Any
/// other outcome is a header that ruzstd refuses, so the frame does not decode.
#[verifier::external_body]
fn start_frame(input: &[u8], pos: usize) -> (r: FrameStart)
    requires
        pos <= input.len(),
    ensures
        (r is Skip) == is_skip_frame(input@.subrange(pos as int, input.len() as int)),
        r matches FrameStart::Skip(n) ==> n == skip_len(
            input@.subrange(pos as int, input.len() as int),
        ),
        r matches FrameStart::Frame(d, n) ==> 0 < n <= input.len() - pos && decoder_source(d)
            == input@.subrange(pos as int, input.len() as int) && decoder_taken(d)
            == Seq::<u8>::empty() && decoder_consumed(d) == n && !decoder_finished(d),
        r is Failed ==> !frame_decodes(input@.subrange(pos as int, input.len() as int)),
{
    let mut d = FrameDecoder::new();
    let mut cursor = std::io::Cursor::new(&input[pos..]);
    match d.reset(&mut cursor) {
        Ok(()) => FrameStart::Frame(d, cursor.position() as usize),
        Err(FrameDecoderError::ReadFrameHeaderError(ReadFrameHeaderError::SkipFrame(_, n))) => {
            FrameStart::Skip(n)
        },
        Err(e) => FrameStart::Failed(format!("{:?}", e)),
    }
}

/// Relies on `FrameDecoder::decode_blocks` with `BlockDecodingStrategy::UptoBytes`:
/// on input that continues the decoder's frame where it stopped, it decodes at least
/// one block, and stops once `batch` more bytes are buffered or the last block (and
/// checksum) is read. It gives how many bytes it read and whether the frame is
/// finished; a finished frame decodes, and its whole content is what was handed out
/// followed by what is ready. An error means the frame does not decode.
#[verifier::external_body]
fn decode_batch(
    d: &mut FrameDecoder,
    input: &[u8],
    pos: usize,
    batch: usize,
) -> (r: Result<(usize, bool), String>)
    requires
        pos <= input.len(),
        !decoder_finished(*old(d)),
        decoder_consumed(*old(d)) <= decoder_source(*old(d)).len(),
        input@.subrange(pos as int, input.len() as int) == decoder_source(*old(d)).subrange(
            decoder_consumed(*old(d)) as int,
            decoder_source(*old(d)).len() as int,
        ),
    ensures
        r matches Ok((n, finished)) ==> {
            &&& 0 < n <= input.len() - pos
            &&& decoder_source(*final(d)) == decoder_source(*old(d))
            &&& decoder_taken(*final(d)) == decoder_taken(*old(d))
            &&& decoder_consumed(*final(d)) == decoder_consumed(*old(d)) + n
            &&& decoder_finished(*final(d)) == finished
            &&& finished ==> frame_decodes(decoder_source(*final(d))) && decoder_taken(*final(d))
                + decoder_ready(*final(d)) == frame_content(decoder_source(*final(d)))
                && decoder_consumed(*final(d)) == frame_size(decoder_source(*final(d)))
        },
        r is Err ==> !frame_decodes(decoder_source(*old(d))),
{
    let mut cursor = std::io::Cursor::new(&input[pos..]);
    match d.decode_blocks(&mut cursor, BlockDecodingStrategy::UptoBytes(batch)) {
        Ok(finished) => Ok((cursor.position() as usize, finished)),
        Err(e) => Err(format!("{:?}", e)),
    }
}

/// Relies on `FrameDecoder::can_collect`: how many decoded bytes can be handed out now.
#[verifier::external_body]
fn ready_len(d: &FrameDecoder) -> (r: usize)
    ensures
        r == decoder_ready(*d).len(),
{
    d.can_collect()
}

/// Relies on `FrameDecoder::collect`: hands out the bytes that are ready, in order.
#[verifier::external_body]
fn collect_ready(d: &mut FrameDecoder) -> (r: Vec<u8>)
    ensures
        r@ == decoder_ready(*old(d)),
        decoder_ready(*final(d)) == Seq::<u8>::empty(),
        decoder_taken(*final(d)) == decoder_taken(*old(d)) + decoder_ready(*old(d)),
        decoder_source(*final(d)) == decoder_source(*old(d)),
        decoder_consumed(*final(d)) == decoder_consumed(*old(d)),
        decoder_finished(*final(d)) == decoder_finished(*old(d)),
{
    d.collect().unwrap_or_default()
}

/// How many decoded bytes may pile up before they are moved to the output.
pub const BATCH_SIZE: usize = 10485760;

/// Decompresses a zstd stream of one or more frames.
///
/// Skippable frames are stepped over; every other frame is decoded in batches of
/// at most `BATCH_SIZE` buffered bytes and appended to the output. The call
/// succeeds exactly when every frame decodes (`zstd_decodes`), and then the output
/// is `zstd_stream(input@, 0)`; otherwise it is `DecompressionFailed`, and no
/// partial output is returned. Empty input, or input of skippable frames only,
/// gives empty output.
pub fn decodebuffer_zstd(input: &[u8]) -> (r: Result<Vec<u8>, DecodeError>)
    ensures
        (r is Ok) == zstd_decodes(input@, 0),
        r matches Ok(out) ==> out@ == zstd_stream(input@, 0),
        r matches Err(e) ==> e is DecompressionFailed,
{
    let mut out: Vec<u8> = Vec::new();
    let mut pos: usize = 0;
    while pos < input.len()
        invariant
            pos <= input.len(),
            zstd_stream(input@, 0) == out@ + zstd_stream(input@, pos as int),
            zstd_decodes(input@, 0) == zstd_decodes(input@, pos as int),
        decreases input.len() - pos,
    {
        let ghost rest = input@.subrange(pos as int, input.len() as int);
        match start_frame(input, pos) {
            FrameStart::Skip(n) => {
                let after = pos + 8;
                if n as u64 >= (input.len() - after) as u64 {
                    pos = input.len();
                } else {
                    pos = after + n as usize;
                }
            },
            FrameStart::Failed(msg) => {
                return Err(DecodeError::DecompressionFailed(msg));
            },
            FrameStart::Frame(dec, header_len) => {
                let mut dec = dec;
                let start = pos;
                let ghost before = out@;
                pos = pos + header_len;
                loop
                    invariant_except_break
                        !decoder_finished(dec),
                    invariant
                        start < pos <= input.len(),
                        rest == input@.subrange(start as int, input.len() as int),
                        !is_skip_frame(rest),
                        zstd_decodes(input@, 0) == zstd_decodes(input@, start as int),
                        decoder_source(dec) == rest,
                        decoder_consumed(dec) == pos - start,
                        out@ == before + decoder_taken(dec),
                    ensures
                        start < pos <= input.len(),
                        frame_decodes(rest),
                        decoder_taken(dec) + decoder_ready(dec) == frame_content(rest),
                        pos - start == frame_size(rest),
                        out@ == before + decoder_taken(dec),
                    decreases input.len() - pos,
                {
                    assert(input@.subrange(pos as int, input.len() as int) =~= rest.subrange(
                        pos - start,
                        rest.len() as int,
                    ));
                    match decode_batch(&mut dec, input, pos, BATCH_SIZE) {
                        Err(msg) => {
                            return Err(DecodeError::DecompressionFailed(msg));
                        },
                        Ok((n, finished)) => {
                            pos = pos + n;
                            if finished {
                                break;
                            }
                            if ready_len(&dec) > BATCH_SIZE {
                                let mut chunk = collect_ready(&mut dec);
                                out.append(&mut chunk);
                                assert(out@ =~= before + decoder_taken(dec));
                            }
                        },
                    }
                }
                let mut chunk = collect_ready(&mut dec);
                out.append(&mut chunk);
                assert(out@ =~= before + frame_content(rest));
                assert(zstd_stream(input@, start as int) =~= frame_content(rest) + zstd_stream(
                    input@,
                    pos as int,
                ));
                assert(zstd_decodes(input@, start as int) == zstd_decodes(input@, pos as int));
            },
        }
    }
    Ok(out)
}

proof fn lemma_stream_suffix(a: Seq<u8>, b: Seq<u8>, k: int)
    requires
        0 <= k,
    ensures
        zstd_stream(a + b, a.len() + k) == zstd_stream(b, k),
        zstd_decodes(a + b, a.len() + k) == zstd_decodes(b, k),
    decreases b.len() - k,
{
    if k < b.len() {
        let rest = (a + b).subrange(a.len() + k, (a + b).len() as int);
        assert(rest =~= b.subrange(k, b.len() as int));
        if is_skip_frame(rest) {
            let next = k + 8 + skip_len(rest);
            if next < b.len() {
                lemma_stream_suffix(a, b, next);
            }
        } else {
            let next = k + frame_size(rest);
            if k < next < b.len() {
                lemma_stream_suffix(a, b, next);
            }
        }
    }
}

/// A skippable frame in front of a zstd stream changes nothing: the stream
/// decompresses to the same bytes, and it decodes exactly when it did without it.
pub proof fn lemma_skip_frame_ignored(skip: Seq<u8>, stream: Seq<u8>)
    requires
        is_skip_frame(skip),
        skip.len() == 8 + skip_len(skip),
    ensures
        zstd_stream(skip + stream, 0) == zstd_stream(stream, 0),
        zstd_decodes(skip + stream, 0) == zstd_decodes(stream, 0),
{
    let all = skip + stream;
    assert(all.subrange(0, all.len() as int).subrange(0, 4) =~= skip.subrange(0, 4));
    assert(all.subrange(0, all.len() as int).subrange(4, 8) =~= skip.subrange(4, 8));
    lemma_stream_suffix(skip, stream, 0);
}

/// How a buffer is packed, going by its first six bytes.
#[derive(Debug, Clone, Copy, PartialEq, Eq, Structural)]
pub enum Container {
    /// No known signature: taken to be plain gt bytes.
    Plain,
    Zstd,
    Unsupported(Compression),
}

/// Whether `s` holds the six-byte probe and it starts with `sig`.
pub open spec fn has_signature(s: Seq<u8>, sig: Seq<u8>) -> bool {
    s.len() >= 6 && s.subrange(0, sig.len() as int) == sig
}

/// The container that the first six bytes of `s` announce: xz `FD 37 7A 58 5A 00`,
/// zstd `28 B5 2F FD`, gzip `1F 8B 08`, zip `50 4B 03 04`. A buffer shorter than
/// six bytes announces none.
pub open spec fn container_of(s: Seq<u8>) -> Container {
    if has_signature(s, seq![0xfdu8, 0x37u8, 0x7au8, 0x58u8, 0x5au8, 0x00u8]) {
        Container::Unsupported(Compression::Xz)
    } else if has_signature(s, seq![0x28u8, 0xb5u8, 0x2fu8, 0xfdu8]) {
        Container::Zstd
    } else if has_signature(s, seq![0x1fu8, 0x8bu8, 0x08u8]) {
        Container::Unsupported(Compression::Gzip)
    } else if has_signature(s, seq![0x50u8, 0x4bu8, 0x03u8, 0x04u8]) {
        Container::Unsupported(Compression::Zip)
    } else {
        Container::Plain
    }
}

/// Whether the first bytes of `s` are `sig`, checked byte by byte.
fn starts_with(s: &[u8], sig: &[u8]) -> (r: bool)
    requires
        sig.len() <= s.len(),
    ensures
        r == (s@.subrange(0, sig@.len() as int) == sig@),
{
    let mut i: usize = 0;
    while i < sig.len()
        invariant
            i <= sig.len() <= s.len(),
            s@.subrange(0, i as int) == sig@.subrange(0, i as int),
        decreases sig.len() - i,
    {
        if s[i] != sig[i] {
            assert(s@.subrange(0, sig@.len() as int)[i as int] != sig@[i as int]);
            return false;
        }
        i = i + 1;
        assert(s@.subrange(0, i as int) =~= sig@.subrange(0, i as int));
    }
    assert(sig@.subrange(0, i as int) =~= sig@);
    true
}

/// Reads the container signature at the start of `input`.
pub fn sniff(input: &[u8]) -> (c: Container)
    ensures
        c == container_of(input@),
{
    if input.len() < 6 {
        return Container::Plain;
    }
    let xz: [u8; 6] = [0xfd, 0x37, 0x7a, 0x58, 0x5a, 0x00];
    let zstd: [u8; 4] = [0x28, 0xb5, 0x2f, 0xfd];
    let gzip: [u8; 3] = [0x1f, 0x8b, 0x08];
    let zip: [u8; 4] = [0x50, 0x4b, 0x03, 0x04];
    assert(xz@ =~= seq![0xfdu8, 0x37u8, 0x7au8, 0x58u8, 0x5au8, 0x00u8]);
    assert(zstd@ =~= seq![0x28u8, 0xb5u8, 0x2fu8, 0xfdu8]);
    assert(gzip@ =~= seq![0x1fu8, 0x8bu8, 0x08u8]);
    assert(zip@ =~= seq![0x50u8, 0x4bu8, 0x03u8, 0x04u8]);
    if starts_with(input, &xz) {
        Container::Unsupported(Compression::Xz)
    } else if starts_with(input, &zstd) {
        Container::Zstd
    } else if starts_with(input, &gzip) {
        Container::Unsupported(Compression::Gzip)
    } else if starts_with(input, &zip) {
        Container::Unsupported(Compression::Zip)
    } else {
        Container::Plain
    }
}

/// Decompresses `input` if it is packed, going by its signature.
///
/// A zstd stream is decompressed, and succeeds exactly when its frames decode
/// (see `decodebuffer_zstd`); xz, gzip and zip are refused with
/// `CompressionUnsupported`; anything else is returned as it is.
pub fn decodebuffer(input: &[u8]) -> (r: Result<Vec<u8>, DecodeError>)
    ensures
        match container_of(input@) {
            Container::Plain => r matches Ok(out) && out@ == input@,
            Container::Zstd => (r is Ok) == zstd_decodes(input@, 0) && (r matches Ok(out) ==> out@
                == zstd_stream(input@, 0)) && (r matches Err(e) ==> e is DecompressionFailed),
            Container::Unsupported(c) => r matches Err(e) && e == DecodeError::CompressionUnsupported(c),
        },
{
    match sniff(input) {
        Container::Plain => Ok(slice_to_vec(input)),
        Container::Zstd => decodebuffer_zstd(input),
        Container::Unsupported(c) => Err(DecodeError::CompressionUnsupported(c)),
    }
}

} // verus!
