use vstd::prelude::*;
use crate::config::Config;
use crate::decimal::dec_seq;
use crate::decimal::push_decimal;
use crate::error::ViuError;
use crate::fit::find_best_fit;
use crate::fit::fit_spec;
use crate::offset::adjust_offset;
use crate::offset::offset_seq;
use crate::probe::contains_needle;
use crate::probe::match_at;
use crate::raster::color_code;
use crate::raster::RasterImage;
use crate::raster::ColorModel;

verus! {

/// The base64 rendering of a byte sequence, standard alphabet with padding.
pub uninterp spec fn base64_of(bytes: Seq<u8>) -> Seq<u8>;

/// The PNG container produced for a raw pixel buffer with the given
/// dimensions and color model code.
pub uninterp spec fn png_of(pixels: Seq<u8>, width: int, height: int, color: int) -> Seq<u8>;

/// The pixel dimensions of the image decoded from raw file bytes, or nothing
/// where the bytes decode to no image.
pub uninterp spec fn decoded_dims_of(bytes: Seq<u8>) -> Option<(u32, u32)>;

/// A byte of the standard base64 alphabet: A-Z, a-z, 0-9, '+', '/'.
pub open spec fn base64_alphabet(b: u8) -> bool {
    ||| 0x41 <= b <= 0x5a
    ||| 0x61 <= b <= 0x7a
    ||| 0x30 <= b <= 0x39
    ||| b == 0x2bu8
    ||| b == 0x2fu8
}

/// The alphabet bytes that can stand just before a single final padding byte:
/// the table entries at indices with their two low bits zero, the only values
/// the encoder's zero-filled final two-byte group can place there
/// (A E I M Q U Y c g k o s w 0 4 8).
pub open spec fn pre_single_pad(b: u8) -> bool {
    ||| b == 0x41u8
    ||| b == 0x45u8
    ||| b == 0x49u8
    ||| b == 0x4du8
    ||| b == 0x51u8
    ||| b == 0x55u8
    ||| b == 0x59u8
    ||| b == 0x63u8
    ||| b == 0x67u8
    ||| b == 0x6bu8
    ||| b == 0x6fu8
    ||| b == 0x73u8
    ||| b == 0x77u8
    ||| b == 0x30u8
    ||| b == 0x34u8
    ||| b == 0x38u8
}

/// The alphabet bytes that can stand just before a double final padding: the
/// table entries at indices with their four low bits zero (A Q g w).
pub open spec fn pre_double_pad(b: u8) -> bool {
    b == 0x41u8 || b == 0x51u8 || b == 0x67u8 || b == 0x77u8
}

/// The shape of a standard, canonically padded base64 rendering: every byte
/// is an alphabet byte or '='; '=' stands only in the last two positions,
/// contiguously at the end; and the data byte just before the padding is one
/// that zero-filled trailing bits can produce.
pub open spec fn base64_shape(s: Seq<u8>) -> bool {
    &&& forall|i: int| 0 <= i < s.len() ==> base64_alphabet(#[trigger] s[i]) || s[i] == 0x3du8
    &&& forall|i: int| 0 <= i < s.len() && #[trigger] s[i] == 0x3du8 ==> i >= s.len() - 2
    &&& s.len() >= 2 && s[s.len() - 2] == 0x3du8 ==> s[s.len() - 1] == 0x3du8
    &&& s.len() >= 2 && s[s.len() - 1] == 0x3du8 && s[s.len() - 2] != 0x3du8 ==> pre_single_pad(
        s[s.len() - 2],
    )
    &&& s.len() >= 3 && s[s.len() - 2] == 0x3du8 ==> pre_double_pad(s[s.len() - 3])
}

/// Relies on base64::encode: the standard-alphabet, padded base64 rendering,
/// a function of the input bytes alone. The shape facts follow from its
/// encoding loop: every emitted byte indexes the standard table, the final
/// group's unused bits are filled with zeros, and '=' is appended only as the
/// one or two closing padding bytes.
#[verifier::external_body]
fn base64_encode(data: &Vec<u8>) -> (r: Vec<u8>)
    ensures
        r@ == base64_of(data@),
        base64_shape(r@),
{
    base64::encode(data.as_slice()).into_bytes()
}

/// Relies on image::codecs::png::PngEncoder::encode: the PNG container bytes
/// are a function of the pixel buffer, dimensions and color model alone, and
/// with positive dimensions, a supported byte-per-channel color model and a
/// buffer of exactly the matching length, writing into an in-memory vector
/// cannot fail: the encoder's only error paths are zero dimensions, an
/// unsupported color model, a buffer length mismatch, and the writer's I/O
/// errors, none of which is reachable here.
#[verifier::external_body]
#[allow(deprecated)]
fn encode_png(pixels: &Vec<u8>, width: u32, height: u32, color: ColorModel) -> (r: Result<
    Vec<u8>,
    ViuError,
>)
    requires
        pixels@.len() == width as int * height as int * crate::raster::bytes_per_pixel_spec(color),
        width >= 1,
        height >= 1,
    ensures
        r is Ok,
        r matches Ok(png) ==> png@ == png_of(
            pixels@,
            width as int,
            height as int,
            color_code(color),
        ),
{
    let mut out: Vec<u8> = Vec::new();
    let ct = match color {
        ColorModel::L8 => image::ColorType::L8,
        ColorModel::La8 => image::ColorType::La8,
        ColorModel::Rgb8 => image::ColorType::Rgb8,
        ColorModel::Rgba8 => image::ColorType::Rgba8,
    };
    match image::codecs::png::PngEncoder::new(&mut out).encode(pixels.as_slice(), width, height, ct)
    {
        Ok(()) => Ok(out),
        Err(_) => Err(ViuError::Encode),
    }
}

/// Relies on image::load_from_memory: decoding is a function of the bytes
/// alone, and on success the decoded image's pixel dimensions are handed back.
#[verifier::external_body]
fn decode_dimensions(bytes: &Vec<u8>) -> (r: Result<(u32, u32), ViuError>)
    ensures
        r matches Ok(d) ==> decoded_dims_of(bytes@) == Some(d),
        r is Err ==> decoded_dims_of(bytes@) is None && r->Err_0 == ViuError::Decode,
{
    match image::load_from_memory(bytes.as_slice()) {
        Ok(img) => Ok(image::GenericImageView::dimensions(&img)),
        Err(_) => Err(ViuError::Decode),
    }
}

/// The fixed opening of the control sequence:
/// ESC ] 1337 ; File=inline=1 ; preserveAspectRatio=1 ; size=
pub open spec fn header_seq() -> Seq<u8> {
    seq![
        0x1bu8, 0x5du8, 0x31u8, 0x33u8, 0x33u8, 0x37u8, 0x3bu8, 0x46u8, 0x69u8, 0x6cu8, 0x65u8,
        0x3du8, 0x69u8, 0x6eu8, 0x6cu8, 0x69u8, 0x6eu8, 0x65u8, 0x3du8, 0x31u8, 0x3bu8, 0x70u8,
        0x72u8, 0x65u8, 0x73u8, 0x65u8, 0x72u8, 0x76u8, 0x65u8, 0x41u8, 0x73u8, 0x70u8, 0x65u8,
        0x63u8, 0x74u8, 0x52u8, 0x61u8, 0x74u8, 0x69u8, 0x6fu8, 0x3du8, 0x31u8, 0x3bu8, 0x73u8,
        0x69u8, 0x7au8, 0x65u8, 0x3du8,
    ]
}

/// The text "width=".
pub open spec fn width_lit() -> Seq<u8> {
    seq![0x77u8, 0x69u8, 0x64u8, 0x74u8, 0x68u8, 0x3du8]
}

/// The text "height=".
pub open spec fn height_lit() -> Seq<u8> {
    seq![0x68u8, 0x65u8, 0x69u8, 0x67u8, 0x68u8, 0x74u8, 0x3du8]
}

/// The width directive: `width=<w>;` when a width was requested, else nothing.
pub open spec fn width_directive_seq(rw: Option<u32>) -> Seq<u8> {
    match rw {
        Some(w) => width_lit() + dec_seq(w as nat) + seq![0x3bu8],
        None => Seq::<u8>::empty(),
    }
}

/// The height directive: `height=<h>;` when a height was requested, else nothing.
pub open spec fn height_directive_seq(rh: Option<u32>) -> Seq<u8> {
    match rh {
        Some(h) => height_lit() + dec_seq(h as nat) + seq![0x3bu8],
        None => Seq::<u8>::empty(),
    }
}

/// The whole inline-blob control sequence for a transport payload: header,
/// declared payload byte length, the directives that were requested, and the
/// base64 payload closed by the BEL terminator.
pub open spec fn iterm_seq(payload: Seq<u8>, rw: Option<u32>, rh: Option<u32>) -> Seq<u8> {
    header_seq() + dec_seq(payload.len()) + seq![0x3bu8] + width_directive_seq(rw)
        + height_directive_seq(rh) + seq![0x3au8] + base64_of(payload) + seq![0x07u8]
}

/// Everything one render writes: the cursor offset bytes, then the control
/// sequence.
pub open spec fn full_output_seq(payload: Seq<u8>, config: Config) -> Seq<u8> {
    offset_seq(config.x, config.y) + iterm_seq(payload, config.width, config.height)
}

#[verifier::rlimit(60)]
fn push_header(out: &mut Vec<u8>)
    ensures
        final(out)@ == old(out)@ + header_seq(),
{
    out.push(0x1b);
    out.push(0x5d);
    out.push(0x31);
    out.push(0x33);
    out.push(0x33);
    out.push(0x37);
    out.push(0x3b);
    out.push(0x46);
    out.push(0x69);
    out.push(0x6c);
    out.push(0x65);
    out.push(0x3d);
    out.push(0x69);
    out.push(0x6e);
    out.push(0x6c);
    out.push(0x69);
    out.push(0x6e);
    out.push(0x65);
    out.push(0x3d);
    out.push(0x31);
    out.push(0x3b);
    out.push(0x70);
    out.push(0x72);
    out.push(0x65);
    out.push(0x73);
    out.push(0x65);
    out.push(0x72);
    out.push(0x76);
    out.push(0x65);
    out.push(0x41);
    out.push(0x73);
    out.push(0x70);
    out.push(0x65);
    out.push(0x63);
    out.push(0x74);
    out.push(0x52);
    out.push(0x61);
    out.push(0x74);
    out.push(0x69);
    out.push(0x6f);
    out.push(0x3d);
    out.push(0x31);
    out.push(0x3b);
    out.push(0x73);
    out.push(0x69);
    out.push(0x7a);
    out.push(0x65);
    out.push(0x3d);
    proof {
        assert(out@ =~= old(out)@ + header_seq());
    }
}

/// Appends the inline-blob control sequence carrying `payload`.
#[verifier::rlimit(60)]
fn push_iterm_sequence(out: &mut Vec<u8>, payload: &Vec<u8>, rw: Option<u32>, rh: Option<u32>)
    ensures
        final(out)@ == old(out)@ + iterm_seq(payload@, rw, rh),
        base64_shape(base64_of(payload@)),
{
    push_header(out);
    let len64: u64 = payload.len() as u64;
    proof {
        assert(len64 as nat == payload@.len());
    }
    push_decimal(out, len64);
    out.push(0x3b);
    match rw {
        Some(w) => {
            out.push(0x77);
            out.push(0x69);
            out.push(0x64);
            out.push(0x74);
            out.push(0x68);
            out.push(0x3d);
            push_decimal(out, w as u64);
            out.push(0x3b);
        },
        None => {},
    }
    match rh {
        Some(h) => {
            out.push(0x68);
            out.push(0x65);
            out.push(0x69);
            out.push(0x67);
            out.push(0x68);
            out.push(0x74);
            out.push(0x3d);
            push_decimal(out, h as u64);
            out.push(0x3b);
        },
        None => {},
    }
    out.push(0x3a);
    let mut b64 = base64_encode(payload);
    out.append(&mut b64);
    out.push(0x07);
    proof {
        assert(out@ =~= old(out)@ + iterm_seq(payload@, rw, rh));
    }
}

/// The outcome of one render: the bytes to hand to the output stream in a
/// single write, and the cell dimensions consumed on screen.
#[derive(Debug, PartialEq, Eq)]
pub struct Rendered {
    /// The assembled escape bytes: offset movement, then the control sequence.
    pub bytes: Vec<u8>,
    /// Rendered width in cells. Advisory for this self-scaling protocol.
    pub width: u32,
    /// Rendered height in cells. Advisory for this self-scaling protocol.
    pub height: u32,
}

/// The inline-blob protocol encoder.
#[allow(non_camel_case_types)]
pub struct iTermPrinter {}

/// Assembles the full output for a payload already in transport form: cursor
/// offset bytes, then the control sequence. Both encoder entry points
/// converge here, so the grammar has a single construction. Fails exactly on
/// degenerate native dimensions, before any byte is assembled.
pub fn print_buffer(
    payload: &Vec<u8>,
    nw: u32,
    nh: u32,
    config: &Config,
    term_cols: u32,
    term_rows: u32,
) -> (r: Result<Rendered, ViuError>)
    requires
        config.wf(),
        term_cols >= 1,
        term_rows >= 1,
    ensures
        r is Err <==> (nw == 0 || nh == 0),
        r is Err ==> r->Err_0 == ViuError::InvalidImage,
        r matches Ok(rr) ==> rr.bytes@ == full_output_seq(payload@, *config) && (
        rr.width as int,
        rr.height as int,
        ) == fit_spec(
            nw as int,
            nh as int,
            config.width,
            config.height,
            term_cols as int,
            term_rows as int,
        ),
        config.width is None && config.height is None && r is Ok ==> !contains_needle(
            r->Ok_0.bytes@,
            width_lit(),
        ) && !contains_needle(r->Ok_0.bytes@, height_lit()),
{
    let (w, h) = match find_best_fit(nw, nh, config.width, config.height, term_cols, term_rows) {
        Ok(d) => d,
        Err(e) => {
            return Err(e);
        },
    };
    let mut out: Vec<u8> = Vec::new();
    adjust_offset(&mut out, config);
    push_iterm_sequence(&mut out, payload, config.width, config.height);
    proof {
        if config.width is None && config.height is None {
            lemma_no_directives_anywhere(payload@, *config);
        }
    }
    Ok(Rendered { bytes: out, width: w, height: h })
}

impl iTermPrinter {
    /// Encoder entry from a decoded image: the pixel buffer is re-encoded
    /// into a PNG transport payload, and the control sequence is assembled
    /// around it. Degenerate dimensions fail with InvalidImage before the
    /// transport encoder runs.
    pub fn print(
        &self,
        img: &RasterImage,
        config: &Config,
        term_cols: u32,
        term_rows: u32,
    ) -> (r: Result<Rendered, ViuError>)
        requires
            img.wf(),
            config.wf(),
            term_cols >= 1,
            term_rows >= 1,
        ensures
            img.width == 0 || img.height == 0 ==> r == Err::<Rendered, ViuError>(
                ViuError::InvalidImage,
            ),
            img.width >= 1 && img.height >= 1 ==> (r matches Ok(rr) && rr.bytes@
                == full_output_seq(
                png_of(img.data@, img.width as int, img.height as int, color_code(img.color)),
                *config,
            ) && (rr.width as int, rr.height as int) == fit_spec(
                img.width as int,
                img.height as int,
                config.width,
                config.height,
                term_cols as int,
                term_rows as int,
            )),
            config.width is None && config.height is None && r is Ok ==> !contains_needle(
                r->Ok_0.bytes@,
                width_lit(),
            ) && !contains_needle(r->Ok_0.bytes@, height_lit()),
    {
        if img.width == 0 || img.height == 0 {
            return Err(ViuError::InvalidImage);
        }
        let png = match encode_png(&img.data, img.width, img.height, img.color) {
            Ok(p) => p,
            Err(e) => {
                return Err(e);
            },
        };
        print_buffer(&png, img.width, img.height, config, term_cols, term_rows)
    }

    /// Encoder entry from raw file bytes: the original bytes are reused
    /// verbatim as the transport payload, and the image is decoded only for
    /// its native dimensions. Fails with Decode where the bytes decode to no
    /// image and with InvalidImage where the decoded dimensions are
    /// degenerate, in both cases before any byte is assembled.
    pub fn print_from_bytes(
        &self,
        content: &Vec<u8>,
        config: &Config,
        term_cols: u32,
        term_rows: u32,
    ) -> (r: Result<Rendered, ViuError>)
        requires
            config.wf(),
            term_cols >= 1,
            term_rows >= 1,
        ensures
            decoded_dims_of(content@) is None ==> r == Err::<Rendered, ViuError>(ViuError::Decode),
            decoded_dims_of(content@) matches Some(d) ==> if d.0 == 0 || d.1 == 0 {
                r == Err::<Rendered, ViuError>(ViuError::InvalidImage)
            } else {
                r matches Ok(rr) && rr.bytes@ == full_output_seq(content@, *config) && (
                rr.width as int,
                rr.height as int,
                ) == fit_spec(
                    d.0 as int,
                    d.1 as int,
                    config.width,
                    config.height,
                    term_cols as int,
                    term_rows as int,
                )
            },
            config.width is None && config.height is None && r is Ok ==> !contains_needle(
                r->Ok_0.bytes@,
                width_lit(),
            ) && !contains_needle(r->Ok_0.bytes@, height_lit()),
    {
        let (nw, nh) = match decode_dimensions(content) {
            Ok(d) => d,
            Err(e) => {
                return Err(e);
            },
        };
        print_buffer(content, nw, nh, config, term_cols, term_rows)
    }
}

/// Any middle piece of a concatenation occurs in the whole.
pub proof fn lemma_concat_contains(a: Seq<u8>, b: Seq<u8>, c: Seq<u8>)
    requires
        b.len() >= 1,
    ensures
        contains_needle(a + b + c, b),
{
    let s = a + b + c;
    assert(s.subrange(a.len() as int, a.len() as int + b.len() as int) =~= b);
    assert(match_at(s, b, a.len() as int));
}

/// Determinism: the bytes one render writes are a function of the transport
/// payload and the configuration alone, so the same image under the same
/// configuration always yields byte-identical output.
pub proof fn lemma_output_deterministic(
    b1: Seq<u8>,
    b2: Seq<u8>,
    payload: Seq<u8>,
    config: Config,
)
    requires
        b1 == full_output_seq(payload, config),
        b2 == full_output_seq(payload, config),
    ensures
        b1 == b2,
{
}

/// With both dimensions requested, the control sequence carries the
/// directives `width=<w>;` and `height=<h>;` in its directive section.
pub proof fn lemma_directives_present(payload: Seq<u8>, w: u32, h: u32)
    ensures
        contains_needle(
            iterm_seq(payload, Some(w), Some(h)),
            width_lit() + dec_seq(w as nat) + seq![0x3bu8],
        ),
        contains_needle(
            iterm_seq(payload, Some(w), Some(h)),
            height_lit() + dec_seq(h as nat) + seq![0x3bu8],
        ),
{
    let s = iterm_seq(payload, Some(w), Some(h));
    let a1 = header_seq() + dec_seq(payload.len()) + seq![0x3bu8];
    let wd = width_directive_seq(Some(w));
    let hd = height_directive_seq(Some(h));
    let c1 = hd + seq![0x3au8] + base64_of(payload) + seq![0x07u8];
    assert(s =~= a1 + wd + c1);
    lemma_concat_contains(a1, wd, c1);
    let a2 = a1 + wd;
    let c2 = seq![0x3au8] + base64_of(payload) + seq![0x07u8];
    assert(s =~= a2 + hd + c2);
    lemma_concat_contains(a2, hd, c2);
}

/// With neither dimension requested the directive section is empty: the
/// sequence is exactly header, payload length, the two separators, and the
/// base64 payload with its terminator, with only the aspect-ratio directive
/// of the fixed header present.
pub proof fn lemma_unconstrained_shape(payload: Seq<u8>)
    ensures
        iterm_seq(payload, None, None) == header_seq() + dec_seq(payload.len()) + seq![
            0x3bu8,
            0x3au8,
        ] + base64_of(payload) + seq![0x07u8],
{
    assert(iterm_seq(payload, None, None) =~= header_seq() + dec_seq(payload.len()) + seq![
        0x3bu8,
        0x3au8,
    ] + base64_of(payload) + seq![0x07u8]);
}

/// In a sequence made of a prefix, a canonically padded base64 rendering and
/// a closing BEL byte, `needle` occurs nowhere, provided the prefix nowhere
/// holds the needle's first byte, the needle ends with '=', and its
/// next-to-last byte is neither '=' nor a byte the encoder can place just
/// before its padding.
proof fn lemma_needle_absent(pre: Seq<u8>, b: Seq<u8>, needle: Seq<u8>)
    requires
        base64_shape(b),
        needle.len() >= 2,
        needle[needle.len() - 1] == 0x3du8,
        needle[needle.len() - 2] != 0x3du8,
        !pre_single_pad(needle[needle.len() - 2]),
        !pre_double_pad(needle[needle.len() - 2]),
        forall|i: int| 0 <= i < pre.len() ==> #[trigger] pre[i] != needle[0],
    ensures
        !contains_needle(pre + b + seq![0x07u8], needle),
{
    let full = pre + b + seq![0x07u8];
    let nl = needle.len() as int;
    let bl = b.len() as int;
    let pl = pre.len() as int;
    assert forall|i: int| !match_at(full, needle, i) by {
        if match_at(full, needle, i) {
            assert forall|k: int| 0 <= k < nl implies full[i + k] == needle[k] by {
                assert(full.subrange(i, i + nl)[k] == needle[k]);
            }
            assert(full[i] == needle[0]);
            if i < pl {
                assert(pre[i] != needle[0]);
                assert(full[i] == pre[i]);
            } else if i + nl - 1 == pl + bl {
                assert(full[i + nl - 1] == 0x07u8);
            } else {
                // The needle's final '=' lands inside the base64 rendering.
                let e = i + nl - 1 - pl;
                assert(full[pl + e] == b[e]);
                assert(b[e] == 0x3du8);
                assert(e >= bl - 2);
                let d = e - 1;
                assert(full[pl + d] == b[d]);
                assert(b[d] == needle[nl - 2]);
                if e == bl - 1 {
                    if b[bl - 2] == 0x3du8 {
                        assert(needle[nl - 2] == 0x3du8);
                    } else {
                        assert(pre_single_pad(b[bl - 2]));
                    }
                } else {
                    assert(e == bl - 2);
                    assert(pre_double_pad(b[bl - 3]));
                }
            }
        }
    }
}

/// Without a user request no `width=` or `height=` text occurs anywhere in
/// the bytes one render writes: not in the cursor movement, not in the header
/// and size field, and not in the canonically padded base64 payload, whose
/// final padding can never complete either directive.
pub proof fn lemma_no_directives_anywhere(payload: Seq<u8>, config: Config)
    requires
        config.width is None,
        config.height is None,
        base64_shape(base64_of(payload)),
    ensures
        !contains_needle(full_output_seq(payload, config), width_lit()),
        !contains_needle(full_output_seq(payload, config), height_lit()),
{
    let off = crate::offset::offset_seq(config.x, config.y);
    let pre = off + header_seq() + dec_seq(payload.len()) + seq![0x3bu8, 0x3au8];
    let b = base64_of(payload);
    crate::decimal::lemma_dec_seq_digits(payload.len());
    crate::offset::lemma_offset_bytes_plain(config.x, config.y);
    assert forall|i: int| 0 <= i < pre.len() implies #[trigger] pre[i] != 0x77u8 && pre[i]
        != 0x68u8 by {
        if i < off.len() {
            assert(pre[i] == off[i]);
        } else if i < off.len() + header_seq().len() {
            assert(pre[i] == header_seq()[i - off.len()]);
        } else if i < off.len() + header_seq().len() + dec_seq(payload.len()).len() {
            assert(pre[i] == dec_seq(payload.len())[i - off.len() - header_seq().len()]);
        } else {
            assert(pre[i] == seq![0x3bu8, 0x3au8][i - off.len() - header_seq().len() - dec_seq(
                payload.len(),
            ).len()]);
        }
    }
    assert(full_output_seq(payload, config) =~= pre + b + seq![0x07u8]);
    lemma_needle_absent(pre, b, width_lit());
    lemma_needle_absent(pre, b, height_lit());
}

} // verus!
