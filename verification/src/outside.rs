//! The calls into outside crates, each behind a trusted item whose contract
//! states what the crate's source shows of it.
use rand::seq::SliceRandom;
use qrcode::render::svg;
use qrcode::types::QrError;
use qrcode::QrCode;
use sha2::Digest;
use vstd::prelude::*;

verus! {

/// Calls `rand::seq::SliceRandom::choose` on `set` with `rand::thread_rng()`.
/// By its source it returns `None` exactly when `set` is empty and otherwise
/// one of the elements of `set`; which one is chance and is not stated.
#[verifier::external_body]
pub(crate) fn choose_char(set: &[char]) -> (r: Option<char>)
    ensures
        r is None <==> set@.len() == 0,
        r matches Some(b) ==> set@.contains(b),
{
    set.choose(&mut rand::thread_rng()).copied()
}

/// The SHA-256 digest of `data`.
pub uninterp spec fn sha256_of(data: Seq<u8>) -> Seq<u8>;

/// Calls `sha2::Sha256::digest` on `data`: the SHA-256 digest, which is 32 bytes long
/// and depends on `data` alone.
#[verifier::external_body]
pub(crate) fn sha256(data: &[u8]) -> (r: Vec<u8>)
    ensures
        r@ == sha256_of(data@),
        r@.len() == 32,
{
    sha2::Sha256::digest(data).to_vec()
}

/// The lower-case hexadecimal digit of `n`, which is below 16.
pub open spec fn hex_digit_lower(n: int) -> char {
    if n < 10 {
        (48 + n) as char
    } else {
        (87 + n) as char
    }
}

/// Each byte of `bytes` as two lower-case hexadecimal digits, high half first.
pub open spec fn hex_lower(bytes: Seq<u8>) -> Seq<char>
    decreases bytes.len(),
{
    if bytes.len() == 0 {
        Seq::empty()
    } else {
        hex_lower(bytes.drop_last()) + seq![
            hex_digit_lower(bytes.last() as int / 16),
            hex_digit_lower(bytes.last() as int % 16),
        ]
    }
}

/// Calls `hex::encode`, which by its source writes each byte as two digits of
/// `0123456789abcdef`, the high half first.
#[verifier::external_body]
pub(crate) fn hex_encode(data: &[u8]) -> (r: String)
    ensures
        r@ == hex_lower(data@),
{
    hex::encode(data)
}

/// An unreserved byte, which percent-encoding leaves as it is: ASCII letters and
/// digits and `-`, `.`, `_`, `~`.
pub open spec fn is_url_unreserved(b: u8) -> bool {
    ||| 48 <= b <= 57
    ||| 65 <= b <= 90
    ||| 97 <= b <= 122
    ||| b == 45
    ||| b == 46
    ||| b == 95
    ||| b == 126
}

/// The upper-case hexadecimal digit of `n`, which is below 16.
pub open spec fn hex_digit_upper(n: int) -> char {
    if n < 10 {
        (48 + n) as char
    } else {
        (55 + n) as char
    }
}

/// `bytes` percent-encoded: an unreserved byte as its character, any other as `%`
/// and two upper-case hexadecimal digits.
pub open spec fn percent_encoded(bytes: Seq<u8>) -> Seq<char>
    decreases bytes.len(),
{
    if bytes.len() == 0 {
        Seq::empty()
    } else {
        percent_encoded(bytes.drop_last()) + if is_url_unreserved(bytes.last()) {
            seq![bytes.last() as char]
        } else {
            seq![
                '%',
                hex_digit_upper(bytes.last() as int / 16),
                hex_digit_upper(bytes.last() as int % 16),
            ]
        }
    }
}

/// Calls `urlencoding::encode`, which by its source percent-encodes the UTF-8 bytes of
/// `s`, every byte but the unreserved ones, with upper-case hexadecimal digits.
#[verifier::external_body]
pub(crate) fn url_encode(s: &str) -> (r: String)
    ensures
        r@ == percent_encoded(vstd::utf8::encode_utf8(s@)),
{
    urlencoding::encode(s).into_owned()
}

/// Why a QR code could not be made, one case for each variant of `qrcode::types::QrError`.
#[derive(Clone, Copy, Debug, PartialEq, Eq, Structural)]
pub enum QrFailure {
    DataTooLong,
    InvalidVersion,
    UnsupportedCharacterSet,
    InvalidEciDesignator,
    InvalidCharacter,
}

/// The SVG image of the QR code of `data`, with modules of `dark` on `light` and at
/// least `min_width` by `min_height` pixels, or why there is none.
pub uninterp spec fn qr_svg_image(
    data: Seq<u8>,
    min_width: u32,
    min_height: u32,
    dark: Seq<char>,
    light: Seq<char>,
) -> Result<Seq<char>, QrFailure>;

/// Calls `qrcode::QrCode::new` on `data` and renders the code with
/// `render::<svg::Color>()`, `min_dimensions`, `dark_color`, `light_color` and `build`.
/// Both depend on their arguments alone; the image and the failure are only named.
/// `min_dimensions` adds the code's width in modules to each size in `u32`, which
/// overflows for a size near `u32::MAX`, so the sizes are kept far below that.
#[verifier::external_body]
pub(crate) fn qr_svg(data: &[u8], min_width: u32, min_height: u32, dark: &str, light: &str) -> (r: Result<String, QrFailure>)
    requires
        min_width <= 65535,
        min_height <= 65535,
    ensures
        match r {
            Ok(s) => qr_svg_image(data@, min_width, min_height, dark@, light@) == Ok::<
                Seq<char>,
                QrFailure,
            >(s@),
            Err(f) => qr_svg_image(data@, min_width, min_height, dark@, light@) == Err::<
                Seq<char>,
                QrFailure,
            >(f),
        },
{
    match QrCode::new(data) {
        Ok(code) => Ok(
            code.render::<svg::Color<'_>>().min_dimensions(min_width, min_height).dark_color(
                svg::Color(dark),
            ).light_color(svg::Color(light)).build(),
        ),
        Err(QrError::DataTooLong) => Err(QrFailure::DataTooLong),
        Err(QrError::InvalidVersion) => Err(QrFailure::InvalidVersion),
        Err(QrError::UnsupportedCharacterSet) => Err(QrFailure::UnsupportedCharacterSet),
        Err(QrError::InvalidEciDesignator) => Err(QrFailure::InvalidEciDesignator),
        Err(QrError::InvalidCharacter) => Err(QrFailure::InvalidCharacter),
    }
}

} // verus!
