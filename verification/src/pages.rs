use crate::templates::{
    ADMIN_PAGE_HEAD, ADMIN_PAGE_MIDDLE, ADMIN_PAGE_TAIL, VERIFY_PAGE_HEAD, VERIFY_PAGE_MIDDLE,
    VERIFY_PAGE_TAIL,
};
use crate::error::AppError;
use crate::text::opt_view;
use crate::outside::{percent_encoded, qr_svg, qr_svg_image, url_encode, QrFailure};
use vstd::prelude::*;
use vstd::utf8::encode_utf8;

verus! {

/// A page whose template is cut at the two places that take the base URL.
pub open spec fn page_with_base(head: Seq<char>, middle: Seq<char>, tail: Seq<char>, base_url: Seq<char>) -> Seq<char> {
    head + base_url + middle + base_url + tail
}

/// Fills the base URL into a template cut in three.
fn fill_base(head: &str, middle: &str, tail: &str, base_url: &str) -> (r: String)
    ensures
        r@ == page_with_base(head@, middle@, tail@, base_url@),
{
    let mut s = String::from_str(head);
    s.append(base_url);
    s.append(middle);
    s.append(base_url);
    s.append(tail);
    s
}

/// The member redemption page, served from under `base_url`.
pub fn render_verify_page(base_url: &str) -> (r: String)
    ensures
        r@ == page_with_base(VERIFY_PAGE_HEAD@, VERIFY_PAGE_MIDDLE@, VERIFY_PAGE_TAIL@, base_url@),
{
    fill_base(VERIFY_PAGE_HEAD, VERIFY_PAGE_MIDDLE, VERIFY_PAGE_TAIL, base_url)
}

/// The admin page, served from under `base_url`.
pub fn render_admin_page(base_url: &str) -> (r: String)
    ensures
        r@ == page_with_base(ADMIN_PAGE_HEAD@, ADMIN_PAGE_MIDDLE@, ADMIN_PAGE_TAIL@, base_url@),
{
    fill_base(ADMIN_PAGE_HEAD, ADMIN_PAGE_MIDDLE, ADMIN_PAGE_TAIL, base_url)
}

/// The name of the session cookie that the auth gateway sets.
pub const SESSION_COOKIE: &'static str = "rl_session";

/// The `Set-Cookie` value that signs a member out: the session cookie, emptied and
/// expired at once.
pub fn logout_cookie() -> (r: String)
    ensures
        r@ == SESSION_COOKIE@ + "=; Path=/; HttpOnly; SameSite=Lax; Max-Age=0"@,
{
    let mut s = String::from_str(SESSION_COOKIE);
    s.append("=; Path=/; HttpOnly; SameSite=Lax; Max-Age=0");
    s
}

/// The query of the sign-in redirect: the code the member arrived with, if any.
pub struct LoginQuery {
    pub code: Option<String>,
}

/// The body of a redemption request.
pub struct RedeemBody {
    pub code: String,
}

/// Where the member comes back to after signing in: the redemption page, with the
/// code the member arrived with when there is one.
pub open spec fn login_return_path(code: Option<Seq<char>>) -> Seq<char> {
    match code {
        Some(c) => if c.len() > 0 {
            "/referral-code-role/verify?code="@ + percent_encoded(encode_utf8(c))
        } else {
            "/referral-code-role/verify"@
        },
        None => "/referral-code-role/verify"@,
    }
}

/// The sign-in address of the auth gateway that leads back to the redemption page.
pub fn login_redirect(code: Option<String>) -> (r: String)
    ensures
        r@ == "/auth/login?return_to="@ + percent_encoded(
            encode_utf8(
                login_return_path(opt_view(code)),
            ),
        ),
{
    let return_to = match code {
        Some(c) => {
            if !c.as_str().is_empty() {
                let mut s = String::from_str("/referral-code-role/verify?code=");
                let enc = url_encode(c.as_str());
                s.append(enc.as_str());
                s
            } else {
                String::from_str("/referral-code-role/verify")
            }
        },
        None => String::from_str("/referral-code-role/verify"),
    };
    let mut url = String::from_str("/auth/login?return_to=");
    let enc = url_encode(return_to.as_str());
    url.append(enc.as_str());
    url
}

/// The share address of a code: the redemption page with the code filled in.
pub fn code_share_url(base_url: &str, code: &str) -> (r: String)
    ensures
        r@ == base_url@ + "/verify?code="@ + percent_encoded(encode_utf8(code@)),
{
    let mut s = String::from_str(base_url);
    s.append("/verify?code=");
    let enc = url_encode(code);
    s.append(enc.as_str());
    s
}

/// The text of a QR failure, as `Display` for `qrcode::types::QrError` writes it.
pub open spec fn qr_failure_text(f: QrFailure) -> Seq<char> {
    match f {
        QrFailure::DataTooLong => "data too long"@,
        QrFailure::InvalidVersion => "invalid version"@,
        QrFailure::UnsupportedCharacterSet => "unsupported character set"@,
        QrFailure::InvalidEciDesignator => "invalid ECI designator"@,
        QrFailure::InvalidCharacter => "invalid character"@,
    }
}

impl QrFailure {
    /// The text of the failure.
    pub fn text(&self) -> (r: &'static str)
        ensures
            r@ == qr_failure_text(*self),
    {
        match self {
            QrFailure::DataTooLong => "data too long",
            QrFailure::InvalidVersion => "invalid version",
            QrFailure::UnsupportedCharacterSet => "unsupported character set",
            QrFailure::InvalidEciDesignator => "invalid ECI designator",
            QrFailure::InvalidCharacter => "invalid character",
        }
    }
}

/// The QR code of `target_url` as an SVG image of at least 256 by 256 pixels, dark
/// navy on white; a failure becomes an internal error that names it.
pub fn render_svg(target_url: &str) -> (r: Result<String, AppError>)
    ensures
        match qr_svg_image(encode_utf8(target_url@), 256, 256, "#0e1525"@, "#ffffff"@) {
            Ok(img) => r matches Ok(s) && s@ == img,
            Err(f) => r matches Err(e) && e is Internal && e.text() == "QR encode failed: "@
                + qr_failure_text(f),
        },
{
    match qr_svg(target_url.as_bytes(), 256, 256, "#0e1525", "#ffffff") {
        Ok(svg) => Ok(svg),
        Err(f) => {
            let mut m = String::from_str("QR encode failed: ");
            m.append(f.text());
            Err(AppError::Internal(m))
        },
    }
}

} // verus!
