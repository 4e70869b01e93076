//! What the HTTP routes compute: the form of the invitation a client is
//! given, the invitation URL, and the page that shows the invitation.

use vstd::prelude::*;
use vstd::string::StringExecFns;
use vstd::utf8::encode_utf8;
use crate::encoding::base64url_encode;
use crate::encoding::base64url_text;
use crate::text::same_text;

verus! {

/// The most bytes a request body may have: 30 MiB.
pub const REQUEST_BODY_LIMIT: usize = 31457280;

/// How an invitation is handed out.
#[derive(Clone, Copy, Debug)]
pub enum InviteFormat {
    /// As JSON.
    Json,
    /// As a page that shows the invitation as a QR code and as text.
    QrPage,
}

/// The form of invitation for a request that accepts `accept`: JSON where
/// it accepts exactly `application/json`, the page in every other case.
pub fn preferred_invite_format(accept: Option<&str>) -> (format: InviteFormat)
    ensures
        format is Json <==> accept.deep_view() == Some("application/json"@),
{
    match accept {
        Some(mimetype) => {
            if same_text(mimetype, "application/json") {
                InviteFormat::Json
            } else {
                InviteFormat::QrPage
            }
        },
        None => InviteFormat::QrPage,
    }
}

/// The URL form of an invitation: the endpoint, `?oob=`, and the base64url
/// text of the invitation message.
pub open spec fn invitation_url_text(endpoint: Seq<char>, oob_message: Seq<char>) -> Seq<char> {
    endpoint + "?oob="@ + base64url_text(encode_utf8(oob_message))
}

/// Writes the URL form of an invitation.
pub fn invitation_url(endpoint: &str, oob_message: &str) -> (url: String)
    ensures
        url@ == invitation_url_text(endpoint@, oob_message@),
{
    let encoded = base64url_encode(oob_message.as_bytes());
    url_with_invitation(endpoint, encoded.as_str())
}

/// Writes the URL form of an invitation that is encoded already: the
/// endpoint, `?oob=`, and the encoded invitation.
pub fn url_with_invitation(endpoint: &str, encoded: &str) -> (url: String)
    ensures
        url@ == endpoint@ + "?oob="@ + encoded@,
{
    let mut url = String::from_str(endpoint);
    url.append("?oob=");
    url.append(encoded);
    url
}

/// The page that shows an invitation: a style that sizes the QR code, the QR
/// code, and the invitation as text.
pub open spec fn invite_page_text(oob_qr_svg: Seq<char>, oob_string: Seq<char>) -> Seq<char> {
    "<style>
                        svg {
                            width: 50%;
                            height: 50%;
                        }
                    </style>
                    "@
        + oob_qr_svg + " <br>
                    <pre>"@ + oob_string + "</pre>"@
}

/// Writes the page that shows an invitation.
pub fn invite_page(oob_qr_svg: &str, oob_string: &str) -> (page: String)
    ensures
        page@ == invite_page_text(oob_qr_svg@, oob_string@),
{
    let mut page = String::from_str(
        "<style>
                        svg {
                            width: 50%;
                            height: 50%;
                        }
                    </style>
                    ",
    );
    page.append(oob_qr_svg);
    page.append(" <br>
                    <pre>");
    page.append(oob_string);
    page.append("</pre>");
    page
}

/// The SVG drawing of the QR code of `text`, or nothing where `text` is too
/// long to have one.
pub uninterp spec fn qr_svg_text(text: Seq<char>) -> Option<Seq<char>>;

/// Draws the QR code of `text` as SVG.
///
/// Trusted: builds the code with `fast_qr::QRBuilder::new` and `build`, left
/// to choose error correction, version and mask by itself, and draws it with
/// `fast_qr::convert::svg::SvgBuilder::default` and `to_str`. `build` fails
/// where the text is too long for any version. The contract claims only that
/// the outcome is a function of the text.
#[verifier::external_body]
fn qr_svg(text: &str) -> (svg: Option<String>)
    ensures
        svg.deep_view() == qr_svg_text(text@),
{
    match fast_qr::QRBuilder::new(text).build() {
        Ok(qr) => Some(fast_qr::convert::svg::SvgBuilder::default().to_str(&qr)),
        Err(_) => None,
    }
}

/// The page that shows the invitation `oob_string` with its QR code, or
/// nothing where the invitation is too long to have one.
pub fn qr_invite_page(oob_string: &str) -> (page: Option<String>)
    ensures
        page.deep_view() == match qr_svg_text(oob_string@) {
            Some(oob_qr_svg) => Some(invite_page_text(oob_qr_svg, oob_string@)),
            None => None,
        },
{
    match qr_svg(oob_string) {
        Some(oob_qr_svg) => Some(invite_page(oob_qr_svg.as_str(), oob_string)),
        None => None,
    }
}

} // verus!
