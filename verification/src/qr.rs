//! The QR-code helper of the templating step: a template writes
//! `qrcode(value)` and gets an inline image tag whose source is the
//! base64-encoded JPEG rendering of the value's QR code.

use vstd::prelude::*;
use vstd::string::StrSliceExecFns;
use vstd::string::StringExecFns;
use base64::Engine;

verus! {

/// The JPEG bytes of the QR code for a text; a function of the text alone.
pub uninterp spec fn qr_jpeg_of(s: Seq<char>) -> Seq<u8>;

/// Whether a text fits in some QR code version; a function of the text
/// alone, and the exact success condition of the encoder.
pub uninterp spec fn qr_encodes(s: Seq<char>) -> bool;

/// The base64 text of a byte string under the standard alphabet with
/// padding; a function of the bytes alone.
pub uninterp spec fn base64_of(b: Seq<u8>) -> Seq<char>;

/// Relies on `qrcode::QrCode::new`, qrcode's image renderer and
/// `image::DynamicImage::write_to`: encodes the text as a QR code and
/// renders it to JPEG bytes, a deterministic function of the text.  The
/// encoding succeeds exactly when the text fits some QR code version; a
/// text that fits none yields nothing.
#[verifier::external_body]
fn qr_jpeg(value: &str) -> (r: Option<Vec<u8>>)
    ensures
        r is Some <==> qr_encodes(value@),
        r matches Some(b) ==> b@ == qr_jpeg_of(value@),
{
    let code = match qrcode::QrCode::new(value.as_bytes()) {
        Ok(c) => c,
        Err(_) => return None,
    };
    let image = image::DynamicImage::from(code.render::<image::Luma<u8>>().build());
    let mut buf = std::io::Cursor::new(Vec::new());
    match image.write_to(&mut buf, image::ImageFormat::Jpeg) {
        Ok(()) => Some(buf.into_inner()),
        Err(_) => None,
    }
}

/// Relies on `base64::Engine::encode` with the standard engine: the base64
/// text of the bytes, four output characters for every started group of
/// three input bytes.  The engine panics when the output length cannot be
/// computed in a machine word, so inputs near the address-space limit are
/// excluded.
#[verifier::external_body]
fn base64_encode(b: &Vec<u8>) -> (r: String)
    requires
        b@.len() <= usize::MAX / 4,
    ensures
        r@ == base64_of(b@),
        r@.len() == ((b@.len() + 2) / 3) * 4,
{
    base64::prelude::BASE64_STANDARD.encode(b)
}

/// The inline image tag carrying given JPEG bytes as a data URL.
pub open spec fn img_tag_spec(jpeg: Seq<u8>) -> Seq<char> {
    "<img class=\"qrcode\" src=\"data:image/jpeg;base64,"@ + base64_of(jpeg)
        + "\" alt=\"QR Code\" />"@
}

/// Builds the inline image tag for given JPEG bytes.
pub fn qr_img_tag_from_jpeg(jpeg: &Vec<u8>) -> (r: String)
    requires
        jpeg@.len() <= usize::MAX / 4,
    ensures
        r@ == img_tag_spec(jpeg@),
{
    let b64 = base64_encode(jpeg);
    let mut r = "<img class=\"qrcode\" src=\"data:image/jpeg;base64,".to_owned();
    r.append(b64.as_str());
    r.append("\" alt=\"QR Code\" />");
    proof {
        assert(r@ =~= img_tag_spec(jpeg@));
    }
    r
}

/// The image tag for a value's QR code: produced exactly when the value
/// fits some QR code (and, a machine limit, when its JPEG fits in a
/// quarter machine word, so the base64 text has a length).
pub fn qrcode_img_tag(value: &str) -> (r: Option<String>)
    ensures
        r is Some <==> (qr_encodes(value@) && qr_jpeg_of(value@).len() <= usize::MAX / 4),
        r matches Some(t) ==> t@ == img_tag_spec(qr_jpeg_of(value@)),
{
    match qr_jpeg(value) {
        Some(bytes) => {
            if bytes.len() <= usize::MAX / 4 {
                Some(qr_img_tag_from_jpeg(&bytes))
            } else {
                None
            }
        },
        None => None,
    }
}

} // verus!
