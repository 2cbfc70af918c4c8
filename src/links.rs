//! Textual QR codes for sharing a string out of band.
use vstd::prelude::*;

verus! {

/// The text that `qrcode::QrCode::new(data)` rendered with
/// `render::<unicode::Dense1x2>().build()` gives for `data`.
pub uninterp spec fn qr_text(data: Seq<char>) -> Seq<char>;

/// Whether `qrcode::QrCode::new` accepts `data`, that is, it fits in a code.
pub uninterp spec fn qr_fits(data: Seq<char>) -> bool;

/// Relies on `qrcode::QrCode::new` and its unicode renderer: the rendering
/// depends on the data alone, and a code always renders to at least one row.
/// `None` when the data does not fit in a code.
#[verifier::external_body]
fn render_qr(data: &str) -> (r: Option<String>)
    ensures
        r matches Some(t) ==> t@ == qr_text(data@) && t@.len() > 0,
        r is Some == qr_fits(data@),
{
    let code = qrcode::QrCode::new(data.as_bytes()).ok()?;
    Some(code.render::<qrcode::render::unicode::Dense1x2>().build())
}

/// Errors of the QR renderer.
#[derive(Clone, Copy, Debug, PartialEq, Eq, Structural)]
pub enum QrError {
    /// The data does not fit in a QR code.
    DataTooLong,
}

/// A QR code of `data`, drawn with unicode half blocks; `DataTooLong`
/// exactly when the data does not fit in a code.
pub fn qr_to_string(data: &str) -> (r: Result<String, QrError>)
    ensures
        r matches Ok(t) ==> t@ == qr_text(data@) && t@.len() > 0,
        r is Err ==> r == Err::<String, QrError>(QrError::DataTooLong),
        r is Ok == qr_fits(data@),
{
    match render_qr(data) {
        Some(t) => Ok(t),
        None => Err(QrError::DataTooLong),
    }
}

} // verus!
