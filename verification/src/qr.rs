//! QR symbols, drawn by the `qrcode` crate.

use vstd::prelude::*;

verus! {

/// `qrcode::QrCode`, a finished symbol, carried as an opaque value.
#[verifier::external_type_specification]
#[verifier::external_body]
pub struct ExQrCode(qrcode::QrCode);

/// `qrcode::types::QrError`, the reasons for which no symbol can be made.
#[verifier::external_type_specification]
pub struct ExQrError(qrcode::types::QrError);

/// What `qrcode` makes of the text `data`: the smallest symbol at the medium
/// error-correction level that holds the UTF-8 bytes of `data`, or the reason
/// for which there is none.
pub uninterp spec fn qr_symbol(data: Seq<char>) -> Result<qrcode::QrCode, qrcode::types::QrError>;

/// The SVG document that `qrcode` draws for `code` with its default colours and
/// quiet zone, each module a square just large enough for the image to be at
/// least `min_dimension` pixels wide and high.
pub uninterp spec fn svg_image(code: qrcode::QrCode, min_dimension: u16) -> Seq<char>;

/// `qrcode::QrCode::new` on the bytes of `data`. The symbol depends on `data`
/// alone.
#[verifier::external_body]
pub(crate) fn encode(data: &str) -> (symbol: Result<qrcode::QrCode, qrcode::types::QrError>)
    ensures
        symbol == qr_symbol(data@),
{
    qrcode::QrCode::new(data)
}

/// `QrCode::render` with `svg::Color` pixels, `Renderer::min_dimensions` with
/// `min_dimension` for both sides, and `Renderer::build`. The document depends
/// on the symbol and the dimension alone. A `u16` keeps the renderer's `u32`
/// arithmetic in range: a symbol is at most 185 modules wide with its quiet zone.
#[verifier::external_body]
pub(crate) fn render_svg(code: &qrcode::QrCode, min_dimension: u16) -> (image: String)
    ensures
        image@ == svg_image(*code, min_dimension),
{
    let side = u32::from(min_dimension);
    code.render::<qrcode::render::svg::Color>().min_dimensions(side, side).build()
}

} // verus!
