//! A pairing URL as a square that a phone can look at.

use crate::text;
use vstd::prelude::*;

verus! {

/// The QR code of a text, drawn in half blocks with its quiet zone around it, or
/// nothing where the text is too long for one.
pub uninterp spec fn qr_drawing(text: Seq<char>) -> Option<Seq<char>>;

/// `qrcode::QrCode::new`, then its `Dense1x2` renderer with the quiet zone.
/// Claimed: whether there is a code, and the drawing of it, depend on the text
/// alone. How a code is made up is not stated.
#[verifier::external_body]
fn draw(value: &str) -> (out: Option<String>)
    ensures
        text::maybe(out) == qr_drawing(value@),
{
    let code = qrcode::QrCode::new(value.as_bytes()).ok()?;
    Some(code.render::<qrcode::render::unicode::Dense1x2>().quiet_zone(true).build())
}

/// Draws a text as a QR code. A text that is too long for one is no failure: the
/// caller prints it alone.
pub fn drawn(value: &str) -> (out: Option<String>)
    ensures
        text::maybe(out) == qr_drawing(value@),
{
    draw(value)
}

} // verus!
