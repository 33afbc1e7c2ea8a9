//! The pairing code on the terminal.
use vstd::prelude::*;

use crate::json::{json_print, print_json, Json, JsonView};
use crate::script::{reply_of, Reply};

verus! {

/// The QR code of a text in half blocks, or why there is none.
pub uninterp spec fn qr_picture(text: Seq<char>) -> Result<Seq<char>, Seq<char>>;

/// Draws a QR code.
///
/// The contract names what `qrcode::QrCode::new` and `render::<qrcode::render::unicode::Dense1x2>`
/// make of the bytes of a text: the picture, or the message of the error.
#[verifier::external_body]
fn draw_qr(text: &str) -> (r: Result<String, String>)
    ensures
        reply_of(r) == qr_picture(text@),
{
    let code = qrcode::QrCode::new(text.as_bytes()).map_err(|error| error.to_string())?;
    Ok(code.render::<qrcode::render::unicode::Dense1x2>().build())
}

pub open spec fn labelled(label: Seq<char>, value: Option<Seq<char>>, end: Seq<char>) -> Seq<char> {
    match value {
        Some(text) => label + text + end,
        None => Seq::empty(),
    }
}

/// What is written below the code.
pub open spec fn qr_caption(payload: JsonView) -> Seq<char> {
    labelled("\nSession ID: "@, payload.get_str("sessionId"@), "\n"@) + labelled(
        "Device ID: "@,
        payload.get_str("macDeviceId"@),
        "\n"@,
    ) + labelled(
        "Expires: "@,
        match payload.get("expiresAt"@) {
            Some(value) => Some(json_print(value)),
            None => None,
        },
        "\n\n"@,
    )
}

/// What is printed for a pairing code.
pub open spec fn qr_page(payload: JsonView, picture: Seq<char>) -> Seq<char> {
    "\nScan this QR with the iPhone:\n\n"@ + picture + "\n"@ + qr_caption(payload)
}

fn push_label(page: &mut String, label: &str, value: Option<&str>, end: &str)
    ensures
        final(page)@ == old(page)@ + labelled(label@, value.deep_view(), end@),
{
    let ghost before = page@;
    match value {
        Some(text) => {
            page.append(label);
            page.append(text);
            page.append(end);
            assert(page@ =~= before + (label@ + text@ + end@));
        },
        None => {
            assert(page@ =~= before + Seq::empty());
        },
    }
}

/// The page for a pairing code whose picture is given.
pub fn compose_qr_page(pairing_payload: &Json, picture: &str) -> (r: String)
    ensures
        r@ == qr_page(pairing_payload@, picture@),
{
    let mut page = "\nScan this QR with the iPhone:\n\n".to_owned();
    page.append(picture);
    page.append("\n");
    let ghost head = page@;
    push_label(&mut page, "\nSession ID: ", pairing_payload.get_str("sessionId"), "\n");
    push_label(&mut page, "Device ID: ", pairing_payload.get_str("macDeviceId"), "\n");
    match pairing_payload.get("expiresAt") {
        Some(value) => {
            let text = print_json(value);
            push_label(&mut page, "Expires: ", Some(text.as_str()), "\n\n");
        },
        None => {
            push_label(&mut page, "Expires: ", None, "\n\n");
        },
    }
    assert(page@ =~= head + qr_caption(pairing_payload@));
    page
}

/// What is printed for a pairing code, or why nothing is.
pub open spec fn qr_output(payload: JsonView) -> Reply {
    match qr_picture(json_print(payload)) {
        Ok(picture) => Ok(qr_page(payload, picture)),
        Err(error) => Err(error),
    }
}

/// What is printed for a pairing code: its QR code and what is in it.
pub fn print_qr(pairing_payload: &Json) -> (r: Result<String, String>)
    ensures
        reply_of(r) == qr_output(pairing_payload@),
{
    let payload = print_json(pairing_payload);
    match draw_qr(payload.as_str()) {
        Ok(picture) => Ok(compose_qr_page(pairing_payload, picture.as_str())),
        Err(error) => Err(error),
    }
}

} // verus!
