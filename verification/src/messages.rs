use vstd::prelude::*;

verus! {

/// Message shown when the save dialog is dismissed without a destination.
pub open spec fn save_failed_message() -> Seq<char> {
    "Failed to save file."@
}

/// Message shown when both the input and the output path end in `.png`.
pub open spec fn png_to_png_message() -> Seq<char> {
    "You can't convert a PNG to a PNG. You can only convert from PNG to other formats."@
}

/// Message shown when neither the input nor the output path ends in `.png`.
pub open spec fn not_png_message() -> Seq<char> {
    "The file you picked is not a PNG. you can only convert PNG files to other formats."@
}

/// Builds the save-dialog cancellation message.
pub fn msg_save_failed() -> (r: String)
    ensures
        r@ == save_failed_message(),
{
    "Failed to save file.".to_owned()
}

/// Builds the PNG-to-PNG rejection message.
pub fn msg_png_to_png() -> (r: String)
    ensures
        r@ == png_to_png_message(),
{
    "You can't convert a PNG to a PNG. You can only convert from PNG to other formats.".to_owned()
}

/// Builds the not-a-PNG rejection message.
pub fn msg_not_png() -> (r: String)
    ensures
        r@ == not_png_message(),
{
    "The file you picked is not a PNG. you can only convert PNG files to other formats.".to_owned()
}

} // verus!
