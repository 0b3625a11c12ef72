//! The files on the card that the updater reads.

use crate::text::{
    concat2, concat3, contains, has_substring, lines, nth_line, str_option, text_option,
};
use crate::work::SDCARD_ROOT;
use vstd::prelude::*;

verus! {

/// Where the installed version of NextUI is written.
pub fn version_path() -> (r: String)
    ensures
        r@ == SDCARD_ROOT@ + ".system/version.txt"@,
{
    concat2(SDCARD_ROOT, ".system/version.txt")
}

/// Where the settings of NextUI are written.
pub fn settings_path() -> (r: String)
    ensures
        r@ == SDCARD_ROOT@ + ".userdata/shared/minuisettings.txt"@,
{
    concat2(SDCARD_ROOT, ".userdata/shared/minuisettings.txt")
}

/// The installed version of NextUI, the start of a commit's hash: the second line
/// of the version file, where there is one.
pub fn current_sha(version_file: &str) -> (r: Option<String>)
    ensures
        text_option(r) == (if lines(version_file@).len() > 1 {
            Some(lines(version_file@)[1])
        } else {
            None
        }),
{
    nth_line(version_file, 1)
}

/// The font's file: the second of the two where the settings could be read and
/// ask for it, else the first.
pub open spec fn preferred_font(settings: Option<Seq<char>>) -> Seq<char> {
    match settings {
        Some(text) => if has_substring(text, "font=1"@) {
            "chillroundm.ttf"@
        } else {
            "BPreplayBold-unhinted.otf"@
        },
        None => "BPreplayBold-unhinted.otf"@,
    }
}

/// Where the font lies that the settings ask for, as far as they could be read.
pub fn font_path(settings: Option<&str>) -> (r: String)
    ensures
        r@ == SDCARD_ROOT@ + ".system/res/"@ + preferred_font(str_option(settings)),
{
    let chosen: bool = match settings {
        Some(text) => contains(text, "font=1"),
        None => false,
    };
    let font: &str = if chosen {
        "chillroundm.ttf"
    } else {
        "BPreplayBold-unhinted.otf"
    };
    concat3(SDCARD_ROOT, ".system/res/", font)
}

} // verus!
