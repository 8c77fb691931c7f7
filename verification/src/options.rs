//! Resolving each typed answer into a setting: frame rate, output format,
//! yes/no choices, crop region and output file name.

use vstd::prelude::*;

use crate::text::{
    decimal_val, dec_str, reads_as_i32, reads_as_u32, trim, trim_end, trim_end_seq, trim_seq,
    i32_to_string, parse_i32, parse_u32,
};
use crate::DEFAULT_FPS;

verus! {

/// The container the encoder writes: the closed set of supported outputs.
#[derive(Clone, Copy, Debug, PartialEq, Eq, Structural)]
pub enum OutputFormat {
    Webm,
    Mp4,
    Gif,
}

impl OutputFormat {
    /// Whether the format can keep an alpha channel.
    pub open spec fn spec_supports_alpha(self) -> bool {
        self is Webm || self is Gif
    }

    /// Whether the format can keep an alpha channel.
    pub fn supports_alpha(&self) -> (r: bool)
        ensures
            r == self.spec_supports_alpha(),
    {
        match self {
            OutputFormat::Webm => true,
            OutputFormat::Gif => true,
            OutputFormat::Mp4 => false,
        }
    }

    /// The file-name extension of the format.
    pub open spec fn spec_extension(self) -> Seq<char> {
        match self {
            OutputFormat::Webm => "webm"@,
            OutputFormat::Mp4 => "mp4"@,
            OutputFormat::Gif => "gif"@,
        }
    }

    /// The file-name extension of the format.
    pub fn extension(&self) -> (r: &'static str)
        ensures
            r@ == self.spec_extension(),
    {
        match self {
            OutputFormat::Webm => "webm",
            OutputFormat::Mp4 => "mp4",
            OutputFormat::Gif => "gif",
        }
    }
}

/// The frame rate that the answer `s` resolves to: the number it spells,
/// or the default when `s` is blank or not a number that fits.
pub open spec fn spec_resolve_fps(s: Seq<char>) -> u32 {
    if reads_as_u32(trim_seq(s)) {
        decimal_val(trim_seq(s)) as u32
    } else {
        DEFAULT_FPS
    }
}

/// Resolves the frame-rate answer `s`, falling back to the default on a
/// blank or unreadable answer.
pub fn resolve_fps(s: &str) -> (fps: u32)
    ensures
        fps == spec_resolve_fps(s@),
{
    let t = trim(s);
    match parse_u32(t) {
        Some(n) => n,
        None => DEFAULT_FPS,
    }
}

/// The format that the menu answer `s` resolves to: blank and `1` pick
/// WebM, `2` MP4, `3` GIF; anything else resolves to nothing and the menu
/// is asked again.
pub open spec fn spec_resolve_format(s: Seq<char>) -> Option<OutputFormat> {
    let t = trim_seq(s);
    if t.len() == 0 || t =~= seq!['1'] {
        Some(OutputFormat::Webm)
    } else if t =~= seq!['2'] {
        Some(OutputFormat::Mp4)
    } else if t =~= seq!['3'] {
        Some(OutputFormat::Gif)
    } else {
        None
    }
}

/// Resolves the format-menu answer `s`.
pub fn resolve_format(s: &str) -> (r: Option<OutputFormat>)
    ensures
        r == spec_resolve_format(s@),
{
    let t = trim(s);
    let len = t.unicode_len();
    if len == 0 {
        return Some(OutputFormat::Webm);
    }
    if len == 1 {
        let c = t.get_char(0);
        if c == '1' {
            assert(t@ =~= seq!['1']);
            return Some(OutputFormat::Webm);
        }
        if c == '2' {
            assert(t@ =~= seq!['2']);
            return Some(OutputFormat::Mp4);
        }
        if c == '3' {
            assert(t@ =~= seq!['3']);
            return Some(OutputFormat::Gif);
        }
    }
    None
}

/// Whether the answer `s`, its trailing whitespace dropped, means yes when
/// yes is the default: blank, or opening with `y` in either case.
pub open spec fn spec_yes_default_yes(s: Seq<char>) -> bool {
    let t = trim_end_seq(s);
    t.len() == 0 || t[0] == 'y' || t[0] == 'Y'
}

/// Reads a yes/no answer whose default is yes.
pub fn yes_default_yes(s: &str) -> (r: bool)
    ensures
        r == spec_yes_default_yes(s@),
{
    let t = trim_end(s);
    if t.unicode_len() == 0 {
        return true;
    }
    let c = t.get_char(0);
    c == 'y' || c == 'Y'
}

/// Whether the answer `s`, its trailing whitespace dropped, means yes when
/// no is the default: it must open with `y` in either case.
pub open spec fn spec_yes_default_no(s: Seq<char>) -> bool {
    let t = trim_end_seq(s);
    t.len() > 0 && (t[0] == 'y' || t[0] == 'Y')
}

/// Reads a yes/no answer whose default is no.
pub fn yes_default_no(s: &str) -> (r: bool)
    ensures
        r == spec_yes_default_no(s@),
{
    let t = trim_end(s);
    if t.unicode_len() == 0 {
        return false;
    }
    let c = t.get_char(0);
    c == 'y' || c == 'Y'
}

/// The value that one crop answer resolves to: the number it spells, or
/// the field's own default when it is blank or not a number that fits.
pub open spec fn spec_resolve_crop_field(s: Seq<char>, default: i32) -> i32 {
    if reads_as_i32(trim_seq(s)) {
        decimal_val(trim_seq(s)) as i32
    } else {
        default
    }
}

/// Resolves one typed crop value, falling back to the field's default on a
/// blank or unreadable answer.
pub fn resolve_crop_field(s: &str, default: i32) -> (r: i32)
    ensures
        r == spec_resolve_crop_field(s@, default),
{
    let t = trim(s);
    match parse_i32(t) {
        Some(n) => n,
        None => default,
    }
}

/// A crop region: size and offset of the rectangle kept from each frame.
#[derive(Clone, Copy, Debug, PartialEq, Eq, Structural)]
pub struct CropRegion {
    pub width: i32,
    pub height: i32,
    pub x: i32,
    pub y: i32,
}

/// The crop region written as the encoder's filter language wants it:
/// `width:height:x:y` in decimal.
pub open spec fn spec_crop_text(c: CropRegion) -> Seq<char> {
    dec_str(c.width as int) + seq![':'] + dec_str(c.height as int) + seq![':'] + dec_str(
        c.x as int,
    ) + seq![':'] + dec_str(c.y as int)
}

/// Writes the crop region as `width:height:x:y`.
pub fn crop_text(c: &CropRegion) -> (r: String)
    ensures
        r@ == spec_crop_text(*c),
{
    let mut r = i32_to_string(c.width);
    r.append(":");
    r.append(i32_to_string(c.height).as_str());
    r.append(":");
    r.append(i32_to_string(c.x).as_str());
    r.append(":");
    r.append(i32_to_string(c.y).as_str());
    proof {
        reveal_strlit(":");
        assert(":"@ =~= seq![':']);
    }
    r
}

/// A frame-rate answer that is blank — empty, or whitespace alone —
/// resolves to the default rate.
pub proof fn lemma_blank_fps_defaults(s: Seq<char>)
    requires
        trim_seq(s).len() == 0,
    ensures
        spec_resolve_fps(s) == DEFAULT_FPS,
{
}

/// A frame-rate answer that is not a number — some character of it,
/// past an optional sign, is no digit — resolves to the default rate.
pub proof fn lemma_non_numeric_fps_defaults(s: Seq<char>)
    requires
        !crate::text::all_digits(crate::text::strip_sign(trim_seq(s))),
    ensures
        spec_resolve_fps(s) == DEFAULT_FPS,
{
}

/// A crop answer that is not a number — blank, or some character of it,
/// past an optional sign, no digit — resolves to the field's own default.
pub proof fn lemma_non_numeric_crop_defaults(s: Seq<char>, default: i32)
    requires
        !(crate::text::strip_sign(trim_seq(s)).len() > 0 && crate::text::all_digits(
            crate::text::strip_sign(trim_seq(s)),
        )),
    ensures
        spec_resolve_crop_field(s, default) == default,
{
}

/// The pattern naming the frame files: the prefix, a four-digit zero-padded
/// frame-number field, then the suffix.
pub open spec fn spec_input_pattern(prefix: Seq<char>, suffix: Seq<char>) -> Seq<char> {
    prefix + "%04d"@ + suffix
}

/// Builds the frame-file pattern from the typed prefix and suffix.
pub fn input_pattern(prefix: &str, suffix: &str) -> (r: String)
    ensures
        r@ == spec_input_pattern(prefix@, suffix@),
{
    let mut r = String::from_str(prefix);
    r.append("%04d");
    r.append(suffix);
    r
}

/// The output file name that the answer `s` resolves to: the trimmed
/// answer, or `output.` with the format's extension when it is blank.
pub open spec fn spec_resolve_output(s: Seq<char>, format: OutputFormat) -> Seq<char> {
    let t = trim_seq(s);
    if t.len() == 0 {
        "output."@ + format.spec_extension()
    } else {
        t
    }
}

/// Resolves the output-file answer `s`, defaulting per format.
pub fn resolve_output(s: &str, format: &OutputFormat) -> (r: String)
    ensures
        r@ == spec_resolve_output(s@, *format),
{
    let t = trim(s);
    if t.unicode_len() == 0 {
        let mut r = String::from_str("output.");
        r.append(format.extension());
        r
    } else {
        String::from_str(t)
    }
}

} // verus!
