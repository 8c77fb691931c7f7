//! Building the exact argument list handed to the external encoder, per
//! output format, and the guarantees that hold of it.

use vstd::prelude::*;

use crate::options::{spec_crop_text, spec_input_pattern, crop_text, CropRegion, OutputFormat};
use crate::text::{dec_digits, is_digit_char, lemma_dec_digits_shape, u32_to_string};

verus! {

/// The views of a list of owned argument strings.
pub open spec fn arg_views(v: Seq<String>) -> Seq<Seq<char>> {
    v.map_values(|s: String| s@)
}

/// The view of an optional owned string.
pub open spec fn opt_view(c: Option<String>) -> Option<Seq<char>> {
    match c {
        Some(s) => Some(s@),
        None => None,
    }
}

/// The filter-graph text for WebM: frames always converted to RGBA first,
/// then cropped when a crop is given.
pub open spec fn spec_webm_filter(crop: Option<Seq<char>>) -> Seq<char> {
    let body = match crop {
        Some(c) => "format=rgba"@ + ","@ + "crop="@ + c,
        None => "format=rgba"@,
    };
    "[0:v]"@ + body + "[v]"@
}

/// The format-specific arguments for WebM: a filter graph when transparency
/// or crop asks for one, then the VP9 codec, the pixel format (with alpha
/// only when transparency is kept), and alternate reference frames off.
pub open spec fn spec_webm_args(crop: Option<Seq<char>>, transparent: bool) -> Seq<Seq<char>> {
    let tail = seq![
        "-c:v"@,
        "libvpx-vp9"@,
        "-pix_fmt"@,
        if transparent {
            "yuva420p"@
        } else {
            "yuv420p"@
        },
        "-auto-alt-ref"@,
        "0"@,
    ];
    if transparent || crop is Some {
        seq!["-filter_complex"@, spec_webm_filter(crop), "-map"@, "[v]"@] + tail
    } else {
        tail
    }
}

/// The format-specific arguments for MP4: a crop filter when a crop is
/// given, then the H.264 codec and a pixel format without alpha.
pub open spec fn spec_mp4_args(crop: Option<Seq<char>>) -> Seq<Seq<char>> {
    let tail = seq!["-c:v"@, "libx264"@, "-pix_fmt"@, "yuv420p"@];
    match crop {
        Some(c) => seq![
            "-filter_complex"@,
            "[0:v]"@ + "crop="@ + c + "[v]"@,
            "-map"@,
            "[v]"@,
        ] + tail,
        None => tail,
    }
}

/// The filter-graph text for GIF: the palette pipeline, preceded by an RGBA
/// conversion and the crop when a crop is given.
pub open spec fn spec_gif_filter(crop: Option<Seq<char>>) -> Seq<char> {
    match crop {
        Some(c) => "[0:v]format=rgba,crop="@ + c + "[tmp];[tmp]split[v0][v1];[v0]palettegen[p];[v1][p]paletteuse"@,
        None => "[0:v]split[v0][v1];[v0]palettegen[p];[v1][p]paletteuse"@,
    }
}

/// The format-specific arguments for GIF: always a filter graph.
pub open spec fn spec_gif_args(crop: Option<Seq<char>>) -> Seq<Seq<char>> {
    seq!["-filter_complex"@, spec_gif_filter(crop)]
}

/// Appends the WebM-specific encoder arguments.
pub fn build_webm_args(ff_args: &mut Vec<String>, crop: &Option<String>, transparent: bool)
    ensures
        arg_views(final(ff_args)@) == arg_views(old(ff_args)@) + spec_webm_args(
            opt_view(*crop),
            transparent,
        ),
{
    if transparent || crop.is_some() {
        let mut filter = String::from_str("[0:v]");
        filter.append("format=rgba");
        if let Some(c) = crop {
            filter.append(",");
            filter.append("crop=");
            filter.append(c.as_str());
        }
        filter.append("[v]");
        assert(filter@ == spec_webm_filter(opt_view(*crop)));
        ff_args.push(String::from_str("-filter_complex"));
        ff_args.push(filter);
        ff_args.push(String::from_str("-map"));
        ff_args.push(String::from_str("[v]"));
    }
    ff_args.push(String::from_str("-c:v"));
    ff_args.push(String::from_str("libvpx-vp9"));
    ff_args.push(String::from_str("-pix_fmt"));
    if transparent {
        ff_args.push(String::from_str("yuva420p"));
    } else {
        ff_args.push(String::from_str("yuv420p"));
    }
    ff_args.push(String::from_str("-auto-alt-ref"));
    ff_args.push(String::from_str("0"));
    assert(arg_views(ff_args@) =~= arg_views(old(ff_args)@) + spec_webm_args(
        opt_view(*crop),
        transparent,
    ));
}

/// Appends the MP4-specific encoder arguments.
pub fn build_mp4_args(ff_args: &mut Vec<String>, crop: &Option<String>)
    ensures
        arg_views(final(ff_args)@) == arg_views(old(ff_args)@) + spec_mp4_args(opt_view(*crop)),
{
    if let Some(c) = crop {
        let mut filter = String::from_str("[0:v]");
        filter.append("crop=");
        filter.append(c.as_str());
        filter.append("[v]");
        ff_args.push(String::from_str("-filter_complex"));
        ff_args.push(filter);
        ff_args.push(String::from_str("-map"));
        ff_args.push(String::from_str("[v]"));
    }
    ff_args.push(String::from_str("-c:v"));
    ff_args.push(String::from_str("libx264"));
    ff_args.push(String::from_str("-pix_fmt"));
    ff_args.push(String::from_str("yuv420p"));
    assert(arg_views(ff_args@) =~= arg_views(old(ff_args)@) + spec_mp4_args(opt_view(*crop)));
}

/// Appends the GIF-specific encoder arguments.
pub fn build_gif_args(ff_args: &mut Vec<String>, crop: &Option<String>)
    ensures
        arg_views(final(ff_args)@) == arg_views(old(ff_args)@) + spec_gif_args(opt_view(*crop)),
{
    let filter = match crop {
        Some(c) => {
            let mut f = String::from_str("[0:v]format=rgba,crop=");
            f.append(c.as_str());
            f.append("[tmp];[tmp]split[v0][v1];[v0]palettegen[p];[v1][p]paletteuse");
            f
        },
        None => String::from_str("[0:v]split[v0][v1];[v0]palettegen[p];[v1][p]paletteuse"),
    };
    ff_args.push(String::from_str("-filter_complex"));
    ff_args.push(filter);
    assert(arg_views(ff_args@) =~= arg_views(old(ff_args)@) + spec_gif_args(opt_view(*crop)));
}

/// Everything one confirmed session hands the encoder.
pub struct EncodeSettings {
    pub pattern: String,
    pub fps: u32,
    pub format: OutputFormat,
    pub transparent: bool,
    pub crop: Option<CropRegion>,
    pub output: String,
}

/// The crop region written as filter text, when one was chosen.
pub open spec fn spec_crop_opt_text(crop: Option<CropRegion>) -> Option<Seq<char>> {
    match crop {
        Some(c) => Some(spec_crop_text(c)),
        None => None,
    }
}

/// The format-specific slice of the argument list.
pub open spec fn spec_format_args(
    format: OutputFormat,
    crop: Option<Seq<char>>,
    transparent: bool,
) -> Seq<Seq<char>> {
    match format {
        OutputFormat::Webm => spec_webm_args(crop, transparent),
        OutputFormat::Mp4 => spec_mp4_args(crop),
        OutputFormat::Gif => spec_gif_args(crop),
    }
}

/// The whole argument list of one encode: frame rate and input pattern
/// first, the format-specific arguments next, the output file last.
pub open spec fn spec_build_args(
    pattern: Seq<char>,
    fps: u32,
    format: OutputFormat,
    transparent: bool,
    crop: Option<CropRegion>,
    output: Seq<char>,
) -> Seq<Seq<char>> {
    seq!["-framerate"@, dec_digits(fps as int), "-i"@, pattern] + spec_format_args(
        format,
        spec_crop_opt_text(crop),
        transparent,
    ) + seq![output]
}

/// Builds the whole encoder argument list for the settings `s`.
pub fn build_args(s: &EncodeSettings) -> (v: Vec<String>)
    ensures
        arg_views(v@) == spec_build_args(
            s.pattern@,
            s.fps,
            s.format,
            s.transparent,
            s.crop,
            s.output@,
        ),
{
    let mut v: Vec<String> = Vec::new();
    v.push(String::from_str("-framerate"));
    v.push(u32_to_string(s.fps));
    v.push(String::from_str("-i"));
    v.push(String::from_str(s.pattern.as_str()));
    assert(arg_views(v@) =~~= seq![
        "-framerate"@,
        dec_digits(s.fps as int),
        "-i"@,
        s.pattern@,
    ]);
    let ghost head = arg_views(v@);
    let crop_arg: Option<String> = match &s.crop {
        Some(c) => Some(crop_text(c)),
        None => None,
    };
    assert(opt_view(crop_arg) == spec_crop_opt_text(s.crop));
    match s.format {
        OutputFormat::Webm => build_webm_args(&mut v, &crop_arg, s.transparent),
        OutputFormat::Mp4 => build_mp4_args(&mut v, &crop_arg),
        OutputFormat::Gif => build_gif_args(&mut v, &crop_arg),
    }
    assert(arg_views(v@) =~~= head + spec_format_args(
        s.format,
        spec_crop_opt_text(s.crop),
        s.transparent,
    ));
    v.push(String::from_str(s.output.as_str()));
    assert(arg_views(v@) =~~= spec_build_args(
        s.pattern@,
        s.fps,
        s.format,
        s.transparent,
        s.crop,
        s.output@,
    ));
    v
}

/// The MP4 argument slice holds neither the alpha pixel format `yuva420p`
/// nor the `-auto-alt-ref` switch, whatever the crop.
pub proof fn lemma_mp4_args_no_alpha(crop: Option<Seq<char>>)
    ensures
        forall|i: int|
            0 <= i < spec_mp4_args(crop).len() ==> spec_mp4_args(crop)[i] != "yuva420p"@
                && spec_mp4_args(crop)[i] != "-auto-alt-ref"@,
{
    let a = spec_mp4_args(crop);
    assert forall|i: int| 0 <= i < a.len() implies a[i] != "yuva420p"@ && a[i]
        != "-auto-alt-ref"@ by {
        reveal_strlit("yuva420p");
        reveal_strlit("-auto-alt-ref");
        reveal_strlit("-filter_complex");
        reveal_strlit("[0:v]");
        reveal_strlit("-map");
        reveal_strlit("[v]");
        reveal_strlit("-c:v");
        reveal_strlit("libx264");
        reveal_strlit("-pix_fmt");
        reveal_strlit("yuv420p");
        assert("yuva420p"@.len() == 8);
        assert("yuva420p"@[0] == 'y');
        assert("yuva420p"@[1] == 'u');
        assert("-auto-alt-ref"@.len() == 13);
        assert("-auto-alt-ref"@[1] == 'a');
        match crop {
            Some(c) => {
                assert(a.len() == 8);
                if i == 0 {
                    assert(a[0].len() == 15);
                } else if i == 1 {
                    assert(a[1][0] == '[');
                } else if i == 2 {
                    assert(a[2].len() == 4);
                } else if i == 3 {
                    assert(a[3].len() == 3);
                } else if i == 4 {
                    assert(a[4].len() == 4);
                } else if i == 5 {
                    assert(a[5].len() == 7);
                } else if i == 6 {
                    assert(a[6].len() == 8);
                    assert(a[6][1] == 'p');
                } else {
                    assert(a[7].len() == 7);
                }
            },
            None => {
                assert(a.len() == 4);
                if i == 0 {
                    assert(a[0].len() == 4);
                } else if i == 1 {
                    assert(a[1].len() == 7);
                } else if i == 2 {
                    assert(a[2].len() == 8);
                    assert(a[2][1] == 'p');
                } else {
                    assert(a[3].len() == 7);
                }
            },
        }
    }
}

/// A frame-file pattern is never one of the two alpha switches: the
/// four-digit frame-number field it embeds holds a `%` where neither
/// switch has one.
pub proof fn lemma_pattern_not_alpha_switch(prefix: Seq<char>, suffix: Seq<char>)
    ensures
        spec_input_pattern(prefix, suffix) != "yuva420p"@,
        spec_input_pattern(prefix, suffix) != "-auto-alt-ref"@,
{
    reveal_strlit("%04d");
    reveal_strlit("yuva420p");
    reveal_strlit("-auto-alt-ref");
    let p = spec_input_pattern(prefix, suffix);
    let pl = prefix.len() as int;
    assert(p[pl] == '%');
    if p == "yuva420p"@ {
        assert(p.len() == "yuva420p"@.len());
        assert("yuva420p"@.len() == 8);
        assert("%04d"@.len() == 4);
        assert(p.len() == prefix.len() + 4 + suffix.len());
        if pl == 0 {
            assert("yuva420p"@[0] == 'y');
        } else if pl == 1 {
            assert("yuva420p"@[1] == 'u');
        } else if pl == 2 {
            assert("yuva420p"@[2] == 'v');
        } else if pl == 3 {
            assert("yuva420p"@[3] == 'a');
        } else {
            assert(pl == 4);
            assert("yuva420p"@[4] == '4');
        }
        assert(false);
    }
    if p == "-auto-alt-ref"@ {
        assert(p.len() == "-auto-alt-ref"@.len());
        assert("-auto-alt-ref"@.len() == 13);
        assert("%04d"@.len() == 4);
        assert(p.len() == prefix.len() + 4 + suffix.len());
        if pl == 0 {
            assert("-auto-alt-ref"@[0] == '-');
        } else if pl == 1 {
            assert("-auto-alt-ref"@[1] == 'a');
        } else if pl == 2 {
            assert("-auto-alt-ref"@[2] == 'u');
        } else if pl == 3 {
            assert("-auto-alt-ref"@[3] == 't');
        } else if pl == 4 {
            assert("-auto-alt-ref"@[4] == 'o');
        } else if pl == 5 {
            assert("-auto-alt-ref"@[5] == '-');
        } else if pl == 6 {
            assert("-auto-alt-ref"@[6] == 'a');
        } else if pl == 7 {
            assert("-auto-alt-ref"@[7] == 'l');
        } else if pl == 8 {
            assert("-auto-alt-ref"@[8] == 't');
        } else {
            assert(pl == 9);
            assert("-auto-alt-ref"@[9] == '-');
        }
        assert(false);
    }
}

/// An MP4 session's whole argument list carries neither `yuva420p` nor
/// `-auto-alt-ref`, whatever was answered for transparency and crop, as
/// long as the output file itself is not named like one of the two.
pub proof fn lemma_mp4_session_no_alpha(
    prefix: Seq<char>,
    suffix: Seq<char>,
    fps: u32,
    transparent: bool,
    crop: Option<CropRegion>,
    output: Seq<char>,
)
    requires
        output != "yuva420p"@,
        output != "-auto-alt-ref"@,
    ensures
        ({
            let args = spec_build_args(
                spec_input_pattern(prefix, suffix),
                fps,
                OutputFormat::Mp4,
                transparent,
                crop,
                output,
            );
            forall|i: int|
                0 <= i < args.len() ==> args[i] != "yuva420p"@ && args[i] != "-auto-alt-ref"@
        }),
{
    let ct = spec_crop_opt_text(crop);
    let mid = spec_mp4_args(ct);
    let args = spec_build_args(
        spec_input_pattern(prefix, suffix),
        fps,
        OutputFormat::Mp4,
        transparent,
        crop,
        output,
    );
    assert forall|i: int| 0 <= i < args.len() implies args[i] != "yuva420p"@ && args[i]
        != "-auto-alt-ref"@ by {
        reveal_strlit("yuva420p");
        reveal_strlit("-auto-alt-ref");
        reveal_strlit("-framerate");
        reveal_strlit("-i");
        assert("yuva420p"@.len() == 8);
        assert("yuva420p"@[0] == 'y');
        assert("-auto-alt-ref"@.len() == 13);
        assert("-auto-alt-ref"@[0] == '-');
        lemma_mp4_args_no_alpha(ct);
        lemma_pattern_not_alpha_switch(prefix, suffix);
        lemma_dec_digits_shape(fps as int);
        assert(args.len() == 5 + mid.len());
        if i == 0 {
            assert(args[0].len() == 10);
        } else if i == 1 {
            assert(args[1] == dec_digits(fps as int));
            assert(is_digit_char(dec_digits(fps as int)[0]));
        } else if i == 2 {
            assert(args[2].len() == 2);
        } else if i == 3 {
            assert(args[3] == spec_input_pattern(prefix, suffix));
        } else if i < 4 + mid.len() {
            assert(args[i] == mid[i - 4]);
        } else {
            assert(args[i] == output);
        }
    }
}

} // verus!
