use frames_to_video::encoder::{
    build_args, build_gif_args, build_mp4_args, build_webm_args, EncodeSettings,
};
use frames_to_video::options::{CropRegion, OutputFormat};

fn owned(parts: &[&str]) -> Vec<String> {
    parts.iter().map(|p| p.to_string()).collect()
}

#[test]
fn webm_transparent_without_crop() {
    let mut args: Vec<String> = Vec::new();
    build_webm_args(&mut args, &None, true);
    assert_eq!(
        args,
        owned(&[
            "-filter_complex",
            "[0:v]format=rgba[v]",
            "-map",
            "[v]",
            "-c:v",
            "libvpx-vp9",
            "-pix_fmt",
            "yuva420p",
            "-auto-alt-ref",
            "0",
        ])
    );
}

#[test]
fn webm_transparent_with_crop() {
    let mut args: Vec<String> = Vec::new();
    build_webm_args(&mut args, &Some("640:480:0:0".to_string()), true);
    assert_eq!(
        args,
        owned(&[
            "-filter_complex",
            "[0:v]format=rgba,crop=640:480:0:0[v]",
            "-map",
            "[v]",
            "-c:v",
            "libvpx-vp9",
            "-pix_fmt",
            "yuva420p",
            "-auto-alt-ref",
            "0",
        ])
    );
}

#[test]
fn webm_opaque_with_crop() {
    let mut args: Vec<String> = Vec::new();
    build_webm_args(&mut args, &Some("800:600:10:20".to_string()), false);
    assert_eq!(
        args,
        owned(&[
            "-filter_complex",
            "[0:v]format=rgba,crop=800:600:10:20[v]",
            "-map",
            "[v]",
            "-c:v",
            "libvpx-vp9",
            "-pix_fmt",
            "yuv420p",
            "-auto-alt-ref",
            "0",
        ])
    );
}

#[test]
fn webm_opaque_without_crop() {
    let mut args: Vec<String> = Vec::new();
    build_webm_args(&mut args, &None, false);
    assert_eq!(
        args,
        owned(&["-c:v", "libvpx-vp9", "-pix_fmt", "yuv420p", "-auto-alt-ref", "0"])
    );
}

#[test]
fn mp4_without_crop() {
    let mut args: Vec<String> = Vec::new();
    build_mp4_args(&mut args, &None);
    assert_eq!(args, owned(&["-c:v", "libx264", "-pix_fmt", "yuv420p"]));
}

#[test]
fn mp4_with_crop() {
    let mut args: Vec<String> = Vec::new();
    build_mp4_args(&mut args, &Some("640:480:0:0".to_string()));
    assert_eq!(
        args,
        owned(&[
            "-filter_complex",
            "[0:v]crop=640:480:0:0[v]",
            "-map",
            "[v]",
            "-c:v",
            "libx264",
            "-pix_fmt",
            "yuv420p",
        ])
    );
}

#[test]
fn mp4_never_carries_alpha_switches() {
    for crop in [None, Some("640:480:0:0".to_string())] {
        let mut args: Vec<String> = Vec::new();
        build_mp4_args(&mut args, &crop);
        assert!(!args.iter().any(|a| a == "yuva420p"));
        assert!(!args.iter().any(|a| a == "-auto-alt-ref"));
    }
}

#[test]
fn gif_without_crop() {
    let mut args: Vec<String> = Vec::new();
    build_gif_args(&mut args, &None);
    assert_eq!(
        args,
        owned(&[
            "-filter_complex",
            "[0:v]split[v0][v1];[v0]palettegen[p];[v1][p]paletteuse",
        ])
    );
}

#[test]
fn gif_with_crop() {
    let mut args: Vec<String> = Vec::new();
    build_gif_args(&mut args, &Some("100:100:5:5".to_string()));
    assert_eq!(
        args,
        owned(&[
            "-filter_complex",
            "[0:v]format=rgba,crop=100:100:5:5[tmp];[tmp]split[v0][v1];[v0]palettegen[p];[v1][p]paletteuse",
        ])
    );
}

#[test]
fn full_list_frames_the_format_arguments() {
    let settings = EncodeSettings {
        pattern: "f.%04d.png".to_string(),
        fps: 30,
        format: OutputFormat::Mp4,
        transparent: false,
        crop: Some(CropRegion { width: 640, height: 480, x: 0, y: 0 }),
        output: "movie.mp4".to_string(),
    };
    let args = build_args(&settings);
    assert_eq!(
        args,
        owned(&[
            "-framerate",
            "30",
            "-i",
            "f.%04d.png",
            "-filter_complex",
            "[0:v]crop=640:480:0:0[v]",
            "-map",
            "[v]",
            "-c:v",
            "libx264",
            "-pix_fmt",
            "yuv420p",
            "movie.mp4",
        ])
    );
}

#[test]
fn full_list_gif_defaults() {
    let settings = EncodeSettings {
        pattern: "frame_%04d.png".to_string(),
        fps: 24,
        format: OutputFormat::Gif,
        transparent: true,
        crop: None,
        output: "output.gif".to_string(),
    };
    let args = build_args(&settings);
    assert_eq!(
        args,
        owned(&[
            "-framerate",
            "24",
            "-i",
            "frame_%04d.png",
            "-filter_complex",
            "[0:v]split[v0][v1];[v0]palettegen[p];[v1][p]paletteuse",
            "output.gif",
        ])
    );
}
