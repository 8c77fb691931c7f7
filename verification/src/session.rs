//! The interactive session as a state machine: one step per question, fed
//! one typed line at a time. Confirming builds the encoder argument list;
//! confirming or declining alike puts the session back at its start, so no
//! choice outlives the session it was made in.

use vstd::prelude::*;

use crate::encoder::{
    arg_views, build_args, spec_build_args, EncodeSettings,
};
use crate::options::{
    input_pattern, resolve_crop_field, resolve_fps, resolve_format, resolve_output,
    spec_input_pattern, spec_resolve_crop_field, spec_resolve_format, spec_resolve_fps,
    spec_resolve_output, spec_yes_default_no, spec_yes_default_yes, yes_default_no,
    yes_default_yes, CropRegion, OutputFormat,
};
use crate::text::{trim_end, trim_end_seq};
use crate::DEFAULT_FPS;

verus! {

/// Crop width used when the typed width is not a number.
pub const DEFAULT_CROP_WIDTH: i32 = 640;

/// Crop height used when the typed height is not a number.
pub const DEFAULT_CROP_HEIGHT: i32 = 480;

/// Crop offset used when a typed offset is not a number.
pub const DEFAULT_CROP_OFFSET: i32 = 0;

/// The question the session is waiting on.
#[derive(Clone, Copy, Debug, PartialEq, Eq, Structural)]
pub enum Step {
    AskPrefix,
    AskSuffix,
    AskFps,
    AskFormat,
    AskAlpha,
    AskCrop,
    AskCropWidth,
    AskCropHeight,
    AskCropX,
    AskCropY,
    AskOutput,
    AskConfirm,
}

/// One interactive session: the question it is waiting on and every answer
/// gathered so far.
pub struct Session {
    pub step: Step,
    pub prefix: String,
    pub suffix: String,
    pub fps: u32,
    pub format: OutputFormat,
    pub transparent: bool,
    pub crop_wanted: bool,
    pub crop: CropRegion,
    pub output: String,
}

/// The session with its text fields read as character sequences.
#[verifier::ext_equal]
pub struct SessionView {
    pub step: Step,
    pub prefix: Seq<char>,
    pub suffix: Seq<char>,
    pub fps: u32,
    pub format: OutputFormat,
    pub transparent: bool,
    pub crop_wanted: bool,
    pub crop: CropRegion,
    pub output: Seq<char>,
}

impl View for Session {
    type V = SessionView;

    open spec fn view(&self) -> SessionView {
        SessionView {
            step: self.step,
            prefix: self.prefix@,
            suffix: self.suffix@,
            fps: self.fps,
            format: self.format,
            transparent: self.transparent,
            crop_wanted: self.crop_wanted,
            crop: self.crop,
            output: self.output@,
        }
    }
}

/// The state a session starts in: waiting for the prefix, every other
/// field at its default.
pub open spec fn spec_init() -> SessionView {
    SessionView {
        step: Step::AskPrefix,
        prefix: Seq::empty(),
        suffix: Seq::empty(),
        fps: DEFAULT_FPS,
        format: OutputFormat::Webm,
        transparent: false,
        crop_wanted: false,
        crop: CropRegion {
            width: DEFAULT_CROP_WIDTH,
            height: DEFAULT_CROP_HEIGHT,
            x: DEFAULT_CROP_OFFSET,
            y: DEFAULT_CROP_OFFSET,
        },
        output: Seq::empty(),
    }
}

/// The crop the session settled on: the gathered region when crop was
/// accepted, nothing when it was declined.
pub open spec fn spec_session_crop(s: SessionView) -> Option<CropRegion> {
    if s.crop_wanted {
        Some(s.crop)
    } else {
        None
    }
}

/// The encoder argument list of a session about to be confirmed.
pub open spec fn spec_session_args(s: SessionView) -> Seq<Seq<char>> {
    spec_build_args(
        spec_input_pattern(s.prefix, s.suffix),
        s.fps,
        s.format,
        s.transparent,
        spec_session_crop(s),
        s.output,
    )
}

/// Where one typed line takes the session from the state `s`.
pub open spec fn spec_advance(s: SessionView, line: Seq<char>) -> SessionView {
    match s.step {
        Step::AskPrefix => SessionView {
            step: Step::AskSuffix,
            prefix: trim_end_seq(line),
            ..s
        },
        Step::AskSuffix => SessionView {
            step: Step::AskFps,
            suffix: trim_end_seq(line),
            ..s
        },
        Step::AskFps => SessionView { step: Step::AskFormat, fps: spec_resolve_fps(line), ..s },
        Step::AskFormat => match spec_resolve_format(line) {
            Some(f) => SessionView {
                step: if f.spec_supports_alpha() {
                    Step::AskAlpha
                } else {
                    Step::AskCrop
                },
                format: f,
                transparent: false,
                ..s
            },
            None => s,
        },
        Step::AskAlpha => SessionView {
            step: Step::AskCrop,
            transparent: spec_yes_default_yes(line),
            ..s
        },
        Step::AskCrop => if spec_yes_default_no(line) {
            SessionView { step: Step::AskCropWidth, crop_wanted: true, ..s }
        } else {
            SessionView { step: Step::AskOutput, crop_wanted: false, ..s }
        },
        Step::AskCropWidth => SessionView {
            step: Step::AskCropHeight,
            crop: CropRegion {
                width: spec_resolve_crop_field(line, DEFAULT_CROP_WIDTH),
                ..s.crop
            },
            ..s
        },
        Step::AskCropHeight => SessionView {
            step: Step::AskCropX,
            crop: CropRegion {
                height: spec_resolve_crop_field(line, DEFAULT_CROP_HEIGHT),
                ..s.crop
            },
            ..s
        },
        Step::AskCropX => SessionView {
            step: Step::AskCropY,
            crop: CropRegion { x: spec_resolve_crop_field(line, DEFAULT_CROP_OFFSET), ..s.crop },
            ..s
        },
        Step::AskCropY => SessionView {
            step: Step::AskOutput,
            crop: CropRegion { y: spec_resolve_crop_field(line, DEFAULT_CROP_OFFSET), ..s.crop },
            ..s
        },
        Step::AskOutput => SessionView {
            step: Step::AskConfirm,
            output: spec_resolve_output(line, s.format),
            ..s
        },
        Step::AskConfirm => spec_init(),
    }
}

/// What one typed line makes the session hand out: the encoder argument
/// list when it confirms a session, nothing otherwise.
pub open spec fn spec_emits(s: SessionView, line: Seq<char>) -> Option<Seq<Seq<char>>> {
    if s.step is AskConfirm && spec_yes_default_yes(line) {
        Some(spec_session_args(s))
    } else {
        None
    }
}

/// The views of an optional argument list.
pub open spec fn opt_arg_views(r: Option<Vec<String>>) -> Option<Seq<Seq<char>>> {
    match r {
        Some(v) => Some(arg_views(v@)),
        None => None,
    }
}

impl Session {
    /// A session at its start.
    pub fn new() -> (s: Session)
        ensures
            s@ == spec_init(),
    {
        let s = Session {
            step: Step::AskPrefix,
            prefix: String::new(),
            suffix: String::new(),
            fps: DEFAULT_FPS,
            format: OutputFormat::Webm,
            transparent: false,
            crop_wanted: false,
            crop: CropRegion {
                width: DEFAULT_CROP_WIDTH,
                height: DEFAULT_CROP_HEIGHT,
                x: DEFAULT_CROP_OFFSET,
                y: DEFAULT_CROP_OFFSET,
            },
            output: String::new(),
        };
        assert(s@ =~= spec_init());
        s
    }

    /// Feeds the session one typed line. Returns the encoder argument list
    /// when the line confirms the session, and nothing otherwise; either
    /// answer at the confirmation step starts the session over.
    pub fn advance(&mut self, line: &str) -> (r: Option<Vec<String>>)
        ensures
            final(self)@ == spec_advance(old(self)@, line@),
            opt_arg_views(r) == spec_emits(old(self)@, line@),
    {
        match self.step {
            Step::AskPrefix => {
                self.prefix = String::from_str(trim_end(line));
                self.step = Step::AskSuffix;
                None
            },
            Step::AskSuffix => {
                self.suffix = String::from_str(trim_end(line));
                self.step = Step::AskFps;
                None
            },
            Step::AskFps => {
                self.fps = resolve_fps(line);
                self.step = Step::AskFormat;
                None
            },
            Step::AskFormat => {
                match resolve_format(line) {
                    Some(f) => {
                        self.format = f;
                        self.transparent = false;
                        self.step = if f.supports_alpha() {
                            Step::AskAlpha
                        } else {
                            Step::AskCrop
                        };
                    },
                    None => {},
                }
                None
            },
            Step::AskAlpha => {
                self.transparent = yes_default_yes(line);
                self.step = Step::AskCrop;
                None
            },
            Step::AskCrop => {
                if yes_default_no(line) {
                    self.crop_wanted = true;
                    self.step = Step::AskCropWidth;
                } else {
                    self.crop_wanted = false;
                    self.step = Step::AskOutput;
                }
                None
            },
            Step::AskCropWidth => {
                self.crop.width = resolve_crop_field(line, DEFAULT_CROP_WIDTH);
                self.step = Step::AskCropHeight;
                None
            },
            Step::AskCropHeight => {
                self.crop.height = resolve_crop_field(line, DEFAULT_CROP_HEIGHT);
                self.step = Step::AskCropX;
                None
            },
            Step::AskCropX => {
                self.crop.x = resolve_crop_field(line, DEFAULT_CROP_OFFSET);
                self.step = Step::AskCropY;
                None
            },
            Step::AskCropY => {
                self.crop.y = resolve_crop_field(line, DEFAULT_CROP_OFFSET);
                self.step = Step::AskOutput;
                None
            },
            Step::AskOutput => {
                self.output = resolve_output(line, &self.format);
                self.step = Step::AskConfirm;
                None
            },
            Step::AskConfirm => {
                let r = if yes_default_yes(line) {
                    let settings = EncodeSettings {
                        pattern: input_pattern(self.prefix.as_str(), self.suffix.as_str()),
                        fps: self.fps,
                        format: self.format,
                        transparent: self.transparent,
                        crop: if self.crop_wanted {
                            Some(self.crop)
                        } else {
                            None
                        },
                        output: String::from_str(self.output.as_str()),
                    };
                    Some(build_args(&settings))
                } else {
                    None
                };
                *self = Session::new();
                r
            },
        }
    }
}

/// Whichever answer the confirmation step gets, the session starts over:
/// nothing chosen in one session is still set in the next.
pub proof fn lemma_confirm_resets(s: SessionView, line: Seq<char>)
    requires
        s.step is AskConfirm,
    ensures
        spec_advance(s, line) == spec_init(),
{
}

/// An argument list that an MP4 session hands out carries neither
/// `yuva420p` nor `-auto-alt-ref`, whatever was answered for transparency
/// and crop, as long as the output file is not itself named like one of
/// the two.
pub proof fn lemma_mp4_session_emits_no_alpha(s: SessionView, line: Seq<char>)
    requires
        s.format is Mp4,
        s.output != "yuva420p"@,
        s.output != "-auto-alt-ref"@,
    ensures
        spec_emits(s, line) matches Some(args) ==> forall|i: int|
            0 <= i < args.len() ==> args[i] != "yuva420p"@ && args[i] != "-auto-alt-ref"@,
{
    crate::encoder::lemma_mp4_session_no_alpha(
        s.prefix,
        s.suffix,
        s.fps,
        s.transparent,
        spec_session_crop(s),
        s.output,
    );
}

/// A format-menu answer that names no format leaves the session exactly
/// where it was, asking the menu again and handing nothing out.
pub proof fn lemma_invalid_format_reprompts(s: SessionView, line: Seq<char>)
    requires
        s.step is AskFormat,
        spec_resolve_format(line) is None,
    ensures
        spec_advance(s, line) == s,
        spec_emits(s, line) is None,
{
}

} // verus!
