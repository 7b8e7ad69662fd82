//! The command line of the mirroring tool: the arguments that a
//! configuration comes to.

use crate::text::{chars_of, decimal, is_text, optional_text, push_decimal, texts};
use vstd::prelude::*;

verus! {

/// The configuration of one run of the mirroring tool.
#[derive(Debug, Clone)]
pub struct ScrcpyConfig {
    pub serial: String,
    // Video
    pub bitrate: Option<u32>,
    pub max_size: Option<u32>,
    pub max_fps: Option<u32>,
    pub video_codec: Option<String>,
    pub video_encoder: Option<String>,
    pub video_buffer: Option<u32>,
    // Video source
    pub video_source: Option<String>,
    pub camera_facing: Option<String>,
    pub camera_size: Option<String>,
    pub camera_id: Option<String>,
    // Audio
    pub no_audio: bool,
    pub audio_forwarding: bool,
    pub audio_bitrate: Option<u32>,
    pub audio_codec: Option<String>,
    pub microphone_forwarding: bool,
    // Video toggles
    pub no_video: bool,
    pub no_playback: bool,
    // Display
    pub display_id: Option<u32>,
    pub rotation: Option<u32>,
    pub crop: Option<String>,
    pub lock_video_orientation: Option<i32>,
    pub display_buffer: Option<u32>,
    // Window
    pub window_x: Option<u32>,
    pub window_y: Option<u32>,
    pub window_width: Option<u32>,
    pub window_height: Option<u32>,
    pub always_on_top: bool,
    pub window_borderless: bool,
    pub fullscreen: bool,
    pub window_title: Option<String>,
    // Behavior
    pub no_control: bool,
    pub turn_screen_off: bool,
    pub stay_awake: bool,
    pub show_touches: bool,
    pub power_off_on_close: bool,
    pub no_power_on: bool,
    // Recording
    pub record: bool,
    pub record_file: Option<String>,
    // Input modes
    pub keyboard_mode: Option<String>,
    pub mouse_mode: Option<String>,
    pub gamepad_mode: Option<String>,
    // V4L2
    pub v4l2_sink: Option<String>,
    pub v4l2_buffer: Option<u32>,
    // Virtual display
    pub virtual_display: Option<String>,
    pub start_app: Option<String>,
    // OTG
    pub otg_mode: bool,
    // Network
    pub no_cleanup: bool,
    pub force_adb_forward: bool,
    pub time_limit: Option<u32>,
}

// ----------------------------------------------------------------------------
// The arguments of single options
// ----------------------------------------------------------------------------

/// A flag that is passed when it is switched on.
pub open spec fn flag_if(flag: Seq<char>, on: bool) -> Seq<Seq<char>> {
    if on {
        seq![flag]
    } else {
        Seq::empty()
    }
}

/// An option with a number, passed when the number is given and not zero.
pub open spec fn number_option(flag: Seq<char>, value: Option<u32>) -> Seq<Seq<char>> {
    match value {
        Some(n) => if n > 0 {
            seq![flag, decimal(n as nat)]
        } else {
            Seq::empty()
        },
        None => Seq::empty(),
    }
}

/// An option with a text, passed when the text is given and not empty.
pub open spec fn text_option(flag: Seq<char>, value: Option<Seq<char>>) -> Seq<Seq<char>> {
    match value {
        Some(text) => if text.len() > 0 {
            seq![flag, text]
        } else {
            Seq::empty()
        },
        None => Seq::empty(),
    }
}

/// An option with a text, passed when the text is given, not empty, and
/// not what the tool takes anyway.
pub open spec fn text_option_unless(
    flag: Seq<char>,
    value: Option<Seq<char>>,
    usual: Seq<char>,
) -> Seq<Seq<char>> {
    match value {
        Some(text) => if text.len() > 0 && text != usual {
            seq![flag, text]
        } else {
            Seq::empty()
        },
        None => Seq::empty(),
    }
}

/// An option written as one argument with its text, passed when the text
/// is given, not empty, and not what the tool takes anyway.
pub open spec fn joined_option_unless(
    prefix: Seq<char>,
    value: Option<Seq<char>>,
    usual: Seq<char>,
) -> Seq<Seq<char>> {
    match value {
        Some(text) => if text.len() > 0 && text != usual {
            seq![prefix + text]
        } else {
            Seq::empty()
        },
        None => Seq::empty(),
    }
}

fn push_text(args: &mut Vec<String>, text: &str)
    ensures
        texts(final(args)@) == texts(old(args)@).push(text@),
{
    args.push(text.to_owned());
    assert(texts(args@) =~= texts(old(args)@).push(text@));
}

fn push_bool(args: &mut Vec<String>, flag: &str, on: bool)
    ensures
        texts(final(args)@) == texts(old(args)@) + flag_if(flag@, on),
{
    if on {
        push_text(args, flag);
    }
    assert(texts(args@) =~= texts(old(args)@) + flag_if(flag@, on));
}

fn push_optional_u32(args: &mut Vec<String>, flag: &str, value: &Option<u32>)
    ensures
        texts(final(args)@) == texts(old(args)@) + number_option(flag@, *value),
{
    match value {
        Some(n) => {
            if *n > 0 {
                push_text(args, flag);
                let mut number = String::new();
                push_decimal(&mut number, *n as u128);
                assert(number@ =~= decimal(*n as nat));
                push_text(args, number.as_str());
            }
        },
        None => {},
    }
    assert(texts(args@) =~= texts(old(args)@) + number_option(flag@, *value));
}

fn push_optional_str(args: &mut Vec<String>, flag: &str, value: &Option<String>)
    ensures
        texts(final(args)@) == texts(old(args)@) + text_option(flag@, optional_text(*value)),
{
    match value {
        Some(text) => {
            if text.as_str().unicode_len() > 0 {
                push_text(args, flag);
                push_text(args, text.as_str());
            }
        },
        None => {},
    }
    assert(texts(args@) =~= texts(old(args)@) + text_option(flag@, optional_text(*value)));
}

fn is_set_and_not(value: &String, usual: &str) -> (pass: bool)
    ensures
        pass == (value@.len() > 0 && value@ != usual@),
{
    let text = chars_of(value.as_str());
    text.len() > 0 && !is_text(text.as_slice(), usual)
}

fn push_unless(args: &mut Vec<String>, flag: &str, value: &Option<String>, usual: &str)
    ensures
        texts(final(args)@) == texts(old(args)@) + text_option_unless(
            flag@,
            optional_text(*value),
            usual@,
        ),
{
    match value {
        Some(text) => {
            if is_set_and_not(text, usual) {
                push_text(args, flag);
                push_text(args, text.as_str());
            }
        },
        None => {},
    }
    assert(texts(args@) =~= texts(old(args)@) + text_option_unless(
        flag@,
        optional_text(*value),
        usual@,
    ));
}

fn push_joined_unless(args: &mut Vec<String>, prefix: &str, value: &Option<String>, usual: &str)
    ensures
        texts(final(args)@) == texts(old(args)@) + joined_option_unless(
            prefix@,
            optional_text(*value),
            usual@,
        ),
{
    match value {
        Some(text) => {
            if is_set_and_not(text, usual) {
                let mut joined = prefix.to_owned();
                joined.append(text.as_str());
                push_text(args, joined.as_str());
            }
        },
        None => {},
    }
    assert(texts(args@) =~= texts(old(args)@) + joined_option_unless(
        prefix@,
        optional_text(*value),
        usual@,
    ));
}

// ----------------------------------------------------------------------------
// The arguments of the groups of options
// ----------------------------------------------------------------------------

/// Video: switched off, or bit rate, size, frame rate, codec, encoder and
/// buffer.
#[verifier::opaque]
pub open spec fn video_args(c: ScrcpyConfig) -> Seq<Seq<char>> {
    if c.no_video {
        seq!["--no-video"@]
    } else {
        number_option("-b"@, c.bitrate) + number_option("--max-size"@, c.max_size)
            + number_option("--max-fps"@, c.max_fps) + text_option_unless(
            "--video-codec"@,
            optional_text(c.video_codec),
            "h264"@,
        ) + text_option("--video-encoder"@, optional_text(c.video_encoder)) + number_option(
            "--video-buffer"@,
            c.video_buffer,
        )
    }
}

/// Video source: the camera with its options, when the camera is chosen.
#[verifier::opaque]
pub open spec fn source_args(c: ScrcpyConfig) -> Seq<Seq<char>> {
    if optional_text(c.video_source) == Some("camera"@) {
        seq!["--video-source=camera"@] + text_option("--camera-facing"@, optional_text(c.camera_facing))
            + text_option("--camera-size"@, optional_text(c.camera_size)) + text_option(
            "--camera-id"@,
            optional_text(c.camera_id),
        )
    } else {
        Seq::empty()
    }
}

/// Audio: switched off unless it is forwarded and not switched off; then
/// bit rate, codec and the microphone as source.
#[verifier::opaque]
pub open spec fn audio_args(c: ScrcpyConfig) -> Seq<Seq<char>> {
    if c.no_audio || !c.audio_forwarding {
        seq!["--no-audio"@]
    } else {
        number_option("--audio-bit-rate"@, c.audio_bitrate) + text_option_unless(
            "--audio-codec"@,
            optional_text(c.audio_codec),
            "opus"@,
        ) + flag_if("--audio-source=mic"@, c.microphone_forwarding)
    }
}

/// The orientation lock, passed when it is given and not negative.
pub open spec fn orientation_lock_args(value: Option<i32>) -> Seq<Seq<char>> {
    match value {
        Some(n) => if n >= 0 {
            seq!["--lock-video-orientation"@, decimal(n as nat)]
        } else {
            Seq::empty()
        },
        None => Seq::empty(),
    }
}

#[verifier::opaque]
pub open spec fn display_args(c: ScrcpyConfig) -> Seq<Seq<char>> {
    number_option("--display-id"@, c.display_id) + number_option("--orientation"@, c.rotation)
        + text_option("--crop"@, optional_text(c.crop)) + orientation_lock_args(c.lock_video_orientation)
        + number_option("--display-buffer"@, c.display_buffer)
}

/// Where the window stands and how large it is.
#[verifier::opaque]
pub open spec fn window_place_args(c: ScrcpyConfig) -> Seq<Seq<char>> {
    number_option("--window-x"@, c.window_x) + number_option("--window-y"@, c.window_y)
        + number_option("--window-width"@, c.window_width) + number_option(
        "--window-height"@,
        c.window_height,
    )
}

/// How the window looks.
#[verifier::opaque]
pub open spec fn window_style_args(c: ScrcpyConfig) -> Seq<Seq<char>> {
    flag_if("--always-on-top"@, c.always_on_top) + flag_if(
        "--window-borderless"@,
        c.window_borderless,
    ) + flag_if("--fullscreen"@, c.fullscreen) + text_option(
        "--window-title"@,
        optional_text(c.window_title),
    )
}

pub open spec fn window_args(c: ScrcpyConfig) -> Seq<Seq<char>> {
    window_place_args(c) + window_style_args(c)
}

/// What the user may do and what the screen does meanwhile.
#[verifier::opaque]
pub open spec fn control_args(c: ScrcpyConfig) -> Seq<Seq<char>> {
    flag_if("--no-control"@, c.no_control) + flag_if("--turn-screen-off"@, c.turn_screen_off)
        + flag_if("--stay-awake"@, c.stay_awake)
}

/// What is shown of touches, and what becomes of the power of the device.
#[verifier::opaque]
pub open spec fn power_args(c: ScrcpyConfig) -> Seq<Seq<char>> {
    flag_if("--show-touches"@, c.show_touches) + flag_if(
        "--power-off-on-close"@,
        c.power_off_on_close,
    ) + flag_if("--no-power-on"@, c.no_power_on)
}

pub open spec fn behavior_args(c: ScrcpyConfig) -> Seq<Seq<char>> {
    control_args(c) + power_args(c)
}

/// Whether a recording is asked for without a file to record to.
pub open spec fn lacks_record_file(c: ScrcpyConfig) -> bool {
    c.record && match c.record_file {
        Some(file) => file@.len() == 0,
        None => true,
    }
}

#[verifier::opaque]
pub open spec fn record_args(c: ScrcpyConfig) -> Seq<Seq<char>> {
    if c.record {
        text_option("--record"@, optional_text(c.record_file))
    } else {
        Seq::empty()
    }
}

#[verifier::opaque]
pub open spec fn input_args(c: ScrcpyConfig) -> Seq<Seq<char>> {
    joined_option_unless("--keyboard="@, optional_text(c.keyboard_mode), "default"@)
        + joined_option_unless("--mouse="@, optional_text(c.mouse_mode), "default"@)
        + joined_option_unless("--gamepad="@, optional_text(c.gamepad_mode), "disabled"@)
}

/// The video sink, and its buffer only together with it.
#[verifier::opaque]
pub open spec fn v4l2_args(c: ScrcpyConfig) -> Seq<Seq<char>> {
    match c.v4l2_sink {
        Some(sink) => if sink@.len() > 0 {
            seq!["--v4l2-sink="@ + sink@] + number_option("--v4l2-buffer"@, c.v4l2_buffer)
        } else {
            Seq::empty()
        },
        None => Seq::empty(),
    }
}

/// A new display, of the given size if one is given, and the application
/// to start on it.
#[verifier::opaque]
pub open spec fn virtual_display_args(c: ScrcpyConfig) -> Seq<Seq<char>> {
    match c.virtual_display {
        Some(size) => seq![
            if size@.len() > 0 {
                "--new-display="@ + size@
            } else {
                "--new-display"@
            },
        ] + text_option("--start-app"@, optional_text(c.start_app)),
        None => Seq::empty(),
    }
}

#[verifier::opaque]
pub open spec fn network_args(c: ScrcpyConfig) -> Seq<Seq<char>> {
    flag_if("--no-cleanup"@, c.no_cleanup) + flag_if("--force-adb-forward"@, c.force_adb_forward)
        + number_option("--time-limit"@, c.time_limit)
}

/// The arguments that every run starts with: the device.
pub open spec fn device_args(c: ScrcpyConfig) -> Seq<Seq<char>> {
    seq!["-s"@, c.serial@]
}

/// The arguments of the options that shape picture and sound.
pub open spec fn picture_args(c: ScrcpyConfig) -> Seq<Seq<char>> {
    video_args(c) + source_args(c) + audio_args(c) + display_args(c) + window_args(c)
}

/// The arguments of the options that shape the session.
pub open spec fn session_args(c: ScrcpyConfig) -> Seq<Seq<char>> {
    behavior_args(c) + record_args(c) + input_args(c) + v4l2_args(c) + flag_if(
        "--no-playback"@,
        c.no_playback,
    ) + virtual_display_args(c) + network_args(c)
}

/// The arguments that the options of a configuration come to, group by
/// group.
pub open spec fn option_args(c: ScrcpyConfig) -> Seq<Seq<char>> {
    picture_args(c) + session_args(c)
}

/// The arguments of a run, or the reason for which the configuration
/// allows none. In OTG mode nothing but the mode is passed; a recording
/// without a file is refused.
pub open spec fn scrcpy_args(c: ScrcpyConfig) -> Result<Seq<Seq<char>>, Seq<char>> {
    if c.otg_mode {
        Ok(device_args(c).push("--otg"@))
    } else if lacks_record_file(c) {
        Err("Recording enabled but no file path provided"@)
    } else {
        Ok(device_args(c) + option_args(c))
    }
}

fn push_video(args: &mut Vec<String>, c: &ScrcpyConfig)
    ensures
        texts(final(args)@) == texts(old(args)@) + video_args(*c),
{
    reveal(video_args);
    if c.no_video {
        push_text(args, "--no-video");
    } else {
        push_optional_u32(args, "-b", &c.bitrate);
        push_optional_u32(args, "--max-size", &c.max_size);
        push_optional_u32(args, "--max-fps", &c.max_fps);
        push_unless(args, "--video-codec", &c.video_codec, "h264");
        push_optional_str(args, "--video-encoder", &c.video_encoder);
        push_optional_u32(args, "--video-buffer", &c.video_buffer);
    }
    assert(texts(args@) =~= texts(old(args)@) + video_args(*c));
}

fn push_source(args: &mut Vec<String>, c: &ScrcpyConfig)
    ensures
        texts(final(args)@) == texts(old(args)@) + source_args(*c),
{
    reveal(source_args);
    let camera = match &c.video_source {
        Some(source) => {
            let text = chars_of(source.as_str());
            is_text(text.as_slice(), "camera")
        },
        None => false,
    };
    if camera {
        push_text(args, "--video-source=camera");
        push_optional_str(args, "--camera-facing", &c.camera_facing);
        push_optional_str(args, "--camera-size", &c.camera_size);
        push_optional_str(args, "--camera-id", &c.camera_id);
    }
    assert(texts(args@) =~= texts(old(args)@) + source_args(*c));
}

fn push_audio(args: &mut Vec<String>, c: &ScrcpyConfig)
    ensures
        texts(final(args)@) == texts(old(args)@) + audio_args(*c),
{
    reveal(audio_args);
    if c.no_audio {
        push_text(args, "--no-audio");
    } else if c.audio_forwarding {
        push_optional_u32(args, "--audio-bit-rate", &c.audio_bitrate);
        push_unless(args, "--audio-codec", &c.audio_codec, "opus");
        push_bool(args, "--audio-source=mic", c.microphone_forwarding);
    } else {
        push_text(args, "--no-audio");
    }
    assert(texts(args@) =~= texts(old(args)@) + audio_args(*c));
}

fn push_display(args: &mut Vec<String>, c: &ScrcpyConfig)
    ensures
        texts(final(args)@) == texts(old(args)@) + display_args(*c),
{
    reveal(display_args);
    push_optional_u32(args, "--display-id", &c.display_id);
    push_optional_u32(args, "--orientation", &c.rotation);
    push_optional_str(args, "--crop", &c.crop);
    let ghost before_lock = texts(args@);
    match c.lock_video_orientation {
        Some(n) => {
            if n >= 0 {
                push_text(args, "--lock-video-orientation");
                let mut number = String::new();
                push_decimal(&mut number, n as u128);
                assert(number@ =~= decimal(n as nat));
                push_text(args, number.as_str());
            }
        },
        None => {},
    }
    assert(texts(args@) =~= before_lock + orientation_lock_args(c.lock_video_orientation));
    push_optional_u32(args, "--display-buffer", &c.display_buffer);
    assert(texts(args@) =~= texts(old(args)@) + display_args(*c));
}

fn push_window_place(args: &mut Vec<String>, c: &ScrcpyConfig)
    ensures
        texts(final(args)@) == texts(old(args)@) + window_place_args(*c),
{
    reveal(window_place_args);
    push_optional_u32(args, "--window-x", &c.window_x);
    push_optional_u32(args, "--window-y", &c.window_y);
    push_optional_u32(args, "--window-width", &c.window_width);
    push_optional_u32(args, "--window-height", &c.window_height);
    assert(texts(args@) =~= texts(old(args)@) + window_place_args(*c));
}

fn push_window_style(args: &mut Vec<String>, c: &ScrcpyConfig)
    ensures
        texts(final(args)@) == texts(old(args)@) + window_style_args(*c),
{
    reveal(window_style_args);
    push_bool(args, "--always-on-top", c.always_on_top);
    push_bool(args, "--window-borderless", c.window_borderless);
    push_bool(args, "--fullscreen", c.fullscreen);
    push_optional_str(args, "--window-title", &c.window_title);
    assert(texts(args@) =~= texts(old(args)@) + window_style_args(*c));
}

fn push_window(args: &mut Vec<String>, c: &ScrcpyConfig)
    ensures
        texts(final(args)@) == texts(old(args)@) + window_args(*c),
{
    push_window_place(args, c);
    push_window_style(args, c);
    assert(texts(args@) =~= texts(old(args)@) + window_args(*c));
}

fn push_control(args: &mut Vec<String>, c: &ScrcpyConfig)
    ensures
        texts(final(args)@) == texts(old(args)@) + control_args(*c),
{
    reveal(control_args);
    push_bool(args, "--no-control", c.no_control);
    push_bool(args, "--turn-screen-off", c.turn_screen_off);
    push_bool(args, "--stay-awake", c.stay_awake);
    assert(texts(args@) =~= texts(old(args)@) + control_args(*c));
}

fn push_power(args: &mut Vec<String>, c: &ScrcpyConfig)
    ensures
        texts(final(args)@) == texts(old(args)@) + power_args(*c),
{
    reveal(power_args);
    push_bool(args, "--show-touches", c.show_touches);
    push_bool(args, "--power-off-on-close", c.power_off_on_close);
    push_bool(args, "--no-power-on", c.no_power_on);
    assert(texts(args@) =~= texts(old(args)@) + power_args(*c));
}

fn push_behavior(args: &mut Vec<String>, c: &ScrcpyConfig)
    ensures
        texts(final(args)@) == texts(old(args)@) + behavior_args(*c),
{
    push_control(args, c);
    push_power(args, c);
    assert(texts(args@) =~= texts(old(args)@) + behavior_args(*c));
}

fn push_input(args: &mut Vec<String>, c: &ScrcpyConfig)
    ensures
        texts(final(args)@) == texts(old(args)@) + input_args(*c),
{
    reveal(input_args);
    push_joined_unless(args, "--keyboard=", &c.keyboard_mode, "default");
    push_joined_unless(args, "--mouse=", &c.mouse_mode, "default");
    push_joined_unless(args, "--gamepad=", &c.gamepad_mode, "disabled");
    assert(texts(args@) =~= texts(old(args)@) + input_args(*c));
}

fn push_v4l2(args: &mut Vec<String>, c: &ScrcpyConfig)
    ensures
        texts(final(args)@) == texts(old(args)@) + v4l2_args(*c),
{
    reveal(v4l2_args);
    match &c.v4l2_sink {
        Some(sink) => {
            if sink.as_str().unicode_len() > 0 {
                let mut joined = "--v4l2-sink=".to_owned();
                joined.append(sink.as_str());
                push_text(args, joined.as_str());
                push_optional_u32(args, "--v4l2-buffer", &c.v4l2_buffer);
            }
        },
        None => {},
    }
    assert(texts(args@) =~= texts(old(args)@) + v4l2_args(*c));
}

fn push_virtual_display(args: &mut Vec<String>, c: &ScrcpyConfig)
    ensures
        texts(final(args)@) == texts(old(args)@) + virtual_display_args(*c),
{
    reveal(virtual_display_args);
    match &c.virtual_display {
        Some(size) => {
            if size.as_str().unicode_len() > 0 {
                let mut joined = "--new-display=".to_owned();
                joined.append(size.as_str());
                push_text(args, joined.as_str());
            } else {
                push_text(args, "--new-display");
            }
            push_optional_str(args, "--start-app", &c.start_app);
        },
        None => {},
    }
    assert(texts(args@) =~= texts(old(args)@) + virtual_display_args(*c));
}

fn push_network(args: &mut Vec<String>, c: &ScrcpyConfig)
    ensures
        texts(final(args)@) == texts(old(args)@) + network_args(*c),
{
    reveal(network_args);
    push_bool(args, "--no-cleanup", c.no_cleanup);
    push_bool(args, "--force-adb-forward", c.force_adb_forward);
    push_optional_u32(args, "--time-limit", &c.time_limit);
    assert(texts(args@) =~= texts(old(args)@) + network_args(*c));
}

fn push_picture(args: &mut Vec<String>, c: &ScrcpyConfig)
    ensures
        texts(final(args)@) == texts(old(args)@) + picture_args(*c),
{
    push_video(args, c);
    push_source(args, c);
    push_audio(args, c);
    push_display(args, c);
    push_window(args, c);
    assert(texts(args@) =~= texts(old(args)@) + picture_args(*c));
}

fn push_record(args: &mut Vec<String>, c: &ScrcpyConfig)
    ensures
        texts(final(args)@) == texts(old(args)@) + record_args(*c),
{
    reveal(record_args);
    if c.record {
        push_optional_str(args, "--record", &c.record_file);
    }
    assert(texts(args@) =~= texts(old(args)@) + record_args(*c));
}

fn push_session(args: &mut Vec<String>, c: &ScrcpyConfig)
    ensures
        texts(final(args)@) == texts(old(args)@) + session_args(*c),
{
    push_behavior(args, c);
    push_record(args, c);
    push_input(args, c);
    push_v4l2(args, c);
    push_bool(args, "--no-playback", c.no_playback);
    push_virtual_display(args, c);
    push_network(args, c);
    assert(texts(args@) =~= texts(old(args)@) + session_args(*c));
}

fn push_options(args: &mut Vec<String>, c: &ScrcpyConfig)
    ensures
        texts(final(args)@) == texts(old(args)@) + option_args(*c),
{
    push_picture(args, c);
    push_session(args, c);
    assert(texts(args@) =~= texts(old(args)@) + option_args(*c));
}

/// The arguments with which the mirroring tool is started for a
/// configuration.
pub fn scrcpy_arguments(config: &ScrcpyConfig) -> (command: Result<Vec<String>, String>)
    ensures
        match command {
            Ok(args) => scrcpy_args(*config) == Ok::<Seq<Seq<char>>, Seq<char>>(texts(args@)),
            Err(reason) => scrcpy_args(*config) == Err::<Seq<Seq<char>>, Seq<char>>(reason@),
        },
{
    let mut args: Vec<String> = Vec::new();
    push_text(&mut args, "-s");
    push_text(&mut args, config.serial.as_str());
    assert(texts(args@) =~= device_args(*config));
    if config.otg_mode {
        push_text(&mut args, "--otg");
        return Ok(args);
    }
    let no_file = match &config.record_file {
        Some(file) => file.as_str().unicode_len() == 0,
        None => true,
    };
    if config.record && no_file {
        return Err("Recording enabled but no file path provided".to_owned());
    }
    push_options(&mut args, config);
    Ok(args)
}

/// Every command names its device first, and a command in OTG mode holds
/// nothing but the device and the mode.
pub proof fn lemma_arguments_name_the_device_first(c: ScrcpyConfig)
    ensures
        scrcpy_args(c) matches Ok(args) ==> args.len() >= 2 && args[0] == "-s"@ && args[1]
            == c.serial@,
        c.otg_mode ==> scrcpy_args(c) == Ok::<Seq<Seq<char>>, Seq<char>>(
            seq!["-s"@, c.serial@, "--otg"@],
        ),
        scrcpy_args(c) is Err <==> !c.otg_mode && lacks_record_file(c),
{
    if c.otg_mode {
        assert(device_args(c).push("--otg"@) =~= seq!["-s"@, c.serial@, "--otg"@]);
    }
}

} // verus!
