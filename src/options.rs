//! Transcoding options and their compilation into the external tool's
//! command-line tokens.
use vstd::prelude::*;

use crate::arg::{join_all, join_texts, texts, Arg};

verus! {

#[derive(Debug, Clone, Copy, PartialEq, Eq, Structural)]
pub enum Resolution {
    R720P,
    R1080P,
    R1440P,
    R4K,
}

pub open spec fn resolution_text(r: Resolution) -> Seq<char> {
    match r {
        Resolution::R720P => "1280x720"@,
        Resolution::R1080P => "1920x1080"@,
        Resolution::R1440P => "2560x1440"@,
        Resolution::R4K => "4096x2160"@,
    }
}

impl Resolution {
    pub fn as_str(&self) -> (r: &'static str)
        ensures
            r@ == resolution_text(*self),
    {
        match self {
            Resolution::R720P => "1280x720",
            Resolution::R1080P => "1920x1080",
            Resolution::R1440P => "2560x1440",
            Resolution::R4K => "4096x2160",
        }
    }
}

#[derive(Debug, Clone, Copy, PartialEq, Eq, Structural)]
#[non_exhaustive]
pub enum AudioCodec {
    Flac,
    Aac,
    Ipcm,
}

pub open spec fn audio_codec_text(c: AudioCodec) -> Seq<char> {
    match c {
        AudioCodec::Flac => "flac"@,
        AudioCodec::Aac => "aac"@,
        AudioCodec::Ipcm => "pcm_s24be"@,
    }
}

impl AudioCodec {
    pub fn as_str(&self) -> (r: &'static str)
        ensures
            r@ == audio_codec_text(*self),
    {
        match self {
            AudioCodec::Flac => "flac",
            AudioCodec::Aac => "aac",
            AudioCodec::Ipcm => "pcm_s24be",
        }
    }
}

#[derive(Debug, Clone, Copy, PartialEq, Eq, Structural)]
pub enum PictureFormat {
    Pf42210B,
    Pf4228B,
    Pf42010B,
    Pf4208B,
}

pub open spec fn picture_format_text(p: PictureFormat) -> Seq<char> {
    match p {
        PictureFormat::Pf42210B => "yuv422p10le"@,
        PictureFormat::Pf4228B => "yuv422p"@,
        PictureFormat::Pf42010B => "yuv420p10le"@,
        PictureFormat::Pf4208B => "yuv420p"@,
    }
}

impl PictureFormat {
    pub fn as_str(&self) -> (r: &'static str)
        ensures
            r@ == picture_format_text(*self),
    {
        match self {
            PictureFormat::Pf42210B => "yuv422p10le",
            PictureFormat::Pf4228B => "yuv422p",
            PictureFormat::Pf42010B => "yuv420p10le",
            PictureFormat::Pf4208B => "yuv420p",
        }
    }
}

#[derive(Debug, Clone, Copy, PartialEq, Eq, Structural)]
#[non_exhaustive]
pub enum VideoCodec {
    H264,
    H264NVENC,
    H264AMF,
    H264QSV,
    H265,
    H265NVENC,
    H265AMF,
    H265QSV,
    CineForm,
    Prores,
}

pub open spec fn video_codec_text(c: VideoCodec) -> Seq<char> {
    match c {
        VideoCodec::H264 => "libx264"@,
        VideoCodec::H264NVENC => "h264_nvenc"@,
        VideoCodec::H264AMF => "h264_amf"@,
        VideoCodec::H264QSV => "h264_qsv"@,
        VideoCodec::H265 => "libx265"@,
        VideoCodec::H265NVENC => "hevc_nvenc"@,
        VideoCodec::H265AMF => "hevc_amf"@,
        VideoCodec::H265QSV => "hevc_qsv"@,
        VideoCodec::CineForm => "cfhd"@,
        VideoCodec::Prores => "prores"@,
    }
}

impl VideoCodec {
    pub fn as_str(&self) -> (r: &'static str)
        ensures
            r@ == video_codec_text(*self),
    {
        match self {
            VideoCodec::H264 => "libx264",
            VideoCodec::H264NVENC => "h264_nvenc",
            VideoCodec::H264AMF => "h264_amf",
            VideoCodec::H264QSV => "h264_qsv",
            VideoCodec::H265 => "libx265",
            VideoCodec::H265NVENC => "hevc_nvenc",
            VideoCodec::H265AMF => "hevc_amf",
            VideoCodec::H265QSV => "hevc_qsv",
            VideoCodec::CineForm => "cfhd",
            VideoCodec::Prores => "prores",
        }
    }
}

#[derive(Debug, Clone, Copy, PartialEq, Eq, Structural)]
#[non_exhaustive]
pub enum OutputExtension {
    Default,
    Mkv,
    Mov,
    Mp4,
    Mp3,
}

pub open spec fn extension_text(e: OutputExtension) -> Seq<char> {
    match e {
        OutputExtension::Default => "mkv"@,
        OutputExtension::Mkv => "mkv"@,
        OutputExtension::Mov => "mov"@,
        OutputExtension::Mp4 => "mp4"@,
        OutputExtension::Mp3 => "mp3"@,
    }
}

impl OutputExtension {
    pub fn as_str(&self) -> (r: &'static str)
        ensures
            r@ == extension_text(*self),
    {
        match self {
            OutputExtension::Default | OutputExtension::Mkv => "mkv",
            OutputExtension::Mov => "mov",
            OutputExtension::Mp4 => "mp4",
            OutputExtension::Mp3 => "mp3",
        }
    }
}

/// A tunable that either follows the source or takes a chosen value.
#[derive(Debug, Clone, Copy, PartialEq, Eq, Structural)]
#[non_exhaustive]
pub enum ArgsType<T> {
    MatchSource,
    Custom(T),
}

#[derive(Debug, Clone, Copy, PartialEq, Eq, Structural)]
pub enum HwAccel {
    Cuda,
    Directx,
    Vaapi,
    Vulkan,
}

pub open spec fn hwaccel_text(h: HwAccel) -> Seq<char> {
    match h {
        HwAccel::Cuda => "cuda"@,
        HwAccel::Directx => "d3d11va"@,
        HwAccel::Vaapi => "vaapi"@,
        HwAccel::Vulkan => "vulkan"@,
    }
}

impl HwAccel {
    pub fn as_str(&self) -> (r: &'static str)
        ensures
            r@ == hwaccel_text(*self),
    {
        match self {
            HwAccel::Cuda => "cuda",
            HwAccel::Directx => "d3d11va",
            HwAccel::Vaapi => "vaapi",
            HwAccel::Vulkan => "vulkan",
        }
    }
}

/// The digit character of `d < 10`.
pub open spec fn digit_char(d: nat) -> char {
    if d == 0 { '0' }
    else if d == 1 { '1' }
    else if d == 2 { '2' }
    else if d == 3 { '3' }
    else if d == 4 { '4' }
    else if d == 5 { '5' }
    else if d == 6 { '6' }
    else if d == 7 { '7' }
    else if d == 8 { '8' }
    else { '9' }
}

/// Decimal notation of `n`, most significant digit first, no leading zeros.
pub open spec fn decimal_text(n: nat) -> Seq<char>
    decreases n,
{
    if n < 10 {
        seq![digit_char(n)]
    } else {
        decimal_text(n / 10).push(digit_char(n % 10))
    }
}

/// Relies on `ToString` for `u32` (its `Display`): plain decimal notation.
#[verifier::external_body]
fn decimal(n: u32) -> (r: String)
    ensures
        r@ == decimal_text(n as nat),
{
    n.to_string()
}

/// A bitrate token: decimal kilobits with the `k` suffix.
pub open spec fn bitrate_text(b: u32) -> Seq<char> {
    decimal_text(b as nat) + "k"@
}

fn bitrate(b: u32) -> (r: String)
    ensures
        r@ == bitrate_text(b),
{
    let mut s = decimal(b);
    s.append("k");
    s
}

/// Settings of one transcode: each tunable follows the source or is set.
#[derive(Debug, Clone, Copy)]
pub struct FfmpegOptions {
    pub resolution: ArgsType<Resolution>,
    pub hwaccel: Option<HwAccel>,
    pub audio_codec: ArgsType<AudioCodec>,
    pub video_codec: ArgsType<VideoCodec>,
    pub audio_bitrate: ArgsType<u32>,
    pub video_bitrate: ArgsType<u32>,
    pub picture_format: ArgsType<PictureFormat>,
    pub output_extension: OutputExtension,
}

/// What one run is asked to do: where to read, where to write, whether to
/// group by recording session, and how to transcode.
#[derive(Clone, Debug)]
pub struct ConverterOptions {
    pub input_dir: String,
    pub output_dir: String,
    pub need_sorting: bool,
    pub ffmpeg_options: FfmpegOptions,
}

/// Hardware decoding tokens; NVENC output also keeps frames on the device.
pub open spec fn hwaccel_args(o: FfmpegOptions) -> Seq<Seq<char>> {
    match o.hwaccel {
        Some(h) => seq!["-hwaccel"@, hwaccel_text(h)] + if o.video_codec == ArgsType::Custom(
            VideoCodec::H264NVENC,
        ) {
            seq!["-hwaccel_output_format"@, "cuda"@]
        } else {
            Seq::empty()
        },
        None => Seq::empty(),
    }
}

/// The scaling filter, present only for a chosen resolution.
pub open spec fn scale_args(o: FfmpegOptions) -> Seq<Seq<char>> {
    match o.resolution {
        ArgsType::Custom(r) => seq![
            "-vf"@,
            "\""@ + "scale"@ + ":"@ + resolution_text(r) + ":"@ + "flags"@ + "="@ + "lanczos"@ + "\""@,
        ],
        ArgsType::MatchSource => Seq::empty(),
    }
}

/// Video codec and bitrate; a source-matching codec with no bitrate copies.
pub open spec fn video_args(o: FfmpegOptions) -> Seq<Seq<char>> {
    match (o.video_codec, o.video_bitrate) {
        (ArgsType::Custom(c), ArgsType::Custom(b)) => seq![
            "-c:v"@,
            video_codec_text(c),
            "-b:v"@,
            bitrate_text(b),
        ],
        (ArgsType::MatchSource, ArgsType::MatchSource) => seq!["-c:v"@, "copy"@],
        (ArgsType::MatchSource, ArgsType::Custom(b)) => seq!["-b:v"@, bitrate_text(b)],
        (ArgsType::Custom(c), ArgsType::MatchSource) => seq!["-c:v"@, video_codec_text(c)],
    }
}

/// Audio codec and bitrate; a source-matching codec with no bitrate copies.
/// A chosen codec without a bitrate goes under the `-c:v` flag.
pub open spec fn audio_args(o: FfmpegOptions) -> Seq<Seq<char>> {
    match (o.audio_codec, o.audio_bitrate) {
        (ArgsType::Custom(c), ArgsType::Custom(b)) => seq![
            "-c:a"@,
            audio_codec_text(c),
            "-b:a"@,
            bitrate_text(b),
        ],
        (ArgsType::MatchSource, ArgsType::MatchSource) => seq!["-c:a"@, "copy"@],
        (ArgsType::MatchSource, ArgsType::Custom(b)) => seq!["-b:a"@, bitrate_text(b)],
        (ArgsType::Custom(c), ArgsType::MatchSource) => seq!["-c:v"@, audio_codec_text(c)],
    }
}

/// The whole command line for transcoding `input` into `output`.
pub open spec fn ffmpeg_args(o: FfmpegOptions, input: Seq<char>, output: Seq<char>) -> Seq<
    Seq<char>,
> {
    hwaccel_args(o) + seq!["-i"@, input] + scale_args(o) + video_args(o) + audio_args(o) + seq![
        output,
    ]
}

proof fn lemma_join_single(x: Seq<char>)
    ensures
        join_texts(seq![x]) == x,
{
    reveal_with_fuel(join_texts, 2);
    assert(seq![x].drop_last() =~= Seq::<Seq<char>>::empty());
    assert(Seq::<char>::empty() + x =~= x);
}

fn extend(args: &mut Vec<String>, more: Vec<String>)
    ensures
        texts(final(args)@) == texts(old(args)@) + texts(more@),
{
    let ghost added = more@;
    let mut more = more;
    args.append(&mut more);
    assert(texts(args@) =~= texts(old(args)@) + texts(added));
}

fn push_hwaccel(args: &mut Vec<String>, o: &FfmpegOptions)
    ensures
        texts(final(args)@) == texts(old(args)@) + hwaccel_args(*o),
{
    proof {
        reveal_strlit("-");
        reveal_strlit("hwaccel");
        reveal_strlit("-hwaccel");
        reveal_strlit("hwaccel_output_format");
        reveal_strlit("-hwaccel_output_format");
        assert("-"@ + "hwaccel"@ =~= "-hwaccel"@);
        assert("-"@ + "hwaccel_output_format"@ =~= "-hwaccel_output_format"@);
    }
    let ghost start = texts(args@);
    if let Some(hwaccel) = o.hwaccel {
        extend(args, Arg::new("hwaccel").value(hwaccel.as_str()).build());
        if let ArgsType::Custom(video_codec) = o.video_codec {
            if video_codec == VideoCodec::H264NVENC {
                extend(args, Arg::new("hwaccel_output_format").value("cuda").build());
            }
        }
    }
    assert(texts(args@) =~= start + hwaccel_args(*o));
}

fn push_input(args: &mut Vec<String>, input: String)
    ensures
        texts(final(args)@) == texts(old(args)@) + seq!["-i"@, input@],
{
    proof {
        reveal_strlit("-");
        reveal_strlit("i");
        reveal_strlit("-i");
        assert("-"@ + "i"@ =~= "-i"@);
    }
    let ghost start = texts(args@);
    let ghost text = input@;
    extend(args, Arg::new("i").value(input).build());
    assert(texts(args@) =~= start + seq!["-i"@, text]);
}

fn push_scale(args: &mut Vec<String>, o: &FfmpegOptions)
    ensures
        texts(final(args)@) == texts(old(args)@) + scale_args(*o),
{
    proof {
        reveal_strlit("-");
        reveal_strlit("vf");
        reveal_strlit("-vf");
        assert("-"@ + "vf"@ =~= "-vf"@);
    }
    let ghost start = texts(args@);
    if let ArgsType::Custom(resolution) = o.resolution {
        let scale_parts = Arg::new("scale").without_dash().value(resolution.as_str())
            .with_value_spacer(":").build();
        let scale = join_all(&scale_parts);
        let flag_parts = Arg::new("flags").without_dash().value("lanczos").with_value_spacer(
            "=",
        ).build();
        let flags = join_all(&flag_parts);
        let filter_parts = Arg::new(scale).without_dash().value(flags).value_double_quote()
            .with_value_spacer(":").build();
        let filter = join_all(&filter_parts);
        proof {
            lemma_join_single(texts(scale_parts@)[0]);
            lemma_join_single(texts(flag_parts@)[0]);
            lemma_join_single(texts(filter_parts@)[0]);
            assert(texts(scale_parts@) =~= seq![texts(scale_parts@)[0]]);
            assert(texts(flag_parts@) =~= seq![texts(flag_parts@)[0]]);
            assert(texts(filter_parts@) =~= seq![texts(filter_parts@)[0]]);
            assert(filter@ =~= "\""@ + "scale"@ + ":"@ + resolution_text(resolution) + ":"@
                + "flags"@ + "="@ + "lanczos"@ + "\""@);
        }
        extend(args, Arg::new("vf").value(filter).build());
    }
    assert(texts(args@) =~= start + scale_args(*o));
}

fn push_video(args: &mut Vec<String>, o: &FfmpegOptions)
    ensures
        texts(final(args)@) == texts(old(args)@) + video_args(*o),
{
    proof {
        reveal_strlit("-");
        reveal_strlit("c:v");
        reveal_strlit("-c:v");
        reveal_strlit("b:v");
        reveal_strlit("-b:v");
        assert("-"@ + "c:v"@ =~= "-c:v"@);
        assert("-"@ + "b:v"@ =~= "-b:v"@);
    }
    let ghost start = texts(args@);
    match (o.video_codec, o.video_bitrate) {
        (ArgsType::Custom(codec), ArgsType::Custom(rate)) => {
            extend(args, Arg::new("c:v").value(codec.as_str()).build());
            extend(args, Arg::new("b:v").value(bitrate(rate)).build());
        },
        (ArgsType::MatchSource, ArgsType::MatchSource) => {
            extend(args, Arg::new("c:v").value("copy").build());
        },
        (ArgsType::MatchSource, ArgsType::Custom(rate)) => {
            extend(args, Arg::new("b:v").value(bitrate(rate)).build());
        },
        (ArgsType::Custom(codec), ArgsType::MatchSource) => {
            extend(args, Arg::new("c:v").value(codec.as_str()).build());
        },
    }
    assert(texts(args@) =~= start + video_args(*o));
}

fn push_audio(args: &mut Vec<String>, o: &FfmpegOptions)
    ensures
        texts(final(args)@) == texts(old(args)@) + audio_args(*o),
{
    proof {
        reveal_strlit("-");
        reveal_strlit("c:v");
        reveal_strlit("-c:v");
        reveal_strlit("c:a");
        reveal_strlit("-c:a");
        reveal_strlit("b:a");
        reveal_strlit("-b:a");
        assert("-"@ + "c:v"@ =~= "-c:v"@);
        assert("-"@ + "c:a"@ =~= "-c:a"@);
        assert("-"@ + "b:a"@ =~= "-b:a"@);
    }
    let ghost start = texts(args@);
    match (o.audio_codec, o.audio_bitrate) {
        (ArgsType::Custom(codec), ArgsType::Custom(rate)) => {
            extend(args, Arg::new("c:a").value(codec.as_str()).build());
            extend(args, Arg::new("b:a").value(bitrate(rate)).build());
        },
        (ArgsType::MatchSource, ArgsType::MatchSource) => {
            extend(args, Arg::new("c:a").value("copy").build());
        },
        (ArgsType::MatchSource, ArgsType::Custom(rate)) => {
            extend(args, Arg::new("b:a").value(bitrate(rate)).build());
        },
        (ArgsType::Custom(codec), ArgsType::MatchSource) => {
            extend(args, Arg::new("c:v").value(codec.as_str()).build());
        },
    }
    assert(texts(args@) =~= start + audio_args(*o));
}

impl FfmpegOptions {
    /// Compiles the options into the transcoder's argument tokens.
    pub fn build(self, input: String, output: String) -> (r: Vec<String>)
        ensures
            texts(r@) == ffmpeg_args(self, input@, output@),
    {
        let ghost input_text = input@;
        let mut args: Vec<String> = Vec::new();
        push_hwaccel(&mut args, &self);
        push_input(&mut args, input);
        push_scale(&mut args, &self);
        push_video(&mut args, &self);
        push_audio(&mut args, &self);
        let ghost before = texts(args@);
        args.push(output);
        assert(texts(args@) =~= before + seq![output@]);
        assert(texts(args@) =~= ffmpeg_args(self, input_text, output@));
        args
    }
}

} // verus!
