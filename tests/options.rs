use lib_core::options::{
    ArgsType, AudioCodec, FfmpegOptions, HwAccel, OutputExtension, PictureFormat, Resolution,
    VideoCodec,
};

#[test]
fn test_ffmpeg_build() {
    let options = FfmpegOptions {
        audio_bitrate: ArgsType::MatchSource,
        video_bitrate: ArgsType::MatchSource,
        resolution: ArgsType::Custom(Resolution::R1080P),
        hwaccel: Some(HwAccel::Cuda),
        video_codec: ArgsType::Custom(VideoCodec::H264NVENC),
        audio_codec: ArgsType::Custom(AudioCodec::Flac),
        picture_format: ArgsType::MatchSource,
        output_extension: OutputExtension::Default,
    };

    let args = options.build("/s/video/a.mp4".to_string(), "/s/video/a.mkv".to_string());

    assert_eq!(
        args,
        vec![
            "-hwaccel",
            "cuda",
            "-hwaccel_output_format",
            "cuda",
            "-i",
            "/s/video/a.mp4",
            "-vf",
            "\"scale:1920x1080:flags=lanczos\"",
            "-c:v",
            "h264_nvenc",
            "-c:v",
            "flac",
            "/s/video/a.mkv"
        ]
    )
}

fn match_source_options() -> FfmpegOptions {
    FfmpegOptions {
        audio_bitrate: ArgsType::MatchSource,
        video_bitrate: ArgsType::MatchSource,
        resolution: ArgsType::MatchSource,
        hwaccel: None,
        video_codec: ArgsType::MatchSource,
        audio_codec: ArgsType::MatchSource,
        picture_format: ArgsType::MatchSource,
        output_extension: OutputExtension::Mkv,
    }
}

#[test]
fn build_match_source_copies_both_streams() {
    let args = match_source_options().build("in.mp4".to_string(), "out.mkv".to_string());
    assert_eq!(args, vec!["-i", "in.mp4", "-c:v", "copy", "-c:a", "copy", "out.mkv"]);
}

#[test]
fn build_with_codecs_and_bitrates() {
    let mut o = match_source_options();
    o.hwaccel = Some(HwAccel::Vaapi);
    o.video_codec = ArgsType::Custom(VideoCodec::H265);
    o.video_bitrate = ArgsType::Custom(10000);
    o.audio_codec = ArgsType::Custom(AudioCodec::Aac);
    o.audio_bitrate = ArgsType::Custom(320);
    o.resolution = ArgsType::Custom(Resolution::R4K);
    let args = o.build("a.mp4".to_string(), "b.mkv".to_string());
    assert_eq!(
        args,
        vec![
            "-hwaccel",
            "vaapi",
            "-i",
            "a.mp4",
            "-vf",
            "\"scale:4096x2160:flags=lanczos\"",
            "-c:v",
            "libx265",
            "-b:v",
            "10000k",
            "-c:a",
            "aac",
            "-b:a",
            "320k",
            "b.mkv"
        ]
    );
}

#[test]
fn build_bitrate_only() {
    let mut o = match_source_options();
    o.video_bitrate = ArgsType::Custom(0);
    o.audio_bitrate = ArgsType::Custom(4294967295);
    let args = o.build("x".to_string(), "y".to_string());
    assert_eq!(args, vec!["-i", "x", "-b:v", "0k", "-b:a", "4294967295k", "y"]);
}

#[test]
fn build_hwaccel_without_nvenc_has_no_output_format() {
    let mut o = match_source_options();
    o.hwaccel = Some(HwAccel::Cuda);
    o.video_codec = ArgsType::Custom(VideoCodec::H264QSV);
    let args = o.build("x".to_string(), "y".to_string());
    assert_eq!(
        args,
        vec!["-hwaccel", "cuda", "-i", "x", "-c:v", "h264_qsv", "-c:a", "copy", "y"]
    );
}

#[test]
fn option_names() {
    assert_eq!(Resolution::R720P.as_str(), "1280x720");
    assert_eq!(Resolution::R1440P.as_str(), "2560x1440");
    assert_eq!(AudioCodec::Ipcm.as_str(), "pcm_s24be");
    assert_eq!(PictureFormat::Pf42010B.as_str(), "yuv420p10le");
    assert_eq!(VideoCodec::CineForm.as_str(), "cfhd");
    assert_eq!(VideoCodec::H265NVENC.as_str(), "hevc_nvenc");
    assert_eq!(OutputExtension::Default.as_str(), "mkv");
    assert_eq!(OutputExtension::Mp3.as_str(), "mp3");
    assert_eq!(HwAccel::Directx.as_str(), "d3d11va");
}
