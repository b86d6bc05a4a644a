use azure_tts::{
    AudioFormat, EnUsVoices, Region, SilenceAttributeType, Style, VoiceDescription, VoiceGender,
    VoiceSettings,
};

#[test]
fn style_strings_cover_every_member() {
    let cases: Vec<(Style, &str)> = vec![
        (Style::Affectionate, "affectionate"),
        (Style::Angry, "angry"),
        (Style::Assistant, "assistant"),
        (Style::Calm, "calm"),
        (Style::Chat, "chat"),
        (Style::Cheerful, "cheerful"),
        (Style::Customerservice, "customerservice"),
        (Style::Disgruntled, "disgruntled"),
        (Style::Empathetic, "empathetic"),
        (Style::Fearful, "fearful"),
        (Style::Gentle, "gentle"),
        (Style::Lyrical, "lyrical"),
        (Style::NarrationProfessional, "narration-professional"),
        (Style::Newscast, "newscast"),
        (Style::NewscastCasual, "newscast-casual"),
        (Style::NewscastFormal, "newscast-formal"),
        (Style::Sad, "sad"),
        (Style::Serious, "serious"),
        (Style::Depressed, "depressed"),
        (Style::Embarrassed, "embarrassed"),
    ];
    for (style, expected) in cases {
        assert_eq!(expected, style.as_string());
    }
}

#[test]
fn style_strings_are_stable_across_calls() {
    assert_eq!(Style::Cheerful.as_string(), Style::Cheerful.as_string());
    assert_eq!(
        Style::NarrationProfessional.as_string(),
        Style::NarrationProfessional.as_string()
    );
}

#[test]
fn gender_strings() {
    assert_eq!("Female", VoiceGender::Female.as_string());
    assert_eq!("Male", VoiceGender::Male.as_string());
}

#[test]
fn audio_format_strings_cover_every_member() {
    let cases: Vec<(AudioFormat, &str)> = vec![
        (
            AudioFormat::Audio16khz128kbitrateMonoMp3,
            "audio-16khz-128kbitrate-mono-mp3",
        ),
        (
            AudioFormat::Audio16khz32kbitrateMonoMp3,
            "audio-16khz-32kbitrate-mono-mp3",
        ),
        (
            AudioFormat::Audio16khz64kbitrateMonoMp3,
            "audio-16khz-64kbitrate-mono-mp3",
        ),
        (
            AudioFormat::Audio24khz160kbitrateMonoMp3,
            "audio-24khz-160kbitrate-mono-mp3",
        ),
        (
            AudioFormat::Audio24khz48kbitrateMonoMp3,
            "audio-24khz-48kbitrate-mono-mp3",
        ),
        (
            AudioFormat::Audio24khz96kbitrateMonoMp3,
            "audio-24khz-96kbitrate-mono-mp3",
        ),
        (
            AudioFormat::Audio48khz192kbitrateMonoMp3,
            "audio-48khz-192kbitrate-mono-mp3",
        ),
        (
            AudioFormat::Audio48khz96kbitrateMonoMp3,
            "audio-48khz-96kbitrate-mono-mp3",
        ),
        (AudioFormat::Ogg16khz16bitMonoOpus, "ogg-16khz-16bit-mono-opus"),
        (AudioFormat::Ogg24khz16bitMonoOpus, "ogg-24khz-16bit-mono-opus"),
        (AudioFormat::Ogg48khz16bitMonoOpus, "ogg-48khz-16bit-mono-opus"),
        (AudioFormat::Raw16khz16bitMonoPcm, "raw-16khz-16bit-mono-pcm"),
        (
            AudioFormat::Raw16khz16bitMonoTruesilk,
            "raw-16khz-16bit-mono-truesilk",
        ),
        (AudioFormat::Raw24khz16bitMonoPcm, "raw-24khz-16bit-mono-pcm"),
        (
            AudioFormat::Raw24khz16bitMonoTruesilk,
            "raw-24khz-16bit-mono-truesilk",
        ),
        (AudioFormat::Raw48khz16bitMonoPcm, "raw-48khz-16bit-mono-pcm"),
        (AudioFormat::Raw8khz8bitMonoAlaw, "raw-8khz-8bit-mono-alaw"),
        (AudioFormat::Raw8khz8bitMonoMulct, "raw-8khz-8bit-mono-mulaw"),
        (AudioFormat::Riff16khz16bitMonoPcm, "riff-16khz-16bit-mono-pcm"),
        (AudioFormat::Riff24khz16bitMonoPcm, "riff-24khz-16bit-mono-pcm"),
        (AudioFormat::Riff48khz16bitMonoPcm, "riff-48khz-16bit-mono-pcm"),
        (AudioFormat::Riff8khz8bitMonoAlaw, "riff-8khz-8bit-mono-alaw"),
        (AudioFormat::Riff8khz8bitMonoMulaw, "riff-8khz-8bit-mono-mulaw"),
        (
            AudioFormat::Webm16khz16bitMonoOpus,
            "webm-16khz-16bit-mono-opus",
        ),
        (
            AudioFormat::Webm24khz16bitMonoOpus,
            "webm-24khz-16bit-mono-opus",
        ),
    ];
    for (format, expected) in cases {
        assert_eq!(expected, format.as_string());
    }
}

#[test]
fn region_strings_cover_every_member() {
    let cases: Vec<(Region, &str)> = vec![
        (Region::centralus, "centralus"),
        (Region::eastus, "eastus"),
        (Region::eastus2, "eastus2"),
        (Region::northcentralus, "northcentralus"),
        (Region::southcentralus, "southcentralus"),
        (Region::westcentralus, "westcentralus"),
        (Region::westus, "westus"),
        (Region::westus2, "westus2"),
        (Region::canadacentral, "canadacentral"),
        (Region::brazilsouth, "brazilsouth"),
        (Region::eastasia, "eastasia"),
        (Region::southeastasia, "southeastasia"),
        (Region::australiaeast, "australiaeast"),
        (Region::centralindia, "centralindia"),
        (Region::japaneast, "japaneast"),
        (Region::japanwest, "japanwest"),
        (Region::koreacentral, "koreacentral"),
        (Region::northeurope, "northeurope"),
        (Region::westeurope, "westeurope"),
        (Region::francecentral, "francecentral"),
        (Region::switzerlandnorth, "switzerlandnorth"),
        (Region::uksouth, "uksouth"),
    ];
    for (region, expected) in cases {
        assert_eq!(expected, region.as_string());
    }
}

#[test]
fn silence_attribute_strings_cover_every_member() {
    assert_eq!("Leading", SilenceAttributeType::Leading.as_string());
    assert_eq!("Tailing", SilenceAttributeType::Tailing.as_string());
    assert_eq!(
        "Sentenceboundary",
        SilenceAttributeType::Sentenceboundary.as_string()
    );
}

#[test]
fn voice_settings_new_keeps_fields() {
    let settings = VoiceSettings::new("en-US-SaraNeural", "en-US", VoiceGender::Female);
    assert_eq!("en-US-SaraNeural", &settings.name);
    assert_eq!("en-US", &settings.language);
    assert_eq!(VoiceGender::Female, settings.gender);
}

#[test]
fn default_female_jenny_fields() {
    let settings = VoiceSettings::default_female_jenny();
    assert_eq!("en-US-JennyNeural", &settings.name);
    assert_eq!("en-US", &settings.language);
    assert_eq!(VoiceGender::Female, settings.gender);
}

#[test]
fn en_us_voices_cover_every_member() {
    let cases: Vec<(EnUsVoices, &str, VoiceGender)> = vec![
        (EnUsVoices::JennyNeural, "en-US-JennyNeural", VoiceGender::Female),
        (
            EnUsVoices::JennyMultilingualNeural,
            "en-US-JennyMultilingualNeural",
            VoiceGender::Female,
        ),
        (EnUsVoices::GuyNeural, "en-US-GuyNeural", VoiceGender::Male),
        (EnUsVoices::AmberNeural, "en-US-AmberNeural", VoiceGender::Female),
        (EnUsVoices::AnaNeural, "en-US-AnaNeural", VoiceGender::Female),
        (EnUsVoices::AriaNeural, "en-US-AriaNeural", VoiceGender::Female),
        (EnUsVoices::AshleyNeural, "en-US-AshleyNeural", VoiceGender::Female),
        (EnUsVoices::BrandonNeural, "en-US-BrandonNeural", VoiceGender::Male),
        (
            EnUsVoices::ChristopherNeural,
            "en-US-ChristopherNeural",
            VoiceGender::Male,
        ),
        (EnUsVoices::CoraNeural, "en-US-CoraNeural", VoiceGender::Female),
        (
            EnUsVoices::ElizabethNeural,
            "en-US-ElizabethNeural",
            VoiceGender::Female,
        ),
        (EnUsVoices::EricNeural, "en-US-EricNeural", VoiceGender::Male),
        (EnUsVoices::JacobNeural, "en-US-JacobNeural", VoiceGender::Male),
        (
            EnUsVoices::MichelleNeural,
            "en-US-MichelleNeural",
            VoiceGender::Female,
        ),
        (EnUsVoices::MonicaNeural, "en-US-MonicaNeural", VoiceGender::Female),
        (EnUsVoices::SaraNeural, "en-US-SaraNeural", VoiceGender::Female),
    ];
    for (voice, name, gender) in cases {
        let settings = voice.to_voice_settings();
        assert_eq!(name, &settings.name);
        assert_eq!("en-US", &settings.language);
        assert_eq!(gender, settings.gender);
    }
}

#[test]
fn voice_description_to_voice_settings() {
    let description = VoiceDescription {
        name: String::from("Microsoft Server Speech Text to Speech Voice (en-US, JennyNeural)"),
        display_name: String::from("Jenny"),
        local_name: String::from("en-US"),
        short_name: String::from("en-US-JennyNeural"),
        gender: VoiceGender::Female,
        locale: String::from("en-US"),
        secondary_locale_list: None,
        style_list: Some(vec![String::from("cheerful"), String::from("sad")]),
        sample_rate_hertz: String::from("24000"),
        voice_type: String::from("Neural"),
        status: String::from("GA"),
    };
    let settings = description.to_voice_settings();
    assert_eq!("en-US-JennyNeural", &settings.name);
    assert_eq!("en-US", &settings.language);
    assert_eq!(VoiceGender::Female, settings.gender);
}
