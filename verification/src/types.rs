//! Voice, region, style and audio-format catalogues: closed enumerations with
//! their fixed wire-format string mappings, and the settings bundle that
//! selects a voice.

use vstd::prelude::*;

verus! {

/// The voice a document is spoken with: service voice name, language tag,
/// and grammatical gender.
pub struct VoiceSettings {
    pub name: String,
    pub language: String,
    pub gender: VoiceGender,
}

impl VoiceSettings {
    pub fn new(name: &str, language: &str, gender: VoiceGender) -> (r: Self)
        ensures
            r.name@ == name@,
            r.language@ == language@,
            r.gender == gender,
    {
        Self { name: name.to_owned(), language: language.to_owned(), gender }
    }

    pub fn default_female_jenny() -> (r: Self)
        ensures
            r.name@ == "en-US-JennyNeural"@,
            r.language@ == "en-US"@,
            r.gender == VoiceGender::Female,
    {
        Self {
            name: "en-US-JennyNeural".to_owned(),
            language: "en-US".to_owned(),
            gender: VoiceGender::Female,
        }
    }
}

/// Grammatical gender of a synthetic voice, as the service names it.
#[derive(Clone, Copy, Debug, PartialEq, Eq)]
pub enum VoiceGender {
    Male,
    Female,
}

/// The fixed attribute value each gender serializes to.
pub open spec fn spec_gender_str(g: VoiceGender) -> Seq<char> {
    match g {
        VoiceGender::Female => "Female"@,
        VoiceGender::Male => "Male"@,
    }
}

impl VoiceGender {
    pub fn as_string(&self) -> (r: &'static str)
        ensures
            r@ == spec_gender_str(*self),
    {
        match self {
            VoiceGender::Female => "Female",
            VoiceGender::Male => "Male",
        }
    }
}

/// One entry of the service's voice catalogue, as the listing endpoint
/// describes it. The outer layer that performs the listing decodes the
/// service's records into this shape.
#[derive(Debug, Clone)]
pub struct VoiceDescription {
    pub name: String,
    pub display_name: String,
    pub local_name: String,
    pub short_name: String,
    pub gender: VoiceGender,
    pub locale: String,
    pub secondary_locale_list: Option<Vec<String>>,
    pub style_list: Option<Vec<String>>,
    pub sample_rate_hertz: String,
    pub voice_type: String,
    pub status: String,
}

impl VoiceDescription {
    pub fn to_voice_settings(&self) -> (r: VoiceSettings)
        ensures
            r.name@ == self.short_name@,
            r.language@ == self.local_name@,
            r.gender == self.gender,
    {
        VoiceSettings::new(&self.short_name, &self.local_name, self.gender)
    }
}

/// The audio encodings a synthesis request may ask for.
#[derive(Clone, Copy, Debug, PartialEq, Eq)]
pub enum AudioFormat {
    Audio16khz128kbitrateMonoMp3,
    Audio16khz32kbitrateMonoMp3,
    Audio16khz64kbitrateMonoMp3,
    Audio24khz160kbitrateMonoMp3,
    Audio24khz48kbitrateMonoMp3,
    Audio24khz96kbitrateMonoMp3,
    Audio48khz192kbitrateMonoMp3,
    Audio48khz96kbitrateMonoMp3,
    Ogg16khz16bitMonoOpus,
    Ogg24khz16bitMonoOpus,
    Ogg48khz16bitMonoOpus,
    Raw16khz16bitMonoPcm,
    Raw16khz16bitMonoTruesilk,
    Raw24khz16bitMonoPcm,
    Raw24khz16bitMonoTruesilk,
    Raw48khz16bitMonoPcm,
    Raw8khz8bitMonoAlaw,
    Raw8khz8bitMonoMulct,
    Riff16khz16bitMonoPcm,
    Riff24khz16bitMonoPcm,
    Riff48khz16bitMonoPcm,
    Riff8khz8bitMonoAlaw,
    Riff8khz8bitMonoMulaw,
    Webm16khz16bitMonoOpus,
    Webm24khz16bitMonoOpus,
}

/// The fixed wire-format identifier each audio encoding maps to.
pub open spec fn spec_audio_format_str(f: AudioFormat) -> Seq<char> {
    match f {
        AudioFormat::Audio16khz128kbitrateMonoMp3 => "audio-16khz-128kbitrate-mono-mp3"@,
        AudioFormat::Audio16khz32kbitrateMonoMp3 => "audio-16khz-32kbitrate-mono-mp3"@,
        AudioFormat::Audio16khz64kbitrateMonoMp3 => "audio-16khz-64kbitrate-mono-mp3"@,
        AudioFormat::Audio24khz160kbitrateMonoMp3 => "audio-24khz-160kbitrate-mono-mp3"@,
        AudioFormat::Audio24khz48kbitrateMonoMp3 => "audio-24khz-48kbitrate-mono-mp3"@,
        AudioFormat::Audio24khz96kbitrateMonoMp3 => "audio-24khz-96kbitrate-mono-mp3"@,
        AudioFormat::Audio48khz192kbitrateMonoMp3 => "audio-48khz-192kbitrate-mono-mp3"@,
        AudioFormat::Audio48khz96kbitrateMonoMp3 => "audio-48khz-96kbitrate-mono-mp3"@,
        AudioFormat::Ogg16khz16bitMonoOpus => "ogg-16khz-16bit-mono-opus"@,
        AudioFormat::Ogg24khz16bitMonoOpus => "ogg-24khz-16bit-mono-opus"@,
        AudioFormat::Ogg48khz16bitMonoOpus => "ogg-48khz-16bit-mono-opus"@,
        AudioFormat::Raw16khz16bitMonoPcm => "raw-16khz-16bit-mono-pcm"@,
        AudioFormat::Raw16khz16bitMonoTruesilk => "raw-16khz-16bit-mono-truesilk"@,
        AudioFormat::Raw24khz16bitMonoPcm => "raw-24khz-16bit-mono-pcm"@,
        AudioFormat::Raw24khz16bitMonoTruesilk => "raw-24khz-16bit-mono-truesilk"@,
        AudioFormat::Raw48khz16bitMonoPcm => "raw-48khz-16bit-mono-pcm"@,
        AudioFormat::Raw8khz8bitMonoAlaw => "raw-8khz-8bit-mono-alaw"@,
        AudioFormat::Raw8khz8bitMonoMulct => "raw-8khz-8bit-mono-mulaw"@,
        AudioFormat::Riff16khz16bitMonoPcm => "riff-16khz-16bit-mono-pcm"@,
        AudioFormat::Riff24khz16bitMonoPcm => "riff-24khz-16bit-mono-pcm"@,
        AudioFormat::Riff48khz16bitMonoPcm => "riff-48khz-16bit-mono-pcm"@,
        AudioFormat::Riff8khz8bitMonoAlaw => "riff-8khz-8bit-mono-alaw"@,
        AudioFormat::Riff8khz8bitMonoMulaw => "riff-8khz-8bit-mono-mulaw"@,
        AudioFormat::Webm16khz16bitMonoOpus => "webm-16khz-16bit-mono-opus"@,
        AudioFormat::Webm24khz16bitMonoOpus => "webm-24khz-16bit-mono-opus"@,
    }
}

impl AudioFormat {
    pub fn as_string(&self) -> (r: &'static str)
        ensures
            r@ == spec_audio_format_str(*self),
    {
        match self {
            AudioFormat::Audio16khz128kbitrateMonoMp3 => "audio-16khz-128kbitrate-mono-mp3",
            AudioFormat::Audio16khz32kbitrateMonoMp3 => "audio-16khz-32kbitrate-mono-mp3",
            AudioFormat::Audio16khz64kbitrateMonoMp3 => "audio-16khz-64kbitrate-mono-mp3",
            AudioFormat::Audio24khz160kbitrateMonoMp3 => "audio-24khz-160kbitrate-mono-mp3",
            AudioFormat::Audio24khz48kbitrateMonoMp3 => "audio-24khz-48kbitrate-mono-mp3",
            AudioFormat::Audio24khz96kbitrateMonoMp3 => "audio-24khz-96kbitrate-mono-mp3",
            AudioFormat::Audio48khz192kbitrateMonoMp3 => "audio-48khz-192kbitrate-mono-mp3",
            AudioFormat::Audio48khz96kbitrateMonoMp3 => "audio-48khz-96kbitrate-mono-mp3",
            AudioFormat::Ogg16khz16bitMonoOpus => "ogg-16khz-16bit-mono-opus",
            AudioFormat::Ogg24khz16bitMonoOpus => "ogg-24khz-16bit-mono-opus",
            AudioFormat::Ogg48khz16bitMonoOpus => "ogg-48khz-16bit-mono-opus",
            AudioFormat::Raw16khz16bitMonoPcm => "raw-16khz-16bit-mono-pcm",
            AudioFormat::Raw16khz16bitMonoTruesilk => "raw-16khz-16bit-mono-truesilk",
            AudioFormat::Raw24khz16bitMonoPcm => "raw-24khz-16bit-mono-pcm",
            AudioFormat::Raw24khz16bitMonoTruesilk => "raw-24khz-16bit-mono-truesilk",
            AudioFormat::Raw48khz16bitMonoPcm => "raw-48khz-16bit-mono-pcm",
            AudioFormat::Raw8khz8bitMonoAlaw => "raw-8khz-8bit-mono-alaw",
            AudioFormat::Raw8khz8bitMonoMulct => "raw-8khz-8bit-mono-mulaw",
            AudioFormat::Riff16khz16bitMonoPcm => "riff-16khz-16bit-mono-pcm",
            AudioFormat::Riff24khz16bitMonoPcm => "riff-24khz-16bit-mono-pcm",
            AudioFormat::Riff48khz16bitMonoPcm => "riff-48khz-16bit-mono-pcm",
            AudioFormat::Riff8khz8bitMonoAlaw => "riff-8khz-8bit-mono-alaw",
            AudioFormat::Riff8khz8bitMonoMulaw => "riff-8khz-8bit-mono-mulaw",
            AudioFormat::Webm16khz16bitMonoOpus => "webm-16khz-16bit-mono-opus",
            AudioFormat::Webm24khz16bitMonoOpus => "webm-24khz-16bit-mono-opus",
        }
    }
}

/// The service regions a client can be pointed at. Variant names are spelled
/// exactly as the region appears inside endpoint host names.
#[derive(Clone, Copy, Debug, PartialEq, Eq)]
#[allow(non_camel_case_types)]
pub enum Region {
    centralus,
    eastus,
    eastus2,
    northcentralus,
    southcentralus,
    westcentralus,
    westus,
    westus2,
    canadacentral,
    brazilsouth,
    eastasia,
    southeastasia,
    australiaeast,
    centralindia,
    japaneast,
    japanwest,
    koreacentral,
    northeurope,
    westeurope,
    francecentral,
    switzerlandnorth,
    uksouth,
}

/// The fixed host-name fragment each region maps to.
pub open spec fn spec_region_str(r: Region) -> Seq<char> {
    match r {
        Region::centralus => "centralus"@,
        Region::eastus => "eastus"@,
        Region::eastus2 => "eastus2"@,
        Region::northcentralus => "northcentralus"@,
        Region::southcentralus => "southcentralus"@,
        Region::westcentralus => "westcentralus"@,
        Region::westus => "westus"@,
        Region::westus2 => "westus2"@,
        Region::canadacentral => "canadacentral"@,
        Region::brazilsouth => "brazilsouth"@,
        Region::eastasia => "eastasia"@,
        Region::southeastasia => "southeastasia"@,
        Region::australiaeast => "australiaeast"@,
        Region::centralindia => "centralindia"@,
        Region::japaneast => "japaneast"@,
        Region::japanwest => "japanwest"@,
        Region::koreacentral => "koreacentral"@,
        Region::northeurope => "northeurope"@,
        Region::westeurope => "westeurope"@,
        Region::francecentral => "francecentral"@,
        Region::switzerlandnorth => "switzerlandnorth"@,
        Region::uksouth => "uksouth"@,
    }
}

impl Region {
    pub fn as_string(&self) -> (r: &'static str)
        ensures
            r@ == spec_region_str(*self),
    {
        match self {
            Region::centralus => "centralus",
            Region::eastus => "eastus",
            Region::eastus2 => "eastus2",
            Region::northcentralus => "northcentralus",
            Region::southcentralus => "southcentralus",
            Region::westcentralus => "westcentralus",
            Region::westus => "westus",
            Region::westus2 => "westus2",
            Region::canadacentral => "canadacentral",
            Region::brazilsouth => "brazilsouth",
            Region::eastasia => "eastasia",
            Region::southeastasia => "southeastasia",
            Region::australiaeast => "australiaeast",
            Region::centralindia => "centralindia",
            Region::japaneast => "japaneast",
            Region::japanwest => "japanwest",
            Region::koreacentral => "koreacentral",
            Region::northeurope => "northeurope",
            Region::westeurope => "westeurope",
            Region::francecentral => "francecentral",
            Region::switzerlandnorth => "switzerlandnorth",
            Region::uksouth => "uksouth",
        }
    }
}

/// The en-US voices the service offered when this catalogue was written.
#[derive(Clone, Copy, Debug, PartialEq, Eq)]
pub enum EnUsVoices {
    JennyNeural,
    JennyMultilingualNeural,
    GuyNeural,
    AmberNeural,
    AnaNeural,
    AriaNeural,
    AshleyNeural,
    BrandonNeural,
    ChristopherNeural,
    CoraNeural,
    ElizabethNeural,
    EricNeural,
    JacobNeural,
    MichelleNeural,
    MonicaNeural,
    SaraNeural,
}

/// The full service voice name of each catalogued en-US voice.
pub open spec fn spec_en_us_voice_name(v: EnUsVoices) -> Seq<char> {
    match v {
        EnUsVoices::JennyNeural => "en-US-JennyNeural"@,
        EnUsVoices::JennyMultilingualNeural => "en-US-JennyMultilingualNeural"@,
        EnUsVoices::GuyNeural => "en-US-GuyNeural"@,
        EnUsVoices::AmberNeural => "en-US-AmberNeural"@,
        EnUsVoices::AnaNeural => "en-US-AnaNeural"@,
        EnUsVoices::AriaNeural => "en-US-AriaNeural"@,
        EnUsVoices::AshleyNeural => "en-US-AshleyNeural"@,
        EnUsVoices::BrandonNeural => "en-US-BrandonNeural"@,
        EnUsVoices::ChristopherNeural => "en-US-ChristopherNeural"@,
        EnUsVoices::CoraNeural => "en-US-CoraNeural"@,
        EnUsVoices::ElizabethNeural => "en-US-ElizabethNeural"@,
        EnUsVoices::EricNeural => "en-US-EricNeural"@,
        EnUsVoices::JacobNeural => "en-US-JacobNeural"@,
        EnUsVoices::MichelleNeural => "en-US-MichelleNeural"@,
        EnUsVoices::MonicaNeural => "en-US-MonicaNeural"@,
        EnUsVoices::SaraNeural => "en-US-SaraNeural"@,
    }
}

/// The grammatical gender of each catalogued en-US voice.
pub open spec fn spec_en_us_voice_gender(v: EnUsVoices) -> VoiceGender {
    match v {
        EnUsVoices::JennyNeural => VoiceGender::Female,
        EnUsVoices::JennyMultilingualNeural => VoiceGender::Female,
        EnUsVoices::GuyNeural => VoiceGender::Male,
        EnUsVoices::AmberNeural => VoiceGender::Female,
        EnUsVoices::AnaNeural => VoiceGender::Female,
        EnUsVoices::AriaNeural => VoiceGender::Female,
        EnUsVoices::AshleyNeural => VoiceGender::Female,
        EnUsVoices::BrandonNeural => VoiceGender::Male,
        EnUsVoices::ChristopherNeural => VoiceGender::Male,
        EnUsVoices::CoraNeural => VoiceGender::Female,
        EnUsVoices::ElizabethNeural => VoiceGender::Female,
        EnUsVoices::EricNeural => VoiceGender::Male,
        EnUsVoices::JacobNeural => VoiceGender::Male,
        EnUsVoices::MichelleNeural => VoiceGender::Female,
        EnUsVoices::MonicaNeural => VoiceGender::Female,
        EnUsVoices::SaraNeural => VoiceGender::Female,
    }
}

impl EnUsVoices {
    pub fn to_voice_settings(&self) -> (r: VoiceSettings)
        ensures
            r.name@ == spec_en_us_voice_name(*self),
            r.language@ == "en-US"@,
            r.gender == spec_en_us_voice_gender(*self),
    {
        match self {
            EnUsVoices::JennyNeural => {
                VoiceSettings::new("en-US-JennyNeural", "en-US", VoiceGender::Female)
            }
            EnUsVoices::JennyMultilingualNeural => VoiceSettings::new(
                "en-US-JennyMultilingualNeural",
                "en-US",
                VoiceGender::Female,
            ),
            EnUsVoices::GuyNeural => {
                VoiceSettings::new("en-US-GuyNeural", "en-US", VoiceGender::Male)
            }
            EnUsVoices::AmberNeural => {
                VoiceSettings::new("en-US-AmberNeural", "en-US", VoiceGender::Female)
            }
            EnUsVoices::AnaNeural => {
                VoiceSettings::new("en-US-AnaNeural", "en-US", VoiceGender::Female)
            }
            EnUsVoices::AriaNeural => {
                VoiceSettings::new("en-US-AriaNeural", "en-US", VoiceGender::Female)
            }
            EnUsVoices::AshleyNeural => {
                VoiceSettings::new("en-US-AshleyNeural", "en-US", VoiceGender::Female)
            }
            EnUsVoices::BrandonNeural => {
                VoiceSettings::new("en-US-BrandonNeural", "en-US", VoiceGender::Male)
            }
            EnUsVoices::ChristopherNeural => {
                VoiceSettings::new("en-US-ChristopherNeural", "en-US", VoiceGender::Male)
            }
            EnUsVoices::CoraNeural => {
                VoiceSettings::new("en-US-CoraNeural", "en-US", VoiceGender::Female)
            }
            EnUsVoices::ElizabethNeural => {
                VoiceSettings::new("en-US-ElizabethNeural", "en-US", VoiceGender::Female)
            }
            EnUsVoices::EricNeural => {
                VoiceSettings::new("en-US-EricNeural", "en-US", VoiceGender::Male)
            }
            EnUsVoices::JacobNeural => {
                VoiceSettings::new("en-US-JacobNeural", "en-US", VoiceGender::Male)
            }
            EnUsVoices::MichelleNeural => {
                VoiceSettings::new("en-US-MichelleNeural", "en-US", VoiceGender::Female)
            }
            EnUsVoices::MonicaNeural => {
                VoiceSettings::new("en-US-MonicaNeural", "en-US", VoiceGender::Female)
            }
            EnUsVoices::SaraNeural => {
                VoiceSettings::new("en-US-SaraNeural", "en-US", VoiceGender::Female)
            }
        }
    }
}

/// Expressive styles a segment may be spoken in: a closed enumeration, so an
/// out-of-catalogue style is unrepresentable.
#[derive(Clone, Copy, Debug, PartialEq, Eq)]
pub enum Style {
    Affectionate,
    Angry,
    Assistant,
    Calm,
    Chat,
    Cheerful,
    Customerservice,
    Disgruntled,
    Empathetic,
    Fearful,
    Gentle,
    Lyrical,
    NarrationProfessional,
    Newscast,
    NewscastCasual,
    NewscastFormal,
    Sad,
    Serious,
    Depressed,
    Embarrassed,
}

/// The fixed lowercase, hyphenated attribute value each style maps to.
pub open spec fn spec_style_str(s: Style) -> Seq<char> {
    match s {
        Style::Affectionate => "affectionate"@,
        Style::Angry => "angry"@,
        Style::Assistant => "assistant"@,
        Style::Calm => "calm"@,
        Style::Chat => "chat"@,
        Style::Cheerful => "cheerful"@,
        Style::Customerservice => "customerservice"@,
        Style::Disgruntled => "disgruntled"@,
        Style::Empathetic => "empathetic"@,
        Style::Fearful => "fearful"@,
        Style::Gentle => "gentle"@,
        Style::Lyrical => "lyrical"@,
        Style::NarrationProfessional => "narration-professional"@,
        Style::Newscast => "newscast"@,
        Style::NewscastCasual => "newscast-casual"@,
        Style::NewscastFormal => "newscast-formal"@,
        Style::Sad => "sad"@,
        Style::Serious => "serious"@,
        Style::Depressed => "depressed"@,
        Style::Embarrassed => "embarrassed"@,
    }
}

impl Style {
    pub fn as_string(&self) -> (r: &'static str)
        ensures
            r@ == spec_style_str(*self),
    {
        match self {
            Style::Affectionate => "affectionate",
            Style::Angry => "angry",
            Style::Assistant => "assistant",
            Style::Calm => "calm",
            Style::Chat => "chat",
            Style::Cheerful => "cheerful",
            Style::Customerservice => "customerservice",
            Style::Disgruntled => "disgruntled",
            Style::Empathetic => "empathetic",
            Style::Fearful => "fearful",
            Style::Gentle => "gentle",
            Style::Lyrical => "lyrical",
            Style::NarrationProfessional => "narration-professional",
            Style::Newscast => "newscast",
            Style::NewscastCasual => "newscast-casual",
            Style::NewscastFormal => "newscast-formal",
            Style::Sad => "sad",
            Style::Serious => "serious",
            Style::Depressed => "depressed",
            Style::Embarrassed => "embarrassed",
        }
    }
}

/// Where a silence span sits relative to the spoken content, as the service's
/// silence attribute names it.
#[derive(Clone, Copy, Debug, PartialEq, Eq)]
pub enum SilenceAttributeType {
    Leading,
    Tailing,
    Sentenceboundary,
}

/// The fixed attribute value each silence placement maps to.
pub open spec fn spec_silence_attribute_str(t: SilenceAttributeType) -> Seq<char> {
    match t {
        SilenceAttributeType::Leading => "Leading"@,
        SilenceAttributeType::Tailing => "Tailing"@,
        SilenceAttributeType::Sentenceboundary => "Sentenceboundary"@,
    }
}

impl SilenceAttributeType {
    pub fn as_string(&self) -> (r: &'static str)
        ensures
            r@ == spec_silence_attribute_str(*self),
    {
        match self {
            SilenceAttributeType::Leading => "Leading",
            SilenceAttributeType::Tailing => "Tailing",
            SilenceAttributeType::Sentenceboundary => "Sentenceboundary",
        }
    }
}

} // verus!
