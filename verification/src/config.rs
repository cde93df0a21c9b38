use vstd::prelude::*;

verus! {

/// IEEE-754 bit pattern of `2.0f32`, the default silence duration in seconds.
pub const DEFAULT_SILENCE_DURATION_SECS_BITS: u32 = 0x4000_0000u32;

/// IEEE-754 bit pattern of `0.01f32`, the default silence amplitude threshold.
pub const DEFAULT_SILENCE_THRESHOLD_BITS: u32 = 0x3C23_D70Au32;

/// User settings of the tool.
///
/// The two floating-point settings are held as the IEEE-754 bit patterns of
/// their `f32` values: the library never computes with them, it only keeps
/// them, and the front end turns them back into `f32` with `f32::from_bits`.
#[derive(Debug, Clone)]
pub struct Config {
    pub xai_api_key: String,
    pub input_device_name: Option<String>,
    /// Bit pattern of the silence duration (seconds, `f32`).
    pub silence_duration_secs_bits: u32,
    /// Bit pattern of the silence threshold (amplitude, `f32`).
    pub silence_threshold_bits: u32,
    pub clipboard_enabled: bool,
    pub auto_input_enabled: bool,
    pub auto_input_send_enter: bool,
    pub vrchat_enabled: bool,
    pub eliza_enabled: bool,
    pub eliza_response_to_vrchat_enabled: bool,
    pub eliza_url: String,
    pub auto_translate_enabled: bool,
    pub translate_lang_preset: String,
    pub translate_lang_custom: String,
}

/// Default silence duration (bit pattern of `2.0f32` seconds).
pub fn default_silence_duration_secs() -> (r: u32)
    ensures
        r == DEFAULT_SILENCE_DURATION_SECS_BITS,
{
    DEFAULT_SILENCE_DURATION_SECS_BITS
}

/// Default silence threshold (bit pattern of `0.01f32`).
pub fn default_silence_threshold() -> (r: u32)
    ensures
        r == DEFAULT_SILENCE_THRESHOLD_BITS,
{
    DEFAULT_SILENCE_THRESHOLD_BITS
}

pub fn default_clipboard_enabled() -> (r: bool)
    ensures
        r == true,
{
    true
}

pub fn default_auto_input_enabled() -> (r: bool)
    ensures
        r == false,
{
    false
}

pub fn default_auto_input_send_enter() -> (r: bool)
    ensures
        r == false,
{
    false
}

pub fn default_vrchat_enabled() -> (r: bool)
    ensures
        r == false,
{
    false
}

pub fn default_eliza_enabled() -> (r: bool)
    ensures
        r == false,
{
    false
}

pub fn default_eliza_response_to_vrchat_enabled() -> (r: bool)
    ensures
        r == false,
{
    false
}

/// The URL of the Eliza agent server used when none is configured.
pub open spec fn default_eliza_url_spec() -> Seq<char> {
    seq!['h', 't', 't', 'p', ':', '/', '/', 'l', 'o', 'c', 'a', 'l', 'h', 'o', 's', 't', ':', '9', '0', '9', '6']
}

pub fn default_eliza_url() -> (r: String)
    ensures
        r@ == default_eliza_url_spec(),
{
    let r = "http://localhost:9096".to_string();
    proof {
        reveal_strlit("http://localhost:9096");
        assert("http://localhost:9096"@ =~= default_eliza_url_spec());
    }
    r
}

pub fn default_auto_translate_enabled() -> (r: bool)
    ensures
        r == false,
{
    false
}

/// The preset code of English, the default translation target.
pub open spec fn preset_en() -> Seq<char> {
    seq!['E', 'N']
}

/// The preset code of Chinese.
pub open spec fn preset_cn() -> Seq<char> {
    seq!['C', 'N']
}

pub fn default_translate_lang_preset() -> (r: String)
    ensures
        r@ == preset_en(),
{
    let r = "EN".to_string();
    proof {
        reveal_strlit("EN");
        assert("EN"@ =~= preset_en());
    }
    r
}

pub fn default_translate_lang_custom() -> (r: String)
    ensures
        r@ == Seq::<char>::empty(),
{
    String::new()
}

/// Display name of English in the translation request ("英語").
pub open spec fn lang_name_english() -> Seq<char> {
    seq!['英', '語']
}

/// Display name of Chinese in the translation request ("中国語").
pub open spec fn lang_name_chinese() -> Seq<char> {
    seq!['中', '国', '語']
}

/// The translation target language that a preset/custom pair resolves to.
pub open spec fn target_lang_spec(preset: Seq<char>, custom: Seq<char>) -> Seq<char> {
    if preset == preset_en() {
        lang_name_english()
    } else if preset == preset_cn() {
        lang_name_chinese()
    } else {
        custom
    }
}

impl Config {
    /// The settings of a fresh installation.
    pub open spec fn is_default(&self) -> bool {
        &&& self.xai_api_key@ == Seq::<char>::empty()
        &&& self.input_device_name is None
        &&& self.silence_duration_secs_bits == DEFAULT_SILENCE_DURATION_SECS_BITS
        &&& self.silence_threshold_bits == DEFAULT_SILENCE_THRESHOLD_BITS
        &&& self.clipboard_enabled
        &&& !self.auto_input_enabled
        &&& !self.auto_input_send_enter
        &&& !self.vrchat_enabled
        &&& !self.eliza_enabled
        &&& !self.eliza_response_to_vrchat_enabled
        &&& self.eliza_url@ == default_eliza_url_spec()
        &&& !self.auto_translate_enabled
        &&& self.translate_lang_preset@ == preset_en()
        &&& self.translate_lang_custom@ == Seq::<char>::empty()
    }

    /// Auto-input and VRChat output are never on together, nor are the Eliza
    /// conversation and automatic translation.
    pub open spec fn exclusive_ok(&self) -> bool {
        &&& !(self.auto_input_enabled && self.vrchat_enabled)
        &&& !(self.eliza_enabled && self.auto_translate_enabled)
    }

    /// `self` and `other` agree on every setting except the four switches that
    /// take part in the two exclusive pairs.
    pub open spec fn same_except_exclusive(&self, other: &Config) -> bool {
        &&& self.xai_api_key@ == other.xai_api_key@
        &&& self.input_device_name == other.input_device_name
        &&& self.silence_duration_secs_bits == other.silence_duration_secs_bits
        &&& self.silence_threshold_bits == other.silence_threshold_bits
        &&& self.clipboard_enabled == other.clipboard_enabled
        &&& self.auto_input_send_enter == other.auto_input_send_enter
        &&& self.eliza_response_to_vrchat_enabled == other.eliza_response_to_vrchat_enabled
        &&& self.eliza_url@ == other.eliza_url@
        &&& self.translate_lang_preset@ == other.translate_lang_preset@
        &&& self.translate_lang_custom@ == other.translate_lang_custom@
    }

    /// The translation target language of these settings.
    pub open spec fn target_lang(&self) -> Seq<char> {
        target_lang_spec(self.translate_lang_preset@, self.translate_lang_custom@)
    }

    /// Turns auto-input on and VRChat output off (the two are exclusive).
    pub fn enable_auto_input_exclusive(&mut self)
        ensures
            final(self).auto_input_enabled,
            !final(self).vrchat_enabled,
            final(self).eliza_enabled == old(self).eliza_enabled,
            final(self).auto_translate_enabled == old(self).auto_translate_enabled,
            final(self).same_except_exclusive(old(self)),
    {
        self.auto_input_enabled = true;
        self.vrchat_enabled = false;
    }

    /// Turns VRChat output on and auto-input off.
    pub fn enable_vrchat_exclusive(&mut self)
        ensures
            final(self).vrchat_enabled,
            !final(self).auto_input_enabled,
            final(self).eliza_enabled == old(self).eliza_enabled,
            final(self).auto_translate_enabled == old(self).auto_translate_enabled,
            final(self).same_except_exclusive(old(self)),
    {
        self.vrchat_enabled = true;
        self.auto_input_enabled = false;
    }

    /// Turns the Eliza conversation on and automatic translation off.
    pub fn enable_eliza_exclusive(&mut self)
        ensures
            final(self).eliza_enabled,
            !final(self).auto_translate_enabled,
            final(self).auto_input_enabled == old(self).auto_input_enabled,
            final(self).vrchat_enabled == old(self).vrchat_enabled,
            final(self).same_except_exclusive(old(self)),
    {
        self.eliza_enabled = true;
        self.auto_translate_enabled = false;
    }

    /// Turns automatic translation on and the Eliza conversation off.
    pub fn enable_auto_translate_exclusive(&mut self)
        ensures
            final(self).auto_translate_enabled,
            !final(self).eliza_enabled,
            final(self).auto_input_enabled == old(self).auto_input_enabled,
            final(self).vrchat_enabled == old(self).vrchat_enabled,
            final(self).same_except_exclusive(old(self)),
    {
        self.auto_translate_enabled = true;
        self.eliza_enabled = false;
    }

    /// The display name of the translation target language: "英語" for the
    /// `EN` preset, "中国語" for `CN`, otherwise the free-form custom name.
    pub fn translate_target_lang(&self) -> (r: String)
        ensures
            r@ == self.target_lang(),
    {
        let preset = self.translate_lang_preset.as_str();
        proof {
            reveal_strlit("EN");
            reveal_strlit("CN");
            assert("EN"@ =~= preset_en());
            assert("CN"@ =~= preset_cn());
        }
        if crate::text::str_equal(preset, "EN") {
            let r = "英語".to_string();
            proof {
                reveal_strlit("英語");
                assert("英語"@ =~= lang_name_english());
            }
            r
        } else if crate::text::str_equal(preset, "CN") {
            let r = "中国語".to_string();
            proof {
                reveal_strlit("中国語");
                assert("中国語"@ =~= lang_name_chinese());
            }
            r
        } else {
            self.translate_lang_custom.clone()
        }
    }
}

impl Default for Config {
    fn default() -> (r: Self)
        ensures
            r.is_default(),
    {
        Config {
            xai_api_key: String::new(),
            input_device_name: None,
            silence_duration_secs_bits: default_silence_duration_secs(),
            silence_threshold_bits: default_silence_threshold(),
            clipboard_enabled: default_clipboard_enabled(),
            auto_input_enabled: default_auto_input_enabled(),
            auto_input_send_enter: default_auto_input_send_enter(),
            vrchat_enabled: default_vrchat_enabled(),
            eliza_enabled: default_eliza_enabled(),
            eliza_response_to_vrchat_enabled: default_eliza_response_to_vrchat_enabled(),
            eliza_url: default_eliza_url(),
            auto_translate_enabled: default_auto_translate_enabled(),
            translate_lang_preset: default_translate_lang_preset(),
            translate_lang_custom: default_translate_lang_custom(),
        }
    }
}

/// The default settings respect both exclusive pairs.
pub proof fn law_default_is_exclusive(c: Config)
    requires
        c.is_default(),
    ensures
        c.exclusive_ok(),
{
}

} // verus!
