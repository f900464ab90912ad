//! The voices of the synthesis model.
//!
//! The voices are listed by name in alphabetical order, and a voice's
//! speaker number is its place in that list.

use vstd::prelude::*;
use vstd::string::StrSliceExecFns;

verus! {

/// Number of voices.
pub const VOICE_COUNT: usize = 53;

/// What the synthesis engine needs to know of a voice.
#[derive(Debug, Clone, Copy)]
pub struct Voice {
    pub speaker_id: i32,
    pub espeak_code: &'static str,
    pub language: &'static str,
}

/// The names of the voices, in order of their speaker numbers.
pub open spec fn voice_names() -> Seq<Seq<char>> {
    seq![
        "af_alloy"@,
        "af_aoede"@,
        "af_bella"@,
        "af_heart"@,
        "af_jessica"@,
        "af_kore"@,
        "af_nicole"@,
        "af_nova"@,
        "af_river"@,
        "af_sarah"@,
        "af_sky"@,
        "am_adam"@,
        "am_echo"@,
        "am_eric"@,
        "am_fenrir"@,
        "am_liam"@,
        "am_michael"@,
        "am_onyx"@,
        "am_puck"@,
        "am_santa"@,
        "bf_alice"@,
        "bf_emma"@,
        "bf_isabella"@,
        "bf_lily"@,
        "bm_daniel"@,
        "bm_fable"@,
        "bm_george"@,
        "bm_lewis"@,
        "ef_dora"@,
        "em_alex"@,
        "ff_siwis"@,
        "hf_alpha"@,
        "hf_beta"@,
        "hm_omega"@,
        "hm_psi"@,
        "if_sara"@,
        "im_nicola"@,
        "jf_alpha"@,
        "jf_gongitsune"@,
        "jf_nezumi"@,
        "jf_tebukuro"@,
        "jm_kumo"@,
        "pf_dora"@,
        "pm_alex"@,
        "pm_santa"@,
        "zf_xiaobei"@,
        "zf_xiaoni"@,
        "zf_xiaoxiao"@,
        "zf_xiaoyi"@,
        "zm_yunjian"@,
        "zm_yunxi"@,
        "zm_yunxia"@,
        "zm_yunyang"@,
    ]
}

/// The pronunciation code of the voice with the given speaker number.
pub open spec fn espeak_code_of(id: int) -> Seq<char> {
    if id < 20 {
        "en-us"@
    } else if id < 28 {
        "en-gb"@
    } else if id < 30 {
        "es"@
    } else if id < 31 {
        "fr-fr"@
    } else if id < 35 {
        "hi"@
    } else if id < 37 {
        "it"@
    } else if id < 42 {
        "ja"@
    } else if id < 45 {
        "pt-br"@
    } else {
        "cmn"@
    }
}

/// The language of the voice with the given speaker number.
pub open spec fn language_name_of(id: int) -> Seq<char> {
    if id < 20 {
        "American English"@
    } else if id < 28 {
        "British English"@
    } else if id < 30 {
        "Spanish"@
    } else if id < 31 {
        "French"@
    } else if id < 35 {
        "Hindi"@
    } else if id < 37 {
        "Italian"@
    } else if id < 42 {
        "Japanese"@
    } else if id < 45 {
        "Portuguese BR"@
    } else {
        "Mandarin Chinese"@
    }
}

/// Whether `voice` is the entry of the list with speaker number `id`.
pub open spec fn is_voice(voice: Voice, id: int) -> bool {
    &&& voice.speaker_id == id
    &&& voice.espeak_code@ == espeak_code_of(id)
    &&& voice.language@ == language_name_of(id)
}

/// The names of the voices.
pub fn all_voice_names() -> (names: Vec<&'static str>)
    ensures
        names@.len() == VOICE_COUNT,
        names@.len() == voice_names().len(),
        forall|i: int| 0 <= i < names@.len() ==> (#[trigger] names@[i])@ == voice_names()[i],
{
    let names: Vec<&'static str> = vec![
        "af_alloy",
        "af_aoede",
        "af_bella",
        "af_heart",
        "af_jessica",
        "af_kore",
        "af_nicole",
        "af_nova",
        "af_river",
        "af_sarah",
        "af_sky",
        "am_adam",
        "am_echo",
        "am_eric",
        "am_fenrir",
        "am_liam",
        "am_michael",
        "am_onyx",
        "am_puck",
        "am_santa",
        "bf_alice",
        "bf_emma",
        "bf_isabella",
        "bf_lily",
        "bm_daniel",
        "bm_fable",
        "bm_george",
        "bm_lewis",
        "ef_dora",
        "em_alex",
        "ff_siwis",
        "hf_alpha",
        "hf_beta",
        "hm_omega",
        "hm_psi",
        "if_sara",
        "im_nicola",
        "jf_alpha",
        "jf_gongitsune",
        "jf_nezumi",
        "jf_tebukuro",
        "jm_kumo",
        "pf_dora",
        "pm_alex",
        "pm_santa",
        "zf_xiaobei",
        "zf_xiaoni",
        "zf_xiaoxiao",
        "zf_xiaoyi",
        "zm_yunjian",
        "zm_yunxi",
        "zm_yunxia",
        "zm_yunyang",
    ];
    names
}

/// The voice with the given speaker number.
pub fn voice_at(id: usize) -> (voice: Voice)
    requires
        id < VOICE_COUNT,
    ensures
        is_voice(voice, id as int),
{
    let (espeak_code, language): (&'static str, &'static str) = if id < 20 {
        ("en-us", "American English")
    } else if id < 28 {
        ("en-gb", "British English")
    } else if id < 30 {
        ("es", "Spanish")
    } else if id < 31 {
        ("fr-fr", "French")
    } else if id < 35 {
        ("hi", "Hindi")
    } else if id < 37 {
        ("it", "Italian")
    } else if id < 42 {
        ("ja", "Japanese")
    } else if id < 45 {
        ("pt-br", "Portuguese BR")
    } else {
        ("cmn", "Mandarin Chinese")
    };
    Voice { speaker_id: id as i32, espeak_code, language }
}

/// Whether two texts are the same, character by character.
fn same_text(a: &str, b: &str) -> (same: bool)
    ensures
        same == (a@ == b@),
{
    let n = a.unicode_len();
    if n != b.unicode_len() {
        return false;
    }
    let mut i: usize = 0;
    while i < n
        invariant
            n == a@.len(),
            n == b@.len(),
            i <= n,
            forall|k: int| 0 <= k < i ==> a@[k] == b@[k],
        decreases n - i,
    {
        if a.get_char(i) != b.get_char(i) {
            return false;
        }
        i = i + 1;
    }
    proof {
        assert(a@ =~= b@);
    }
    true
}

/// Looks a voice up by its name. It is found exactly if the name is in the
/// list, and then it is the entry of the first place with that name.
pub fn get_voice(name: &str) -> (voice: Option<Voice>)
    ensures
        voice is Some <==> exists|i: int| 0 <= i < voice_names().len() && voice_names()[i] == name@,
        voice matches Some(v) ==> {
            &&& 0 <= v.speaker_id < voice_names().len()
            &&& voice_names()[v.speaker_id as int] == name@
            &&& is_voice(v, v.speaker_id as int)
            &&& forall|j: int| 0 <= j < v.speaker_id ==> voice_names()[j] != name@
        },
{
    let names = all_voice_names();
    let mut i: usize = 0;
    while i < names.len()
        invariant
            i <= names@.len(),
            names@.len() == VOICE_COUNT,
            names@.len() == voice_names().len(),
            forall|k: int| 0 <= k < names@.len() ==> (#[trigger] names@[k])@ == voice_names()[k],
            forall|k: int| 0 <= k < i ==> voice_names()[k] != name@,
        decreases names.len() - i,
    {
        if same_text(names[i], name) {
            return Some(voice_at(i));
        }
        i = i + 1;
    }
    None
}

} // verus!
