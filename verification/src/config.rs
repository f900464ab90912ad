//! Settings that the pipeline's rules depend on: the acceleration
//! provider, the interrupt mode, thread counts and the language choices that
//! follow from a voice's name.

use vstd::prelude::*;
use vstd::string::StrSliceExecFns;

verus! {

/// Hardware acceleration for the models.
#[derive(Debug, Clone, Copy, PartialEq, Eq, Structural)]
pub enum Provider {
    /// Plain processor inference, always available.
    Cpu,
    /// NVIDIA CUDA.
    Cuda,
    /// Apple CoreML.
    CoreMl,
}

/// What happens when the user speaks while a reply is played.
#[derive(Debug, Clone, Copy, PartialEq, Eq, Structural)]
pub enum InterruptMode {
    /// Speech cancels the reply at once.
    Always,
    /// The microphone is muted until the reply has been played.
    Wait,
}

/// The kind of system the program runs on.
#[derive(Debug, Clone, Copy, PartialEq, Eq, Structural)]
pub enum Platform {
    MacOs,
    Linux,
    Other,
}

/// The lexicon files that a voice needs.
#[derive(Debug, Clone, Copy, PartialEq, Eq, Structural)]
pub enum Lexicon {
    /// American English.
    UsEnglish,
    /// British English.
    GbEnglish,
    /// American English first, then Chinese.
    UsEnglishAndChinese,
    /// No lexicon: the voice's language code is used.
    NoLexicon,
}

/// Thread counts for the models; zero stands for "not chosen yet".
#[derive(Debug, Clone, Copy, PartialEq, Eq, Structural)]
pub struct ThreadCounts {
    pub num_threads: usize,
    pub vad_threads: usize,
    pub stt_threads: usize,
    pub tts_threads: usize,
}

impl Default for Provider {
    fn default() -> (provider: Provider)
        ensures
            provider == Provider::Cpu,
    {
        Provider::Cpu
    }
}

impl Default for InterruptMode {
    fn default() -> (mode: InterruptMode)
        ensures
            mode == InterruptMode::Wait,
    {
        InterruptMode::Wait
    }
}

/// The name of a provider.
pub open spec fn provider_name(provider: Provider) -> Seq<char> {
    match provider {
        Provider::Cpu => "cpu"@,
        Provider::Cuda => "cuda"@,
        Provider::CoreMl => "coreml"@,
    }
}

impl Provider {
    /// The provider's name as the inference library spells it.
    pub fn as_sherpa_provider(&self) -> (name: &'static str)
        ensures
            name@ == provider_name(*self),
    {
        match self {
            Provider::Cpu => "cpu",
            Provider::Cuda => "cuda",
            Provider::CoreMl => "coreml",
        }
    }
}

/// The provider that suits a system: CoreML on macOS, CUDA on Linux with an
/// NVIDIA device, the processor everywhere else.
pub open spec fn detected_provider(platform: Platform, nvidia_gpu: bool) -> Provider {
    match platform {
        Platform::MacOs => Provider::CoreMl,
        Platform::Linux => if nvidia_gpu {
            Provider::Cuda
        } else {
            Provider::Cpu
        },
        Platform::Other => Provider::Cpu,
    }
}

/// Picks the provider for a system.
pub fn detect_provider(platform: Platform, nvidia_gpu: bool) -> (provider: Provider)
    ensures
        provider == detected_provider(platform, nvidia_gpu),
{
    match platform {
        Platform::MacOs => Provider::CoreMl,
        Platform::Linux => if nvidia_gpu {
            Provider::Cuda
        } else {
            Provider::Cpu
        },
        Platform::Other => Provider::Cpu,
    }
}

/// Whether an NVIDIA device is there, given for each probed device file
/// whether it exists: one is enough.
pub fn has_nvidia_gpu(probes: &[bool]) -> (found: bool)
    ensures
        found == exists|i: int| 0 <= i < probes@.len() && probes@[i],
{
    let mut i: usize = 0;
    while i < probes.len()
        invariant
            i <= probes@.len(),
            forall|k: int| 0 <= k < i ==> !probes@[k],
        decreases probes.len() - i,
    {
        if probes[i] {
            return true;
        }
        i = i + 1;
    }
    false
}

/// The provider in force for one model: its own setting, else the general
/// setting, else what was detected.
pub fn effective_provider(specific: Option<Provider>, general: Option<Provider>, detected: Provider) -> (provider:
    Provider)
    ensures
        provider == match specific {
            Some(p) => p,
            None => match general {
                Some(p) => p,
                None => detected,
            },
        },
{
    match specific {
        Some(p) => p,
        None => match general {
            Some(p) => p,
            None => detected,
        },
    }
}

/// `num_cpus::get`: the number of processors available, which is at least one.
#[verifier::external_body]
fn available_cpus() -> (cores: usize)
    ensures
        cores >= 1,
{
    num_cpus::get()
}

impl ThreadCounts {
    /// The counts with every zero replaced. The general count becomes one
    /// under CUDA and a third of the cores, at least one, otherwise; voice
    /// detection gets one thread; recognition and synthesis get one thread
    /// under CUDA and the general count otherwise. Counts that were chosen
    /// stay.
    pub open spec fn normalized(self, cpu_cores: usize, stt: Provider, tts: Provider) -> ThreadCounts {
        let general = if self.num_threads != 0 {
            self.num_threads
        } else if stt == Provider::Cuda || tts == Provider::Cuda {
            1usize
        } else if cpu_cores / 3 >= 1 {
            (cpu_cores / 3) as usize
        } else {
            1usize
        };
        ThreadCounts {
            num_threads: general,
            vad_threads: if self.vad_threads != 0 {
                self.vad_threads
            } else {
                1
            },
            stt_threads: if self.stt_threads != 0 {
                self.stt_threads
            } else if stt == Provider::Cuda {
                1
            } else {
                general
            },
            tts_threads: if self.tts_threads != 0 {
                self.tts_threads
            } else if tts == Provider::Cuda {
                1
            } else {
                general
            },
        }
    }

    /// Replaces every zero count for a machine with `cpu_cores` processors.
    pub fn normalize_thread_counts(&mut self, cpu_cores: usize, stt: Provider, tts: Provider)
        ensures
            *final(self) == old(self).normalized(cpu_cores, stt, tts),
            final(self).num_threads > 0,
            final(self).vad_threads > 0 && final(self).stt_threads > 0 && final(self).tts_threads
                > 0,
    {
        let stt_cuda = match stt {
            Provider::Cuda => true,
            _ => false,
        };
        let tts_cuda = match tts {
            Provider::Cuda => true,
            _ => false,
        };
        if self.num_threads == 0 {
            if stt_cuda || tts_cuda {
                self.num_threads = 1;
            } else if cpu_cores / 3 >= 1 {
                self.num_threads = cpu_cores / 3;
            } else {
                self.num_threads = 1;
            }
        }
        if self.vad_threads == 0 {
            self.vad_threads = 1;
        }
        if self.stt_threads == 0 {
            self.stt_threads = if stt_cuda {
                1
            } else {
                self.num_threads
            };
        }
        if self.tts_threads == 0 {
            self.tts_threads = if tts_cuda {
                1
            } else {
                self.num_threads
            };
        }
    }

    /// Replaces every zero count for the machine the program runs on. The
    /// number of its processors is not known beforehand, so the result is
    /// the normal form for some count of at least one.
    pub fn normalize_for_host(&mut self, stt: Provider, tts: Provider) -> (cpu_cores: usize)
        ensures
            cpu_cores >= 1,
            *final(self) == old(self).normalized(cpu_cores, stt, tts),
    {
        let cpu_cores = available_cpus();
        self.normalize_thread_counts(cpu_cores, stt, tts);
        cpu_cores
    }
}

/// Whether a language setting asks for automatic detection: the word
/// "auto", in capitals or small letters.
pub open spec fn is_auto(language: Seq<char>) -> bool {
    &&& language.len() == 4
    &&& (language[0] == 'a' || language[0] == 'A')
    &&& (language[1] == 'u' || language[1] == 'U')
    &&& (language[2] == 't' || language[2] == 'T')
    &&& (language[3] == 'o' || language[3] == 'O')
}

/// The language code handed to recognition: empty for automatic
/// detection, the setting itself otherwise.
pub fn effective_stt_language<'a>(language: &'a str) -> (code: &'a str)
    ensures
        is_auto(language@) ==> code@.len() == 0,
        !is_auto(language@) ==> code@ == language@,
{
    let auto = language.unicode_len() == 4 && {
        let a = language.get_char(0);
        let u = language.get_char(1);
        let t = language.get_char(2);
        let o = language.get_char(3);
        (a == 'a' || a == 'A') && (u == 'u' || u == 'U') && (t == 't' || t == 'T') && (o == 'o'
            || o == 'O')
    };
    if auto {
        proof {
            reveal_strlit("");
        }
        ""
    } else {
        language
    }
}

/// The first two characters of a voice's name, which tell its language and
/// gender; `None` for a shorter name.
pub open spec fn voice_prefix(voice: Seq<char>) -> Option<(char, char)> {
    if voice.len() >= 2 {
        Some((voice[0], voice[1]))
    } else {
        None
    }
}

/// Whether a name of fewer than two characters still fills two bytes: a
/// single character outside ASCII.
pub open spec fn short_but_wide(voice: Seq<char>) -> bool {
    voice.len() == 1 && voice[0] as u32 >= 128
}

/// The language code of a voice that is spoken without a lexicon; empty
/// for the English and Chinese voices and for unknown names.
pub open spec fn language_of(voice: Seq<char>) -> Seq<char> {
    match voice_prefix(voice) {
        Some((l, g)) => if l == 'e' && (g == 'f' || g == 'm') {
            "es"@
        } else if l == 'f' && g == 'f' {
            "fr"@
        } else if l == 'h' && (g == 'f' || g == 'm') {
            "hi"@
        } else if l == 'i' && (g == 'f' || g == 'm') {
            "it"@
        } else if l == 'j' && (g == 'f' || g == 'm') {
            "ja"@
        } else if l == 'p' && (g == 'f' || g == 'm') {
            "pt-br"@
        } else {
            ""@
        },
        None => ""@,
    }
}

/// The lexicon of a voice: American for `af`, `am` and for names too short
/// to tell, British for `bf`, `bm`, American with Chinese for `zf`, `zm`,
/// none for the others.
pub open spec fn lexicon_of(voice: Seq<char>) -> Lexicon {
    match voice_prefix(voice) {
        Some((l, g)) => if l == 'a' && (g == 'f' || g == 'm') {
            Lexicon::UsEnglish
        } else if l == 'b' && (g == 'f' || g == 'm') {
            Lexicon::GbEnglish
        } else if l == 'z' && (g == 'f' || g == 'm') {
            Lexicon::UsEnglishAndChinese
        } else {
            Lexicon::NoLexicon
        },
        None => if short_but_wide(voice) {
            Lexicon::NoLexicon
        } else {
            Lexicon::UsEnglish
        },
    }
}

/// The language code for a voice.
pub fn tts_language(voice: &str) -> (code: &'static str)
    ensures
        code@ == language_of(voice@),
{
    if voice.unicode_len() < 2 {
        return "";
    }
    let l = voice.get_char(0);
    let g = voice.get_char(1);
    let either = g == 'f' || g == 'm';
    if l == 'e' && either {
        "es"
    } else if l == 'f' && g == 'f' {
        "fr"
    } else if l == 'h' && either {
        "hi"
    } else if l == 'i' && either {
        "it"
    } else if l == 'j' && either {
        "ja"
    } else if l == 'p' && either {
        "pt-br"
    } else {
        ""
    }
}

/// The lexicon for a voice.
pub fn tts_lexicon(voice: &str) -> (lexicon: Lexicon)
    ensures
        lexicon == lexicon_of(voice@),
{
    let n = voice.unicode_len();
    if n < 2 {
        if n == 1 && voice.get_char(0) as u32 >= 128 {
            return Lexicon::NoLexicon;
        }
        return Lexicon::UsEnglish;
    }
    let l = voice.get_char(0);
    let g = voice.get_char(1);
    let either = g == 'f' || g == 'm';
    if l == 'a' && either {
        Lexicon::UsEnglish
    } else if l == 'b' && either {
        Lexicon::GbEnglish
    } else if l == 'z' && either {
        Lexicon::UsEnglishAndChinese
    } else {
        Lexicon::NoLexicon
    }
}

} // verus!
