//! Configuration parsing.
//!
//! The configuration values arrive as strings (the surrounding program
//! reads them from the environment); the library parses them into plain
//! values. The volume boost is a decimal such as `1.5`, held as a
//! fixed-point count of thousandths; durations and thread counts are
//! decimal integers; flags are exactly `true` or `false`.

use vstd::prelude::*;

verus! {

/// The numeric value of a decimal digit, or 10 for any other character.
pub open spec fn digit_val(c: char) -> int {
    match c {
        '0' => 0,
        '1' => 1,
        '2' => 2,
        '3' => 3,
        '4' => 4,
        '5' => 5,
        '6' => 6,
        '7' => 7,
        '8' => 8,
        '9' => 9,
        _ => 10,
    }
}

/// Whether a character is a decimal digit.
pub open spec fn is_digit(c: char) -> bool {
    digit_val(c) < 10
}

/// Whether every character of the sequence is a decimal digit.
pub open spec fn all_digits(s: Seq<char>) -> bool {
    forall|i: int| 0 <= i < s.len() ==> is_digit(#[trigger] s[i])
}

/// The number a sequence of decimal digits denotes, most significant
/// digit first.
pub open spec fn digits_val(s: Seq<char>) -> int
    decreases s.len(),
{
    if s.len() == 0 {
        0
    } else {
        digits_val(s.drop_last()) * 10 + digit_val(s.last())
    }
}

/// A digit string denotes a non-negative number.
pub proof fn lemma_digits_val_nonneg(s: Seq<char>)
    ensures
        digits_val(s) >= 0,
    decreases s.len(),
{
    if s.len() > 0 {
        lemma_digits_val_nonneg(s.drop_last());
    }
}

/// Extending a digit string never shrinks the number it denotes.
pub proof fn lemma_digits_val_prefix_le(s: Seq<char>, i: int)
    requires
        0 <= i <= s.len(),
    ensures
        digits_val(s.subrange(0, i)) <= digits_val(s),
    decreases s.len() - i,
{
    if i < s.len() {
        lemma_digits_val_prefix_le(s, i + 1);
        assert(s.subrange(0, i + 1).drop_last() =~= s.subrange(0, i));
        lemma_digits_val_nonneg(s.subrange(0, i));
    } else {
        assert(s.subrange(0, s.len() as int) =~= s);
    }
}

/// Whether a string is a decimal integer that fits in `u64`: non-empty,
/// all digits, value at most `u64::MAX`.
pub open spec fn parses_as_u64(s: Seq<char>) -> bool {
    &&& s.len() > 0
    &&& all_digits(s)
    &&& digits_val(s) <= u64::MAX as int
}

/// The numeric value of a decimal digit character, or 10 for any other
/// character.
pub fn digit_value(c: char) -> (r: u32)
    ensures
        r as int == digit_val(c),
{
    match c {
        '0' => 0,
        '1' => 1,
        '2' => 2,
        '3' => 3,
        '4' => 4,
        '5' => 5,
        '6' => 6,
        '7' => 7,
        '8' => 8,
        '9' => 9,
        _ => 10,
    }
}

/// Parse a decimal integer: `Some` exactly when the string is non-empty,
/// all digits, and its value fits in `u64`.
pub fn parse_u64(s: &str) -> (r: Option<u64>)
    ensures
        r matches Some(v) ==> parses_as_u64(s@) && v as int == digits_val(s@),
        r is None ==> !parses_as_u64(s@),
{
    let n = s.unicode_len();
    if n == 0 {
        return None;
    }
    let mut acc: u64 = 0;
    let mut i: usize = 0;
    while i < n
        invariant
            i <= n,
            n == s@.len(),
            acc as int == digits_val(s@.subrange(0, i as int)),
            forall|j: int| 0 <= j < i ==> is_digit(#[trigger] s@[j]),
        decreases n - i,
    {
        let c = s.get_char(i);
        let d = digit_value(c);
        if d >= 10 {
            return None;
        }
        proof {
            assert(s@.subrange(0, i + 1).drop_last() =~= s@.subrange(0, i as int));
            lemma_digits_val_prefix_le(s@, i + 1);
        }
        let acc10 = match acc.checked_mul(10) {
            Some(x) => x,
            None => {
                proof {
                    lemma_digits_val_nonneg(s@.subrange(0, i as int));
                }
                return None;
            },
        };
        acc = match acc10.checked_add(d as u64) {
            Some(x) => x,
            None => {
                return None;
            },
        };
        i = i + 1;
    }
    proof {
        assert(s@.subrange(0, n as int) =~= s@);
    }
    Some(acc)
}

/// Parse a decimal integer that must also fit in `usize`.
pub fn parse_usize(s: &str) -> (r: Option<usize>)
    ensures
        r matches Some(v) ==> parses_as_u64(s@) && digits_val(s@) <= usize::MAX as int && v as int
            == digits_val(s@),
        r is None ==> !(parses_as_u64(s@) && digits_val(s@) <= usize::MAX as int),
{
    match parse_u64(s) {
        Some(v) => if v <= usize::MAX as u64 {
            Some(v as usize)
        } else {
            None
        },
        None => None,
    }
}

/// Whether two strings hold the same characters.
pub fn str_eq(a: &str, b: &str) -> (r: bool)
    ensures
        r == (a@ == b@),
{
    let n = a.unicode_len();
    let m = b.unicode_len();
    if n != m {
        return false;
    }
    let mut i: usize = 0;
    while i < n
        invariant
            i <= n,
            n == a@.len(),
            n == b@.len(),
            forall|j: int| 0 <= j < i ==> a@[j] == b@[j],
        decreases n - i,
    {
        if a.get_char(i) != b.get_char(i) {
            return false;
        }
        i = i + 1;
    }
    proof {
        assert(a@ =~= b@);
    }
    true
}

/// The boolean a string denotes: exactly `true` or `false`.
pub open spec fn spec_parse_bool(s: Seq<char>) -> Option<bool> {
    if s == "true"@ {
        Some(true)
    } else if s == "false"@ {
        Some(false)
    } else {
        None
    }
}

/// Parse a boolean flag: exactly `true` or `false`.
pub fn parse_bool(s: &str) -> (r: Option<bool>)
    ensures
        r == spec_parse_bool(s@),
{
    if str_eq(s, "true") {
        Some(true)
    } else if str_eq(s, "false") {
        Some(false)
    } else {
        None
    }
}

/// Index of the first `.` in the sequence, or its length if there is none.
pub open spec fn dot_index(s: Seq<char>) -> int
    decreases s.len(),
{
    if s.len() == 0 {
        0
    } else if s[0] == '.' {
        0
    } else {
        1 + dot_index(s.drop_first())
    }
}

/// `dot_index` finds the first dot: nothing before it is a dot, and it
/// points at a dot unless there is none.
pub proof fn lemma_dot_index_characterization(s: Seq<char>)
    ensures
        0 <= dot_index(s) <= s.len(),
        forall|j: int| 0 <= j < dot_index(s) ==> s[j] != '.',
        dot_index(s) < s.len() ==> s[dot_index(s)] == '.',
    decreases s.len(),
{
    if s.len() > 0 && s[0] != '.' {
        lemma_dot_index_characterization(s.drop_first());
        assert forall|j: int| 0 <= j < dot_index(s) implies s[j] != '.' by {
            if j > 0 {
                assert(s.drop_first()[j - 1] != '.');
            }
        }
    }
}

/// The integer part of a decimal string: everything before the first dot.
pub open spec fn int_part(s: Seq<char>) -> Seq<char> {
    s.subrange(0, dot_index(s))
}

/// The fractional part of a decimal string: everything after the first
/// dot, or empty if there is no dot.
pub open spec fn frac_part(s: Seq<char>) -> Seq<char> {
    if dot_index(s) == s.len() {
        Seq::empty()
    } else {
        s.subrange(dot_index(s) + 1, s.len() as int)
    }
}

/// The number of thousandths the fractional digits denote; digits beyond
/// the third are below one thousandth and are dropped.
pub open spec fn frac_milli(f: Seq<char>) -> int {
    (if f.len() > 0 {
        digit_val(f[0]) * 100
    } else {
        0
    }) + (if f.len() > 1 {
        digit_val(f[1]) * 10
    } else {
        0
    }) + (if f.len() > 2 {
        digit_val(f[2])
    } else {
        0
    })
}

/// Whether a string is a well-formed decimal of the form `digits`,
/// `digits.digits`, `digits.` or `.digits`, with a value that fits in
/// `u64` thousandths.
pub open spec fn milli_wf(s: Seq<char>) -> bool {
    &&& all_digits(int_part(s))
    &&& all_digits(frac_part(s))
    &&& int_part(s).len() > 0 || frac_part(s).len() > 0
    &&& milli_val(s) <= u64::MAX as int
}

/// The value of a decimal string in thousandths, truncated below one
/// thousandth.
pub open spec fn milli_val(s: Seq<char>) -> int {
    digits_val(int_part(s)) * 1000 + frac_milli(frac_part(s))
}

/// Parse a decimal string into thousandths: `1.5` is 1500, `0.25` is 250.
/// `Some` exactly when the string is a well-formed decimal whose value
/// fits; digits below one thousandth are dropped.
pub fn parse_milli(s: &str) -> (r: Option<u64>)
    ensures
        r matches Some(v) ==> milli_wf(s@) && v as int == milli_val(s@),
        r is None ==> !milli_wf(s@),
{
    let n = s.unicode_len();
    // Find the first dot, if any.
    let mut dot: usize = n;
    let mut i: usize = 0;
    while i < n
        invariant
            i <= n,
            n == s@.len(),
            dot == n || (dot < i && s@[dot as int] == '.'),
            dot == n ==> forall|j: int| 0 <= j < i ==> s@[j] != '.',
            dot < n ==> forall|j: int| 0 <= j < dot ==> s@[j] != '.',
        decreases n - i,
    {
        let c = s.get_char(i);
        if c == '.' && dot == n {
            dot = i;
        }
        i = i + 1;
    }
    proof {
        lemma_dot_index_characterization(s@);
        assert(dot as int == dot_index(s@));
    }
    // Parse the integer part.
    let mut acc: u64 = 0;
    let mut k: usize = 0;
    while k < dot
        invariant
            k <= dot,
            dot <= n,
            n == s@.len(),
            dot as int == dot_index(s@),
            acc as int == digits_val(s@.subrange(0, k as int)),
            forall|j: int| 0 <= j < k ==> is_digit(#[trigger] s@[j]),
        decreases dot - k,
    {
        let c = s.get_char(k);
        let d = digit_value(c);
        if d >= 10 {
            proof {
                assert(int_part(s@)[k as int] == s@[k as int]);
            }
            return None;
        }
        proof {
            assert(s@.subrange(0, k + 1).drop_last() =~= s@.subrange(0, k as int));
            assert(int_part(s@).subrange(0, k + 1) =~= s@.subrange(0, k + 1));
            lemma_digits_val_prefix_le(int_part(s@), k + 1);
            lemma_frac_milli_nonneg(frac_part(s@));
        }
        let acc10 = match acc.checked_mul(10) {
            Some(x) => x,
            None => {
                proof {
                    lemma_digits_val_nonneg(s@.subrange(0, k as int));
                }
                return None;
            },
        };
        acc = match acc10.checked_add(d as u64) {
            Some(x) => x,
            None => {
                return None;
            },
        };
        k = k + 1;
    }
    proof {
        assert(s@.subrange(0, dot as int) =~= int_part(s@));
    }
    // Parse the fractional part, keeping the first three digits.
    let frac_len: usize = if dot == n {
        0
    } else {
        n - dot - 1
    };
    if dot == 0 && frac_len == 0 {
        return None;
    }
    let mut fm: u64 = 0;
    let mut k2: usize = 0;
    while k2 < frac_len
        invariant
            k2 <= frac_len,
            n == s@.len(),
            dot <= n,
            dot as int == dot_index(s@),
            dot < n ==> frac_len == n - dot - 1,
            dot == n ==> frac_len == 0,
            frac_part(s@).len() == frac_len,
            forall|j: int| 0 <= j < k2 ==> is_digit(#[trigger] frac_part(s@)[j]),
            fm as int == (if k2 > 0 {
                digit_val(frac_part(s@)[0]) * 100
            } else {
                0
            }) + (if k2 > 1 {
                digit_val(frac_part(s@)[1]) * 10
            } else {
                0
            }) + (if k2 > 2 {
                digit_val(frac_part(s@)[2])
            } else {
                0
            }),
        decreases frac_len - k2,
    {
        let c = s.get_char(dot + 1 + k2);
        proof {
            assert(frac_part(s@)[k2 as int] == s@[dot + 1 + k2]);
        }
        let d = digit_value(c);
        if d >= 10 {
            return None;
        }
        if k2 == 0 {
            fm = (d as u64) * 100;
        } else if k2 == 1 {
            fm = fm + (d as u64) * 10;
        } else if k2 == 2 {
            fm = fm + d as u64;
        }
        k2 = k2 + 1;
    }
    proof {
        assert(fm as int == frac_milli(frac_part(s@)));
        lemma_frac_milli_nonneg(frac_part(s@));
        lemma_digits_val_nonneg(int_part(s@));
    }
    let scaled = match acc.checked_mul(1000) {
        Some(x) => x,
        None => {
            return None;
        },
    };
    match scaled.checked_add(fm) {
        Some(total) => Some(total),
        None => None,
    }
}

/// The fractional thousandths are never negative and never large: each
/// of the three summands is a digit value (at most 10) times its weight.
pub proof fn lemma_frac_milli_nonneg(f: Seq<char>)
    ensures
        0 <= frac_milli(f) <= 1110,
{
}

/// Application configuration, as plain values.
#[derive(Debug, Clone)]
pub struct Config {
    /// Volume boost applied to recorded audio, in thousandths (1500 is a
    /// boost of one and a half).
    pub volume_boost_milli: u64,
    /// Name of the speech model file.
    pub whisper_model: String,
    /// Language code for transcription.
    pub whisper_language: String,
    /// Number of CPU threads for inference.
    pub whisper_threads: usize,
    /// Hotkey modifier descriptor (empty or NONE for no modifier).
    pub hotkey_modifier: String,
    /// Hotkey key descriptor.
    pub hotkey_key: String,
    /// Whether feedback sounds are played.
    pub enable_sound_feedback: bool,
    /// Whether the log goes to a file.
    pub log_to_file: bool,
    /// Log level name.
    pub log_level: String,
    /// Cooldown before the loaded model is dropped, in seconds.
    pub model_unload_delay_secs: u64,
}

/// Which configuration value was rejected.
#[derive(Debug, Clone, Copy, PartialEq, Eq, Structural)]
pub enum ConfigError {
    /// The volume boost is not a well-formed decimal.
    InvalidVolumeBoost,
    /// The thread count is not an integer that fits.
    InvalidWhisperThreads,
    /// The sound-feedback flag is not `true` or `false`.
    InvalidSoundFeedback,
    /// The log-to-file flag is not `true` or `false`.
    InvalidLogToFile,
    /// The unload delay is not an integer that fits.
    InvalidUnloadDelay,
}

/// Whether every parsed configuration value is acceptable.
pub open spec fn config_ok(
    vb: Seq<char>,
    th: Seq<char>,
    sf: Seq<char>,
    lf: Seq<char>,
    ud: Seq<char>,
) -> bool {
    &&& milli_wf(vb)
    &&& parses_as_u64(th) && digits_val(th) <= usize::MAX as int
    &&& spec_parse_bool(sf) is Some
    &&& spec_parse_bool(lf) is Some
    &&& parses_as_u64(ud)
}

/// The error reported for a rejected configuration: the first value, in
/// declaration order, that fails to parse.
pub open spec fn first_config_error(
    vb: Seq<char>,
    th: Seq<char>,
    sf: Seq<char>,
    lf: Seq<char>,
    ud: Seq<char>,
) -> ConfigError {
    if !milli_wf(vb) {
        ConfigError::InvalidVolumeBoost
    } else if !(parses_as_u64(th) && digits_val(th) <= usize::MAX as int) {
        ConfigError::InvalidWhisperThreads
    } else if spec_parse_bool(sf) is None {
        ConfigError::InvalidSoundFeedback
    } else if spec_parse_bool(lf) is None {
        ConfigError::InvalidLogToFile
    } else {
        ConfigError::InvalidUnloadDelay
    }
}

impl Config {
    /// Build the configuration from its raw string values, as read from
    /// the environment. Returns the configuration exactly when every
    /// value parses, and otherwise the first offending value's error.
    pub fn from_values(
        volume_boost: &str,
        whisper_model: String,
        whisper_language: String,
        whisper_threads: &str,
        hotkey_modifier: String,
        hotkey_key: String,
        enable_sound_feedback: &str,
        log_to_file: &str,
        log_level: String,
        model_unload_delay_secs: &str,
    ) -> (r: Result<Config, ConfigError>)
        ensures
            r is Ok <==> config_ok(
                volume_boost@,
                whisper_threads@,
                enable_sound_feedback@,
                log_to_file@,
                model_unload_delay_secs@,
            ),
            r matches Ok(c) ==> {
                &&& c.volume_boost_milli as int == milli_val(volume_boost@)
                &&& c.whisper_model@ == whisper_model@
                &&& c.whisper_language@ == whisper_language@
                &&& c.whisper_threads as int == digits_val(whisper_threads@)
                &&& c.hotkey_modifier@ == hotkey_modifier@
                &&& c.hotkey_key@ == hotkey_key@
                &&& Some(c.enable_sound_feedback) == spec_parse_bool(enable_sound_feedback@)
                &&& Some(c.log_to_file) == spec_parse_bool(log_to_file@)
                &&& c.log_level@ == log_level@
                &&& c.model_unload_delay_secs as int == digits_val(model_unload_delay_secs@)
            },
            r matches Err(e) ==> e == first_config_error(
                volume_boost@,
                whisper_threads@,
                enable_sound_feedback@,
                log_to_file@,
                model_unload_delay_secs@,
            ),
    {
        let volume_boost_milli = match parse_milli(volume_boost) {
            Some(v) => v,
            None => {
                return Err(ConfigError::InvalidVolumeBoost);
            },
        };
        let threads = match parse_usize(whisper_threads) {
            Some(v) => v,
            None => {
                return Err(ConfigError::InvalidWhisperThreads);
            },
        };
        let sound = match parse_bool(enable_sound_feedback) {
            Some(v) => v,
            None => {
                return Err(ConfigError::InvalidSoundFeedback);
            },
        };
        let log_file = match parse_bool(log_to_file) {
            Some(v) => v,
            None => {
                return Err(ConfigError::InvalidLogToFile);
            },
        };
        let unload = match parse_u64(model_unload_delay_secs) {
            Some(v) => v,
            None => {
                return Err(ConfigError::InvalidUnloadDelay);
            },
        };
        Ok(
            Config {
                volume_boost_milli,
                whisper_model,
                whisper_language,
                whisper_threads: threads,
                hotkey_modifier,
                hotkey_key,
                enable_sound_feedback: sound,
                log_to_file: log_file,
                log_level,
                model_unload_delay_secs: unload,
            },
        )
    }

    /// Where the speech model file lives: the configured model name under
    /// the bundled model directory.
    pub fn model_path(&self) -> (r: String)
        ensures
            r@ == "./assets/models/"@ + self.whisper_model@,
    {
        let mut path = String::new();
        path.append("./assets/models/");
        path.append(self.whisper_model.as_str());
        proof {
            assert(path@ =~= "./assets/models/"@ + self.whisper_model@);
        }
        path
    }
}

} // verus!
