//! Configuration of the external transcription tool: where its binary is,
//! and the command line it is given.
use crate::settings::AppSettings;
use crate::text::{trim_spaces, trimmed};
use vstd::prelude::*;
use vstd::string::StringExecFns;

verus! {

/// Settings of one transcription call.
#[derive(Clone, Debug)]
pub struct WhisperConfig {
    pub model: String,
    pub language: Option<String>,
    pub cli_path: Option<String>,
}

/// A configured tool location: trimmed, and absent when blank.
pub open spec fn cli_override_of(p: Option<String>) -> Option<Seq<char>> {
    match p {
        Some(s) => if trimmed(s@).len() > 0 { Some(trimmed(s@)) } else { None },
        None => None,
    }
}

/// The transcription settings that a run uses.
pub fn whisper_config_from(settings: &AppSettings) -> (r: WhisperConfig)
    ensures
        r.model@ == settings.whisper_model@,
        r.language == settings.language,
        match (r.cli_path, cli_override_of(settings.whisper_cli_path)) {
            (Some(p), Some(q)) => p@ == q,
            (None, None) => true,
            _ => false,
        },
{
    let cli_path = match &settings.whisper_cli_path {
        Some(p) => {
            let t = trim_spaces(p.as_str());
            if t.as_str().unicode_len() > 0 {
                Some(t)
            } else {
                None
            }
        },
        None => None,
    };
    WhisperConfig {
        model: settings.whisper_model.clone(),
        language: settings.language.clone(),
        cli_path,
    }
}

/// The transcription service, configured.
pub struct WhisperClient {
    config: WhisperConfig,
}

/// The tool's arguments: model, input file, language when given, and text
/// output.
pub open spec fn args_spec(model: Seq<char>, audio: Seq<char>, language: Option<String>) -> Seq<
    Seq<char>,
> {
    let head = seq!["-m"@, model, "-f"@, audio];
    match language {
        Some(l) => head + seq!["-l"@, l@, "-otxt"@],
        None => head + seq!["-otxt"@],
    }
}

impl WhisperClient {
    pub fn new(config: WhisperConfig) -> (r: WhisperClient)
        ensures
            r.config() == config,
    {
        WhisperClient { config }
    }

    pub closed spec fn config(&self) -> WhisperConfig {
        self.config
    }

    pub fn settings(&self) -> (r: &WhisperConfig)
        ensures
            *r == self.config(),
    {
        &self.config
    }

    /// The command line for transcribing `audio_path` with `model_path`.
    pub fn command_args(&self, model_path: &str, audio_path: &str) -> (r: Vec<String>)
        ensures
            r@.map_values(|s: String| s@) == args_spec(model_path@, audio_path@, self.config().language),
    {
        let mut args: Vec<String> = Vec::new();
        args.push(String::from_str("-m"));
        args.push(String::from_str(model_path));
        args.push(String::from_str("-f"));
        args.push(String::from_str(audio_path));
        match &self.config.language {
            Some(l) => {
                args.push(String::from_str("-l"));
                args.push(l.clone());
            },
            None => {},
        }
        args.push(String::from_str("-otxt"));
        proof {
            let lang = self.config().language;
            assert(args@.map_values(|s: String| s@) =~= args_spec(model_path@, audio_path@, lang));
        }
        args
    }
}

/// The transcript of a finished tool run: nothing when the tool failed;
/// otherwise the text file it wrote, or failing that its standard output,
/// trimmed.
pub open spec fn transcript_spec(succeeded: bool, file_text: Option<String>, stdout: Seq<char>) -> Option<
    Seq<char>,
> {
    if !succeeded {
        None
    } else {
        match file_text {
            Some(t) => Some(trimmed(t@)),
            None => Some(trimmed(stdout)),
        }
    }
}

pub fn transcript_from_output(succeeded: bool, file_text: Option<String>, stdout: &str) -> (r: Option<
    String,
>)
    ensures
        match (r, transcript_spec(succeeded, file_text, stdout@)) {
            (Some(t), Some(u)) => t@ == u,
            (None, None) => true,
            _ => false,
        },
{
    if !succeeded {
        return None;
    }
    match file_text {
        Some(t) => Some(trim_spaces(t.as_str())),
        None => Some(trim_spaces(stdout)),
    }
}

/// `rest` joined below directory `dir`, as paths join: an absolute `rest`
/// stands alone, an empty `dir` adds nothing, and one separator goes between.
pub open spec fn joined(dir: Seq<char>, rest: Seq<char>) -> Seq<char> {
    if rest.len() > 0 && rest[0] == '/' {
        rest
    } else if dir.len() == 0 {
        rest
    } else if dir.last() == '/' {
        dir + rest
    } else {
        dir + seq!['/'] + rest
    }
}

/// `~` and `~/...` name the home directory when it is known.
pub open spec fn expanded(path: Seq<char>, home: Option<String>) -> Seq<char> {
    match home {
        Some(h) => if path.len() >= 2 && path[0] == '~' && path[1] == '/' {
            joined(h@, path.subrange(2, path.len() as int))
        } else if path == seq!['~'] {
            h@
        } else {
            path
        },
        None => path,
    }
}

/// Expands a leading `~` with `home`, the caller's home directory if known.
pub fn expand_home(path: &str, home: Option<String>) -> (r: String)
    ensures
        r@ == expanded(path@, home),
{
    let n = path.unicode_len();
    match home {
        Some(h) => {
            if n >= 2 && path.get_char(0) == '~' && path.get_char(1) == '/' {
                let rest = path.substring_char(2, n);
                let rn = rest.unicode_len();
                let hn = h.as_str().unicode_len();
                if rn > 0 && rest.get_char(0) == '/' {
                    String::from_str(rest)
                } else if hn == 0 {
                    String::from_str(rest)
                } else if h.as_str().get_char(hn - 1) == '/' {
                    let mut out = h;
                    out.append(rest);
                    out
                } else {
                    let mut out = h;
                    out.append("/");
                    proof {
                        reveal_strlit("/");
                    }
                    out.append(rest);
                    proof {
                        assert(out@ =~= expanded(path@, home));
                    }
                    out
                }
            } else if n == 1 && path.get_char(0) == '~' {
                assert(path@ =~= seq!['~']);
                h
            } else {
                proof {
                    if path@ == seq!['~'] {
                        assert(path@.len() == 1);
                    }
                }
                String::from_str(path)
            }
        },
        None => String::from_str(path),
    }
}

/// Well-known install locations of the tool, searched in order.
pub open spec fn fallback_path(i: int) -> Seq<char> {
    if i == 0 {
        "/opt/homebrew/bin/whisper-cli"@
    } else if i == 1 {
        "/usr/local/bin/whisper-cli"@
    } else {
        "/usr/bin/whisper-cli"@
    }
}

pub const FALLBACK_COUNT: usize = 3;

fn fallback_at(i: usize) -> (r: &'static str)
    requires
        i < FALLBACK_COUNT,
    ensures
        r@ == fallback_path(i as int),
{
    match i {
        0 => "/opt/homebrew/bin/whisper-cli",
        1 => "/usr/local/bin/whisper-cli",
        _ => "/usr/bin/whisper-cli",
    }
}

/// What the filesystem and the search path said about the candidates.
#[derive(Clone, Debug)]
pub struct CliProbe {
    /// Whether the expanded configured path exists.
    pub override_exists: bool,
    /// The configured name as found on the search path.
    pub override_on_path: Option<String>,
    /// `whisper-cli` as found on the search path.
    pub default_on_path: Option<String>,
    /// Whether each fallback location exists.
    pub fallback_exists: Vec<bool>,
}

#[derive(Clone, Debug, PartialEq, Eq)]
pub enum CliResolveError {
    /// The configured location does not exist (the expanded path).
    ConfiguredNotFound(String),
    /// No configured location, and the tool is nowhere to be found.
    NotInstalled,
}

/// The first fallback, from index `i` on, that exists.
pub open spec fn first_fallback(exists: Seq<bool>, i: int) -> Option<int>
    decreases FALLBACK_COUNT - i,
{
    if i >= FALLBACK_COUNT {
        None
    } else if i < exists.len() && exists[i] {
        Some(i)
    } else {
        first_fallback(exists, i + 1)
    }
}

/// Where the tool is: a configured location that exists, or a bare configured
/// name found on the search path; without configuration, the tool on the
/// search path, else the first fallback location that exists.
pub open spec fn resolved(
    cli_override: Option<Seq<char>>,
    home: Option<String>,
    probe: CliProbe,
) -> Result<Seq<char>, Option<Seq<char>>> {
    match cli_override {
        Some(v) => {
            let candidate = expanded(trimmed(v), home);
            if probe.override_exists {
                Ok(candidate)
            } else if !v.contains('/') && probe.override_on_path is Some {
                Ok(probe.override_on_path->Some_0@)
            } else {
                Err(Some(candidate))
            }
        },
        None => match probe.default_on_path {
            Some(p) => Ok(p@),
            None => match first_fallback(probe.fallback_exists@, 0) {
                Some(i) => Ok(fallback_path(i)),
                None => Err(None),
            },
        },
    }
}

fn contains_slash(s: &str) -> (r: bool)
    ensures
        r == s@.contains('/'),
{
    let n = s.unicode_len();
    let mut i: usize = 0;
    while i < n
        invariant
            n == s@.len(),
            i <= n,
            forall|j: int| 0 <= j < i ==> s@[j] != '/',
        decreases n - i,
    {
        if s.get_char(i) == '/' {
            return true;
        }
        i += 1;
    }
    false
}

/// Picks the tool's location from the probe results.
pub fn resolve_whisper_cli(cli_override: Option<&str>, home: Option<String>, probe: &CliProbe) -> (r:
    Result<String, CliResolveError>)
    ensures
        match (r, resolved(
            match cli_override {
                Some(v) => Some(v@),
                None => None,
            },
            home,
            *probe,
        )) {
            (Ok(p), Ok(q)) => p@ == q,
            (Err(CliResolveError::ConfiguredNotFound(p)), Err(Some(q))) => p@ == q,
            (Err(CliResolveError::NotInstalled), Err(None)) => true,
            _ => false,
        },
{
    match cli_override {
        Some(v) => {
            let t = trim_spaces(v);
            let candidate = expand_home(t.as_str(), home);
            if probe.override_exists {
                return Ok(candidate);
            }
            if !contains_slash(v) {
                if let Some(p) = &probe.override_on_path {
                    return Ok(p.clone());
                }
            }
            Err(CliResolveError::ConfiguredNotFound(candidate))
        },
        None => {
            if let Some(p) = &probe.default_on_path {
                return Ok(p.clone());
            }
            let mut i: usize = 0;
            while i < FALLBACK_COUNT
                invariant
                    i <= FALLBACK_COUNT,
                    cli_override is None,
                    probe.default_on_path is None,
                    first_fallback(probe.fallback_exists@, 0) == first_fallback(
                        probe.fallback_exists@,
                        i as int,
                    ),
                decreases FALLBACK_COUNT - i,
            {
                if i < probe.fallback_exists.len() && probe.fallback_exists[i] {
                    assert(first_fallback(probe.fallback_exists@, i as int) == Some(i as int));
                    return Ok(String::from_str(fallback_at(i)));
                }
                i += 1;
            }
            Err(CliResolveError::NotInstalled)
        },
    }
}

} // verus!
