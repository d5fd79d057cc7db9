//! The benchmark's effective configuration: a command-line flag wins over
//! the configuration file, which wins over the built-in default.
use vstd::prelude::*;
use crate::paths::{join_path, resolve_path};
use crate::text::{ascii_lower_seq, decimal, lower_equals, to_decimal};

verus! {

/// How the next token is chosen.
#[derive(Debug, Clone, Copy, PartialEq, Eq, Structural)]
pub enum SamplerKind {
    Greedy,
    Stochastic,
}

/// The sampler a name stands for, ignoring ASCII letter case; `dist` is
/// another name for the stochastic sampler.
pub open spec fn sampler_named(s: Seq<char>) -> Option<SamplerKind> {
    if ascii_lower_seq(s) == "greedy"@ {
        Some(SamplerKind::Greedy)
    } else if ascii_lower_seq(s) == "stochastic"@ || ascii_lower_seq(s) == "dist"@ {
        Some(SamplerKind::Stochastic)
    } else {
        None
    }
}

/// The message given for a name that is no sampler.
pub open spec fn sampler_error_text() -> Seq<char> {
    "sampler must be one of: greedy, stochastic"@
}

impl SamplerKind {
    /// Reads a sampler name.
    pub fn parse(s: &str) -> (r: Result<SamplerKind, String>)
        ensures
            r matches Ok(k) ==> sampler_named(s@) == Some(k),
            r matches Err(e) ==> sampler_named(s@) is None && e@ == sampler_error_text(),
    {
        if lower_equals(s, "greedy") {
            Ok(SamplerKind::Greedy)
        } else if lower_equals(s, "stochastic") || lower_equals(s, "dist") {
            Ok(SamplerKind::Stochastic)
        } else {
            Err(String::from_str("sampler must be one of: greedy, stochastic"))
        }
    }
}

impl Default for SamplerKind {
    fn default() -> (k: Self)
        ensures
            k == SamplerKind::Greedy,
    {
        SamplerKind::Greedy
    }
}

impl std::str::FromStr for SamplerKind {
    type Err = String;

    fn from_str(s: &str) -> (r: Result<Self, Self::Err>)
        ensures
            r matches Ok(k) ==> sampler_named(s@) == Some(k),
            r matches Err(e) ==> sampler_named(s@) is None && e@ == sampler_error_text(),
    {
        SamplerKind::parse(s)
    }
}

/// One prompt of the workload, under its name.
#[derive(Debug, Clone)]
pub struct WorkloadProfile {
    pub name: String,
    pub prompt: String,
}

/// Why no configuration could be built.
#[derive(Debug, Clone, Copy, PartialEq, Eq, Structural)]
pub enum ConfigError {
    /// No model path was given and none was found.
    MissingModelPath,
    /// No prompt was given.
    MissingPrompt,
}

pub open spec fn config_error_text(e: ConfigError) -> Seq<char> {
    match e {
        ConfigError::MissingModelPath => "model_path is required (flag --model-path, config file, or a .gguf in models/)"@,
        ConfigError::MissingPrompt => "prompt is required (flag --prompt, prompts in config, or prompt in config)"@,
    }
}

impl ConfigError {
    /// The error's message, as it is shown to a user.
    pub fn message(&self) -> (m: String)
        ensures
            m@ == config_error_text(*self),
    {
        match self {
            ConfigError::MissingModelPath => String::from_str(
                "model_path is required (flag --model-path, config file, or a .gguf in models/)",
            ),
            ConfigError::MissingPrompt => String::from_str(
                "prompt is required (flag --prompt, prompts in config, or prompt in config)",
            ),
        }
    }
}

/// The integer, path and sampler settings given on the command line.
#[derive(Debug)]
pub struct CliSettings {
    pub model_path: Option<String>,
    pub prompt: Vec<String>,
    pub iterations: Option<usize>,
    pub warmup_iterations: Option<usize>,
    pub n_threads: Option<usize>,
    pub gpu_layers: Option<u32>,
    pub max_tokens: Option<usize>,
    pub output: Option<String>,
    pub jsonl_output: Option<String>,
    pub seed: Option<u32>,
    pub sampler: SamplerKind,
    pub top_k: Option<i32>,
}

/// The integer, path and sampler settings read from the configuration file.
#[derive(Debug)]
pub struct FileSettings {
    pub model_path: Option<String>,
    pub prompt: Option<String>,
    pub prompts: Option<Vec<String>>,
    pub iterations: Option<usize>,
    pub warmup_iterations: Option<usize>,
    pub n_threads: Option<usize>,
    pub gpu_layers: Option<u32>,
    pub max_tokens: Option<usize>,
    pub output: Option<String>,
    pub jsonl_output: Option<String>,
    pub seed: Option<u32>,
    pub sampler: Option<SamplerKind>,
    pub top_k: Option<i32>,
}

/// The settings a benchmark runs with.
#[derive(Debug)]
pub struct EffectiveSettings {
    pub model_path: String,
    pub profiles: Vec<WorkloadProfile>,
    pub iterations: usize,
    pub warmup_iterations: usize,
    pub n_threads: Option<usize>,
    pub gpu_layers: u32,
    pub max_tokens: usize,
    pub output: Option<String>,
    pub jsonl_output: Option<String>,
    pub seed: u32,
    pub sampler: SamplerKind,
    pub top_k: i32,
}

/// The flag's value if given, else the file's, else the default.
pub open spec fn precedence<T>(cli: Option<T>, file: Option<T>, default: T) -> T {
    match cli {
        Some(v) => v,
        None => match file {
            Some(v) => v,
            None => default,
        },
    }
}

/// The flag's value if given, else the file's, else the default.
pub fn pick_setting<T>(cli: Option<T>, file: Option<T>, default: T) -> (v: T)
    ensures
        v == precedence(cli, file, default),
{
    match cli {
        Some(v) => v,
        None => match file {
            Some(v) => v,
            None => default,
        },
    }
}

/// The flag's value if given, else the file's, if any.
pub fn pick_optional<T>(cli: Option<T>, file: Option<T>) -> (v: Option<T>)
    ensures
        v == (match cli {
            Some(c) => Some(c),
            None => file,
        }),
{
    match cli {
        Some(c) => Some(c),
        None => file,
    }
}

/// The sampler: an explicit non-default flag wins; with the default flag,
/// the file's choice is taken if it makes one.
pub open spec fn spec_effective_sampler(cli: SamplerKind, file: Option<SamplerKind>) -> SamplerKind {
    if cli == SamplerKind::Greedy {
        match file {
            Some(k) => k,
            None => cli,
        }
    } else {
        cli
    }
}

pub fn effective_sampler(cli: SamplerKind, file: Option<SamplerKind>) -> (k: SamplerKind)
    ensures
        k == spec_effective_sampler(cli, file),
{
    if cli == SamplerKind::Greedy {
        match file {
            Some(k) => k,
            None => cli,
        }
    } else {
        cli
    }
}

pub open spec fn opt_view(o: Option<String>) -> Option<Seq<char>> {
    match o {
        Some(s) => Some(s@),
        None => None,
    }
}

/// A path given as a flag is taken relative to the working directory, one
/// from the file relative to the file's directory `base`.
pub open spec fn chosen_path(cli: Option<String>, file: Option<String>, base: Seq<char>) -> Option<
    Seq<char>,
> {
    match cli {
        Some(p) => Some(join_path("."@, p@)),
        None => match file {
            Some(p) => Some(join_path(base, p@)),
            None => None,
        },
    }
}

/// The path chosen from a flag and the file, resolved.
pub fn choose_path(cli: Option<String>, file: Option<String>, cfg_base: &str) -> (p: Option<String>)
    ensures
        opt_view(p) == chosen_path(cli, file, cfg_base@),
{
    match cli {
        Some(c) => Some(resolve_path(".", c)),
        None => match file {
            Some(f) => Some(resolve_path(cfg_base, f)),
            None => None,
        },
    }
}

/// The model path given explicitly, by flag or file, resolved; `None` when
/// the model has to be searched for.
pub fn explicit_model_path(cli: &Option<String>, file: &Option<String>, cfg_base: &str) -> (p:
    Option<String>)
    ensures
        opt_view(p) == chosen_path(*cli, *file, cfg_base@),
{
    choose_path(cli.clone(), file.clone(), cfg_base)
}

/// The prompts: those of the command line if any, else the file's list,
/// else the file's single prompt.
pub open spec fn chosen_prompts(cli: Seq<String>, file_prompts: Option<Vec<String>>, file_prompt: Option<String>) -> Seq<Seq<char>> {
    if cli.len() > 0 {
        cli.map_values(|s: String| s@)
    } else {
        match file_prompts {
            Some(v) => v@.map_values(|s: String| s@),
            None => match file_prompt {
                Some(p) => seq![p@],
                None => Seq::empty(),
            },
        }
    }
}

/// The name of the profile at position `i`: `profile_1`, `profile_2`, ...
pub open spec fn profile_name(i: int) -> Seq<char> {
    "profile_"@ + decimal((i + 1) as nat)
}

/// The profiles hold the prompts in order, each under its position's name.
pub open spec fn profiles_for(profiles: Seq<WorkloadProfile>, prompts: Seq<Seq<char>>) -> bool {
    &&& profiles.len() == prompts.len()
    &&& forall|i: int|
        0 <= i < profiles.len() ==> #[trigger] profiles[i].prompt@ == prompts[i]
            && profiles[i].name@ == profile_name(i)
}

fn copy_strings(v: &Vec<String>) -> (c: Vec<String>)
    ensures
        c@.map_values(|s: String| s@) == v@.map_values(|s: String| s@),
{
    let mut c: Vec<String> = Vec::new();
    let mut i: usize = 0;
    while i < v.len()
        invariant
            i <= v@.len(),
            c@.len() == i,
            forall|k: int| 0 <= k < i ==> #[trigger] c@[k]@ == v@[k]@,
        decreases v@.len() - i,
    {
        c.push(v[i].clone());
        i = i + 1;
    }
    assert(c@.map_values(|s: String| s@) =~= v@.map_values(|s: String| s@));
    c
}

/// One workload profile per prompt, named by position.
pub fn prompts_from_inputs(cli_prompts: Vec<String>, file_cfg: &FileSettings) -> (r: Result<
    Vec<WorkloadProfile>,
    ConfigError,
>)
    ensures
        r matches Err(e) ==> e == ConfigError::MissingPrompt && chosen_prompts(
            cli_prompts@,
            file_cfg.prompts,
            file_cfg.prompt,
        ).len() == 0,
        r matches Ok(p) ==> chosen_prompts(cli_prompts@, file_cfg.prompts, file_cfg.prompt).len() > 0
            && profiles_for(p@, chosen_prompts(cli_prompts@, file_cfg.prompts, file_cfg.prompt)),
{
    let ghost chosen = chosen_prompts(cli_prompts@, file_cfg.prompts, file_cfg.prompt);
    let prompts: Vec<String> = if cli_prompts.len() > 0 {
        cli_prompts
    } else {
        match &file_cfg.prompts {
            Some(v) => copy_strings(v),
            None => match &file_cfg.prompt {
                Some(p) => {
                    let mut one: Vec<String> = Vec::new();
                    one.push(p.clone());
                    proof {
                        assert(one@.map_values(|s: String| s@) =~= seq![p@]);
                    }
                    one
                },
                None => {
                    let empty: Vec<String> = Vec::new();
                    proof {
                        assert(empty@.map_values(|s: String| s@) =~= Seq::<Seq<char>>::empty());
                    }
                    empty
                },
            },
        }
    };
    assert(prompts@.map_values(|s: String| s@) == chosen);
    if prompts.len() == 0 {
        return Err(ConfigError::MissingPrompt);
    }
    let mut profiles: Vec<WorkloadProfile> = Vec::new();
    let mut i: usize = 0;
    while i < prompts.len()
        invariant
            i <= prompts@.len(),
            prompts@.map_values(|s: String| s@) == chosen,
            profiles@.len() == i,
            forall|k: int|
                0 <= k < i ==> #[trigger] profiles@[k].prompt@ == chosen[k] && profiles@[k].name@
                    == profile_name(k),
        decreases prompts@.len() - i,
    {
        let mut name = String::from_str("profile_");
        let number = to_decimal(i + 1);
        name.append(number.as_str());
        proof {
            assert(chosen[i as int] == prompts@[i as int]@);
        }
        profiles.push(WorkloadProfile { name, prompt: prompts[i].clone() });
        i = i + 1;
    }
    Ok(profiles)
}

/// The settings built from the command line and the file, given the file's
/// directory `cfg_base` and the model found by searching, if any.
pub open spec fn settings_agree(
    s: EffectiveSettings,
    args: CliSettings,
    file: FileSettings,
    cfg_base: Seq<char>,
) -> bool {
    &&& profiles_for(s.profiles@, chosen_prompts(args.prompt@, file.prompts, file.prompt))
    &&& s.iterations == precedence(args.iterations, file.iterations, 3)
    &&& s.warmup_iterations == precedence(args.warmup_iterations, file.warmup_iterations, 1)
    &&& s.max_tokens == precedence(args.max_tokens, file.max_tokens, 128)
    &&& s.n_threads == (match args.n_threads {
        Some(n) => Some(n),
        None => file.n_threads,
    })
    &&& s.gpu_layers == precedence(args.gpu_layers, file.gpu_layers, 0)
    &&& opt_view(s.output) == chosen_path(args.output, file.output, cfg_base)
    &&& opt_view(s.jsonl_output) == chosen_path(args.jsonl_output, file.jsonl_output, cfg_base)
    &&& s.seed == precedence(args.seed, file.seed, 1234)
    &&& s.sampler == spec_effective_sampler(args.sampler, file.sampler)
    &&& s.top_k == precedence(args.top_k, file.top_k, 40)
}

/// Builds the settings. The model path is the explicit one, else the one
/// found by searching; with neither, the model path is missing. Then the
/// prompts must be present.
pub fn build_effective_config(
    args: CliSettings,
    file_cfg: FileSettings,
    cfg_base: &str,
    discovered_model: Option<String>,
) -> (r: Result<EffectiveSettings, ConfigError>)
    ensures
        r matches Err(e) ==> {
            ||| e == ConfigError::MissingModelPath && chosen_path(
                args.model_path,
                file_cfg.model_path,
                cfg_base@,
            ) is None && discovered_model is None
            ||| e == ConfigError::MissingPrompt && (chosen_path(
                args.model_path,
                file_cfg.model_path,
                cfg_base@,
            ) is Some || discovered_model is Some) && chosen_prompts(
                args.prompt@,
                file_cfg.prompts,
                file_cfg.prompt,
            ).len() == 0
        },
        r matches Ok(s) ==> {
            &&& Some(s.model_path@) == (match chosen_path(
                args.model_path,
                file_cfg.model_path,
                cfg_base@,
            ) {
                Some(p) => Some(p),
                None => opt_view(discovered_model),
            })
            &&& chosen_prompts(args.prompt@, file_cfg.prompts, file_cfg.prompt).len() > 0
            &&& settings_agree(s, args, file_cfg, cfg_base@)
        },
{
    let explicit = explicit_model_path(&args.model_path, &file_cfg.model_path, cfg_base);
    let model_path = match explicit {
        Some(p) => p,
        None => match discovered_model {
            Some(p) => p,
            None => return Err(ConfigError::MissingModelPath),
        },
    };
    let profiles = match prompts_from_inputs(args.prompt, &file_cfg) {
        Ok(p) => p,
        Err(e) => return Err(e),
    };
    let iterations = pick_setting(args.iterations, file_cfg.iterations, 3);
    let warmup_iterations = pick_setting(args.warmup_iterations, file_cfg.warmup_iterations, 1);
    let max_tokens = pick_setting(args.max_tokens, file_cfg.max_tokens, 128);
    let n_threads = pick_optional(args.n_threads, file_cfg.n_threads);
    let gpu_layers = pick_setting(args.gpu_layers, file_cfg.gpu_layers, 0);
    let output = choose_path(args.output, file_cfg.output, cfg_base);
    let jsonl_output = choose_path(args.jsonl_output, file_cfg.jsonl_output, cfg_base);
    let seed = pick_setting(args.seed, file_cfg.seed, 1234);
    let sampler = effective_sampler(args.sampler, file_cfg.sampler);
    let top_k = pick_setting(args.top_k, file_cfg.top_k, 40);
    Ok(
        EffectiveSettings {
            model_path,
            profiles,
            iterations,
            warmup_iterations,
            n_threads,
            gpu_layers,
            max_tokens,
            output,
            jsonl_output,
            seed,
            sampler,
            top_k,
        },
    )
}

/// A stochastic sampler flag always wins, whatever the file says or omits;
/// with the default (greedy) flag the file's choice is taken, and greedy
/// stays when the file makes none.
pub proof fn lemma_sampler_choice(file: Option<SamplerKind>, k: SamplerKind)
    ensures
        spec_effective_sampler(SamplerKind::Stochastic, file) == SamplerKind::Stochastic,
        spec_effective_sampler(SamplerKind::Greedy, Some(k)) == k,
        spec_effective_sampler(SamplerKind::Greedy, None) == SamplerKind::Greedy,
{
}

} // verus!
