use uncanny::config::{
    build_effective_config, effective_sampler, explicit_model_path, pick_optional, pick_setting,
    prompts_from_inputs, CliSettings, ConfigError, FileSettings, SamplerKind,
};

fn no_cli() -> CliSettings {
    CliSettings {
        model_path: None,
        prompt: Vec::new(),
        iterations: None,
        warmup_iterations: None,
        n_threads: None,
        gpu_layers: None,
        max_tokens: None,
        output: None,
        jsonl_output: None,
        seed: None,
        sampler: SamplerKind::Greedy,
        top_k: None,
    }
}

fn no_file() -> FileSettings {
    FileSettings {
        model_path: None,
        prompt: None,
        prompts: None,
        iterations: None,
        warmup_iterations: None,
        n_threads: None,
        gpu_layers: None,
        max_tokens: None,
        output: None,
        jsonl_output: None,
        seed: None,
        sampler: None,
        top_k: None,
    }
}

#[test]
fn sampler_names_parse_case_insensitively() {
    assert_eq!("greedy".parse::<SamplerKind>(), Ok(SamplerKind::Greedy));
    assert_eq!("GReedy".parse::<SamplerKind>(), Ok(SamplerKind::Greedy));
    assert_eq!("Stochastic".parse::<SamplerKind>(), Ok(SamplerKind::Stochastic));
    assert_eq!("DIST".parse::<SamplerKind>(), Ok(SamplerKind::Stochastic));
    assert_eq!(
        "random".parse::<SamplerKind>(),
        Err("sampler must be one of: greedy, stochastic".to_string())
    );
    assert!("greedy ".parse::<SamplerKind>().is_err());
    assert_eq!(SamplerKind::default(), SamplerKind::Greedy);
}

#[test]
fn flag_beats_file_beats_default() {
    assert_eq!(pick_setting(Some(1), Some(2), 3), 1);
    assert_eq!(pick_setting(None, Some(2), 3), 2);
    assert_eq!(pick_setting(None::<i32>, None, 3), 3);
    assert_eq!(pick_setting(Some(0.5f64), Some(2.0), 2.0), 0.5);
    assert_eq!(pick_optional(None, Some(4)), Some(4));
    assert_eq!(pick_optional(Some(1), Some(4)), Some(1));
    assert_eq!(pick_optional::<u8>(None, None), None);
}

#[test]
fn sampler_flag_only_overrides_when_not_default() {
    assert_eq!(effective_sampler(SamplerKind::Greedy, Some(SamplerKind::Stochastic)), SamplerKind::Stochastic);
    assert_eq!(effective_sampler(SamplerKind::Greedy, None), SamplerKind::Greedy);
    assert_eq!(effective_sampler(SamplerKind::Stochastic, Some(SamplerKind::Greedy)), SamplerKind::Stochastic);
}

#[test]
fn profiles_are_named_by_position() {
    let mut file = no_file();
    file.prompts = Some(vec!["a".to_string(); 11]);
    let profiles = prompts_from_inputs(Vec::new(), &file).unwrap();
    assert_eq!(profiles.len(), 11);
    assert_eq!(profiles[0].name, "profile_1");
    assert_eq!(profiles[9].name, "profile_10");
    assert_eq!(profiles[10].name, "profile_11");
    assert_eq!(profiles[10].prompt, "a");
}

#[test]
fn cli_prompts_win_over_file_prompts() {
    let mut file = no_file();
    file.prompts = Some(vec!["file".to_string()]);
    file.prompt = Some("single".to_string());
    let profiles = prompts_from_inputs(vec!["x".to_string(), "y".to_string()], &file).unwrap();
    assert_eq!(profiles.len(), 2);
    assert_eq!(profiles[1].prompt, "y");
    let from_file = prompts_from_inputs(Vec::new(), &file).unwrap();
    assert_eq!(from_file.len(), 1);
    assert_eq!(from_file[0].prompt, "file");
}

#[test]
fn single_prompt_used_when_no_list() {
    let mut file = no_file();
    file.prompt = Some("single".to_string());
    let profiles = prompts_from_inputs(Vec::new(), &file).unwrap();
    assert_eq!(profiles[0].prompt, "single");
    assert_eq!(profiles[0].name, "profile_1");
}

#[test]
fn empty_prompt_list_is_an_error() {
    let mut file = no_file();
    file.prompts = Some(Vec::new());
    file.prompt = Some("ignored".to_string());
    assert_eq!(prompts_from_inputs(Vec::new(), &file).unwrap_err(), ConfigError::MissingPrompt);
    assert_eq!(
        ConfigError::MissingPrompt.message(),
        "prompt is required (flag --prompt, prompts in config, or prompt in config)"
    );
}

#[test]
fn defaults_fill_every_unset_setting() {
    let mut cli = no_cli();
    cli.prompt = vec!["p".to_string()];
    let s = build_effective_config(cli, no_file(), "", Some("models/m.gguf".to_string())).unwrap();
    assert_eq!(s.model_path, "models/m.gguf");
    assert_eq!(s.iterations, 3);
    assert_eq!(s.warmup_iterations, 1);
    assert_eq!(s.max_tokens, 128);
    assert_eq!(s.n_threads, None);
    assert_eq!(s.gpu_layers, 0);
    assert_eq!(s.seed, 1234);
    assert_eq!(s.top_k, 40);
    assert_eq!(s.sampler, SamplerKind::Greedy);
    assert_eq!(s.output, None);
    assert_eq!(s.jsonl_output, None);
}

#[test]
fn file_paths_resolve_against_config_dir_and_flags_against_cwd() {
    let mut cli = no_cli();
    cli.output = Some("out.json".to_string());
    let mut file = no_file();
    file.model_path = Some("../../models/a.gguf".to_string());
    file.jsonl_output = Some("flow.jsonl".to_string());
    file.output = Some("ignored.json".to_string());
    file.prompt = Some("p".to_string());
    file.iterations = Some(9);
    let s = build_effective_config(cli, file, "tools/llm-benchmark", None).unwrap();
    assert_eq!(s.model_path, "tools/llm-benchmark/../../models/a.gguf");
    assert_eq!(s.output, Some("./out.json".to_string()));
    assert_eq!(s.jsonl_output, Some("tools/llm-benchmark/flow.jsonl".to_string()));
    assert_eq!(s.iterations, 9);
}

#[test]
fn explicit_model_path_wins_over_discovery() {
    let mut cli = no_cli();
    cli.model_path = Some("/abs/model.gguf".to_string());
    cli.prompt = vec!["p".to_string()];
    assert_eq!(
        explicit_model_path(&cli.model_path, &None, "cfg"),
        Some("/abs/model.gguf".to_string())
    );
    let s = build_effective_config(cli, no_file(), "cfg", Some("other.gguf".to_string())).unwrap();
    assert_eq!(s.model_path, "/abs/model.gguf");
}

#[test]
fn missing_model_is_reported_before_missing_prompt() {
    let e = build_effective_config(no_cli(), no_file(), ".", None).unwrap_err();
    assert_eq!(e, ConfigError::MissingModelPath);
    assert_eq!(
        e.message(),
        "model_path is required (flag --model-path, config file, or a .gguf in models/)"
    );
    let e2 = build_effective_config(no_cli(), no_file(), ".", Some("m.gguf".to_string())).unwrap_err();
    assert_eq!(e2, ConfigError::MissingPrompt);
}
