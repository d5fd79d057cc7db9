use uncanny::paths::{
    choose_config_path, config_base_dir,
    default_config_candidates, discover_default_config_path, discover_model_path, model_dir_candidates,
    resolve_path, DirEntryInfo,
};

fn file(name: &str) -> DirEntryInfo {
    DirEntryInfo { name: name.as_bytes().to_vec(), is_file: true }
}

fn dir(name: &str) -> DirEntryInfo {
    DirEntryInfo { name: name.as_bytes().to_vec(), is_file: false }
}

#[test]
fn absolute_paths_are_kept() {
    assert_eq!(resolve_path("base", "/etc/x".to_string()), "/etc/x");
}

#[test]
fn relative_paths_join_with_one_separator() {
    assert_eq!(resolve_path(".", "x".to_string()), "./x");
    assert_eq!(resolve_path("a/", "x".to_string()), "a/x");
    assert_eq!(resolve_path("", "x".to_string()), "x");
    assert_eq!(resolve_path("a", "".to_string()), "a/");
}

#[test]
fn first_existing_config_candidate_is_chosen() {
    let c = default_config_candidates();
    assert_eq!(c.len(), 8);
    assert_eq!(c[0], "llm-benchmark.toml");
    assert_eq!(discover_default_config_path(&vec![false, false, true, true]), Some("fluidity-bench.toml".to_string()));
    assert_eq!(discover_default_config_path(&vec![false; 8]), None);
    assert_eq!(discover_default_config_path(&Vec::new()), None);
    let mut last = vec![false; 8];
    last[7] = true;
    assert_eq!(
        discover_default_config_path(&last),
        Some("../tools/llm-benchmark/fluidity-bench.toml".to_string())
    );
}

#[test]
fn least_gguf_name_in_first_directory_with_one() {
    let listings = vec![
        None,
        Some(vec![file("readme.md"), file("b.GGUF"), file("a.gguf"), dir("c.gguf")]),
        Some(vec![file("0.gguf")]),
    ];
    assert_eq!(discover_model_path(&listings), Some(b"../models/a.gguf".to_vec()));
}

#[test]
fn hidden_names_and_other_extensions_are_not_models() {
    let listings = vec![
        Some(vec![file(".gguf"), file("x.gguf.bak"), file("gguf"), file("y.ggu")]),
        Some(Vec::new()),
        Some(vec![file("Z.GgUf"), file("m.gguf")]),
    ];
    assert_eq!(discover_model_path(&listings), Some(b"../../models/Z.GgUf".to_vec()));
    assert_eq!(discover_model_path(&vec![None, None, None]), None);
    assert_eq!(model_dir_candidates()[0], b"models".to_vec());
}

#[test]
fn config_path_and_base_dir() {
    assert_eq!(choose_config_path(Some("a.toml".to_string()), Some("b.toml".to_string())), "a.toml");
    assert_eq!(choose_config_path(None, Some("b.toml".to_string())), "b.toml");
    assert_eq!(choose_config_path(None, None), "llm-benchmark.toml");
    assert_eq!(config_base_dir("tools/llm-benchmark/llm-benchmark.toml"), "tools/llm-benchmark");
    assert_eq!(config_base_dir("llm-benchmark.toml"), "");
    assert_eq!(config_base_dir("/"), ".");
}
