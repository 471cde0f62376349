use modelkit::settings::{
    client_settings, get_model_express_cache_dir, is_flag_on, is_no_shared_storage,
    is_offline_mode, is_truthy, HubEnv,
};
use modelkit::text::{
    has_tiktoken_extension, has_tiktoken_file, join_path, same_text, PathStyle,
};
use std::path::{Path, PathBuf};

fn empty_env() -> HubEnv {
    HubEnv {
        path_style: PathStyle::Unix,
        hf_hub_offline: None,
        hf_hub_cache: None,
        hf_home: None,
        model_express_cache_path: None,
        model_express_url: None,
        model_express_no_shared_storage: None,
        home: None,
        user_profile: None,
    }
}

fn text(s: &str) -> Option<String> {
    Some(s.to_string())
}

#[test]
fn test_get_model_express_cache_dir() {
    let envs = vec![
        empty_env(),
        HubEnv { home: text("/root"), ..empty_env() },
        HubEnv { user_profile: text("/users/me"), ..empty_env() },
        HubEnv { hf_hub_cache: text("/data/hub"), home: text("/root"), ..empty_env() },
        HubEnv { model_express_cache_path: text("/mx"), ..empty_env() },
    ];
    for env in envs.iter() {
        let cache_dir = PathBuf::from(get_model_express_cache_dir(env));
        assert!(!cache_dir.to_string_lossy().is_empty());
        assert!(cache_dir.is_absolute() || cache_dir.starts_with("."));
    }
}

#[test]
fn test_get_model_express_cache_dir_with_hf_home() {
    let env = HubEnv { hf_home: text("/custom/cache/path"), ..empty_env() };
    let cache_dir = PathBuf::from(get_model_express_cache_dir(&env));
    assert_eq!(cache_dir, PathBuf::from("/custom/cache/path/hub"));
}

#[test]
fn cache_dir_variables_in_order_of_precedence() {
    let mut env = HubEnv {
        hf_hub_cache: text("/a"),
        hf_home: text("/b"),
        model_express_cache_path: text("/c"),
        home: text("/d"),
        user_profile: text("/e"),
        ..empty_env()
    };
    assert_eq!(get_model_express_cache_dir(&env), "/a");
    env.hf_hub_cache = None;
    assert_eq!(get_model_express_cache_dir(&env), "/b/hub");
    env.hf_home = None;
    assert_eq!(get_model_express_cache_dir(&env), "/c");
    env.model_express_cache_path = None;
    assert_eq!(get_model_express_cache_dir(&env), "/d/.cache/huggingface/hub");
    env.home = None;
    assert_eq!(get_model_express_cache_dir(&env), "/e/.cache/huggingface/hub");
    env.user_profile = None;
    assert_eq!(get_model_express_cache_dir(&env), "./.cache/huggingface/hub");
}

#[test]
fn cache_dir_may_be_set_to_the_empty_path() {
    let env = HubEnv { hf_hub_cache: text(""), home: text("/root"), ..empty_env() };
    assert_eq!(get_model_express_cache_dir(&env), "");
    let env = HubEnv { hf_home: text(""), ..empty_env() };
    assert_eq!(get_model_express_cache_dir(&env), "hub");
}

#[test]
fn cache_dir_is_anchored_where_the_variable_that_decides_is() {
    let anchored = |path: &str| {
        let path = Path::new(path);
        path.is_absolute() || path.starts_with(".")
    };
    for dir in ["/x", "/", ".", "./", "./x", "x", "x/y", "..", "../x", ".x", ""] {
        for env in [
            HubEnv { hf_hub_cache: text(dir), hf_home: text("/other"), ..empty_env() },
            HubEnv { hf_home: text(dir), home: text("other"), ..empty_env() },
            HubEnv { model_express_cache_path: text(dir), home: text("/other"), ..empty_env() },
            HubEnv { home: text(dir), user_profile: text("/other"), ..empty_env() },
            HubEnv { user_profile: text(dir), ..empty_env() },
        ] {
            assert_eq!(anchored(&get_model_express_cache_dir(&env)), anchored(dir), "{dir}");
        }
    }
}

#[test]
fn paths_join_as_the_standard_library_joins_them() {
    for base in ["", "/", "/a", "/a/", "a", "a/b", "a//", ".", "..", "h\u{e9}/x"] {
        for rel in ["hub", ".cache/huggingface/hub", "a.b/c"] {
            let expected = Path::new(base).join(rel);
            assert_eq!(join_path(PathStyle::Unix, base, rel), expected.to_string_lossy());
        }
    }
}

#[test]
fn windows_paths_join_by_their_own_rules() {
    for (base, expected) in [
        (r"C:\Users\me", r"C:\Users\me\.cache/huggingface/hub"),
        (r"C:\Users\me\", r"C:\Users\me\.cache/huggingface/hub"),
        ("C:/Users/me/", "C:/Users/me/.cache/huggingface/hub"),
        ("C:", "C:.cache/huggingface/hub"),
        ("z:", "z:.cache/huggingface/hub"),
        ("1:", r"1:\.cache/huggingface/hub"),
        ("C:x", r"C:x\.cache/huggingface/hub"),
        ("", ".cache/huggingface/hub"),
        (".", r".\.cache/huggingface/hub"),
        (r"\\server\share", r"\\server\share\.cache/huggingface/hub"),
        (r"\\?\C:\Users\me", r"\\?\C:\Users\me\.cache\huggingface\hub"),
        (r"\\?\C:\", r"\\?\C:\.cache\huggingface\hub"),
        (r"\\?\C:", r"\\?\C:\.cache\huggingface\hub"),
        (r"\\?\x/", r"\\?\x/\.cache\huggingface\hub"),
        (r"\\?\", r"\\?\\.cache\huggingface\hub"),
        (r"\\?\UNC\", r"\\?\UNC\\.cache\huggingface\hub"),
        (r"\\?\UNC\s\t", r"\\?\UNC\s\t\.cache\huggingface\hub"),
    ] {
        let env = HubEnv {
            path_style: PathStyle::Windows,
            user_profile: text(base),
            ..empty_env()
        };
        assert_eq!(get_model_express_cache_dir(&env), expected);
        assert!(expected.starts_with(base));
    }
    assert_eq!(join_path(PathStyle::Windows, "C:", "hub"), "C:hub");
    assert_eq!(join_path(PathStyle::Unix, "C:", "hub"), "C:/hub");
}

#[test]
fn flags_are_on_for_one_and_true() {
    for on in ["1", "true", "TRUE", "True", "tRuE"] {
        assert!(is_flag_on(&text(on)), "{on}");
    }
    for off in ["", "0", "yes", "on", " 1", "1 ", "true ", "truth", "11", "\u{130}", "TRU\u{c9}"] {
        assert!(!is_flag_on(&text(off)), "{off}");
    }
    assert!(!is_flag_on(&None));
}

#[test]
fn lowered_value_decides() {
    assert!(is_truthy("1", "1"));
    assert!(is_truthy("TRUE", "true"));
    assert!(!is_truthy("true", "TRUE"));
    assert!(!is_truthy("0", "0"));
    assert!(same_text("abc", "abc"));
    assert!(!same_text("abc", "abd"));
}

#[test]
fn each_flag_reads_its_own_variable() {
    let env = HubEnv { hf_hub_offline: text("1"), ..empty_env() };
    assert!(is_offline_mode(&env));
    assert!(!is_no_shared_storage(&env));
    let env = HubEnv { model_express_no_shared_storage: text("True"), ..empty_env() };
    assert!(!is_offline_mode(&env));
    assert!(is_no_shared_storage(&env));
}

#[test]
fn client_is_set_up_from_the_environment() {
    let default = client_settings(&empty_env());
    assert_eq!(default.endpoint, None);
    assert!(!default.disable_shared_storage);

    let env = HubEnv {
        model_express_url: text("http://mx:8001"),
        model_express_no_shared_storage: text("TRUE"),
        ..empty_env()
    };
    let client = client_settings(&env);
    assert_eq!(client.endpoint, text("http://mx:8001"));
    assert!(client.disable_shared_storage);
}

#[test]
fn tiktoken_extension_is_that_of_the_standard_library() {
    for name in [
        "qwen.tiktoken",
        ".tiktoken",
        "..tiktoken",
        "a.b.tiktoken",
        "tiktoken",
        "xtiktoken",
        "qwen.tiktoken.bak",
        "qwen.Tiktoken",
        "\u{e9}.tiktoken",
        "",
        "tokenizer.json",
    ] {
        let expected = Path::new(name).extension().is_some_and(|ext| ext == "tiktoken");
        assert_eq!(has_tiktoken_extension(name), expected, "{name}");
    }
}

#[test]
fn one_tiktoken_file_is_enough() {
    let names = vec!["config.json".to_string(), "qwen.tiktoken".to_string()];
    assert!(has_tiktoken_file(&names));
    assert!(!has_tiktoken_file(&vec!["config.json".to_string(), ".tiktoken".to_string()]));
    assert!(!has_tiktoken_file(&Vec::new()));
}
