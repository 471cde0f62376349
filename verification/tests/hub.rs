use modelkit::hub::{self, Action, ModelFetch, ModelProvider, Outcome};
use modelkit::settings::HubEnv;
use modelkit::snapshot::{self, CacheProbe, ProbeReply, ProbeRequest};
use modelkit::text::PathStyle;
use std::cell::RefCell;

/// What the cache holds of one model.
struct Cached {
    snapshot: Option<String>,
    files: Vec<&'static str>,
    entries: Vec<&'static str>,
}

impl Cached {
    fn nothing() -> Cached {
        Cached { snapshot: None, files: Vec::new(), entries: Vec::new() }
    }

    /// A snapshot with a configuration and a tokenizer, with or without weights.
    fn snapshot(repo_id: &str, with_weights: bool) -> Cached {
        let folder = format!("models--{}", repo_id.replace('/', "--"));
        let sha = "deadbeefcafebabe1234567890abcdef12345678";
        let mut files = vec!["config.json", "tokenizer.json"];
        if with_weights {
            files.push("model.safetensors");
        }
        Cached {
            snapshot: Some(format!("/cache/{folder}/snapshots/{sha}")),
            entries: files.clone(),
            files,
        }
    }

    fn reply(&self, probe: &CacheProbe<String>, asked: &mut Vec<String>) -> ProbeReply<String> {
        match probe.request() {
            ProbeRequest::Config { file } => {
                asked.push(file.to_string());
                if self.files.contains(&file) {
                    ProbeReply::Config(Some(self.snapshot.clone()))
                } else {
                    ProbeReply::Config(None)
                }
            }
            ProbeRequest::File { file } => {
                asked.push(file.to_string());
                ProbeReply::File(self.files.contains(&file))
            }
            ProbeRequest::Entries { dir } => {
                asked.push(format!("list {dir}"));
                ProbeReply::Entries(self.entries.iter().map(|e| e.to_string()).collect())
            }
            ProbeRequest::Nothing => panic!("a search that is over asks for nothing"),
        }
    }
}

fn search(cached: &Cached, ignore_weights: bool) -> (Option<String>, Vec<String>) {
    let asked = RefCell::new(Vec::new());
    let found = snapshot::get_cached_model_path(
        |probe: &CacheProbe<String>| cached.reply(probe, &mut asked.borrow_mut()),
        ignore_weights,
    );
    (found, asked.into_inner())
}

fn get_cached_model_path(cached: &Cached, ignore_weights: bool) -> Option<String> {
    search(cached, ignore_weights).0
}

/// How the network answers.
struct Network {
    reachable: bool,
    served: bool,
    path: Option<&'static str>,
    download: Result<&'static str, &'static str>,
}

const DOWN: Network =
    Network { reachable: false, served: false, path: None, download: Err("no network") };

fn drive(
    mut fetch: ModelFetch<String, String>,
    cached: &Cached,
    network: &Network,
) -> (Result<String, String>, Vec<String>) {
    let mut trace = Vec::new();
    loop {
        let outcome = match fetch.action() {
            Action::SearchCache { cache_dir, model_name, ignore_weights } => {
                trace.push(format!("cache {cache_dir} {model_name} {ignore_weights}"));
                Outcome::Cached(get_cached_model_path(cached, ignore_weights))
            }
            Action::Connect { client } => {
                trace.push(format!(
                    "connect {:?} {}",
                    client.endpoint, client.disable_shared_storage
                ));
                Outcome::Connected(network.reachable)
            }
            Action::RequestModel { model_name, provider, ignore_weights } => {
                trace.push(format!("request {model_name} {provider:?} {ignore_weights}"));
                Outcome::Requested(network.served)
            }
            Action::ResolvePath { model_name, provider } => {
                trace.push(format!("resolve {model_name} {provider:?}"));
                Outcome::Resolved(network.path.map(|p| p.to_string()))
            }
            Action::Download { model_name, provider, cache_dir, ignore_weights } => {
                trace.push(format!(
                    "download {model_name} {provider:?} {cache_dir} {ignore_weights}"
                ));
                Outcome::Downloaded(
                    network.download.map(|p| p.to_string()).map_err(|e| e.to_string()),
                )
            }
            Action::Finish { result } => {
                let seen = result.clone();
                assert_eq!(fetch.into_result(), Some(seen.clone()));
                return (seen, trace);
            }
        };
        fetch = fetch.advance(outcome);
    }
}

fn env(offline: bool) -> HubEnv {
    HubEnv {
        path_style: PathStyle::Unix,
        hf_hub_offline: if offline { Some("1".to_string()) } else { None },
        hf_hub_cache: Some("/cache".to_string()),
        hf_home: None,
        model_express_cache_path: None,
        model_express_url: Some("http://mx:8001".to_string()),
        model_express_no_shared_storage: None,
        home: None,
        user_profile: None,
    }
}

fn from_hf(name: &str, ignore_weights: bool, offline: bool) -> ModelFetch<String, String> {
    hub::from_hf(name.to_string(), ignore_weights, &env(offline))
}

fn from_hf_cache_first(name: &str, offline: bool) -> ModelFetch<String, String> {
    hub::from_hf_cache_first(name.to_string(), false, &env(offline))
}

#[test]
fn test_get_cached_model_path_finds_populated_snapshot() {
    let cached = Cached::snapshot("test-org/test-model", true);
    let resolved = get_cached_model_path(&cached, false);
    let resolved = resolved.expect("expected cache hit on fully populated snapshot");
    assert_eq!(Some(resolved), cached.snapshot);
}

#[test]
fn test_get_cached_model_path_missing_model_returns_none() {
    // Nothing is cached of nonexistent-org/nonexistent-model.
    let resolved = get_cached_model_path(&Cached::nothing(), false);
    assert!(resolved.is_none(), "expected no cache hit when model is absent");
}

#[test]
fn test_get_cached_model_path_weights_requirement() {
    let cached = Cached::snapshot("test-org/tokenizer-only", false);

    let weights_required = get_cached_model_path(&cached, false);
    let weights_optional = get_cached_model_path(&cached, true);

    assert!(
        weights_required.is_none(),
        "ignore_weights=false should miss when weight files are absent",
    );
    assert!(
        weights_optional.is_some(),
        "ignore_weights=true should hit on config + tokenizer alone",
    );
}

#[test]
fn test_from_hf_cache_first_returns_cached_path_without_network() {
    let cached = Cached::snapshot("test-org/cache-first-only", true);
    let (resolved, trace) = drive(from_hf_cache_first("test-org/cache-first-only", false), &cached, &DOWN);
    let path = resolved.expect("expected cache-first to succeed without network");
    assert_eq!(Some(path), cached.snapshot);
    assert_eq!(
        trace,
        ["cache /cache test-org/cache-first-only false"]
    );
}

#[test]
fn test_from_hf_with_model_express() {
    let network = Network { reachable: true, served: true, path: Some("/mx/test-model"), ..DOWN };
    let (result, trace) = drive(from_hf("test-model", false, false), &Cached::nothing(), &network);
    assert_eq!(result, Ok("/mx/test-model".to_string()));
    assert_eq!(
        trace,
        [
            "connect Some(\"http://mx:8001\") false",
            "request test-model HuggingFace false",
            "resolve test-model HuggingFace",
        ]
    );
}

#[test]
fn every_server_failure_falls_back_to_the_direct_download() {
    let download = Ok("/direct");
    let failures = vec![
        (Network { reachable: false, served: true, path: Some("/mx"), download }, 2),
        (Network { reachable: true, served: false, path: Some("/mx"), download }, 3),
        (Network { reachable: true, served: true, path: None, download }, 4),
    ];
    for (network, actions) in failures.iter() {
        let (result, trace) = drive(from_hf("m", true, false), &Cached::nothing(), network);
        assert_eq!(result, Ok("/direct".to_string()));
        assert_eq!(trace.len(), *actions);
        assert_eq!(trace[actions - 1], "download m HuggingFace /cache true");
    }
}

#[test]
fn the_error_of_the_direct_download_is_the_result() {
    let (result, _) = drive(from_hf("m", false, false), &Cached::snapshot("m", true), &DOWN);
    assert_eq!(result, Err("no network".to_string()));
}

#[test]
fn offline_hit_stays_away_from_the_network() {
    let cached = Cached::snapshot("org/m", true);
    let (result, trace) = drive(from_hf("org/m", false, true), &cached, &DOWN);
    assert_eq!(result.ok(), cached.snapshot);
    assert!(trace.iter().all(|t| t.starts_with("cache ")));
}

#[test]
fn offline_miss_goes_to_the_network_anyway() {
    let network = Network { download: Ok("/direct"), ..DOWN };
    let (result, trace) = drive(from_hf("m", false, true), &Cached::nothing(), &network);
    assert_eq!(result, Ok("/direct".to_string()));
    assert_eq!(
        trace,
        [
            "cache /cache m false",
            "connect Some(\"http://mx:8001\") false",
            "download m HuggingFace /cache false",
        ]
    );
}

#[test]
fn online_fetch_does_not_look_into_the_cache() {
    let network = Network { download: Ok("/direct"), ..DOWN };
    let (result, trace) = drive(from_hf("m", false, false), &Cached::snapshot("m", true), &network);
    assert_eq!(result, Ok("/direct".to_string()));
    assert!(trace.iter().all(|t| !t.starts_with("cache ")));
}

#[test]
fn cache_first_miss_searches_again_only_offline() {
    let cached = Cached::snapshot("m", false);
    let network = Network { download: Ok("/direct"), ..DOWN };
    let (_, online) = drive(from_hf_cache_first("m", false), &cached, &network);
    let (result, offline) = drive(from_hf_cache_first("m", true), &cached, &network);
    assert_eq!(result, Ok("/direct".to_string()));
    assert_eq!(online.iter().filter(|t| t.starts_with("cache ")).count(), 1);
    assert_eq!(offline.iter().filter(|t| t.starts_with("cache ")).count(), 2);
    assert_eq!(offline.len(), online.len() + 1);
}

#[test]
fn longest_fetch_takes_six_actions() {
    // A tokenizer that only the listing shows, and weights that are missing to the last file.
    let cached = Cached {
        snapshot: Some("/cache/s".to_string()),
        files: vec!["config.json"],
        entries: vec!["config.json", "qwen.tiktoken"],
    };
    let network = Network { reachable: true, served: true, path: None, download: Ok("/direct") };
    let (result, trace) = drive(from_hf_cache_first("m", true), &cached, &network);
    assert_eq!(result, Ok("/direct".to_string()));
    assert_eq!(trace.len(), 6);
}

#[test]
fn files_are_looked_for_in_order() {
    let cached = Cached {
        snapshot: Some("/cache/s".to_string()),
        files: vec!["config.json", "pytorch_model.bin.index.json"],
        entries: vec!["config.json", "qwen.tiktoken"],
    };
    let (found, asked) = search(&cached, false);
    assert_eq!(found, cached.snapshot);
    assert_eq!(
        asked,
        [
            "config.json",
            "tokenizer.json",
            "tokenizer_config.json",
            "tiktoken.model",
            "list /cache/s",
            "model.safetensors",
            "pytorch_model.bin",
            "model.safetensors.index.json",
            "pytorch_model.bin.index.json",
        ]
    );
}

#[test]
fn any_tokenizer_and_any_weights_will_do() {
    for tokenizer in ["tokenizer.json", "tokenizer_config.json", "tiktoken.model"] {
        for weights in [
            "model.safetensors",
            "pytorch_model.bin",
            "model.safetensors.index.json",
            "pytorch_model.bin.index.json",
        ] {
            let cached = Cached {
                snapshot: Some("/s".to_string()),
                files: vec!["config.json", tokenizer, weights],
                entries: Vec::new(),
            };
            assert_eq!(get_cached_model_path(&cached, false), Some("/s".to_string()));
        }
    }
}

/// A disk of several directories, of which one is the snapshot.
fn search_disk(
    directories: &[(&'static str, &[&'static str])],
    snapshot: &'static str,
    ignore_weights: bool,
) -> Option<String> {
    let entries = |dir: &str| -> Vec<String> {
        let listed = directories.iter().find(|d| d.0 == dir).map(|d| d.1).unwrap_or(&[]);
        listed.iter().map(|e| e.to_string()).collect()
    };
    let has = |file: &str| entries(snapshot).iter().any(|e| e == file);
    snapshot::get_cached_model_path(
        |probe: &CacheProbe<String>| match probe.request() {
            ProbeRequest::Config { file } => {
                ProbeReply::Config(if has(file) { Some(Some(snapshot.to_string())) } else { None })
            }
            ProbeRequest::File { file } => ProbeReply::File(has(file)),
            ProbeRequest::Entries { dir } => ProbeReply::Entries(entries(dir)),
            ProbeRequest::Nothing => panic!("a search that is over asks for nothing"),
        },
        ignore_weights,
    )
}

#[test]
fn the_snapshot_alone_is_listed() {
    let disk: &[(&str, &[&str])] = &[
        ("/c/full", &["config.json", "qwen.tiktoken", "pytorch_model.bin.index.json"]),
        ("/c/bare", &["config.json", "pytorch_model.bin.index.json"]),
        ("/c/light", &["config.json", "qwen.tiktoken"]),
        ("/c/plain", &["config.json", "tokenizer.json", "model.safetensors"]),
    ];
    let some = |dir: &str| Some(dir.to_string());
    for ignore_weights in [false, true] {
        assert_eq!(search_disk(disk, "/c/full", ignore_weights), some("/c/full"));
        assert_eq!(search_disk(disk, "/c/plain", ignore_weights), some("/c/plain"));
        assert_eq!(search_disk(disk, "/c/bare", ignore_weights), None);
        assert_eq!(search_disk(disk, "/c/missing", ignore_weights), None);
    }
    assert_eq!(search_disk(disk, "/c/light", false), None);
    assert_eq!(search_disk(disk, "/c/light", true), some("/c/light"));
}

#[test]
fn a_cache_that_changes_is_judged_by_what_was_seen() {
    // The tokenizer vanishes after it was seen, and the weights appear just in time.
    let looks = RefCell::new(0);
    let found = snapshot::get_cached_model_path(
        |probe: &CacheProbe<String>| {
            *looks.borrow_mut() += 1;
            match probe.request() {
                ProbeRequest::Config { .. } => {
                    let dir = format!("/s{}", looks.borrow());
                    ProbeReply::Config(Some(Some(dir)))
                }
                ProbeRequest::File { .. } => {
                    let found = *looks.borrow() == 3 || *looks.borrow() == 6;
                    ProbeReply::File(found)
                }
                ProbeRequest::Entries { .. } => ProbeReply::Entries(Vec::new()),
                ProbeRequest::Nothing => panic!("a search that is over asks for nothing"),
            }
        },
        false,
    );
    assert_eq!(found, Some("/s1".to_string()));
    assert_eq!(looks.into_inner(), 6);
}

#[test]
fn config_and_tokenizer_are_both_needed() {
    let no_tokenizer = Cached {
        snapshot: Some("/s".to_string()),
        files: vec!["config.json", "model.safetensors"],
        entries: vec!["config.json", "model.safetensors"],
    };
    assert_eq!(get_cached_model_path(&no_tokenizer, true), None);
    let no_config = Cached {
        snapshot: Some("/s".to_string()),
        files: vec!["tokenizer.json", "model.safetensors"],
        entries: Vec::new(),
    };
    let (found, asked) = search(&no_config, true);
    assert_eq!(found, None);
    assert_eq!(asked, ["config.json"]);
}

#[test]
fn config_without_a_parent_gives_no_snapshot() {
    let cached = Cached {
        snapshot: None,
        files: vec!["config.json", "tokenizer.json", "model.safetensors"],
        entries: Vec::new(),
    };
    assert_eq!(get_cached_model_path(&cached, false), None);
    let bare = Cached { snapshot: None, files: vec!["config.json"], entries: Vec::new() };
    let (found, asked) = search(&bare, true);
    assert_eq!(found, None);
    assert_eq!(asked.len(), 4);
}

#[test]
fn a_fetch_under_way_has_no_result() {
    assert_eq!(from_hf("m", false, false).into_result(), None);
    assert_eq!(ModelProvider::HuggingFace, ModelProvider::HuggingFace);
}
