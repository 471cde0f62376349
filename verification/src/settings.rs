//! What the environment variables of a process ask of the hub: whether it is offline, where
//! its cache lies, and how its client is set up.

use crate::text::{
    ascii_lower, backslashed, is_absolute, is_inside, is_plain, join_path, joined,
    lemma_joined_is_inside, lowercase, opt_text, same_text, PathStyle,
};
use vstd::prelude::*;
use vstd::string::*;

verus! {

/// The values of the environment variables that the hub reads, each `None` where the variable
/// is not set (or is not Unicode), and the style of the machine's paths.
pub struct HubEnv {
    /// Whose rules paths follow.
    pub path_style: PathStyle,
    /// `HF_HUB_OFFLINE`
    pub hf_hub_offline: Option<String>,
    /// `HF_HUB_CACHE`
    pub hf_hub_cache: Option<String>,
    /// `HF_HOME`
    pub hf_home: Option<String>,
    /// `MODEL_EXPRESS_CACHE_PATH`
    pub model_express_cache_path: Option<String>,
    /// `MODEL_EXPRESS_URL`
    pub model_express_url: Option<String>,
    /// `MODEL_EXPRESS_NO_SHARED_STORAGE`
    pub model_express_no_shared_storage: Option<String>,
    /// `HOME`
    pub home: Option<String>,
    /// `USERPROFILE`
    pub user_profile: Option<String>,
}

/// The same values as sequences of characters.
pub struct HubEnvView {
    pub path_style: PathStyle,
    pub hf_hub_offline: Option<Seq<char>>,
    pub hf_hub_cache: Option<Seq<char>>,
    pub hf_home: Option<Seq<char>>,
    pub model_express_cache_path: Option<Seq<char>>,
    pub model_express_url: Option<Seq<char>>,
    pub model_express_no_shared_storage: Option<Seq<char>>,
    pub home: Option<Seq<char>>,
    pub user_profile: Option<Seq<char>>,
}

impl View for HubEnv {
    type V = HubEnvView;

    open spec fn view(&self) -> HubEnvView {
        HubEnvView {
            path_style: self.path_style,
            hf_hub_offline: opt_text(self.hf_hub_offline),
            hf_hub_cache: opt_text(self.hf_hub_cache),
            hf_home: opt_text(self.hf_home),
            model_express_cache_path: opt_text(self.model_express_cache_path),
            model_express_url: opt_text(self.model_express_url),
            model_express_no_shared_storage: opt_text(self.model_express_no_shared_storage),
            home: opt_text(self.home),
            user_profile: opt_text(self.user_profile),
        }
    }
}

/// Whether a variable's value switches its flag on: it is `1`, or `true` in any mix of cases.
/// A variable that is not set leaves the flag off.
pub open spec fn flag_on(value: Option<Seq<char>>) -> bool {
    match value {
        Some(v) => v == "1"@ || lowercase(v) == "true"@,
        None => false,
    }
}

/// The same, for values of ASCII characters alone.
pub open spec fn ascii_flag_on(value: Seq<char>) -> bool {
    value == "1"@ || value.map_values(|c: char| ascii_lower(c)) == "true"@
}

/// Tells whether a value switches a flag on, given its lower-case form.
pub fn is_truthy(value: &str, lowered: &str) -> (r: bool)
    ensures
        r == (value@ == "1"@ || lowered@ == "true"@),
{
    same_text(value, "1") || same_text(lowered, "true")
}

/// Tells whether a variable's value switches its flag on.
pub fn is_flag_on(value: &Option<String>) -> (r: bool)
    ensures
        r == flag_on(opt_text(*value)),
        value matches Some(v) ==> vstd::utf8::is_ascii_chars(v@) ==> r == ascii_flag_on(v@),
        value is None ==> !r,
{
    match value {
        Some(v) => {
            let lowered = v.as_str().to_lowercase();
            is_truthy(v.as_str(), lowered.as_str())
        },
        None => false,
    }
}

/// Tells whether offline mode is on, by `HF_HUB_OFFLINE`.
pub fn is_offline_mode(env: &HubEnv) -> (r: bool)
    ensures
        r == flag_on(env@.hf_hub_offline),
        env@.hf_hub_offline matches Some(v) ==> vstd::utf8::is_ascii_chars(v) ==> r
            == ascii_flag_on(v),
{
    is_flag_on(&env.hf_hub_offline)
}

/// Tells whether shared storage is switched off, by `MODEL_EXPRESS_NO_SHARED_STORAGE`. The
/// client then has its files streamed from the server: the two share no file system.
pub fn is_no_shared_storage(env: &HubEnv) -> (r: bool)
    ensures
        r == flag_on(env@.model_express_no_shared_storage),
        env@.model_express_no_shared_storage matches Some(v) ==> vstd::utf8::is_ascii_chars(v)
            ==> r == ascii_flag_on(v),
{
    is_flag_on(&env.model_express_no_shared_storage)
}

/// The user's home directory: `HOME`, else `USERPROFILE`, else the current directory.
pub open spec fn home_dir(env: HubEnvView) -> Seq<char> {
    match (env.home, env.user_profile) {
        (Some(home), _) => home,
        (None, Some(profile)) => profile,
        (None, None) => "."@,
    }
}

/// The directory of the cache that client and server have in common: `HF_HUB_CACHE`, else
/// `hub` under `HF_HOME`, else `MODEL_EXPRESS_CACHE_PATH`, else the usual place in the home
/// directory.
pub open spec fn cache_dir(env: HubEnvView) -> Seq<char> {
    match (env.hf_hub_cache, env.hf_home, env.model_express_cache_path) {
        (Some(path), _, _) => path,
        (None, Some(hf_home), _) => joined(env.path_style, hf_home, "hub"@),
        (None, None, Some(path)) => path,
        (None, None, None) => joined(
            env.path_style,
            home_dir(env),
            ".cache/huggingface/hub"@,
        ),
    }
}

/// Returns the directory of the cache that client and server have in common.
pub fn get_model_express_cache_dir(env: &HubEnv) -> (r: String)
    ensures
        r@ == cache_dir(env@),
{
    proof {
        lemma_tails_are_plain();
    }
    if let Some(path) = &env.hf_hub_cache {
        return path.clone();
    }
    if let Some(hf_home) = &env.hf_home {
        return join_path(env.path_style, hf_home.as_str(), "hub");
    }
    if let Some(path) = &env.model_express_cache_path {
        return path.clone();
    }
    let home: String = match &env.home {
        Some(home) => home.clone(),
        None => match &env.user_profile {
            Some(profile) => profile.clone(),
            None => ".".to_owned(),
        },
    };
    join_path(env.path_style, home.as_str(), ".cache/huggingface/hub")
}

proof fn lemma_tails_are_plain()
    ensures
        is_plain("hub"@),
        is_plain(".cache/huggingface/hub"@),
{
    reveal_strlit("hub");
    reveal_strlit(".cache/huggingface/hub");
}

/// How the client of the model server is set up. What is not named here keeps the client's
/// default.
pub struct ClientSettings {
    /// The server to connect to, in place of the default one.
    pub endpoint: Option<String>,
    /// Whether the client is told that it shares no storage with the server.
    pub disable_shared_storage: bool,
}

/// The same settings, with the endpoint as a sequence of characters.
pub struct ClientSettingsView {
    pub endpoint: Option<Seq<char>>,
    pub disable_shared_storage: bool,
}

impl View for ClientSettings {
    type V = ClientSettingsView;

    open spec fn view(&self) -> ClientSettingsView {
        ClientSettingsView {
            endpoint: opt_text(self.endpoint),
            disable_shared_storage: self.disable_shared_storage,
        }
    }
}

/// The client settings that an environment asks for.
pub open spec fn client_settings_of(env: HubEnvView) -> ClientSettingsView {
    ClientSettingsView {
        endpoint: env.model_express_url,
        disable_shared_storage: flag_on(env.model_express_no_shared_storage),
    }
}

/// Returns the client settings that an environment asks for.
pub fn client_settings(env: &HubEnv) -> (r: ClientSettings)
    ensures
        r@ == client_settings_of(env@),
{
    ClientSettings {
        endpoint: env.model_express_url.clone(),
        disable_shared_storage: is_no_shared_storage(env),
    }
}

/// The cache directory is the empty path only where the variable that names it outright is set
/// to the empty string.
pub proof fn law_cache_dir_is_not_empty(env: HubEnvView)
    ensures
        cache_dir(env).len() == 0 <==> (match (env.hf_hub_cache, env.hf_home) {
            (Some(path), _) => path.len() == 0,
            (None, Some(_)) => false,
            (None, None) => env.model_express_cache_path matches Some(path) && path.len() == 0,
        }),
{
    reveal_strlit("hub");
    reveal_strlit(".cache/huggingface/hub");
}

/// The directory that the cache directory is, or lies under: the first of the path variables
/// that is set, else the current directory.
pub open spec fn base_dir(env: HubEnvView) -> Seq<char> {
    match (env.hf_hub_cache, env.hf_home, env.model_express_cache_path) {
        (Some(path), _, _) => path,
        (None, Some(hf_home), _) => hf_home,
        (None, None, Some(path)) => path,
        (None, None, None) => home_dir(env),
    }
}

/// The cache directory is, or lies under, the directory that decides where it is: its path
/// starts with that directory's.
pub proof fn law_cache_dir_starts_with_its_base(env: HubEnvView)
    ensures
        base_dir(env).is_prefix_of(cache_dir(env)),
{
}

/// Whether a path is absolute, or starts at the current directory by name (`.`).
pub open spec fn is_anchored(path: Seq<char>) -> bool {
    is_absolute(path) || path == "."@ || "./"@.is_prefix_of(path)
}

proof fn lemma_anchored_by_its_first_characters(path: Seq<char>)
    ensures
        is_anchored(path) <==> path.len() > 0 && (path[0] == '/' || path[0] == '.' && (path.len()
            == 1 || path[1] == '/')),
{
    reveal_strlit(".");
    reveal_strlit("./");
    if path.len() == 1 && path[0] == '.' {
        assert(path == "."@);
    }
    if path.len() > 1 && path[0] == '.' && path[1] == '/' {
        assert("./"@ =~= path.subrange(0, 2));
    }
    if "./"@.is_prefix_of(path) {
        assert(path.subrange(0, 2)[0] == path[0] && path.subrange(0, 2)[1] == path[1]);
    }
}

/// The cache directory is absolute, or lies under the current directory (`.`), exactly where the
/// first path variable that is set holds such a path, or none is set. This is of paths that
/// follow the Unix rules.
pub proof fn law_cache_dir_is_absolute_or_local(env: HubEnvView)
    requires
        env.path_style == PathStyle::Unix,
    ensures
        is_anchored(cache_dir(env)) <==> is_anchored(base_dir(env)),
{
    reveal_strlit("hub");
    reveal_strlit(".");
    reveal_strlit(".cache/huggingface/hub");
    lemma_anchored_by_its_first_characters(cache_dir(env));
    lemma_anchored_by_its_first_characters(base_dir(env));
}

/// Each variable hides those that come after it: the cache directory does not depend on them.
pub proof fn law_cache_dir_precedence(a: HubEnvView, b: HubEnvView)
    requires
        a.path_style == b.path_style,
        a.hf_hub_cache == b.hf_hub_cache,
        a.hf_hub_cache is Some || a.hf_home == b.hf_home,
        a.hf_hub_cache is Some || a.hf_home is Some || a.model_express_cache_path
            == b.model_express_cache_path,
        a.hf_hub_cache is Some || a.hf_home is Some || a.model_express_cache_path is Some
            || a.home == b.home,
        a.hf_hub_cache is Some || a.hf_home is Some || a.model_express_cache_path is Some
            || a.home is Some || a.user_profile == b.user_profile,
    ensures
        cache_dir(a) == cache_dir(b),
{
}

/// Whether a string is `true` in any mix of cases of its four letters.
pub open spec fn spells_true(v: Seq<char>) -> bool {
    &&& v.len() == 4
    &&& v[0] == 't' || v[0] == 'T'
    &&& v[1] == 'r' || v[1] == 'R'
    &&& v[2] == 'u' || v[2] == 'U'
    &&& v[3] == 'e' || v[3] == 'E'
}

/// A flag is on for `1`, and for `true` in any mix of cases; of the other ASCII values none
/// switches it on, and neither does a variable that is not set. Where a value is not ASCII, its
/// lower-case form decides.
pub proof fn law_flag_values(value: &Option<String>, r: bool)
    requires
        call_ensures(is_flag_on, (value,), r),
    ensures
        value is None ==> !r,
        value matches Some(v) ==> v@ == seq!['1'] ==> r,
        value matches Some(v) ==> vstd::utf8::is_ascii_chars(v@) ==> (r <==> v@ == seq!['1']
            || spells_true(v@)),
        value matches Some(v) ==> (r <==> v@ == seq!['1'] || lowercase(v@) == seq![
            't',
            'r',
            'u',
            'e',
        ]),
{
    reveal_strlit("1");
    reveal_strlit("true");
    assert("1"@ == seq!['1']);
    assert("true"@ == seq!['t', 'r', 'u', 'e']);
    if let Some(v) = value {
        let lower = v@.map_values(|c: char| ascii_lower(c));
        if spells_true(v@) {
            assert(lower == "true"@);
        }
        if lower == "true"@ {
            assert(lower.len() == 4);
            assert(ascii_lower(v@[0]) == lower[0] && ascii_lower(v@[1]) == lower[1] && ascii_lower(
                v@[2],
            ) == lower[2] && ascii_lower(v@[3]) == lower[3]);
        }
    }
}

/// Each flag is that of its own variable: offline mode of `HF_HUB_OFFLINE`, the lack of shared
/// storage of `MODEL_EXPRESS_NO_SHARED_STORAGE`.
pub proof fn law_each_flag_has_its_variable(
    env: &HubEnv,
    offline: bool,
    offline_flag: bool,
    no_storage: bool,
    no_storage_flag: bool,
)
    requires
        call_ensures(is_offline_mode, (env,), offline),
        call_ensures(is_flag_on, (&env.hf_hub_offline,), offline_flag),
        call_ensures(is_no_shared_storage, (env,), no_storage),
        call_ensures(is_flag_on, (&env.model_express_no_shared_storage,), no_storage_flag),
    ensures
        offline == offline_flag,
        no_storage == no_storage_flag,
        env.hf_hub_offline is None ==> !offline,
        env.model_express_no_shared_storage is None ==> !no_storage,
{
}

/// The client is set up with the endpoint that `MODEL_EXPRESS_URL` names, where it is set, and
/// told of the lack of shared storage exactly where that flag is on.
pub proof fn law_client_settings(env: &HubEnv, no_storage_flag: bool, r: ClientSettings)
    requires
        call_ensures(client_settings, (env,), r),
        call_ensures(is_flag_on, (&env.model_express_no_shared_storage,), no_storage_flag),
    ensures
        r.endpoint is Some <==> env.model_express_url is Some,
        r.endpoint matches Some(endpoint) ==> endpoint@ == env.model_express_url->0@,
        r.disable_shared_storage == no_storage_flag,
{
}

/// The cache directory is the value of `HF_HUB_CACHE`; else what is called `hub` inside
/// `HF_HOME`; else the value of `MODEL_EXPRESS_CACHE_PATH`; else what is called
/// `.cache/huggingface/hub` inside the home directory, which is `HOME`, else `USERPROFILE`, else
/// the current directory.
pub proof fn law_cache_dir_of_each_variable(env: &HubEnv, r: String)
    requires
        call_ensures(get_model_express_cache_dir, (env,), r),
    ensures
        env.hf_hub_cache matches Some(path) ==> r@ == path@,
        env.hf_hub_cache is None ==> (env.hf_home matches Some(home) ==> is_inside(
            env.path_style,
            home@,
            "hub"@,
            r@,
        )),
        env.hf_hub_cache is None && env.hf_home is None ==> (
        env.model_express_cache_path matches Some(path) ==> r@ == path@),
        env.hf_hub_cache is None && env.hf_home is None && env.model_express_cache_path is None ==> {
            &&& env.home matches Some(home) ==> is_inside(
                env.path_style,
                home@,
                ".cache/huggingface/hub"@,
                r@,
            )
            &&& env.home is None ==> (env.user_profile matches Some(home) ==> is_inside(
                env.path_style,
                home@,
                ".cache/huggingface/hub"@,
                r@,
            ))
            &&& env.home is None && env.user_profile is None ==> is_inside(
                env.path_style,
                seq!['.'],
                ".cache/huggingface/hub"@,
                r@,
            )
        },
{
    reveal_strlit(".");
    assert("."@ == seq!['.']);
    if let Some(home) = env.hf_home {
        lemma_joined_is_inside(env.path_style, home@, "hub"@);
    }
    lemma_joined_is_inside(env.path_style, home_dir(env@), ".cache/huggingface/hub"@);
}

/// On Unix, where no variable names the cache, its directory is the home directory, a `/` unless
/// that is empty or ends in one, and `.cache/huggingface/hub`; where `HF_HOME` decides, it is
/// that directory and `hub` in the same way. Whatever the style, it ends in the name `hub`.
pub proof fn law_cache_dir_on_unix(env: &HubEnv, r: String)
    requires
        call_ensures(get_model_express_cache_dir, (env,), r),
        env.hf_hub_cache is None,
    ensures
        env.path_style == PathStyle::Unix ==> (env.hf_home matches Some(base) ==> {
            &&& base@.len() > 0 && base@.last() != '/' ==> r@ == base@ + "/hub"@
            &&& base@.len() == 0 || base@.last() == '/' ==> r@ == base@ + "hub"@
        }),
        env.path_style == PathStyle::Unix && env.hf_home is None && env.model_express_cache_path is None
            ==> (env.home matches Some(base) ==> {
            &&& base@.len() > 0 && base@.last() != '/' ==> r@ == base@ + "/.cache/huggingface/hub"@
            &&& base@.len() == 0 || base@.last() == '/' ==> r@ == base@ + ".cache/huggingface/hub"@
        }),
        env.path_style == PathStyle::Unix && env.hf_home is None && env.model_express_cache_path is None
            && env.home is None ==> (env.user_profile matches Some(base) ==> {
            &&& base@.len() > 0 && base@.last() != '/' ==> r@ == base@ + "/.cache/huggingface/hub"@
            &&& base@.len() == 0 || base@.last() == '/' ==> r@ == base@ + ".cache/huggingface/hub"@
        }),
        env.path_style == PathStyle::Unix && env.hf_home is None && env.model_express_cache_path is None
            && env.home is None && env.user_profile is None ==> r@ == "./.cache/huggingface/hub"@,
        env.hf_home is Some || env.model_express_cache_path is None ==> r@.len() >= 3 && r@.subrange(
            r@.len() - 3,
            r@.len() as int,
        ) == "hub"@,
        env.hf_home is None && env.model_express_cache_path is None && env.path_style
            == PathStyle::Unix ==> r@.len() >= 22 && r@.subrange(r@.len() - 22, r@.len() as int)
            == ".cache/huggingface/hub"@,
{
    reveal_strlit(".");
    reveal_strlit("hub");
    reveal_strlit("/hub");
    reveal_strlit(".cache/huggingface/hub");
    reveal_strlit("/.cache/huggingface/hub");
    reveal_strlit("./.cache/huggingface/hub");
    assert("/hub"@ == seq!['/'] + "hub"@);
    assert("/.cache/huggingface/hub"@ == seq!['/'] + ".cache/huggingface/hub"@);
    assert("./.cache/huggingface/hub"@ == seq!['.', '/'] + ".cache/huggingface/hub"@);
    assert("."@ == seq!['.']);
    let tail = ".cache/huggingface/hub"@;
    if let Some(base) = env.hf_home {
        assert(base@ + "/hub"@ == base@ + seq!['/'] + "hub"@);
    }
    let base = home_dir(env@);
    assert(base + "/.cache/huggingface/hub"@ == base + seq!['/'] + tail);
    assert(seq!['.'] + seq!['/'] + tail == seq!['.', '/'] + tail);
    assert(backslashed(tail).len() == 22);
    assert(backslashed("hub"@).len() == 3);
    if env.hf_home is Some || env.model_express_cache_path is None {
        assert(r@.subrange(r@.len() - 3, r@.len() as int) == "hub"@);
    }
}

/// A value is taken for true exactly where it is `1`, or its lower-case form is `true`.
pub proof fn law_truthy_values(value: &str, lowered: &str, r: bool)
    requires
        call_ensures(is_truthy, (value, lowered), r),
    ensures
        r <==> value@ == seq!['1'] || lowered@ == seq!['t', 'r', 'u', 'e'],
{
    reveal_strlit("1");
    reveal_strlit("true");
    assert("1"@ == seq!['1']);
    assert("true"@ == seq!['t', 'r', 'u', 'e']);
}

/// On Windows the tail of the cache directory comes after a `\`, for a home directory or an
/// `HF_HOME` that is neither a drive by itself nor ends in a separator, and directly after a drive.
pub proof fn law_cache_dir_on_windows(env: &HubEnv, r: String)
    requires
        call_ensures(get_model_express_cache_dir, (env,), r),
        env.path_style == PathStyle::Windows,
        env.hf_hub_cache is None,
    ensures
        env.hf_home matches Some(base) ==> {
            &&& base@.len() > 2 && base@[2] != '?' && base@.last() != '\\' && base@.last() != '/'
                ==> r@ == base@ + "\\hub"@
            &&& base@.len() == 2 && 'A' <= base@[0] <= 'Z' && base@[1] == ':' ==> r@ == base@
                + "hub"@
        },
        env.hf_home is None && env.model_express_cache_path is None ==> (
        env.home matches Some(base) ==> {
            &&& base@.len() > 2 && base@[2] != '?' && base@.last() != '\\' && base@.last() != '/'
                ==> r@ == base@ + "\\.cache/huggingface/hub"@
            &&& base@.len() == 2 && 'A' <= base@[0] <= 'Z' && base@[1] == ':' ==> r@ == base@
                + ".cache/huggingface/hub"@
        }),
        env.hf_home is None && env.model_express_cache_path is None && env.home is None ==> (
        env.user_profile matches Some(base) ==> {
            &&& base@.len() > 2 && base@[2] != '?' && base@.last() != '\\' && base@.last() != '/'
                ==> r@ == base@ + "\\.cache/huggingface/hub"@
            &&& base@.len() == 2 && 'A' <= base@[0] <= 'Z' && base@[1] == ':' ==> r@ == base@
                + ".cache/huggingface/hub"@
        }),
{
    reveal_strlit("hub");
    reveal_strlit("\\hub");
    reveal_strlit(".cache/huggingface/hub");
    reveal_strlit("\\.cache/huggingface/hub");
    assert("\\hub"@ == seq!['\\'] + "hub"@);
    assert("\\.cache/huggingface/hub"@ == seq!['\\'] + ".cache/huggingface/hub"@);
    if let Some(base) = env.hf_home {
        assert(base@ + "\\hub"@ == base@ + seq!['\\'] + "hub"@);
    }
    let base = home_dir(env@);
    assert(base + "\\.cache/huggingface/hub"@ == base + seq!['\\'] + ".cache/huggingface/hub"@);
}

} // verus!
