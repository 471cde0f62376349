//! Fetching a model from the hub.
//!
//! A fetch decides, one step after another, where a model's files come from: the local cache,
//! the model server, or a direct download. It performs none of these itself. The caller does
//! what `ModelFetch::action` says, hands the outcome to `ModelFetch::advance`, and goes on
//! until the fetch is done. Paths and errors are values of types `P` and `E` of the caller's
//! choice; the fetch only passes them on.

use crate::settings::{
    cache_dir, client_settings, client_settings_of, flag_on, get_model_express_cache_dir,
    is_no_shared_storage, is_offline_mode, ClientSettings, ClientSettingsView, HubEnv, HubEnvView,
};
use crate::snapshot::CachedFiles;
use vstd::prelude::*;
use vstd::string::*;

verus! {

/// Where the model server and the direct download get models from.
#[derive(Clone, Copy, PartialEq, Eq, Structural, Debug)]
pub enum ModelProvider {
    HuggingFace,
}

/// How far a fetch has come.
pub enum Stage<P, E> {
    /// The cache is to be searched before anything else.
    CacheFirst,
    /// The cache is to be searched because the process is offline.
    Offline,
    /// The client is to be connected to the model server.
    Connect,
    /// The server is to be asked for the model.
    Request,
    /// The server has the model: its local path is to be asked for.
    Resolve,
    /// The model is to be downloaded without the server.
    Download,
    /// The fetch is over.
    Done(Result<P, E>),
}

/// A fetch of one model.
pub struct ModelFetch<P, E> {
    /// The model's name.
    pub model_name: String,
    /// Whether the files with the model's weights are to be skipped.
    pub ignore_weights: bool,
    /// Whether the process is offline.
    pub offline: bool,
    /// The directory of the local cache.
    pub cache_dir: String,
    /// How the client of the model server is set up.
    pub client: ClientSettings,
    /// How far the fetch has come.
    pub stage: Stage<P, E>,
}

/// `ModelFetch` with its strings as sequences of characters.
pub struct FetchView<P, E> {
    pub model_name: Seq<char>,
    pub ignore_weights: bool,
    pub offline: bool,
    pub cache_dir: Seq<char>,
    pub client: ClientSettingsView,
    pub stage: Stage<P, E>,
}

impl<P, E> View for ModelFetch<P, E> {
    type V = FetchView<P, E>;

    open spec fn view(&self) -> FetchView<P, E> {
        FetchView {
            model_name: self.model_name@,
            ignore_weights: self.ignore_weights,
            offline: self.offline,
            cache_dir: self.cache_dir@,
            client: self.client@,
            stage: self.stage,
        }
    }
}

/// What a fetch wants done next.
pub enum Action<'a, P, E> {
    /// Search the cache for the snapshot of a model.
    SearchCache { cache_dir: &'a str, model_name: &'a str, ignore_weights: bool },
    /// Connect to the model server.
    Connect { client: &'a ClientSettings },
    /// Ask the server for a model.
    RequestModel { model_name: &'a str, provider: ModelProvider, ignore_weights: bool },
    /// Ask where the model that the server has lies locally.
    ResolvePath { model_name: &'a str, provider: ModelProvider },
    /// Download a model into the cache without the server.
    Download {
        model_name: &'a str,
        provider: ModelProvider,
        cache_dir: &'a str,
        ignore_weights: bool,
    },
    /// Nothing: the fetch is over, with this result.
    Finish { result: &'a Result<P, E> },
}

/// `Action` with its strings as sequences of characters.
pub enum ActionView<P, E> {
    SearchCache { cache_dir: Seq<char>, model_name: Seq<char>, ignore_weights: bool },
    Connect { client: ClientSettingsView },
    RequestModel { model_name: Seq<char>, provider: ModelProvider, ignore_weights: bool },
    ResolvePath { model_name: Seq<char>, provider: ModelProvider },
    Download {
        model_name: Seq<char>,
        provider: ModelProvider,
        cache_dir: Seq<char>,
        ignore_weights: bool,
    },
    Finish { result: Result<P, E> },
}

impl<'a, P, E> View for Action<'a, P, E> {
    type V = ActionView<P, E>;

    open spec fn view(&self) -> ActionView<P, E> {
        match *self {
            Action::SearchCache { cache_dir, model_name, ignore_weights } => {
                ActionView::SearchCache {
                    cache_dir: cache_dir@,
                    model_name: model_name@,
                    ignore_weights,
                }
            },
            Action::Connect { client } => ActionView::Connect { client: client@ },
            Action::RequestModel { model_name, provider, ignore_weights } => {
                ActionView::RequestModel { model_name: model_name@, provider, ignore_weights }
            },
            Action::ResolvePath { model_name, provider } => {
                ActionView::ResolvePath { model_name: model_name@, provider }
            },
            Action::Download { model_name, provider, cache_dir, ignore_weights } => {
                ActionView::Download {
                    model_name: model_name@,
                    provider,
                    cache_dir: cache_dir@,
                    ignore_weights,
                }
            },
            Action::Finish { result } => ActionView::Finish { result: *result },
        }
    }
}

/// The outcome of what a fetch wanted done.
pub enum Outcome<P, E> {
    /// The snapshot that the cache holds of the model, where it holds one.
    Cached(Option<P>),
    /// Whether the connection stands.
    Connected(bool),
    /// Whether the server now has the model.
    Requested(bool),
    /// The model's local path, where it could be told.
    Resolved(Option<P>),
    /// What came of the direct download.
    Downloaded(Result<P, E>),
}

/// The stage with which a fetch starts that does not look into the cache unless it is offline.
pub open spec fn first_stage<P, E>(offline: bool) -> Stage<P, E> {
    if offline {
        Stage::Offline
    } else {
        Stage::Connect
    }
}

/// A fetch that has done nothing yet, from the given stage.
pub open spec fn fetch_from<P, E>(
    model_name: Seq<char>,
    ignore_weights: bool,
    env: HubEnvView,
    stage: Stage<P, E>,
) -> FetchView<P, E> {
    FetchView {
        model_name,
        ignore_weights,
        offline: flag_on(env.hf_hub_offline),
        cache_dir: cache_dir(env),
        client: client_settings_of(env),
        stage,
    }
}

impl<P, E> FetchView<P, E> {
    /// What the fetch wants done next.
    pub open spec fn wants(self) -> ActionView<P, E> {
        match self.stage {
            Stage::CacheFirst | Stage::Offline => ActionView::SearchCache {
                cache_dir: self.cache_dir,
                model_name: self.model_name,
                ignore_weights: self.ignore_weights,
            },
            Stage::Connect => ActionView::Connect { client: self.client },
            Stage::Request => ActionView::RequestModel {
                model_name: self.model_name,
                provider: ModelProvider::HuggingFace,
                ignore_weights: self.ignore_weights,
            },
            Stage::Resolve => ActionView::ResolvePath {
                model_name: self.model_name,
                provider: ModelProvider::HuggingFace,
            },
            Stage::Download => ActionView::Download {
                model_name: self.model_name,
                provider: ModelProvider::HuggingFace,
                cache_dir: self.cache_dir,
                ignore_weights: self.ignore_weights,
            },
            Stage::Done(result) => ActionView::Finish { result },
        }
    }

    /// Whether an outcome is of the kind that the fetch waits for.
    pub open spec fn expects(self, outcome: Outcome<P, E>) -> bool {
        match self.stage {
            Stage::CacheFirst | Stage::Offline => outcome is Cached,
            Stage::Connect => outcome is Connected,
            Stage::Request => outcome is Requested,
            Stage::Resolve => outcome is Resolved,
            Stage::Download => outcome is Downloaded,
            Stage::Done(_) => false,
        }
    }

    /// The stage after an outcome. A cached model ends the fetch. A cache that was searched
    /// first and does not hold the model sends the fetch to its usual start. A server that
    /// cannot be reached, does not come to have the model, or cannot tell its path, leaves the
    /// direct download, whose result is the fetch's own.
    pub open spec fn stage_after(self, outcome: Outcome<P, E>) -> Stage<P, E> {
        match (self.stage, outcome) {
            (Stage::CacheFirst, Outcome::Cached(Some(path))) => Stage::Done(Ok(path)),
            (Stage::CacheFirst, Outcome::Cached(None)) => first_stage(self.offline),
            (Stage::Offline, Outcome::Cached(Some(path))) => Stage::Done(Ok(path)),
            (Stage::Offline, Outcome::Cached(None)) => Stage::Connect,
            (Stage::Connect, Outcome::Connected(true)) => Stage::Request,
            (Stage::Request, Outcome::Requested(true)) => Stage::Resolve,
            (Stage::Resolve, Outcome::Resolved(Some(path))) => Stage::Done(Ok(path)),
            (Stage::Download, Outcome::Downloaded(result)) => Stage::Done(result),
            _ => Stage::Download,
        }
    }

    /// The fetch after an outcome.
    pub open spec fn after(self, outcome: Outcome<P, E>) -> FetchView<P, E> {
        FetchView { stage: self.stage_after(outcome), ..self }
    }

    /// How many more outcomes the fetch can take at most.
    pub open spec fn rank(self) -> nat {
        match self.stage {
            Stage::CacheFirst => 6,
            Stage::Offline => 5,
            Stage::Connect => 4,
            Stage::Request => 3,
            Stage::Resolve => 2,
            Stage::Download => 1,
            Stage::Done(_) => 0,
        }
    }
}

/// Starts a fetch of the model `name`. It goes to the model server, and downloads the model
/// directly where the server fails. With `HF_HUB_OFFLINE` set it looks into the cache first,
/// and is over without any call to the network where the model is there.
pub fn from_hf<P, E>(name: String, ignore_weights: bool, env: &HubEnv) -> (r: ModelFetch<P, E>)
    ensures
        r@ == fetch_from::<P, E>(
            name@,
            ignore_weights,
            env@,
            first_stage(flag_on(env@.hf_hub_offline)),
        ),
{
    let offline = is_offline_mode(env);
    let stage = if offline {
        Stage::Offline
    } else {
        Stage::Connect
    };
    ModelFetch {
        model_name: name,
        ignore_weights,
        offline,
        cache_dir: get_model_express_cache_dir(env),
        client: client_settings(env),
        stage,
    }
}

/// Starts a fetch that is content with the model in the cache, though it may be stale, and goes
/// on like `from_hf` only where the cache does not hold it.
pub fn from_hf_cache_first<P, E>(name: String, ignore_weights: bool, env: &HubEnv) -> (r:
    ModelFetch<P, E>)
    ensures
        r@ == fetch_from::<P, E>(name@, ignore_weights, env@, Stage::CacheFirst),
{
    ModelFetch {
        model_name: name,
        ignore_weights,
        offline: is_offline_mode(env),
        cache_dir: get_model_express_cache_dir(env),
        client: client_settings(env),
        stage: Stage::CacheFirst,
    }
}

impl<P, E> ModelFetch<P, E> {
    /// Returns what the fetch wants done next.
    pub fn action(&self) -> (r: Action<'_, P, E>)
        ensures
            r@ == self@.wants(),
    {
        match &self.stage {
            Stage::CacheFirst | Stage::Offline => Action::SearchCache {
                cache_dir: self.cache_dir.as_str(),
                model_name: self.model_name.as_str(),
                ignore_weights: self.ignore_weights,
            },
            Stage::Connect => Action::Connect { client: &self.client },
            Stage::Request => Action::RequestModel {
                model_name: self.model_name.as_str(),
                provider: ModelProvider::HuggingFace,
                ignore_weights: self.ignore_weights,
            },
            Stage::Resolve => Action::ResolvePath {
                model_name: self.model_name.as_str(),
                provider: ModelProvider::HuggingFace,
            },
            Stage::Download => Action::Download {
                model_name: self.model_name.as_str(),
                provider: ModelProvider::HuggingFace,
                cache_dir: self.cache_dir.as_str(),
                ignore_weights: self.ignore_weights,
            },
            Stage::Done(result) => Action::Finish { result },
        }
    }

    /// Takes the outcome of the pending action.
    pub fn advance(self, outcome: Outcome<P, E>) -> (r: ModelFetch<P, E>)
        requires
            self@.expects(outcome),
        ensures
            r@ == self@.after(outcome),
            r@.rank() < self@.rank(),
    {
        let ModelFetch { model_name, ignore_weights, offline, cache_dir, client, stage } = self;
        let next = match (stage, outcome) {
            (Stage::CacheFirst, Outcome::Cached(Some(path))) => Stage::Done(Ok(path)),
            (Stage::CacheFirst, Outcome::Cached(None)) => {
                if offline {
                    Stage::Offline
                } else {
                    Stage::Connect
                }
            },
            (Stage::Offline, Outcome::Cached(Some(path))) => Stage::Done(Ok(path)),
            (Stage::Offline, Outcome::Cached(None)) => Stage::Connect,
            (Stage::Connect, Outcome::Connected(true)) => Stage::Request,
            (Stage::Request, Outcome::Requested(true)) => Stage::Resolve,
            (Stage::Resolve, Outcome::Resolved(Some(path))) => Stage::Done(Ok(path)),
            (Stage::Download, Outcome::Downloaded(result)) => Stage::Done(result),
            _ => Stage::Download,
        };
        ModelFetch { model_name, ignore_weights, offline, cache_dir, client, stage: next }
    }

    /// Gives up the fetch for its result: `None` where it is not over yet.
    pub fn into_result(self) -> (r: Option<Result<P, E>>)
        ensures
            r == (match self@.stage {
                Stage::Done(result) => Some(result),
                _ => None,
            }),
    {
        match self.stage {
            Stage::Done(result) => Some(result),
            _ => None,
        }
    }
}

/// Everything that a fetch can meet: what the cache holds, and how the network answers.
pub struct World<P, E> {
    /// What the cache holds of the model.
    pub cache: CachedFiles<P>,
    /// Whether the model server can be reached.
    pub reachable: bool,
    /// Whether the server comes to have the model.
    pub served: bool,
    /// Where the server's model lies locally, where that can be told.
    pub path: Option<P>,
    /// What comes of a direct download.
    pub download: Result<P, E>,
}

impl<P, E> World<P, E> {
    /// The outcome of an action.
    pub open spec fn outcome(self, action: ActionView<P, E>) -> Outcome<P, E> {
        match action {
            ActionView::SearchCache { ignore_weights, .. } => Outcome::Cached(
                self.cache.cached_path(ignore_weights),
            ),
            ActionView::Connect { .. } => Outcome::Connected(self.reachable),
            ActionView::RequestModel { .. } => Outcome::Requested(self.served),
            ActionView::ResolvePath { .. } => Outcome::Resolved(self.path),
            ActionView::Download { .. } => Outcome::Downloaded(self.download),
            ActionView::Finish { result } => Outcome::Downloaded(result),
        }
    }

    /// A fetch after `steps` of its actions, or all of them.
    pub open spec fn run(self, fetch: FetchView<P, E>, steps: nat) -> FetchView<P, E>
        decreases steps,
    {
        if steps == 0 || fetch.stage is Done {
            fetch
        } else {
            self.run(fetch.after(self.outcome(fetch.wants())), (steps - 1) as nat)
        }
    }

    /// Whether the model server sees the fetch through to a path.
    pub open spec fn server_delivers(self) -> bool {
        self.reachable && self.served && self.path is Some
    }

    /// What the network gives: the server's path, else what comes of a direct download.
    pub open spec fn online(self) -> Result<P, E> {
        match self.path {
            Some(path) if self.reachable && self.served => Ok(path),
            _ => self.download,
        }
    }

    /// What `from_hf` gives: the cached model where the process is offline and there is one,
    /// else what the network gives.
    pub open spec fn fetched(self, offline: bool, ignore_weights: bool) -> Result<P, E> {
        match self.cache.cached_path(ignore_weights) {
            Some(path) if offline => Ok(path),
            _ => self.online(),
        }
    }

    /// What `from_hf_cache_first` gives: the cached model where there is one, else what the
    /// network gives.
    pub open spec fn fetched_cache_first(self, ignore_weights: bool) -> Result<P, E> {
        match self.cache.cached_path(ignore_weights) {
            Some(path) => Ok(path),
            None => self.online(),
        }
    }

    /// What a fetch that has come this far will give.
    spec fn gives(self, fetch: FetchView<P, E>) -> Result<P, E> {
        match fetch.stage {
            Stage::CacheFirst => self.fetched_cache_first(fetch.ignore_weights),
            Stage::Offline => self.fetched(true, fetch.ignore_weights),
            Stage::Connect => self.online(),
            Stage::Request => match self.path {
                Some(path) if self.served => Ok(path),
                _ => self.download,
            },
            Stage::Resolve => match self.path {
                Some(path) => Ok(path),
                None => self.download,
            },
            Stage::Download => self.download,
            Stage::Done(result) => result,
        }
    }
}

proof fn lemma_run_gives<P, E>(world: World<P, E>, fetch: FetchView<P, E>, steps: nat)
    requires
        fetch.rank() <= steps,
    ensures
        world.run(fetch, steps).stage == Stage::Done(world.gives(fetch)),
    decreases steps,
{
    if !(fetch.stage is Done) {
        let next = fetch.after(world.outcome(fetch.wants()));
        lemma_run_gives(world, next, (steps - 1) as nat);
    }
}

/// Whatever the outcomes, each of the kind that was asked for, a fetch comes nearer to its end
/// with every one of them, and what it is a fetch of never changes.
pub proof fn law_fetch_ends<P, E>(fetch: FetchView<P, E>, outcome: Outcome<P, E>)
    requires
        fetch.expects(outcome),
    ensures
        fetch.after(outcome).rank() < fetch.rank(),
        fetch.after(outcome) == (FetchView { stage: fetch.after(outcome).stage, ..fetch }),
{
}

/// A fetch ends with a path or an error that its last outcome brought, and with an error only
/// where that outcome is a failed direct download.
pub proof fn law_result_comes_with_the_last_outcome<P, E>(
    fetch: FetchView<P, E>,
    outcome: Outcome<P, E>,
)
    requires
        fetch.expects(outcome),
    ensures
        fetch.after(outcome).stage matches Stage::Done(Ok(path)) ==> {
            ||| outcome == Outcome::<P, E>::Cached(Some(path))
            ||| outcome == Outcome::<P, E>::Resolved(Some(path))
            ||| outcome == Outcome::<P, E>::Downloaded(Ok(path))
        },
        fetch.after(outcome).stage matches Stage::Done(Err(error)) ==> {
            &&& fetch.stage is Download
            &&& outcome == Outcome::<P, E>::Downloaded(Err(error))
        },
{
}

/// A fetch started by `from_hf` is over after at most five actions. Its result is the cached
/// model where the process is offline and the model is cached, else the server's path where
/// the server delivers, else what comes of a direct download.
pub proof fn law_from_hf_result<P, E>(
    world: World<P, E>,
    name: Seq<char>,
    ignore_weights: bool,
    env: HubEnvView,
)
    ensures
        world.run(
            fetch_from(name, ignore_weights, env, first_stage(flag_on(env.hf_hub_offline))),
            5,
        ).stage == Stage::Done(world.fetched(flag_on(env.hf_hub_offline), ignore_weights)),
{
    let start = fetch_from::<P, E>(
        name,
        ignore_weights,
        env,
        first_stage(flag_on(env.hf_hub_offline)),
    );
    lemma_run_gives(world, start, 5);
}

/// A fetch started by `from_hf_cache_first` is over after at most six actions. Its result is the
/// cached model where there is one, online or not, else what the network gives.
pub proof fn law_from_hf_cache_first_result<P, E>(
    world: World<P, E>,
    name: Seq<char>,
    ignore_weights: bool,
    env: HubEnvView,
)
    ensures
        world.run(fetch_from(name, ignore_weights, env, Stage::CacheFirst), 6).stage
            == Stage::Done(world.fetched_cache_first(ignore_weights)),
{
    let start = fetch_from::<P, E>(name, ignore_weights, env, Stage::CacheFirst);
    lemma_run_gives(world, start, 6);
}

/// Whether an action stays away from the network.
pub open spec fn is_local<P, E>(action: ActionView<P, E>) -> bool {
    action is SearchCache || action is Finish
}

proof fn lemma_hit_stays_local<P, E>(world: World<P, E>, fetch: FetchView<P, E>, steps: nat)
    requires
        fetch.stage is CacheFirst || fetch.stage is Offline,
        world.cache.cached_path(fetch.ignore_weights) is Some,
    ensures
        is_local(world.run(fetch, steps).wants()),
{
    if steps > 0 {
        let next = fetch.after(world.outcome(fetch.wants()));
        assert(next.stage is Done);
        assert(world.run(next, (steps - 1) as nat) == next);
    }
}

/// An offline fetch of a cached model never goes to the network.
pub proof fn law_offline_hit_needs_no_network<P, E>(
    world: World<P, E>,
    name: Seq<char>,
    ignore_weights: bool,
    env: HubEnvView,
    steps: nat,
)
    requires
        flag_on(env.hf_hub_offline),
        world.cache.cached_path(ignore_weights) is Some,
    ensures
        is_local(
            world.run(
                fetch_from(name, ignore_weights, env, first_stage(flag_on(env.hf_hub_offline))),
                steps,
            ).wants(),
        ),
{
    let start = fetch_from::<P, E>(
        name,
        ignore_weights,
        env,
        first_stage(flag_on(env.hf_hub_offline)),
    );
    lemma_hit_stays_local(world, start, steps);
}

/// A cache-first fetch of a cached model never goes to the network, offline or not.
pub proof fn law_cache_first_hit_needs_no_network<P, E>(
    world: World<P, E>,
    name: Seq<char>,
    ignore_weights: bool,
    env: HubEnvView,
    steps: nat,
)
    requires
        world.cache.cached_path(ignore_weights) is Some,
    ensures
        is_local(
            world.run(fetch_from(name, ignore_weights, env, Stage::CacheFirst), steps).wants(),
        ),
{
    let start = fetch_from::<P, E>(name, ignore_weights, env, Stage::CacheFirst);
    lemma_hit_stays_local(world, start, steps);
}

/// Where the server does not deliver, at whichever of its three steps, an online fetch gives
/// what comes of the direct download; where it does, the download plays no part.
pub proof fn law_direct_download_is_the_fallback<P, E>(world: World<P, E>, ignore_weights: bool)
    ensures
        !world.server_delivers() ==> world.fetched(false, ignore_weights) == world.download,
        world.server_delivers() ==> world.fetched(false, ignore_weights) == Ok::<P, E>(
            world.path->0,
        ),
{
}

/// The only error that a fetch ever ends with is the direct download's own.
pub proof fn law_errors_come_from_the_download<P, E>(
    world: World<P, E>,
    offline: bool,
    ignore_weights: bool,
)
    ensures
        world.fetched(offline, ignore_weights) is Err ==> world.fetched(offline, ignore_weights)
            == world.download && !world.server_delivers(),
        world.fetched_cache_first(ignore_weights) is Err ==> world.fetched_cache_first(
            ignore_weights,
        ) == world.download && !world.server_delivers(),
{
}

/// A fetch starts as the fetch of the model and with the settings that it was given: the name, the
/// choice on weights, and what the environment says of offline mode, of the cache and of the
/// client. It searches the cache before anything else where it is to be cache-first, or else
/// where the process is offline; otherwise it connects to the server first.
pub proof fn law_fetch_starts_with_its_arguments<P, E>(
    name: String,
    ignore_weights: bool,
    env: &HubEnv,
    usual: ModelFetch<P, E>,
    cache_first: ModelFetch<P, E>,
    offline: bool,
    no_storage: bool,
    dir: String,
)
    requires
        call_ensures(from_hf::<P, E>, (name, ignore_weights, env), usual),
        call_ensures(from_hf_cache_first::<P, E>, (name, ignore_weights, env), cache_first),
        call_ensures(is_offline_mode, (env,), offline),
        call_ensures(is_no_shared_storage, (env,), no_storage),
        call_ensures(get_model_express_cache_dir, (env,), dir),
    ensures
        usual.model_name@ == name@ && cache_first.model_name@ == name@,
        usual.ignore_weights == ignore_weights && cache_first.ignore_weights == ignore_weights,
        usual.offline == offline && cache_first.offline == offline,
        usual.cache_dir@ == dir@ && cache_first.cache_dir@ == dir@,
        usual.client.disable_shared_storage == no_storage
            && cache_first.client.disable_shared_storage == no_storage,
        (usual.client.endpoint is Some <==> env.model_express_url is Some) && (
            usual.client.endpoint is Some ==> usual.client.endpoint->0@ == env.model_express_url->0@),
        (cache_first.client.endpoint is Some <==> env.model_express_url is Some) && (
            cache_first.client.endpoint is Some ==> cache_first.client.endpoint->0@ == env.model_express_url->0@),
        cache_first.stage is CacheFirst,
        offline ==> usual.stage is Offline,
        !offline ==> usual.stage is Connect,
{
}

/// An outcome moves a fetch on, and changes nothing else of it: it stays the fetch of the same
/// model, with the same choice on weights, the same cache and the same client.
pub proof fn law_outcome_keeps_the_arguments<P, E>(
    fetch: ModelFetch<P, E>,
    outcome: Outcome<P, E>,
    next: ModelFetch<P, E>,
)
    requires
        call_ensures(ModelFetch::<P, E>::advance, (fetch, outcome), next),
    ensures
        next.model_name@ == fetch.model_name@,
        next.ignore_weights == fetch.ignore_weights,
        next.offline == fetch.offline,
        next.cache_dir@ == fetch.cache_dir@,
        next.client.disable_shared_storage == fetch.client.disable_shared_storage,
        (next.client.endpoint is Some <==> fetch.client.endpoint is Some) && (
            next.client.endpoint is Some ==> next.client.endpoint->0@ == fetch.client.endpoint->0@),
{
}

/// Each action carries what the fetch is about: the cache is searched and downloaded into at the
/// fetch's own directory, for its model and with its choice on weights; the server is reached with
/// its client settings, asked for its model with its choice on weights, and asked where that
/// model lies.
pub proof fn law_action_carries_the_fetch<P, E>(fetch: &ModelFetch<P, E>, action: Action<'_, P, E>)
    requires
        call_ensures(ModelFetch::<P, E>::action, (fetch,), action),
    ensures
        action matches Action::SearchCache { cache_dir, model_name, ignore_weights } ==> {
            &&& cache_dir@ == fetch.cache_dir@
            &&& model_name@ == fetch.model_name@
            &&& ignore_weights == fetch.ignore_weights
        },
        action matches Action::Connect { client } ==> {
            &&& client.disable_shared_storage == fetch.client.disable_shared_storage
            &&& (client.endpoint is Some <==> fetch.client.endpoint is Some)
            &&& client.endpoint is Some ==> client.endpoint->0@ == fetch.client.endpoint->0@
        },
        action matches Action::RequestModel { model_name, provider, ignore_weights } ==> {
            &&& model_name@ == fetch.model_name@
            &&& provider == ModelProvider::HuggingFace
            &&& ignore_weights == fetch.ignore_weights
        },
        action matches Action::ResolvePath { model_name, provider } ==> {
            &&& model_name@ == fetch.model_name@
            &&& provider == ModelProvider::HuggingFace
        },
        action matches Action::Download { model_name, provider, cache_dir, ignore_weights } ==> {
            &&& model_name@ == fetch.model_name@
            &&& provider == ModelProvider::HuggingFace
            &&& cache_dir@ == fetch.cache_dir@
            &&& ignore_weights == fetch.ignore_weights
        },
        action matches Action::Finish { result } ==> fetch.stage == Stage::Done(*result),
        fetch.stage is CacheFirst || fetch.stage is Offline <==> action is SearchCache,
        fetch.stage is Connect <==> action is Connect,
        fetch.stage is Request <==> action is RequestModel,
        fetch.stage is Resolve <==> action is ResolvePath,
        fetch.stage is Download <==> action is Download,
        fetch.stage is Done <==> action is Finish,
{
    match action {
        Action::SearchCache { .. } => {},
        Action::Connect { .. } => {},
        Action::RequestModel { .. } => {},
        Action::ResolvePath { .. } => {},
        Action::Download { .. } => {},
        Action::Finish { .. } => {},
    }
}

/// From its start to its end, a fetch asks for what its caller asked for: whatever the outcomes,
/// every search and every download is of the caller's model, with the caller's choice on weights,
/// in the cache of the environment; every request to the server is for that model with that
/// choice; and every connection is to the environment's server.
pub proof fn law_every_action_is_the_callers<P, E>(
    name: String,
    ignore_weights: bool,
    env: &HubEnv,
    dir: String,
    no_storage: bool,
    fetches: Seq<ModelFetch<P, E>>,
    outcomes: Seq<Outcome<P, E>>,
    at: int,
    action: Action<'_, P, E>,
)
    requires
        call_ensures(get_model_express_cache_dir, (env,), dir),
        call_ensures(is_no_shared_storage, (env,), no_storage),
        fetches.len() == outcomes.len() + 1,
        call_ensures(from_hf::<P, E>, (name, ignore_weights, env), fetches[0]) || call_ensures(
            from_hf_cache_first::<P, E>,
            (name, ignore_weights, env),
            fetches[0],
        ),
        forall|i: int|
            0 <= i < outcomes.len() ==> call_ensures(
                ModelFetch::<P, E>::advance,
                (fetches[i], #[trigger] outcomes[i]),
                fetches[i + 1],
            ),
        0 <= at < fetches.len(),
        call_ensures(ModelFetch::<P, E>::action, (&fetches[at],), action),
    ensures
        action matches Action::SearchCache {
            cache_dir,
            model_name,
            ignore_weights: skipped,
        } ==> cache_dir@ == dir@ && model_name@ == name@ && skipped == ignore_weights,
        action matches Action::Connect { client } ==> client.disable_shared_storage == no_storage
            && (client.endpoint is Some <==> env.model_express_url is Some) && (
                client.endpoint is Some ==> client.endpoint->0@ == env.model_express_url->0@),
        action matches Action::RequestModel { model_name, provider, ignore_weights: skipped }
            ==> model_name@ == name@ && provider == ModelProvider::HuggingFace && skipped
            == ignore_weights,
        action matches Action::ResolvePath { model_name, provider } ==> model_name@ == name@
            && provider == ModelProvider::HuggingFace,
        action matches Action::Download {
            model_name,
            provider,
            cache_dir,
            ignore_weights: skipped,
        } ==> model_name@ == name@ && provider == ModelProvider::HuggingFace && cache_dir@ == dir@
            && skipped == ignore_weights,
{
    lemma_fetch_keeps_its_arguments(fetches, outcomes, at);
    law_action_carries_the_fetch(&fetches[at], action);
}

proof fn lemma_fetch_keeps_its_arguments<P, E>(
    fetches: Seq<ModelFetch<P, E>>,
    outcomes: Seq<Outcome<P, E>>,
    at: int,
)
    requires
        fetches.len() == outcomes.len() + 1,
        forall|i: int|
            0 <= i < outcomes.len() ==> call_ensures(
                ModelFetch::<P, E>::advance,
                (fetches[i], #[trigger] outcomes[i]),
                fetches[i + 1],
            ),
        0 <= at < fetches.len(),
    ensures
        fetches[at].model_name@ == fetches[0].model_name@,
        fetches[at].ignore_weights == fetches[0].ignore_weights,
        fetches[at].cache_dir@ == fetches[0].cache_dir@,
        fetches[at].client.disable_shared_storage == fetches[0].client.disable_shared_storage,
        (fetches[at].client.endpoint is Some <==> fetches[0].client.endpoint is Some) && (
            fetches[at].client.endpoint is Some ==> fetches[at].client.endpoint->0@ == fetches[0].client.endpoint->0@),
    decreases at,
{
    if at > 0 {
        lemma_fetch_keeps_its_arguments(fetches, outcomes, at - 1);
        law_outcome_keeps_the_arguments(fetches[at - 1], outcomes[at - 1], fetches[at]);
    }
}

/// Which action follows which outcome. A model found in the cache ends the fetch with its path. A
/// search that finds none leads to the server, or, where it was to come before anything else and
/// the process is offline, to the offline search. Connecting leads to the request, the request to
/// the question for the path, and that to the end; where one of the three fails, the model is
/// downloaded directly, and what comes of that ends the fetch.
pub proof fn law_next_action<P, E>(
    fetch: ModelFetch<P, E>,
    action: Action<'_, P, E>,
    outcome: Outcome<P, E>,
    next: ModelFetch<P, E>,
    next_action: Action<'_, P, E>,
)
    requires
        call_ensures(ModelFetch::<P, E>::action, (&fetch,), action),
        call_ensures(ModelFetch::<P, E>::advance, (fetch, outcome), next),
        call_ensures(ModelFetch::<P, E>::action, (&next,), next_action),
    ensures
        action is SearchCache ==> (outcome matches Outcome::Cached(Some(path)) ==> (
        next_action matches Action::Finish { result } && *result == Ok::<P, E>(path))),
        action is SearchCache && outcome == Outcome::<P, E>::Cached(None) ==> {
            &&& fetch.stage is Offline || !fetch.offline ==> next_action is Connect
            &&& fetch.stage is CacheFirst && fetch.offline ==> next_action is SearchCache
                && next.stage is Offline
        },
        action is Connect && outcome == Outcome::<P, E>::Connected(true)
            ==> next_action is RequestModel,
        action is Connect && outcome == Outcome::<P, E>::Connected(false) ==> next_action is Download,
        action is RequestModel && outcome == Outcome::<P, E>::Requested(true)
            ==> next_action is ResolvePath,
        action is RequestModel && outcome == Outcome::<P, E>::Requested(false)
            ==> next_action is Download,
        action is ResolvePath ==> (outcome matches Outcome::Resolved(Some(path)) ==> (
        next_action matches Action::Finish { result } && *result == Ok::<P, E>(path))),
        action is ResolvePath && outcome == Outcome::<P, E>::Resolved(None) ==> next_action is Download,
        action is Download ==> (outcome matches Outcome::Downloaded(downloaded) ==> (
        next_action matches Action::Finish { result } && *result == downloaded)),
{
    law_action_carries_the_fetch(&fetch, action);
    law_action_carries_the_fetch(&next, next_action);
}

/// A fetch gives up a result exactly where it wants nothing more done, and it is the one that its
/// last action tells.
pub proof fn law_result_is_the_one_told<P, E>(
    fetch: ModelFetch<P, E>,
    action: Action<'_, P, E>,
    r: Option<Result<P, E>>,
)
    requires
        call_ensures(ModelFetch::<P, E>::action, (&fetch,), action),
        call_ensures(ModelFetch::<P, E>::into_result, (fetch,), r),
    ensures
        r is Some <==> action is Finish,
        action matches Action::Finish { result } ==> r == Some(*result),
{
    law_action_carries_the_fetch(&fetch, action);
}

/// In whatever world a fetch runs, and after however many steps, what it wants done is what it was
/// started for.
pub proof fn law_run_wants_what_it_was_started_for<P, E>(
    world: World<P, E>,
    name: Seq<char>,
    ignore_weights: bool,
    env: HubEnvView,
    stage: Stage<P, E>,
    steps: nat,
)
    ensures
        ({
            let wanted = world.run(fetch_from(name, ignore_weights, env, stage), steps).wants();
            &&& wanted matches ActionView::SearchCache {
                cache_dir: dir,
                model_name,
                ignore_weights: skipped,
            } ==> dir == cache_dir(env) && model_name == name && skipped == ignore_weights
            &&& wanted matches ActionView::Connect { client } ==> client.endpoint
                == env.model_express_url && client.disable_shared_storage == flag_on(
                env.model_express_no_shared_storage,
            )
            &&& wanted matches ActionView::RequestModel {
                model_name,
                provider,
                ignore_weights: skipped,
            } ==> model_name == name && skipped == ignore_weights && provider
                == ModelProvider::HuggingFace
            &&& wanted matches ActionView::ResolvePath { model_name, provider } ==> model_name == name
                && provider == ModelProvider::HuggingFace
            &&& wanted matches ActionView::Download {
                model_name,
                provider,
                cache_dir: dir,
                ignore_weights: skipped,
            } ==> dir == cache_dir(env) && model_name == name && skipped == ignore_weights
                && provider == ModelProvider::HuggingFace
        }),
{
    lemma_run_keeps_the_arguments(world, fetch_from(name, ignore_weights, env, stage), steps);
}

proof fn lemma_run_keeps_the_arguments<P, E>(
    world: World<P, E>,
    fetch: FetchView<P, E>,
    steps: nat,
)
    ensures
        world.run(fetch, steps) == (FetchView { stage: world.run(fetch, steps).stage, ..fetch }),
    decreases steps,
{
    if steps > 0 && !(fetch.stage is Done) {
        let next = fetch.after(world.outcome(fetch.wants()));
        lemma_run_keeps_the_arguments(world, next, (steps - 1) as nat);
    }
}

/// A fetch takes the outcome of the action that it wants done, whatever that outcome is.
pub proof fn law_outcomes_in_kind_are_accepted<P, E>(
    fetch: ModelFetch<P, E>,
    action: Action<'_, P, E>,
    outcome: Outcome<P, E>,
)
    requires
        call_ensures(ModelFetch::<P, E>::action, (&fetch,), action),
        (action is SearchCache && outcome is Cached) || (action is Connect && outcome is Connected)
            || (action is RequestModel && outcome is Requested) || (action is ResolvePath
            && outcome is Resolved) || (action is Download && outcome is Downloaded),
    ensures
        call_requires(ModelFetch::<P, E>::advance, (fetch, outcome)),
{
    law_action_carries_the_fetch(&fetch, action);
}

} // verus!
