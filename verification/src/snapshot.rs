//! The search for a model's snapshot in the local hub cache.
//!
//! A snapshot counts as cached when it holds `config.json`, something to build a tokenizer
//! from, and, unless the caller can do without them, the model's weights. The search asks for
//! one file at a time and stops as soon as the answer is known. It does not touch the disk:
//! the caller looks each file up and hands back what it found. Directories are values of a
//! type `P` of the caller's choice.

use crate::text::{any_tiktoken, has_tiktoken_file, texts};
use vstd::prelude::*;

verus! {

/// The files one of which gives a tokenizer, in the order in which they are looked for.
pub open spec fn tokenizer_files() -> Seq<Seq<char>> {
    seq!["tokenizer.json"@, "tokenizer_config.json"@, "tiktoken.model"@]
}

/// The files one of which gives the weights (or the index of their parts), in the order in
/// which they are looked for.
pub open spec fn weight_files() -> Seq<Seq<char>> {
    seq![
        "model.safetensors"@,
        "pytorch_model.bin"@,
        "model.safetensors.index.json"@,
        "pytorch_model.bin.index.json"@,
    ]
}

fn tokenizer_file(index: usize) -> (r: &'static str)
    requires
        index < tokenizer_files().len(),
    ensures
        r@ == tokenizer_files()[index as int],
{
    match index {
        0 => "tokenizer.json",
        1 => "tokenizer_config.json",
        _ => "tiktoken.model",
    }
}

fn weight_file(index: usize) -> (r: &'static str)
    requires
        index < weight_files().len(),
    ensures
        r@ == weight_files()[index as int],
{
    match index {
        0 => "model.safetensors",
        1 => "pytorch_model.bin",
        2 => "model.safetensors.index.json",
        _ => "pytorch_model.bin.index.json",
    }
}

/// How far a search has come. `snapshot` is the directory that holds `config.json`, where that
/// file's path has a parent at all.
pub enum CacheProbe<P> {
    /// `config.json` is to be looked up.
    Config,
    /// The tokenizer file of this index is to be looked up; those before it are missing.
    Tokenizer { index: usize, snapshot: Option<P> },
    /// No tokenizer file is there under a fixed name: the snapshot's entries are to be listed.
    Tiktoken { dir: P },
    /// There is a tokenizer. The weight file of this index is to be looked up; those before it
    /// are missing.
    Weights { index: usize, snapshot: Option<P> },
    /// The search is over: the snapshot of a cached model, or `None`.
    Done(Option<P>),
}

/// What a search wants to know next.
pub enum ProbeRequest<'a, P> {
    /// Look this file up in the model's cached snapshot, and give the directory it lies in.
    Config { file: &'static str },
    /// Look this file up in the model's cached snapshot.
    File { file: &'static str },
    /// List the entries of this directory.
    Entries { dir: &'a P },
    /// Nothing: the search is over.
    Nothing,
}

/// `ProbeRequest` with file names as sequences of characters.
pub enum ProbeRequestView<P> {
    Config { file: Seq<char> },
    File { file: Seq<char> },
    Entries { dir: P },
    Nothing,
}

impl<'a, P> View for ProbeRequest<'a, P> {
    type V = ProbeRequestView<P>;

    open spec fn view(&self) -> ProbeRequestView<P> {
        match *self {
            ProbeRequest::Config { file } => ProbeRequestView::Config { file: file@ },
            ProbeRequest::File { file } => ProbeRequestView::File { file: file@ },
            ProbeRequest::Entries { dir } => ProbeRequestView::Entries { dir: *dir },
            ProbeRequest::Nothing => ProbeRequestView::Nothing,
        }
    }
}

/// What the caller found.
pub enum ProbeReply<P> {
    /// `None` where `config.json` is missing, else the parent of its path (`None` where the
    /// path has no parent).
    Config(Option<Option<P>>),
    /// Whether the file is there.
    File(bool),
    /// The names of a directory's entries; none where it cannot be read.
    Entries(Vec<String>),
}

/// `ProbeReply` with entry names as sequences of characters.
pub enum ProbeReplyView<P> {
    Config(Option<Option<P>>),
    File(bool),
    Entries(Seq<Seq<char>>),
}

impl<P> View for ProbeReply<P> {
    type V = ProbeReplyView<P>;

    open spec fn view(&self) -> ProbeReplyView<P> {
        match *self {
            ProbeReply::Config(found) => ProbeReplyView::Config(found),
            ProbeReply::File(found) => ProbeReplyView::File(found),
            ProbeReply::Entries(names) => ProbeReplyView::Entries(texts(names@)),
        }
    }
}

impl<P> CacheProbe<P> {
    /// Every file that is looked for has a name.
    pub open spec fn wf(self) -> bool {
        match self {
            CacheProbe::Tokenizer { index, .. } => index < tokenizer_files().len(),
            CacheProbe::Weights { index, .. } => index < weight_files().len(),
            _ => true,
        }
    }

    /// The directory that the search has come to know as the snapshot.
    pub open spec fn snapshot(self) -> Option<P> {
        match self {
            CacheProbe::Config => None,
            CacheProbe::Tokenizer { snapshot, .. } => snapshot,
            CacheProbe::Tiktoken { dir } => Some(dir),
            CacheProbe::Weights { snapshot, .. } => snapshot,
            CacheProbe::Done(snapshot) => snapshot,
        }
    }

    /// What the search wants to know next.
    pub open spec fn wants(self) -> ProbeRequestView<P> {
        match self {
            CacheProbe::Config => ProbeRequestView::Config { file: "config.json"@ },
            CacheProbe::Tokenizer { index, .. } => ProbeRequestView::File {
                file: tokenizer_files()[index as int],
            },
            CacheProbe::Tiktoken { dir } => ProbeRequestView::Entries { dir },
            CacheProbe::Weights { index, .. } => ProbeRequestView::File {
                file: weight_files()[index as int],
            },
            CacheProbe::Done(_) => ProbeRequestView::Nothing,
        }
    }

    /// Whether a reply is of the kind that the search waits for.
    pub open spec fn expects(self, reply: ProbeReplyView<P>) -> bool {
        match self.wants() {
            ProbeRequestView::Config { .. } => reply is Config,
            ProbeRequestView::File { .. } => reply is File,
            ProbeRequestView::Entries { .. } => reply is Entries,
            ProbeRequestView::Nothing => false,
        }
    }

    /// The search once a tokenizer has been found.
    pub open spec fn with_tokenizer(snapshot: Option<P>, ignore_weights: bool) -> CacheProbe<P> {
        if ignore_weights {
            CacheProbe::Done(snapshot)
        } else {
            CacheProbe::Weights { index: 0, snapshot }
        }
    }

    /// The search after a reply. It moves on to the next file while the files of one group are
    /// missing, to the next group when one of them is found, and to its end when a whole group
    /// is missing.
    pub open spec fn after(self, reply: ProbeReplyView<P>, ignore_weights: bool) -> CacheProbe<P> {
        match (self, reply) {
            (CacheProbe::Config, ProbeReplyView::Config(Some(snapshot))) => {
                CacheProbe::Tokenizer { index: 0, snapshot }
            },
            (CacheProbe::Tokenizer { index, snapshot }, ProbeReplyView::File(found)) => {
                if found {
                    CacheProbe::with_tokenizer(snapshot, ignore_weights)
                } else if index + 1 < tokenizer_files().len() {
                    CacheProbe::Tokenizer { index: (index + 1) as usize, snapshot }
                } else {
                    match snapshot {
                        Some(dir) => CacheProbe::Tiktoken { dir },
                        None => CacheProbe::Done(None),
                    }
                }
            },
            (CacheProbe::Tiktoken { dir }, ProbeReplyView::Entries(names)) => {
                if any_tiktoken(names) {
                    CacheProbe::with_tokenizer(Some(dir), ignore_weights)
                } else {
                    CacheProbe::Done(None)
                }
            },
            (CacheProbe::Weights { index, snapshot }, ProbeReplyView::File(found)) => {
                if found {
                    CacheProbe::Done(snapshot)
                } else if index + 1 < weight_files().len() {
                    CacheProbe::Weights { index: (index + 1) as usize, snapshot }
                } else {
                    CacheProbe::Done(None)
                }
            },
            _ => CacheProbe::Done(None),
        }
    }

    /// How many more replies the search can take at most.
    pub open spec fn rank(self) -> nat {
        let tokenizers = tokenizer_files().len();
        let weights = weight_files().len();
        match self {
            CacheProbe::Config => tokenizers + weights + 2,
            CacheProbe::Tokenizer { index, .. } => (tokenizers + weights + 1 - index) as nat,
            CacheProbe::Tiktoken { .. } => weights + 1,
            CacheProbe::Weights { index, .. } => (weights - index) as nat,
            CacheProbe::Done(_) => 0,
        }
    }

    /// A search that has asked for nothing yet.
    pub fn start() -> (r: CacheProbe<P>)
        ensures
            r == CacheProbe::<P>::Config,
            r.wf(),
    {
        CacheProbe::Config
    }

    /// Returns what the search wants to know next.
    pub fn request(&self) -> (r: ProbeRequest<'_, P>)
        requires
            self.wf(),
        ensures
            r@ == self.wants(),
    {
        match self {
            CacheProbe::Config => ProbeRequest::Config { file: "config.json" },
            CacheProbe::Tokenizer { index, .. } => ProbeRequest::File {
                file: tokenizer_file(*index),
            },
            CacheProbe::Tiktoken { dir } => ProbeRequest::Entries { dir },
            CacheProbe::Weights { index, .. } => ProbeRequest::File { file: weight_file(*index) },
            CacheProbe::Done(_) => ProbeRequest::Nothing,
        }
    }

    fn tokenizer_found(snapshot: Option<P>, ignore_weights: bool) -> (r: CacheProbe<P>)
        ensures
            r == CacheProbe::with_tokenizer(snapshot, ignore_weights),
    {
        if ignore_weights {
            CacheProbe::Done(snapshot)
        } else {
            CacheProbe::Weights { index: 0, snapshot }
        }
    }

    /// Takes the reply to the pending request.
    pub fn advance(self, reply: ProbeReply<P>, ignore_weights: bool) -> (r: CacheProbe<P>)
        requires
            self.wf(),
            self.expects(reply@),
        ensures
            r == self.after(reply@, ignore_weights),
            r.wf(),
            r.rank() < self.rank(),
    {
        match (self, reply) {
            (CacheProbe::Config, ProbeReply::Config(Some(snapshot))) => {
                CacheProbe::Tokenizer { index: 0, snapshot }
            },
            (CacheProbe::Tokenizer { index, snapshot }, ProbeReply::File(found)) => {
                if found {
                    CacheProbe::tokenizer_found(snapshot, ignore_weights)
                } else if index < 2 {
                    CacheProbe::Tokenizer { index: index + 1, snapshot }
                } else {
                    match snapshot {
                        Some(dir) => CacheProbe::Tiktoken { dir },
                        None => CacheProbe::Done(None),
                    }
                }
            },
            (CacheProbe::Tiktoken { dir }, ProbeReply::Entries(names)) => {
                if has_tiktoken_file(&names) {
                    CacheProbe::tokenizer_found(Some(dir), ignore_weights)
                } else {
                    CacheProbe::Done(None)
                }
            },
            (CacheProbe::Weights { index, snapshot }, ProbeReply::File(found)) => {
                if found {
                    CacheProbe::Done(snapshot)
                } else if index < 3 {
                    CacheProbe::Weights { index: index + 1, snapshot }
                } else {
                    CacheProbe::Done(None)
                }
            },
            _ => CacheProbe::Done(None),
        }
    }
}

/// What the cache holds of one model's snapshot.
pub struct CachedFiles<P> {
    /// `None` where `config.json` is missing, else the parent of its path.
    pub config: Option<Option<P>>,
    /// The other files that are there.
    pub files: Set<Seq<char>>,
    /// The names of the snapshot's entries.
    pub entries: Seq<Seq<char>>,
}

/// Whether one of `names`, from the given index on, is among `files`.
pub open spec fn any_from(names: Seq<Seq<char>>, files: Set<Seq<char>>, index: int) -> bool {
    exists|i: int| index <= i < names.len() && files.contains(#[trigger] names[i])
}

impl<P> CachedFiles<P> {
    /// Whether there is something to build a tokenizer from.
    pub open spec fn has_tokenizer(self) -> bool {
        any_from(tokenizer_files(), self.files, 0) || any_tiktoken(self.entries)
    }

    /// Whether the model's weights are there.
    pub open spec fn has_weights(self) -> bool {
        any_from(weight_files(), self.files, 0)
    }

    /// The snapshot of a cached model: the directory of `config.json`, where there is a
    /// tokenizer and there are weights (or the caller can do without).
    pub open spec fn cached_path(self, ignore_weights: bool) -> Option<P> {
        match self.config {
            Some(snapshot) if self.has_tokenizer() && (ignore_weights || self.has_weights()) => {
                snapshot
            },
            _ => None,
        }
    }

    /// The reply that the cache gives to a request.
    pub open spec fn reply(self, request: ProbeRequestView<P>) -> ProbeReplyView<P> {
        match request {
            ProbeRequestView::Config { .. } => ProbeReplyView::Config(self.config),
            ProbeRequestView::File { file } => ProbeReplyView::File(self.files.contains(file)),
            ProbeRequestView::Entries { .. } => ProbeReplyView::Entries(self.entries),
            ProbeRequestView::Nothing => ProbeReplyView::File(false),
        }
    }

    /// A search after this cache has answered `steps` of its requests, or all of them.
    pub open spec fn search(
        self,
        probe: CacheProbe<P>,
        ignore_weights: bool,
        steps: nat,
    ) -> CacheProbe<P>
        decreases steps,
    {
        if steps == 0 || probe is Done {
            probe
        } else {
            self.search(
                probe.after(self.reply(probe.wants()), ignore_weights),
                ignore_weights,
                (steps - 1) as nat,
            )
        }
    }

    /// Whether the directory that a search goes by is the one this cache has for the snapshot.
    spec fn knows(self, probe: CacheProbe<P>) -> bool {
        !(probe is Done) && probe.snapshot() is Some ==> self.config == Some(probe.snapshot())
    }

    /// What a search that has come this far will find.
    spec fn finds(self, probe: CacheProbe<P>, ignore_weights: bool) -> Option<P> {
        let weights_ok = ignore_weights || self.has_weights();
        match probe {
            CacheProbe::Config => self.cached_path(ignore_weights),
            CacheProbe::Tokenizer { index, snapshot } => {
                if weights_ok && (any_from(tokenizer_files(), self.files, index as int)
                    || any_tiktoken(self.entries)) {
                    snapshot
                } else {
                    None
                }
            },
            CacheProbe::Tiktoken { dir } => {
                if weights_ok && any_tiktoken(self.entries) {
                    Some(dir)
                } else {
                    None
                }
            },
            CacheProbe::Weights { index, snapshot } => {
                if any_from(weight_files(), self.files, index as int) {
                    snapshot
                } else {
                    None
                }
            },
            CacheProbe::Done(found) => found,
        }
    }
}

proof fn lemma_any_from_step(names: Seq<Seq<char>>, files: Set<Seq<char>>, index: int)
    requires
        0 <= index < names.len(),
    ensures
        any_from(names, files, index) == (files.contains(names[index]) || any_from(
            names,
            files,
            index + 1,
        )),
{
    if any_from(names, files, index) && !files.contains(names[index]) {
        let i = choose|i: int| index <= i < names.len() && files.contains(#[trigger] names[i]);
        assert(index + 1 <= i);
    }
}

/// What a search will find stays the same from one reply of the cache to the next.
proof fn lemma_reply_keeps_findings<P>(
    cache: CachedFiles<P>,
    probe: CacheProbe<P>,
    ignore_weights: bool,
)
    requires
        probe.wf(),
        !(probe is Done),
    ensures
        probe.expects(cache.reply(probe.wants())),
        cache.finds(probe.after(cache.reply(probe.wants()), ignore_weights), ignore_weights)
            == cache.finds(probe, ignore_weights),
{
    match probe {
        CacheProbe::Tokenizer { index, .. } => {
            lemma_any_from_step(tokenizer_files(), cache.files, index as int);
        },
        CacheProbe::Weights { index, .. } => {
            lemma_any_from_step(weight_files(), cache.files, index as int);
        },
        _ => {},
    }
}

proof fn lemma_search_finds<P>(
    cache: CachedFiles<P>,
    probe: CacheProbe<P>,
    ignore_weights: bool,
    steps: nat,
)
    requires
        probe.wf(),
        probe.rank() <= steps,
    ensures
        cache.search(probe, ignore_weights, steps) == CacheProbe::Done(
            cache.finds(probe, ignore_weights),
        ),
    decreases steps,
{
    if !(probe is Done) {
        lemma_reply_keeps_findings(cache, probe, ignore_weights);
        let next = probe.after(cache.reply(probe.wants()), ignore_weights);
        lemma_search_finds(cache, next, ignore_weights, (steps - 1) as nat);
    }
}

/// Whether `look` tells the truth about what a cache holds. Of directories it is asked only
/// about the entries of the snapshot's own.
pub open spec fn tells_of<P, F: Fn(&CacheProbe<P>) -> ProbeReply<P>>(
    look: F,
    cache: CachedFiles<P>,
) -> bool {
    forall|probe: CacheProbe<P>, reply: ProbeReply<P>|
        probe.wf() && !(probe is Done) && (probe matches CacheProbe::Tiktoken { dir }
            ==> cache.config == Some(Some(dir))) && #[trigger] call_ensures(look, (&probe,), reply)
            ==> reply@ == cache.reply(probe.wants())
}

/// Whether `look`, asked for `config.json`, can have named this directory.
pub open spec fn named_by<P, F: Fn(&CacheProbe<P>) -> ProbeReply<P>>(look: F, dir: P) -> bool {
    exists|reply: ProbeReply<P>| #[trigger]
        call_ensures(look, (&CacheProbe::<P>::Config,), reply) && reply@
            == ProbeReplyView::Config(Some(Some(dir)))
}

/// Whether a directory is that of the cached snapshot, in every cache that `look` tells the truth
/// about; `None` where no snapshot is cached.
pub open spec fn is_cached_for<P, F: Fn(&CacheProbe<P>) -> ProbeReply<P>>(
    look: F,
    ignore_weights: bool,
    dir: Option<P>,
) -> bool {
    forall|cache: CachedFiles<P>| #[trigger]
        tells_of(look, cache) ==> dir == cache.cached_path(ignore_weights)
}

/// Whether a search goes through these stages, from the first on, by these replies of `look`.
pub open spec fn is_trace<P, F: Fn(&CacheProbe<P>) -> ProbeReply<P>>(
    look: F,
    ignore_weights: bool,
    probes: Seq<CacheProbe<P>>,
    replies: Seq<ProbeReply<P>>,
) -> bool {
    &&& probes.len() == replies.len() + 1
    &&& probes[0] == CacheProbe::<P>::Config
    &&& forall|i: int| #![trigger replies[i]]
        0 <= i < replies.len() ==> {
            &&& !(probes[i] is Done)
            &&& call_ensures(look, (&probes[i],), replies[i])
            &&& probes[i + 1] == probes[i].after(replies[i]@, ignore_weights)
        }
}

/// Searches the cache for the snapshot of a model, and gives the directory of its files. What
/// each step of the search wants to know, `look` finds out.
pub fn get_cached_model_path<P, F: Fn(&CacheProbe<P>) -> ProbeReply<P>>(
    look: F,
    ignore_weights: bool,
) -> (r: Option<P>)
    requires
        forall|probe: CacheProbe<P>|
            probe.wf() && !(probe is Done) ==> #[trigger] call_requires(look, (&probe,)),
        forall|probe: CacheProbe<P>, reply: ProbeReply<P>|
            probe.wf() && !(probe is Done) && #[trigger] call_ensures(look, (&probe,), reply)
                ==> probe.expects(reply@),
    ensures
        is_cached_for(look, ignore_weights, r),
        exists|probes: Seq<CacheProbe<P>>, replies: Seq<ProbeReply<P>>| #[trigger]
            is_trace(look, ignore_weights, probes, replies) && probes.last() == CacheProbe::Done(r),
        r matches Some(dir) ==> named_by(look, dir),
{
    let mut probe: CacheProbe<P> = CacheProbe::start();
    let ghost mut probes: Seq<CacheProbe<P>> = seq![probe];
    let ghost mut replies: Seq<ProbeReply<P>> = Seq::empty();
    loop
        invariant
            probe.wf(),
            is_trace(look, ignore_weights, probes, replies),
            probes.last() == probe,
            forall|probe: CacheProbe<P>|
                probe.wf() && !(probe is Done) ==> #[trigger] call_requires(look, (&probe,)),
            forall|probe: CacheProbe<P>, reply: ProbeReply<P>|
                probe.wf() && !(probe is Done) && #[trigger] call_ensures(look, (&probe,), reply)
                    ==> probe.expects(reply@),
            forall|cache: CachedFiles<P>| #[trigger]
                tells_of(look, cache) ==> cache.finds(probe, ignore_weights) == cache.cached_path(
                    ignore_weights,
                ) && cache.knows(probe),
            probe.snapshot() matches Some(dir) ==> named_by(look, dir),
        decreases probe.rank(),
    {
        match probe {
            CacheProbe::Done(found) => {
                return found;
            },
            searching => {
                let reply = look(&searching);
                proof {
                    assert forall|cache: CachedFiles<P>| #[trigger]
                        tells_of(look, cache) implies cache.finds(
                        searching.after(reply@, ignore_weights),
                        ignore_weights,
                    ) == cache.cached_path(ignore_weights) && cache.knows(
                        searching.after(reply@, ignore_weights),
                    ) by {
                        lemma_reply_keeps_findings(cache, searching, ignore_weights);
                    }
                }
                let ghost asked = searching;
                let ghost told = reply;
                probe = searching.advance(reply, ignore_weights);
                proof {
                    let before = probes;
                    probes = probes.push(probe);
                    replies = replies.push(told);
                    assert(before[before.len() - 1] == asked);
                }
            },
        }
    }
}

/// A search that starts from nothing is over after at most nine replies, and has then found
/// the cached model's snapshot exactly where there is one.
pub proof fn law_search_finds_the_cached_model<P>(cache: CachedFiles<P>, ignore_weights: bool)
    ensures
        cache.search(CacheProbe::Config, ignore_weights, 9) == CacheProbe::Done(
            cache.cached_path(ignore_weights),
        ),
{
    lemma_search_finds(cache, CacheProbe::Config, ignore_weights, 9);
}

/// Whatever the replies, each of the kind that was asked for, a search comes nearer to its end
/// with every one of them.
pub proof fn law_search_ends<P>(
    probe: CacheProbe<P>,
    reply: ProbeReplyView<P>,
    ignore_weights: bool,
)
    requires
        probe.wf(),
        probe.expects(reply),
    ensures
        probe.after(reply, ignore_weights).wf(),
        probe.after(reply, ignore_weights).rank() < probe.rank(),
{
}

/// What a search for a snapshot with its weights finds, a search that can do without them finds
/// too, as long as the cache stays as it is.
pub proof fn law_ignoring_weights_loses_nothing<P, F: Fn(&CacheProbe<P>) -> ProbeReply<P>>(
    look: F,
    cache: CachedFiles<P>,
    with_weights: Option<P>,
    without_weights: Option<P>,
)
    requires
        tells_of(look, cache),
        call_ensures(get_cached_model_path::<P, F>, (look, false), with_weights),
        call_ensures(get_cached_model_path::<P, F>, (look, true), without_weights),
    ensures
        with_weights is Some ==> without_weights == with_weights,
        without_weights is None ==> with_weights is None,
{
}

/// A model whose weights are missing is not cached for a caller who needs them, and is cached
/// for one who does not if there are a configuration and a tokenizer.
pub proof fn law_weights_requirement<P>(cache: CachedFiles<P>, snapshot: P)
    requires
        cache.config == Some(Some(snapshot)),
        cache.has_tokenizer(),
        !cache.has_weights(),
    ensures
        cache.cached_path(false) is None,
        cache.cached_path(true) == Some(snapshot),
{
}

/// What each stage of a search asks for: `config.json` first, then the tokenizer files, the
/// entries of the snapshot, and the weight files, each under its own name; and in the end nothing.
pub proof fn law_search_asks_for_these_files<P>(probe: &CacheProbe<P>, request: ProbeRequest<'_, P>)
    requires
        call_ensures(CacheProbe::<P>::request, (probe,), request),
    ensures
        probe is Config ==> (request matches ProbeRequest::Config { file } && file@
            == "config.json"@),
        probe matches CacheProbe::Tokenizer { index, .. } ==> index < 3 ==> (
        request matches ProbeRequest::File { file } && {
            &&& index == 0 ==> file@ == "tokenizer.json"@
            &&& index == 1 ==> file@ == "tokenizer_config.json"@
            &&& index == 2 ==> file@ == "tiktoken.model"@
        }),
        probe matches CacheProbe::Tiktoken { dir } ==> (request matches ProbeRequest::Entries {
            dir: listed,
        } && *listed == dir),
        probe matches CacheProbe::Weights { index, .. } ==> index < 4 ==> (
        request matches ProbeRequest::File { file } && {
            &&& index == 0 ==> file@ == "model.safetensors"@
            &&& index == 1 ==> file@ == "pytorch_model.bin"@
            &&& index == 2 ==> file@ == "model.safetensors.index.json"@
            &&& index == 3 ==> file@ == "pytorch_model.bin.index.json"@
        }),
        probe is Done ==> request is Nothing,
{
}

/// Where a search goes after each reply. A found file ends its group, a missing one leads to the
/// next, and a group that is missing as a whole ends the search with nothing; the directory that
/// `config.json` was found in goes along unchanged.
pub proof fn law_search_steps<P>(
    probe: CacheProbe<P>,
    reply: ProbeReply<P>,
    ignore_weights: bool,
    next: CacheProbe<P>,
)
    requires
        call_ensures(CacheProbe::<P>::advance, (probe, reply, ignore_weights), next),
    ensures
        probe is Config && reply == ProbeReply::<P>::Config(None) ==> next == CacheProbe::<P>::Done(
            None,
        ),
        probe is Config ==> (reply matches ProbeReply::Config(Some(dir)) ==> (
        next matches CacheProbe::Tokenizer { index, snapshot } && index == 0 && snapshot == dir)),
        probe matches CacheProbe::Tokenizer { index, snapshot } ==> {
            &&& reply == ProbeReply::<P>::File(true) && ignore_weights ==> next == CacheProbe::Done(
                snapshot,
            )
            &&& reply == ProbeReply::<P>::File(true) && !ignore_weights ==> (
            next matches CacheProbe::Weights { index: first, snapshot: dir } && first == 0 && dir
                == snapshot)
            &&& reply == ProbeReply::<P>::File(false) && index < 2 ==> (
            next matches CacheProbe::Tokenizer { index: after, snapshot: dir } && after == index + 1
                && dir == snapshot)
            &&& reply == ProbeReply::<P>::File(false) && index == 2 ==> (match snapshot {
                Some(dir) => next == CacheProbe::Tiktoken { dir },
                None => next == CacheProbe::<P>::Done(None),
            })
        },
        probe matches CacheProbe::Tiktoken { dir } ==> (reply matches ProbeReply::Entries(names) ==> {
            let any = exists|i: int, stem: Seq<char>|
                0 <= i < names@.len() && stem.len() > 0 && (#[trigger] names@[i])@ == #[trigger] (
                stem + ".tiktoken"@);
            &&& !any ==> next == CacheProbe::<P>::Done(None)
            &&& any && ignore_weights ==> next == CacheProbe::Done(Some(dir))
            &&& any && !ignore_weights ==> (next matches CacheProbe::Weights {
                index: first,
                snapshot,
            } && first == 0 && snapshot == Some(dir))
        }),
        probe matches CacheProbe::Weights { index, snapshot } ==> {
            &&& reply == ProbeReply::<P>::File(true) ==> next == CacheProbe::Done(snapshot)
            &&& reply == ProbeReply::<P>::File(false) && index < 3 ==> (
            next matches CacheProbe::Weights { index: after, snapshot: dir } && after == index + 1
                && dir == snapshot)
            &&& reply == ProbeReply::<P>::File(false) && index == 3 ==> next == CacheProbe::<
                P,
            >::Done(None)
        },
{
    if let ProbeReply::Entries(names) = reply {
        lemma_any_tiktoken_by_stems(names@);
    }
}

proof fn lemma_any_tiktoken_by_stems(names: Seq<String>)
    ensures
        any_tiktoken(texts(names)) <==> exists|i: int, stem: Seq<char>|
            0 <= i < names.len() && stem.len() > 0 && (#[trigger] names[i])@ == #[trigger] (stem
                + ".tiktoken"@),
{
    let listed = texts(names);
    if any_tiktoken(listed) {
        let i = choose|i: int|
            0 <= i < listed.len() && crate::text::is_tiktoken_name(#[trigger] listed[i]);
        let stem = choose|stem: Seq<char>|
            stem.len() > 0 && listed[i] == #[trigger] (stem + ".tiktoken"@);
        assert(names[i]@ == stem + ".tiktoken"@);
    }
    if exists|i: int, stem: Seq<char>|
        0 <= i < names.len() && stem.len() > 0 && (#[trigger] names[i])@ == #[trigger] (stem
            + ".tiktoken"@) {
        let (i, stem) = choose|i: int, stem: Seq<char>|
            0 <= i < names.len() && stem.len() > 0 && (#[trigger] names[i])@ == #[trigger] (stem
                + ".tiktoken"@);
        assert(crate::text::is_tiktoken_name(listed[i]));
    }
}

/// A search starts with `config.json`.
pub proof fn law_search_starts_with_the_config<P>(probe: CacheProbe<P>)
    requires
        call_ensures(CacheProbe::<P>::start, (), probe),
    ensures
        probe is Config,
{
}

/// A model is found cached exactly where there is a `config.json`, one of the tokenizer files or
/// an entry with the extension `.tiktoken` in the directory of `config.json`, and one of the
/// weight files unless the caller can do without; what is found is that directory. `files` are
/// the names of the files that are there, `config` is what is told of `config.json`, and
/// `entries` are the names in its directory.
pub proof fn law_cached_model_is_found<P, F: Fn(&CacheProbe<P>) -> ProbeReply<P>>(
    look: F,
    ignore_weights: bool,
    config: Option<Option<P>>,
    files: Set<Seq<char>>,
    entries: Seq<Seq<char>>,
    r: Option<P>,
)
    requires
        call_ensures(get_cached_model_path::<P, F>, (look, ignore_weights), r),
        forall|reply: ProbeReply<P>| #[trigger]
            call_ensures(look, (&CacheProbe::<P>::Config,), reply) ==> reply
                == ProbeReply::<P>::Config(config),
        forall|index: usize, snapshot: Option<P>, reply: ProbeReply<P>|
            index < 3 && #[trigger] call_ensures(
                look,
                (&CacheProbe::Tokenizer { index, snapshot },),
                reply,
            ) ==> reply == ProbeReply::<P>::File(
                if index == 0 {
                    files.contains("tokenizer.json"@)
                } else if index == 1 {
                    files.contains("tokenizer_config.json"@)
                } else {
                    files.contains("tiktoken.model"@)
                },
            ),
        forall|dir: P, reply: ProbeReply<P>|
            config == Some(Some(dir)) && #[trigger] call_ensures(
                look,
                (&CacheProbe::Tiktoken { dir },),
                reply,
            ) ==> (reply matches ProbeReply::Entries(names) && names@.len() == entries.len() && (
            forall|i: int| 0 <= i < entries.len() ==> (#[trigger] names@[i])@ == entries[i])),
        forall|index: usize, snapshot: Option<P>, reply: ProbeReply<P>|
            index < 4 && #[trigger] call_ensures(
                look,
                (&CacheProbe::Weights { index, snapshot },),
                reply,
            ) ==> reply == ProbeReply::<P>::File(
                if index == 0 {
                    files.contains("model.safetensors"@)
                } else if index == 1 {
                    files.contains("pytorch_model.bin"@)
                } else if index == 2 {
                    files.contains("model.safetensors.index.json"@)
                } else {
                    files.contains("pytorch_model.bin.index.json"@)
                },
            ),
    ensures
        ({
            let tokenizer = {
                ||| files.contains("tokenizer.json"@)
                ||| files.contains("tokenizer_config.json"@)
                ||| files.contains("tiktoken.model"@)
                ||| exists|i: int, stem: Seq<char>|
                    0 <= i < entries.len() && stem.len() > 0 && #[trigger] entries[i]
                        == #[trigger] (stem + ".tiktoken"@)
            };
            let weights = {
                ||| files.contains("model.safetensors"@)
                ||| files.contains("pytorch_model.bin"@)
                ||| files.contains("model.safetensors.index.json"@)
                ||| files.contains("pytorch_model.bin.index.json"@)
            };
            match config {
                Some(dir) if tokenizer && (ignore_weights || weights) => r == dir,
                _ => r is None,
            }
        }),
{
    let cache = CachedFiles { config, files, entries };
    assert forall|probe: CacheProbe<P>, reply: ProbeReply<P>|
        probe.wf() && !(probe is Done) && (probe matches CacheProbe::Tiktoken { dir }
            ==> cache.config == Some(Some(dir))) && #[trigger] call_ensures(
            look,
            (&probe,),
            reply,
        ) implies reply@ == cache.reply(probe.wants()) by {
        match probe {
            CacheProbe::Config => {
                assert(call_ensures(look, (&CacheProbe::<P>::Config,), reply));
            },
            CacheProbe::Tokenizer { index, snapshot } => {
                assert(call_ensures(look, (&CacheProbe::Tokenizer { index, snapshot },), reply));
            },
            CacheProbe::Tiktoken { dir } => {
                assert(call_ensures(look, (&CacheProbe::Tiktoken { dir },), reply));
                if let ProbeReply::Entries(names) = reply {
                    assert(texts(names@) == entries);
                }
            },
            CacheProbe::Weights { index, snapshot } => {
                assert(call_ensures(look, (&CacheProbe::Weights { index, snapshot },), reply));
            },
            CacheProbe::Done(_) => {},
        }
    }
    assert(tells_of(look, cache));
    assert(is_cached_for(look, ignore_weights, r));
    let tokenizers = tokenizer_files();
    assert(tokenizers[0] == "tokenizer.json"@ && tokenizers[1] == "tokenizer_config.json"@
        && tokenizers[2] == "tiktoken.model"@);
    let weights = weight_files();
    assert(weights[0] == "model.safetensors"@ && weights[1] == "pytorch_model.bin"@ && weights[2]
        == "model.safetensors.index.json"@ && weights[3] == "pytorch_model.bin.index.json"@);
    if any_tiktoken(entries) {
        let i = choose|i: int|
            0 <= i < entries.len() && crate::text::is_tiktoken_name(#[trigger] entries[i]);
        let stem = choose|stem: Seq<char>|
            stem.len() > 0 && entries[i] == #[trigger] (stem + ".tiktoken"@);
        assert(entries[i] == stem + ".tiktoken"@);
    }
    if exists|i: int, stem: Seq<char>|
        0 <= i < entries.len() && stem.len() > 0 && #[trigger] entries[i] == #[trigger] (stem
            + ".tiktoken"@) {
        let (i, stem) = choose|i: int, stem: Seq<char>|
            0 <= i < entries.len() && stem.len() > 0 && #[trigger] entries[i] == #[trigger] (stem
                + ".tiktoken"@);
        assert(crate::text::is_tiktoken_name(entries[i]));
    }
}

/// Any look that answers each question in kind can be searched by.
pub proof fn law_any_look_in_kind_is_accepted<P, F: Fn(&CacheProbe<P>) -> ProbeReply<P>>(
    look: F,
    ignore_weights: bool,
)
    requires
        forall|probe: CacheProbe<P>| #[trigger] call_requires(look, (&probe,)),
        forall|probe: CacheProbe<P>, reply: ProbeReply<P>| #[trigger]
            call_ensures(look, (&probe,), reply) ==> {
                &&& probe is Config ==> reply is Config
                &&& probe is Tokenizer || probe is Weights ==> reply is File
                &&& probe is Tiktoken ==> reply is Entries
            },
    ensures
        call_requires(get_cached_model_path::<P, F>, (look, ignore_weights)),
{
}

/// Every stage that a search comes to can be asked what it wants, and takes a reply in kind.
pub proof fn law_replies_in_kind_are_accepted<P>(
    probe: CacheProbe<P>,
    reply: ProbeReply<P>,
    ignore_weights: bool,
)
    requires
        probe matches CacheProbe::Tokenizer { index, .. } ==> index < 3,
        probe matches CacheProbe::Weights { index, .. } ==> index < 4,
    ensures
        call_requires(CacheProbe::<P>::request, (&probe,)),
        probe is Config && reply is Config ==> call_requires(
            CacheProbe::<P>::advance,
            (probe, reply, ignore_weights),
        ),
        (probe is Tokenizer || probe is Weights) && reply is File ==> call_requires(
            CacheProbe::<P>::advance,
            (probe, reply, ignore_weights),
        ),
        probe is Tiktoken && reply is Entries ==> call_requires(
            CacheProbe::<P>::advance,
            (probe, reply, ignore_weights),
        ),
{
}

} // verus!
