use crate::fingerprint::{
    digest_of, digest_to_convert, fingerprint_of, fingerprint_path, needs_conversion, tag_digest,
    tagged,
};
use crate::narinfo::{
    format_narinfo_txt, narinfo_of, narinfo_text, NarInfo, PathInfo, PathInfoView,
};
use crate::relay::{
    acceptable, accepted_type_of, accepts, miss_body_of, relayed_encoding, target_path,
    upstream_path, FetchOutcome, FetchOutcomeView, QueryKind, ATTEMPT_TIMEOUT_SECS,
};
use crate::response::{Failure, Response, ResponseView};
use crate::text::{byte_len, byte_length};
use vstd::prelude::*;
use vstd::string::*;

verus! {

/// Length in bytes of the hash part by which a store path is asked for.
pub const KEY_LEN: usize = 32;

/// Whether `key` has the form of the hash part of a store path. The store is asked about no
/// other key.
pub open spec fn well_formed_key(key: Seq<char>) -> bool {
    byte_len(key) == KEY_LEN
}

/// What the one who drives a query is asked to do next. All but `Fetch` are questions to the
/// store; `Fetch` is a request to an upstream cache.
#[derive(Debug, PartialEq, Eq)]
pub enum Request {
    /// Which store path has `key` as its hash part?
    ResolveKey { key: String },
    /// What does the store know of `store_path`? The hash is wanted in base 32.
    PathInfo { store_path: String },
    /// Is `path` valid in the store?
    IsValidPath { path: String },
    /// For which platform does the derivation at `drv_path` build?
    Platform { drv_path: String },
    /// Under which directory does the store keep its paths?
    StoreDir,
    /// What is the `sha256` digest `digest` in base 32?
    ConvertHash { digest: String },
    /// What is the signature of `message` under the secret key `key`?
    Sign { key: String, message: String },
    /// What does `store_path` contain?
    NarList { store_path: String },
    /// `GET` of `path` on upstream cache number `endpoint`, counted from 0 in configured order.
    /// The attempt is given up after `timeout_secs` seconds. Unless `decompress` is set, the
    /// body is taken as it comes on the wire, whatever its content encoding.
    Fetch { endpoint: usize, path: String, timeout_secs: u64, decompress: bool },
}

pub enum RequestView {
    ResolveKey { key: Seq<char> },
    PathInfo { store_path: Seq<char> },
    IsValidPath { path: Seq<char> },
    Platform { drv_path: Seq<char> },
    StoreDir,
    ConvertHash { digest: Seq<char> },
    Sign { key: Seq<char>, message: Seq<char> },
    NarList { store_path: Seq<char> },
    Fetch { endpoint: int, path: Seq<char>, timeout_secs: u64, decompress: bool },
}

impl View for Request {
    type V = RequestView;

    open spec fn view(&self) -> RequestView {
        match self {
            Request::ResolveKey { key } => RequestView::ResolveKey { key: key@ },
            Request::PathInfo { store_path } => RequestView::PathInfo { store_path: store_path@ },
            Request::IsValidPath { path } => RequestView::IsValidPath { path: path@ },
            Request::Platform { drv_path } => RequestView::Platform { drv_path: drv_path@ },
            Request::StoreDir => RequestView::StoreDir,
            Request::ConvertHash { digest } => RequestView::ConvertHash { digest: digest@ },
            Request::Sign { key, message } => RequestView::Sign { key: key@, message: message@ },
            Request::NarList { store_path } => RequestView::NarList { store_path: store_path@ },
            Request::Fetch { endpoint, path, timeout_secs, decompress } => {
                RequestView::Fetch {
                    endpoint: *endpoint as int,
                    path: path@,
                    timeout_secs: *timeout_secs,
                    decompress: *decompress,
                }
            },
        }
    }
}

/// Whether a request goes to the store.
pub open spec fn asks_store(request: RequestView) -> bool {
    !(request is Fetch)
}

/// What came of a request. Where the store can fail, the error holds what it said.
#[derive(Debug, PartialEq, Eq)]
pub enum Reply {
    /// To `ResolveKey`: the store path, if the store has one for the key.
    StorePath(Option<String>),
    /// To `PathInfo`.
    PathInfo(Result<PathInfo, String>),
    /// To `IsValidPath`.
    Valid(bool),
    /// To `Platform`.
    Platform(Result<String, String>),
    /// To `StoreDir`.
    StoreDir(String),
    /// To `ConvertHash`: the digest in base 32, without tag.
    Hash(Result<String, String>),
    /// To `Sign`.
    Signature(Result<String, String>),
    /// To `NarList`.
    NarList(Result<String, String>),
    /// To `Fetch`.
    Upstream(FetchOutcome),
}

pub enum ReplyView {
    StorePath(Option<Seq<char>>),
    PathInfo(Result<PathInfoView, Seq<char>>),
    Valid(bool),
    Platform(Result<Seq<char>, Seq<char>>),
    StoreDir(Seq<char>),
    Hash(Result<Seq<char>, Seq<char>>),
    Signature(Result<Seq<char>, Seq<char>>),
    NarList(Result<Seq<char>, Seq<char>>),
    Upstream(FetchOutcomeView),
}

/// The view of a text that the store handed back, or of what it said when it failed.
pub open spec fn text_result(r: Result<String, String>) -> Result<Seq<char>, Seq<char>> {
    match r {
        Ok(text) => Ok(text@),
        Err(message) => Err(message@),
    }
}

impl View for Reply {
    type V = ReplyView;

    open spec fn view(&self) -> ReplyView {
        match self {
            Reply::StorePath(path) => ReplyView::StorePath(path.deep_view()),
            Reply::PathInfo(Ok(info)) => ReplyView::PathInfo(Ok(info@)),
            Reply::PathInfo(Err(message)) => ReplyView::PathInfo(Err(message@)),
            Reply::Valid(valid) => ReplyView::Valid(*valid),
            Reply::Platform(r) => ReplyView::Platform(text_result(*r)),
            Reply::StoreDir(root) => ReplyView::StoreDir(root@),
            Reply::Hash(r) => ReplyView::Hash(text_result(*r)),
            Reply::Signature(r) => ReplyView::Signature(text_result(*r)),
            Reply::NarList(r) => ReplyView::NarList(text_result(*r)),
            Reply::Upstream(outcome) => ReplyView::Upstream(outcome@),
        }
    }
}

/// Where a query stands: which request is out.
#[derive(Clone, Copy, PartialEq, Eq, Structural, Debug)]
pub enum Stage {
    /// The store is resolving the key.
    Resolve,
    /// The store is reporting on the path.
    Metadata,
    /// The store is checking whether the deriver is valid.
    Deriver,
    /// The store is reading the build platform of the deriver.
    Platform,
    /// The store is naming its directory.
    StoreDir,
    /// The store is converting the hash.
    Convert,
    /// The store is signing the fingerprint.
    Sign,
    /// The store is listing the path.
    Listing,
    /// An upstream cache is being asked.
    Relay,
}

/// One query on its way. It holds what was configured, what has been learned so far, and which
/// request is out; `advance` takes the reply to that request.
pub struct Query {
    kind: QueryKind,
    key: String,
    want_json: bool,
    sign_keys: Vec<String>,
    upstreams: Vec<Option<String>>,
    stage: Stage,
    store_path: String,
    info: PathInfo,
    system: Option<String>,
    root: String,
    fingerprint: String,
    sigs: Vec<String>,
    next: usize,
}

/// A query as the contracts see it. `upstreams` holds, for each upstream cache in configured
/// order, the path of its base URL. `next` counts the signing keys that have signed while
/// `stage` is `Sign`, and is the number of the upstream cache that is being asked while `stage`
/// is `Relay`.
pub struct QueryView {
    pub kind: QueryKind,
    pub key: Seq<char>,
    pub want_json: bool,
    pub sign_keys: Seq<Seq<char>>,
    pub upstreams: Seq<Option<Seq<char>>>,
    pub stage: Stage,
    pub store_path: Seq<char>,
    pub info: PathInfoView,
    pub system: Option<Seq<char>>,
    pub root: Seq<char>,
    pub fingerprint: Seq<char>,
    pub sigs: Seq<Seq<char>>,
    pub next: int,
}

impl View for Query {
    type V = QueryView;

    closed spec fn view(&self) -> QueryView {
        QueryView {
            kind: self.kind,
            key: self.key@,
            want_json: self.want_json,
            sign_keys: self.sign_keys.deep_view(),
            upstreams: self.upstreams.deep_view(),
            stage: self.stage,
            store_path: self.store_path@,
            info: self.info@,
            system: self.system.deep_view(),
            root: self.root@,
            fingerprint: self.fingerprint@,
            sigs: self.sigs.deep_view(),
            next: self.next as int,
        }
    }
}

/// What a query comes to after a reply: the next request, with the query as it then stands, or
/// the answer.
pub enum Step {
    Ask(Query, Request),
    Done(Response),
}

pub enum StepView {
    Ask(QueryView, RequestView),
    Done(ResponseView),
}

impl View for Step {
    type V = StepView;

    open spec fn view(&self) -> StepView {
        match self {
            Step::Ask(query, request) => StepView::Ask(query@, request@),
            Step::Done(response) => StepView::Done(response@),
        }
    }
}

/// A query of which nothing is known yet but what was configured.
pub open spec fn fresh(
    kind: QueryKind,
    key: Seq<char>,
    want_json: bool,
    sign_keys: Seq<Seq<char>>,
    upstreams: Seq<Option<Seq<char>>>,
) -> QueryView {
    QueryView {
        kind,
        key,
        want_json,
        sign_keys,
        upstreams,
        stage: Stage::Resolve,
        store_path: Seq::empty(),
        info: PathInfoView {
            drv: None,
            narhash: Seq::empty(),
            size: 0,
            refs: Seq::empty(),
            sigs: Seq::empty(),
            ca: None,
        },
        system: None,
        root: Seq::empty(),
        fingerprint: Seq::empty(),
        sigs: Seq::empty(),
        next: 0,
    }
}

/// The request to upstream cache number `i`: within the time that an attempt may take, and
/// for the body as it comes on the wire.
pub open spec fn fetch_of(q: QueryView, i: int) -> RequestView {
    RequestView::Fetch {
        endpoint: i,
        path: target_path(q.upstreams[i], q.key, q.kind),
        timeout_secs: ATTEMPT_TIMEOUT_SECS,
        decompress: false,
    }
}

/// Turning to upstream cache number `i`: it is asked if there is one, and the query is missed
/// if the configured caches are used up.
pub open spec fn relay_from(q: QueryView, i: int) -> StepView {
    if 0 <= i < q.upstreams.len() {
        StepView::Ask(
            QueryView { stage: Stage::Relay, next: i, ..q },
            fetch_of(q, i),
        )
    } else {
        StepView::Done(ResponseView::NotFound { body: miss_body_of(q.kind) })
    }
}

/// The first step of a query. Only a well-formed key is put to the store; any other goes to
/// the upstream caches at once.
pub open spec fn begin(q: QueryView) -> StepView {
    if well_formed_key(q.key) {
        StepView::Ask(q, RequestView::ResolveKey { key: q.key })
    } else {
        relay_from(q, 0)
    }
}

/// The answer to an info query whose path the store has, once all is known of it.
pub open spec fn finish(q: QueryView, fresh: Option<Seq<Seq<char>>>) -> StepView {
    let record = narinfo_of(q.store_path, q.key, q.info, q.system, fresh);
    if q.want_json {
        StepView::Done(ResponseView::InfoJson { record })
    } else {
        StepView::Done(ResponseView::InfoText { body: narinfo_text(record), url: record.url })
    }
}

/// What follows when the record is complete but for its signatures. Without signing keys the
/// signatures of the store are served. With keys, the fingerprint has to be made first, and for
/// that the store is asked for its directory.
pub open spec fn signing(q: QueryView) -> StepView {
    if q.sign_keys.len() == 0 {
        finish(q, None)
    } else {
        StepView::Ask(QueryView { stage: Stage::StoreDir, ..q }, RequestView::StoreDir)
    }
}

/// What follows when it is known whether the path has a fingerprint. If it has, the first key
/// signs it. If it has none, nothing is signed, and the record is served without signatures.
pub open spec fn sign_from(q: QueryView, fingerprint: Option<Seq<char>>) -> StepView {
    match fingerprint {
        Some(message) if q.sign_keys.len() > 0 => StepView::Ask(
            QueryView {
                stage: Stage::Sign,
                fingerprint: message,
                sigs: Seq::empty(),
                next: 0,
                ..q
            },
            RequestView::Sign { key: q.sign_keys[0], message },
        ),
        _ => finish(q, Some(Seq::empty())),
    }
}

/// The fingerprint of the path of `q` for the hash `nar_hash`.
pub open spec fn fingerprint_in(q: QueryView, nar_hash: Seq<char>) -> Option<Seq<char>> {
    fingerprint_of(q.root, q.store_path, nar_hash, q.info.size as nat, q.info.refs)
}

/// A failure of the store, with what the store said.
pub open spec fn failed(cause: Failure, message: Seq<char>) -> StepView {
    StepView::Done(ResponseView::Failed { cause, message })
}

/// What a query comes to when `reply` is handed in for the request that is out. A reply that
/// does not answer that request ends the query with a protocol failure.
pub open spec fn next(q: QueryView, reply: ReplyView) -> StepView {
    match (q.stage, reply) {
        (Stage::Resolve, ReplyView::StorePath(Some(path))) => match q.kind {
            QueryKind::Info => StepView::Ask(
                QueryView { stage: Stage::Metadata, store_path: path, ..q },
                RequestView::PathInfo { store_path: path },
            ),
            QueryKind::Listing => StepView::Ask(
                QueryView { stage: Stage::Listing, store_path: path, ..q },
                RequestView::NarList { store_path: path },
            ),
        },
        (Stage::Resolve, ReplyView::StorePath(None)) => relay_from(q, 0),
        (Stage::Metadata, ReplyView::PathInfo(Ok(info))) => match info.drv {
            Some(drv) => StepView::Ask(
                QueryView { stage: Stage::Deriver, info, ..q },
                RequestView::IsValidPath { path: drv },
            ),
            None => signing(QueryView { info, ..q }),
        },
        (Stage::Metadata, ReplyView::PathInfo(Err(message))) => failed(Failure::Metadata, message),
        (Stage::Deriver, ReplyView::Valid(valid)) => match q.info.drv {
            Some(drv) if valid => StepView::Ask(
                QueryView { stage: Stage::Platform, ..q },
                RequestView::Platform { drv_path: drv },
            ),
            _ => signing(q),
        },
        (Stage::Platform, ReplyView::Platform(Ok(system))) => signing(
            QueryView { system: Some(system), ..q },
        ),
        (Stage::Platform, ReplyView::Platform(Err(message))) => failed(Failure::Platform, message),
        (Stage::StoreDir, ReplyView::StoreDir(root)) => {
            let q = QueryView { root, ..q };
            if needs_conversion(root, q.store_path, q.info.narhash) {
                StepView::Ask(
                    QueryView { stage: Stage::Convert, ..q },
                    RequestView::ConvertHash { digest: digest_of(q.info.narhash) },
                )
            } else {
                sign_from(q, fingerprint_in(q, q.info.narhash))
            }
        },
        (Stage::Convert, ReplyView::Hash(Ok(digest))) => sign_from(
            q,
            fingerprint_in(q, tagged(digest)),
        ),
        (Stage::Convert, ReplyView::Hash(Err(message))) => failed(
            Failure::HashConversion,
            message,
        ),
        (Stage::Sign, ReplyView::Signature(Ok(sig))) => {
            let sigs = q.sigs.push(sig);
            if q.next + 1 < q.sign_keys.len() {
                StepView::Ask(
                    QueryView { sigs, next: q.next + 1, ..q },
                    RequestView::Sign { key: q.sign_keys[q.next + 1], message: q.fingerprint },
                )
            } else {
                finish(q, Some(sigs))
            }
        },
        (Stage::Sign, ReplyView::Signature(Err(message))) => failed(Failure::Signing, message),
        (Stage::Listing, ReplyView::NarList(Ok(body))) => StepView::Done(
            ResponseView::Listing { body },
        ),
        (Stage::Listing, ReplyView::NarList(Err(message))) => failed(Failure::Listing, message),
        (Stage::Relay, ReplyView::Upstream(outcome)) => {
            if acceptable(q.kind, q.want_json, outcome) {
                StepView::Done(
                    ResponseView::Relayed {
                        endpoint: q.next,
                        content_type: accepted_type_of(q.kind),
                        content_encoding: relayed_encoding(q.kind, outcome),
                    },
                )
            } else {
                relay_from(q, q.next + 1)
            }
        },
        _ => failed(Failure::Protocol, Seq::empty()),
    }
}

fn protocol_failure() -> (step: Step)
    ensures
        step@ == failed(Failure::Protocol, Seq::empty()),
{
    Step::Done(Response::Failed { cause: Failure::Protocol, message: String::new() })
}

fn store_failure(cause: Failure, message: String) -> (step: Step)
    ensures
        step@ == failed(cause, message@),
{
    Step::Done(Response::Failed { cause, message })
}

fn cloned(text: &Option<String>) -> (copy: Option<String>)
    ensures
        copy.deep_view() == text.deep_view(),
{
    match text {
        Some(text) => Some(text.clone()),
        None => None,
    }
}

impl Query {
    fn unresolved(
        kind: QueryKind,
        key: String,
        want_json: bool,
        sign_keys: Vec<String>,
        upstreams: Vec<Option<String>>,
    ) -> (q: Query)
        ensures
            q@ == fresh(kind, key@, want_json, sign_keys.deep_view(), upstreams.deep_view()),
    {
        let q = Query {
            kind,
            key,
            want_json,
            sign_keys,
            upstreams,
            stage: Stage::Resolve,
            store_path: String::new(),
            info: PathInfo {
                drv: None,
                narhash: String::new(),
                size: 0,
                refs: Vec::new(),
                sigs: Vec::new(),
                ca: None,
            },
            system: None,
            root: String::new(),
            fingerprint: String::new(),
            sigs: Vec::new(),
            next: 0,
        };
        assert(q.info.refs.deep_view() =~= Seq::empty());
        assert(q.info.sigs.deep_view() =~= Seq::empty());
        assert(q.sigs.deep_view() =~= Seq::empty());
        q
    }

    /// Opens the query for the info record of the path with hash part `key`. `want_json` asks
    /// for the structured form; `sign_keys` are the secret keys that sign the record;
    /// `upstreams` holds the path of each upstream cache's base URL, in the order in which the
    /// caches are tried.
    pub fn info(
        key: String,
        want_json: bool,
        sign_keys: Vec<String>,
        upstreams: Vec<Option<String>>,
    ) -> (step: Step)
        ensures
            step@ == begin(
                fresh(
                    QueryKind::Info,
                    key@,
                    want_json,
                    sign_keys.deep_view(),
                    upstreams.deep_view(),
                ),
            ),
    {
        Query::unresolved(QueryKind::Info, key, want_json, sign_keys, upstreams).start()
    }

    /// Opens the query for the file listing of the path with hash part `key`.
    pub fn listing(key: String, upstreams: Vec<Option<String>>) -> (step: Step)
        ensures
            step@ == begin(
                fresh(QueryKind::Listing, key@, false, Seq::empty(), upstreams.deep_view()),
            ),
    {
        let sign_keys: Vec<String> = Vec::new();
        assert(sign_keys.deep_view() =~= Seq::empty());
        Query::unresolved(QueryKind::Listing, key, false, sign_keys, upstreams).start()
    }

    fn start(self) -> (step: Step)
        ensures
            step@ == begin(self@),
    {
        if byte_length(self.key.as_str()) == KEY_LEN {
            let key = self.key.clone();
            Step::Ask(self, Request::ResolveKey { key })
        } else {
            self.relay_from(0)
        }
    }

    fn relay_from(self, i: usize) -> (step: Step)
        ensures
            step@ == relay_from(self@, i as int),
    {
        if i < self.upstreams.len() {
            let path = upstream_path(&self.upstreams[i], self.key.as_str(), self.kind);
            let mut q = self;
            q.stage = Stage::Relay;
            q.next = i;
            Step::Ask(
                q,
                Request::Fetch {
                    endpoint: i,
                    path,
                    timeout_secs: ATTEMPT_TIMEOUT_SECS,
                    decompress: false,
                },
            )
        } else {
            Step::Done(Response::NotFound { body: String::from_str(self.kind.miss_body()) })
        }
    }

    fn finish(self, fresh: Option<Vec<String>>) -> (step: Step)
        ensures
            step@ == finish(self@, fresh.deep_view()),
    {
        let want_json = self.want_json;
        let record = NarInfo::from_path_info(
            self.store_path,
            self.key.as_str(),
            self.info,
            self.system,
            fresh,
        );
        if want_json {
            Step::Done(Response::InfoJson { record })
        } else {
            let body = format_narinfo_txt(&record);
            Step::Done(Response::InfoText { body, url: record.url })
        }
    }

    fn signing(self) -> (step: Step)
        ensures
            step@ == signing(self@),
    {
        if self.sign_keys.len() == 0 {
            self.finish(None)
        } else {
            let mut q = self;
            q.stage = Stage::StoreDir;
            Step::Ask(q, Request::StoreDir)
        }
    }

    fn sign_from(self, fingerprint: Option<String>) -> (step: Step)
        ensures
            step@ == sign_from(self@, fingerprint.deep_view()),
    {
        let unsigned: Vec<String> = Vec::new();
        assert(unsigned.deep_view() =~= Seq::empty());
        match fingerprint {
            Some(message) => {
                if self.sign_keys.len() > 0 {
                    let key = self.sign_keys[0].clone();
                    let mut q = self;
                    q.stage = Stage::Sign;
                    q.fingerprint = message.clone();
                    q.sigs = unsigned;
                    q.next = 0;
                    Step::Ask(q, Request::Sign { key, message })
                } else {
                    self.finish(Some(unsigned))
                }
            },
            None => self.finish(Some(unsigned)),
        }
    }

    fn fingerprint_for(&self, nar_hash: &str) -> (fingerprint: Option<String>)
        ensures
            fingerprint.deep_view() == fingerprint_in(self@, nar_hash@),
    {
        fingerprint_path(
            self.root.as_str(),
            self.store_path.as_str(),
            nar_hash,
            self.info.size,
            &self.info.refs,
        )
    }

    /// Takes the reply to the request that is out and says what comes next.
    pub fn advance(self, reply: Reply) -> (step: Step)
        ensures
            step@ == next(self@, reply@),
    {
        match self.stage {
            Stage::Resolve => match reply {
                Reply::StorePath(Some(path)) => {
                    let store_path = path.clone();
                    let mut q = self;
                    q.store_path = path;
                    match q.kind {
                        QueryKind::Info => {
                            q.stage = Stage::Metadata;
                            Step::Ask(q, Request::PathInfo { store_path })
                        },
                        QueryKind::Listing => {
                            q.stage = Stage::Listing;
                            Step::Ask(q, Request::NarList { store_path })
                        },
                    }
                },
                Reply::StorePath(None) => self.relay_from(0),
                _ => protocol_failure(),
            },
            Stage::Metadata => match reply {
                Reply::PathInfo(Ok(info)) => {
                    let deriver = cloned(&info.drv);
                    let mut q = self;
                    q.info = info;
                    match deriver {
                        Some(path) => {
                            q.stage = Stage::Deriver;
                            Step::Ask(q, Request::IsValidPath { path })
                        },
                        None => q.signing(),
                    }
                },
                Reply::PathInfo(Err(message)) => store_failure(Failure::Metadata, message),
                _ => protocol_failure(),
            },
            Stage::Deriver => match reply {
                Reply::Valid(valid) => {
                    let deriver = cloned(&self.info.drv);
                    match deriver {
                        Some(drv_path) => {
                            if valid {
                                let mut q = self;
                                q.stage = Stage::Platform;
                                Step::Ask(q, Request::Platform { drv_path })
                            } else {
                                self.signing()
                            }
                        },
                        None => self.signing(),
                    }
                },
                _ => protocol_failure(),
            },
            Stage::Platform => match reply {
                Reply::Platform(Ok(system)) => {
                    let mut q = self;
                    q.system = Some(system);
                    q.signing()
                },
                Reply::Platform(Err(message)) => store_failure(Failure::Platform, message),
                _ => protocol_failure(),
            },
            Stage::StoreDir => match reply {
                Reply::StoreDir(root) => {
                    let mut q = self;
                    q.root = root;
                    let digest = digest_to_convert(
                        q.root.as_str(),
                        q.store_path.as_str(),
                        q.info.narhash.as_str(),
                    );
                    match digest {
                        Some(digest) => {
                            q.stage = Stage::Convert;
                            Step::Ask(q, Request::ConvertHash { digest })
                        },
                        None => {
                            let fingerprint = q.fingerprint_for(q.info.narhash.as_str());
                            q.sign_from(fingerprint)
                        },
                    }
                },
                _ => protocol_failure(),
            },
            Stage::Convert => match reply {
                Reply::Hash(Ok(digest)) => {
                    let hash = tag_digest(digest.as_str());
                    let fingerprint = self.fingerprint_for(hash.as_str());
                    self.sign_from(fingerprint)
                },
                Reply::Hash(Err(message)) => store_failure(Failure::HashConversion, message),
                _ => protocol_failure(),
            },
            Stage::Sign => match reply {
                Reply::Signature(Ok(sig)) => {
                    let mut q = self;
                    let mut sigs: Vec<String> = Vec::new();
                    core::mem::swap(&mut sigs, &mut q.sigs);
                    let ghost before = sigs.deep_view();
                    sigs.push(sig);
                    assert(sigs.deep_view() =~= before.push(sig@));
                    if q.sign_keys.len() > 0 && q.next < q.sign_keys.len() - 1 {
                        let i = q.next + 1;
                        let key = q.sign_keys[i].clone();
                        let message = q.fingerprint.clone();
                        q.sigs = sigs;
                        q.next = i;
                        Step::Ask(q, Request::Sign { key, message })
                    } else {
                        q.finish(Some(sigs))
                    }
                },
                Reply::Signature(Err(message)) => store_failure(Failure::Signing, message),
                _ => protocol_failure(),
            },
            Stage::Listing => match reply {
                Reply::NarList(Ok(body)) => Step::Done(Response::Listing { body }),
                Reply::NarList(Err(message)) => store_failure(Failure::Listing, message),
                _ => protocol_failure(),
            },
            Stage::Relay => match reply {
                Reply::Upstream(outcome) => {
                    if accepts(self.kind, self.want_json, &outcome) {
                        let content_encoding = match outcome {
                            FetchOutcome::Replied { content_encoding, .. } => {
                                if self.kind.forwards_encoding() {
                                    content_encoding
                                } else {
                                    None
                                }
                            },
                            FetchOutcome::Failed => None,
                        };
                        Step::Done(
                            Response::Relayed {
                                endpoint: self.next,
                                content_type: String::from_str(self.kind.accepted_type()),
                                content_encoding,
                            },
                        )
                    } else if self.next < self.upstreams.len() {
                        let i = self.next + 1;
                        self.relay_from(i)
                    } else {
                        let i = self.upstreams.len();
                        self.relay_from(i)
                    }
                },
                _ => protocol_failure(),
            },
        }
    }
}

} // verus!
