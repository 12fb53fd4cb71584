use crate::text::same_text;
use vstd::prelude::*;
use vstd::string::*;

verus! {

/// The two shapes of query that the cache answers. The shape decides what is asked of an
/// upstream cache and what is accepted from it.
#[derive(Clone, Copy, PartialEq, Eq, Structural, Debug)]
pub enum QueryKind {
    /// The info record of a store path.
    Info,
    /// The file listing of a store path.
    Listing,
}

/// What is put behind the key to name the resource on an upstream cache.
pub open spec fn suffix_of(kind: QueryKind) -> Seq<char> {
    match kind {
        QueryKind::Info => ".narinfo"@,
        QueryKind::Listing => ".ls"@,
    }
}

/// The one content type that an upstream answer must declare to be relayed.
pub open spec fn accepted_type_of(kind: QueryKind) -> Seq<char> {
    match kind {
        QueryKind::Info => "text/x-nix-narinfo"@,
        QueryKind::Listing => "application/json"@,
    }
}

/// The body of the answer to a query that neither the store nor an upstream cache could serve.
pub open spec fn miss_body_of(kind: QueryKind) -> Seq<char> {
    match kind {
        QueryKind::Info => "missed hash"@,
        QueryKind::Listing => "missed hash for narlist"@,
    }
}

impl QueryKind {
    /// What is put behind the key to name the resource on an upstream cache.
    pub fn suffix(self) -> (s: &'static str)
        ensures
            s@ == suffix_of(self),
    {
        match self {
            QueryKind::Info => ".narinfo",
            QueryKind::Listing => ".ls",
        }
    }

    /// The content type that an upstream answer must declare to be relayed.
    pub fn accepted_type(self) -> (s: &'static str)
        ensures
            s@ == accepted_type_of(self),
    {
        match self {
            QueryKind::Info => "text/x-nix-narinfo",
            QueryKind::Listing => "application/json",
        }
    }

    /// The body of the answer to a query that nothing could serve.
    pub fn miss_body(self) -> (s: &'static str)
        ensures
            s@ == miss_body_of(self),
    {
        match self {
            QueryKind::Info => "missed hash",
            QueryKind::Listing => "missed hash for narlist",
        }
    }

    /// Whether the content encoding that an upstream cache declared is handed on with the body.
    pub fn forwards_encoding(self) -> (b: bool)
        ensures
            b == (self == QueryKind::Listing),
    {
        match self {
            QueryKind::Info => false,
            QueryKind::Listing => true,
        }
    }
}

/// Seconds that one attempt on an upstream cache may take.
pub const ATTEMPT_TIMEOUT_SECS: u64 = 5;

/// How one attempt on an upstream cache ended.
#[derive(Debug, PartialEq, Eq)]
pub enum FetchOutcome {
    /// No answer came: the request could not be made or sent, or it timed out.
    Failed,
    /// An answer came, with this status and these headers.
    Replied { status: u16, content_type: Option<String>, content_encoding: Option<String> },
}

pub enum FetchOutcomeView {
    Failed,
    Replied { status: u16, content_type: Option<Seq<char>>, content_encoding: Option<Seq<char>> },
}

impl View for FetchOutcome {
    type V = FetchOutcomeView;

    open spec fn view(&self) -> FetchOutcomeView {
        match self {
            FetchOutcome::Failed => FetchOutcomeView::Failed,
            FetchOutcome::Replied { status, content_type, content_encoding } => {
                FetchOutcomeView::Replied {
                    status: *status,
                    content_type: content_type.deep_view(),
                    content_encoding: content_encoding.deep_view(),
                }
            },
        }
    }
}

/// Whether an attempt ended in an answer that is relayed: status 200 and exactly the content
/// type of the query's shape. An info record is relayed as text only, so nothing is acceptable
/// for an info query that asked for the structured form.
pub open spec fn acceptable(kind: QueryKind, want_json: bool, outcome: FetchOutcomeView) -> bool {
    &&& outcome matches FetchOutcomeView::Replied { status, content_type, .. }
    &&& status == 200
    &&& content_type == Some(accepted_type_of(kind))
    &&& !(kind == QueryKind::Info && want_json)
}

/// The content encoding that goes out with a relayed answer.
pub open spec fn relayed_encoding(kind: QueryKind, outcome: FetchOutcomeView) -> Option<Seq<char>> {
    match outcome {
        FetchOutcomeView::Replied { content_encoding, .. } if kind == QueryKind::Listing => {
            content_encoding
        },
        _ => None,
    }
}

/// The path that is asked of an upstream cache: the path of its base URL, `/` where that has
/// none, then the key and the suffix of the query's shape.
pub open spec fn target_path(base: Option<Seq<char>>, key: Seq<char>, kind: QueryKind) -> Seq<char> {
    (match base {
        Some(path) => path,
        None => "/"@,
    }) + key + suffix_of(kind)
}

/// Decides whether the answer of an upstream cache is relayed.
pub fn accepts(kind: QueryKind, want_json: bool, outcome: &FetchOutcome) -> (b: bool)
    ensures
        b == acceptable(kind, want_json, outcome@),
{
    match outcome {
        FetchOutcome::Failed => false,
        FetchOutcome::Replied { status, content_type, .. } => {
            if *status != 200 {
                return false;
            }
            let structured_info = match kind {
                QueryKind::Info => want_json,
                QueryKind::Listing => false,
            };
            if structured_info {
                return false;
            }
            match content_type {
                Some(declared) => same_text(declared.as_str(), kind.accepted_type()),
                None => false,
            }
        },
    }
}

/// Builds the path that is asked of an upstream cache whose base URL has the path `base`.
pub fn upstream_path(base: &Option<String>, key: &str, kind: QueryKind) -> (path: String)
    ensures
        path@ == target_path(base.deep_view(), key@, kind),
{
    let mut path = match base {
        Some(prefix) => String::from_str(prefix.as_str()),
        None => String::from_str("/"),
    };
    path.append(key);
    path.append(kind.suffix());
    path
}

/// Unless an info record is asked for in structured form, an answer is relayed exactly when
/// its status is 200 and it declares the content type of the query's shape; an attempt that
/// brought no answer never is.
pub proof fn lemma_acceptable_means_ok_and_typed(
    kind: QueryKind,
    want_json: bool,
    status: u16,
    content_type: Option<Seq<char>>,
    content_encoding: Option<Seq<char>>,
)
    requires
        !(kind == QueryKind::Info && want_json),
    ensures
        acceptable(
            kind,
            want_json,
            FetchOutcomeView::Replied { status, content_type, content_encoding },
        ) <==> status == 200 && content_type == Some(accepted_type_of(kind)),
        !acceptable(kind, want_json, FetchOutcomeView::Failed),
{
}

} // verus!
