use crate::narinfo::narinfo_of;
use crate::fingerprint::needs_conversion;
use crate::query::{
    asks_store, begin, fetch_of, fingerprint_in, finish, next, relay_from, sign_from, signing,
    well_formed_key, QueryView, ReplyView, RequestView, Stage, StepView,
};
use crate::relay::{
    acceptable, accepted_type_of, miss_body_of, relayed_encoding, FetchOutcomeView,
};
use crate::response::{cache_of, status_of, CacheControl, ResponseView};
use vstd::prelude::*;

verus! {

/// Where a step leads when the replies are handed in one after the other. Once the answer is
/// there, further replies are left unread.
pub open spec fn run(step: StepView, replies: Seq<ReplyView>) -> StepView
    decreases replies.len(),
{
    match step {
        StepView::Ask(q, _) if replies.len() > 0 => run(
            next(q, replies[0]),
            replies.drop_first(),
        ),
        _ => step,
    }
}

/// The requests that are made, in order, while the replies are handed in one after the other,
/// the request of `step` itself included.
pub open spec fn requests(step: StepView, replies: Seq<ReplyView>) -> Seq<RequestView>
    decreases replies.len(),
{
    match step {
        StepView::Ask(q, request) => if replies.len() > 0 {
            seq![request] + requests(next(q, replies[0]), replies.drop_first())
        } else {
            seq![request]
        },
        StepView::Done(_) => Seq::empty(),
    }
}

/// The replies that report the outcomes of attempts on upstream caches.
pub open spec fn upstream_replies(outcomes: Seq<FetchOutcomeView>) -> Seq<ReplyView> {
    Seq::new(outcomes.len(), |i: int| ReplyView::Upstream(outcomes[i]))
}

/// The replies that report signatures made by the store.
pub open spec fn signature_replies(sigs: Seq<Seq<char>>) -> Seq<ReplyView> {
    Seq::new(sigs.len(), |i: int| ReplyView::Signature(Ok(sigs[i])))
}

/// Whether none of the outcomes is relayed by the query.
pub open spec fn all_rejected(q: QueryView, outcomes: Seq<FetchOutcomeView>) -> bool {
    forall|i: int|
        0 <= i < outcomes.len() ==> !acceptable(q.kind, q.want_json, #[trigger] outcomes[i])
}

/// Whether a step belongs to the relay: it is the answer, or a request to an upstream cache.
pub open spec fn relaying(step: StepView) -> bool {
    match step {
        StepView::Ask(q, request) => q.stage == Stage::Relay && request is Fetch,
        StepView::Done(_) => true,
    }
}

proof fn lemma_relay_asks_no_store(step: StepView, replies: Seq<ReplyView>)
    requires
        relaying(step),
    ensures
        forall|i: int|
            0 <= i < requests(step, replies).len() ==> !asks_store(
                #[trigger] requests(step, replies)[i],
            ),
    decreases replies.len(),
{
    match step {
        StepView::Ask(q, request) => {
            if replies.len() > 0 {
                let after = next(q, replies[0]);
                let rest = replies.drop_first();
                assert(relaying(after));
                lemma_relay_asks_no_store(after, rest);
                let all = requests(step, replies);
                assert(all == seq![request] + requests(after, rest));
                assert forall|i: int| 0 <= i < all.len() implies !asks_store(#[trigger] all[i]) by {
                    if i > 0 {
                        assert(all[i] == requests(after, rest)[i - 1]);
                    }
                }
            }
        },
        StepView::Done(_) => {},
    }
}

/// A key that is not well formed is never put to the store. The query turns to the first
/// upstream cache at once, and whatever replies come in, none of its requests goes to the
/// store.
pub proof fn lemma_malformed_key_bypasses_store(q: QueryView, replies: Seq<ReplyView>)
    requires
        !well_formed_key(q.key),
    ensures
        begin(q) == relay_from(q, 0),
        forall|i: int|
            0 <= i < requests(begin(q), replies).len() ==> !asks_store(
                #[trigger] requests(begin(q), replies)[i],
            ),
{
    lemma_relay_asks_no_store(begin(q), replies);
}

proof fn lemma_rejections_lead_on(q: QueryView, start: int, outcomes: Seq<FetchOutcomeView>)
    requires
        0 <= start,
        start + outcomes.len() <= q.upstreams.len(),
        all_rejected(q, outcomes),
    ensures
        run(relay_from(q, start), upstream_replies(outcomes)) == relay_from(
            q,
            start + outcomes.len(),
        ),
        requests(relay_from(q, start), upstream_replies(outcomes)) =~= Seq::new(
            if start + outcomes.len() < q.upstreams.len() {
                outcomes.len() + 1
            } else {
                outcomes.len()
            },
            |i: int| fetch_of(q, start + i),
        ),
    decreases outcomes.len(),
{
    let replies = upstream_replies(outcomes);
    if outcomes.len() > 0 {
        let asked = QueryView { stage: Stage::Relay, next: start, ..q };
        assert(relay_from(q, start) == StepView::Ask(asked, fetch_of(q, start)));
        assert(!acceptable(q.kind, q.want_json, outcomes[0]));
        assert(next(asked, replies[0]) == relay_from(asked, start + 1));
        assert(relay_from(asked, start + 1) == relay_from(q, start + 1));
        let rest = outcomes.drop_first();
        assert(replies.drop_first() =~= upstream_replies(rest));
        assert(all_rejected(q, rest)) by {
            assert forall|i: int| 0 <= i < rest.len() implies !acceptable(
                q.kind,
                q.want_json,
                #[trigger] rest[i],
            ) by {
                assert(rest[i] == outcomes[i + 1]);
            }
        }
        lemma_rejections_lead_on(q, start + 1, rest);
    }
}

/// Upstream caches are asked strictly in the order in which they were configured. While no
/// answer is acceptable, attempt number `i` goes to cache number `i`, and after `n` attempts
/// have been rejected the query stands at cache number `n`: it asks it if there is one. So a
/// first cache that answers with another content type does not end the relay; the second cache
/// is asked.
pub proof fn lemma_relay_keeps_configured_order(q: QueryView, outcomes: Seq<FetchOutcomeView>)
    requires
        outcomes.len() < q.upstreams.len(),
        all_rejected(q, outcomes),
    ensures
        run(relay_from(q, 0), upstream_replies(outcomes)) == StepView::Ask(
            QueryView { stage: Stage::Relay, next: outcomes.len() as int, ..q },
            fetch_of(q, outcomes.len() as int),
        ),
        requests(relay_from(q, 0), upstream_replies(outcomes)) =~= Seq::new(
            outcomes.len() + 1,
            |i: int| fetch_of(q, i),
        ),
{
    lemma_rejections_lead_on(q, 0, outcomes);
}

proof fn lemma_run_splits(step: StepView, first: Seq<ReplyView>, second: Seq<ReplyView>)
    ensures
        run(step, first + second) == run(run(step, first), second),
    decreases first.len(),
{
    if first.len() == 0 {
        assert(first + second =~= second);
    } else {
        match step {
            StepView::Ask(q, _) => {
                assert((first + second).drop_first() =~= first.drop_first() + second);
                lemma_run_splits(next(q, first[0]), first.drop_first(), second);
            },
            StepView::Done(_) => {},
        }
    }
}

/// The first acceptable answer is the one that is relayed, and the relay ends with it. When
/// the caches before it were rejected, the answer of the query is the body of that cache, with
/// the content type of the query's shape. Whatever is handed in afterwards changes nothing: no
/// further cache is asked.
pub proof fn lemma_first_acceptable_is_relayed(
    q: QueryView,
    rejected: Seq<FetchOutcomeView>,
    accepted: FetchOutcomeView,
    later: Seq<ReplyView>,
)
    requires
        rejected.len() < q.upstreams.len(),
        all_rejected(q, rejected),
        acceptable(q.kind, q.want_json, accepted),
    ensures
        run(relay_from(q, 0), upstream_replies(rejected.push(accepted)) + later) == StepView::Done(
            ResponseView::Relayed {
                endpoint: rejected.len() as int,
                content_type: accepted_type_of(q.kind),
                content_encoding: relayed_encoding(q.kind, accepted),
            },
        ),
{
    let n = rejected.len() as int;
    let start = relay_from(q, 0);
    let last = seq![ReplyView::Upstream(accepted)];
    assert(upstream_replies(rejected.push(accepted)) + later =~= upstream_replies(rejected) + (last
        + later));
    lemma_run_splits(start, upstream_replies(rejected), last + later);
    lemma_rejections_lead_on(q, 0, rejected);
    let asked = QueryView { stage: Stage::Relay, next: n, ..q };
    let standing = StepView::Ask(asked, fetch_of(q, n));
    assert(run(start, upstream_replies(rejected)) == standing);
    assert((last + later)[0] == ReplyView::Upstream(accepted));
    let answer = next(asked, ReplyView::Upstream(accepted));
    assert(answer is Done);
    assert(run(standing, last + later) == run(answer, (last + later).drop_first()));
    assert(run(answer, (last + later).drop_first()) == answer);
}

/// When every configured upstream cache has been asked and none gave an acceptable answer,
/// the query ends as a miss, however many caches there are: each was asked once, in order, and
/// the one answer is a 404 that no cache may keep.
pub proof fn lemma_exhaustion_is_a_miss(q: QueryView, outcomes: Seq<FetchOutcomeView>)
    requires
        outcomes.len() == q.upstreams.len(),
        all_rejected(q, outcomes),
    ensures
        run(relay_from(q, 0), upstream_replies(outcomes)) == StepView::Done(
            ResponseView::NotFound { body: miss_body_of(q.kind) },
        ),
        status_of(ResponseView::NotFound { body: miss_body_of(q.kind) }) == 404,
        cache_of(ResponseView::NotFound { body: miss_body_of(q.kind) }) == Some(
            CacheControl::NoStore,
        ),
        requests(relay_from(q, 0), upstream_replies(outcomes)) =~= Seq::new(
            outcomes.len(),
            |i: int| fetch_of(q, i),
        ),
{
    lemma_rejections_lead_on(q, 0, outcomes);
}

/// The request to sign `message` with signing key number `i`.
pub open spec fn sign_with(q: QueryView, i: int, message: Seq<char>) -> RequestView {
    RequestView::Sign { key: q.sign_keys[i], message }
}

proof fn lemma_remaining_keys_sign(q: QueryView, rest: Seq<Seq<char>>)
    requires
        q.stage == Stage::Sign,
        0 <= q.next,
        rest.len() >= 1,
        q.next + rest.len() == q.sign_keys.len(),
    ensures
        run(
            StepView::Ask(q, sign_with(q, q.next, q.fingerprint)),
            signature_replies(rest),
        ) == finish(q, Some(q.sigs + rest)),
        requests(
            StepView::Ask(q, sign_with(q, q.next, q.fingerprint)),
            signature_replies(rest),
        ) =~= Seq::new(rest.len(), |i: int| sign_with(q, q.next + i, q.fingerprint)),
    decreases rest.len(),
{
    let replies = signature_replies(rest);
    let step = StepView::Ask(q, sign_with(q, q.next, q.fingerprint));
    let sigs = q.sigs.push(rest[0]);
    let after = next(q, replies[0]);
    assert(replies[0] == ReplyView::Signature(Ok(rest[0])));
    assert(run(step, replies) == run(after, replies.drop_first()));
    let asked = requests(step, replies);
    let wanted = Seq::new(rest.len(), |i: int| sign_with(q, q.next + i, q.fingerprint));
    assert(asked == seq![sign_with(q, q.next, q.fingerprint)] + requests(
        after,
        replies.drop_first(),
    ));
    if rest.len() == 1 {
        assert(sigs =~= q.sigs + rest);
        assert(after == finish(q, Some(sigs)));
        assert(asked =~= wanted);
    } else {
        let q2 = QueryView { sigs, next: q.next + 1, ..q };
        assert(after == StepView::Ask(q2, sign_with(q2, q2.next, q2.fingerprint)));
        assert(replies.drop_first() =~= signature_replies(rest.drop_first()));
        lemma_remaining_keys_sign(q2, rest.drop_first());
        assert(sigs + rest.drop_first() =~= q.sigs + rest);
        assert(finish(q2, Some(q.sigs + rest)) == finish(q, Some(q.sigs + rest)));
        let later = requests(after, replies.drop_first());
        assert forall|i: int| 0 <= i < wanted.len() implies asked[i] == wanted[i] by {
            if i > 0 {
                assert(asked[i] == later[i - 1]);
                assert(later[i - 1] == sign_with(q2, q2.next + (i - 1), q2.fingerprint));
            }
        }
        assert(asked =~= wanted);
    }
}

/// Signing replaces the signatures of the store. When at least one signing key is configured
/// and the path has a fingerprint, the store is asked for its directory, then every key signs
/// the fingerprint, in configured order, and the record that is served carries exactly the
/// signatures that came back, in that order: none that the store had reported of the path.
pub proof fn lemma_signing_replaces_store_signatures(
    q: QueryView,
    root: Seq<char>,
    message: Seq<char>,
    sigs: Seq<Seq<char>>,
)
    requires
        q.sign_keys.len() >= 1,
        sigs.len() == q.sign_keys.len(),
        !needs_conversion(root, q.store_path, q.info.narhash),
        fingerprint_in(QueryView { root, ..q }, q.info.narhash) == Some(message),
    ensures
        run(signing(q), seq![ReplyView::StoreDir(root)] + signature_replies(sigs)) == finish(
            q,
            Some(sigs),
        ),
        requests(signing(q), seq![ReplyView::StoreDir(root)] + signature_replies(sigs))
            =~= seq![RequestView::StoreDir] + Seq::new(
            sigs.len(),
            |i: int| sign_with(q, i, message),
        ),
        narinfo_of(q.store_path, q.key, q.info, q.system, Some(sigs)).sigs == sigs,
{
    let replies = seq![ReplyView::StoreDir(root)] + signature_replies(sigs);
    let asked = QueryView { stage: Stage::StoreDir, ..q };
    assert(signing(q) == StepView::Ask(asked, RequestView::StoreDir));
    let rooted = QueryView { root, ..asked };
    let signer = QueryView {
        stage: Stage::Sign,
        fingerprint: message,
        sigs: Seq::empty(),
        next: 0,
        ..rooted
    };
    assert(fingerprint_in(rooted, rooted.info.narhash) == Some(message));
    assert(replies[0] == ReplyView::StoreDir(root));
    let first = StepView::Ask(signer, sign_with(signer, 0, message));
    assert(next(asked, replies[0]) == sign_from(rooted, Some(message)));
    assert(sign_from(rooted, Some(message)) == first);
    assert(replies.drop_first() =~= signature_replies(sigs));
    lemma_remaining_keys_sign(signer, sigs);
    assert(signer.sigs + sigs =~= sigs);
    assert(finish(signer, Some(sigs)) == finish(q, Some(sigs)));
    assert(run(signing(q), replies) == run(first, signature_replies(sigs)));
    assert(requests(signing(q), replies) == seq![RequestView::StoreDir] + requests(
        first,
        signature_replies(sigs),
    ));
}

/// Where signing keys are configured but the path has no fingerprint, nothing is signed, and
/// the record is served without any signature: those of the store are not carried either.
pub proof fn lemma_no_fingerprint_no_signature(q: QueryView)
    ensures
        sign_from(q, None) == finish(q, Some(Seq::empty())),
        narinfo_of(q.store_path, q.key, q.info, q.system, Some(Seq::empty())).sigs.len() == 0,
{
}

/// Where no signing key is configured, the store is asked for nothing more once the record is
/// complete, and the record carries the signatures that the store reported of the path.
pub proof fn lemma_store_signatures_without_keys(q: QueryView)
    requires
        q.sign_keys.len() == 0,
    ensures
        signing(q) == finish(q, None),
        narinfo_of(q.store_path, q.key, q.info, q.system, None).sigs == q.info.sigs,
{
}

} // verus!
