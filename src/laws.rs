//! What holds of every session: routing, silence on lines that are not
//! queries, rejection, recovery after a failed connection, and a relay that
//! keeps the upstream's bytes exactly.

use vstd::prelude::*;

use crate::error::RWhoisError;
use crate::query::{
    labels, lemma_labels_last_dot, lemma_labels_no_dot, routable, run_len, suffix_of, tokens,
    white_space,
};
use crate::routes::UPSTREAM_PORT;
use crate::session::{awaits, rejection, transition, ActionModel, EventModel, PhaseModel};

verus! {

/// The phase and the actions of a session over table `t` that starts in
/// phase `p` and sees the events `es`, in order.
pub open spec fn run(t: Map<Seq<char>, Seq<char>>, p: PhaseModel, es: Seq<EventModel>) -> (
    PhaseModel,
    Seq<ActionModel>,
)
    decreases es.len(),
{
    if es.len() == 0 {
        (p, seq![])
    } else {
        let (q, a) = transition(t, p, es[0]);
        let (r, rest) = run(t, q, es.drop_first());
        (r, seq![a] + rest)
    }
}

/// The bytes that a list of actions writes to the client as relayed data.
pub open spec fn relayed(acts: Seq<ActionModel>) -> Seq<u8>
    decreases acts.len(),
{
    if acts.len() == 0 {
        seq![]
    } else {
        let head = match acts[0] {
            ActionModel::SendClient(b) => b,
            _ => seq![],
        };
        head + relayed(acts.drop_first())
    }
}

/// The events of a relay in which upstream sends `chunks`, each written to the
/// client in turn, and then closes.
pub open spec fn relay_events(chunks: Seq<Seq<u8>>) -> Seq<EventModel>
    decreases chunks.len(),
{
    if chunks.len() == 0 {
        seq![EventModel::UpstreamClosed]
    } else {
        seq![EventModel::UpstreamData(chunks[0]), EventModel::Sent] + relay_events(
            chunks.drop_first(),
        )
    }
}

proof fn lemma_run_cons(
    t: Map<Seq<char>, Seq<char>>,
    p: PhaseModel,
    e: EventModel,
    es: Seq<EventModel>,
)
    ensures
        run(t, p, seq![e] + es) == (
            run(t, transition(t, p, e).0, es).0,
            seq![transition(t, p, e).1] + run(t, transition(t, p, e).0, es).1,
        ),
{
    assert((seq![e] + es)[0] == e);
    assert((seq![e] + es).drop_first() =~= es);
}

proof fn lemma_relayed_cons(a: ActionModel, acts: Seq<ActionModel>)
    ensures
        relayed(seq![a] + acts) == (match a {
            ActionModel::SendClient(b) => b,
            _ => seq![],
        }) + relayed(acts),
{
    assert((seq![a] + acts)[0] == a);
    assert((seq![a] + acts).drop_first() =~= acts);
}

proof fn lemma_tokens_one_run(s: Seq<char>)
    requires
        s.len() > 0,
        forall|k: int| 0 <= k < s.len() ==> !white_space(#[trigger] s[k]),
    ensures
        tokens(s) == seq![s],
    decreases s.len(),
{
    lemma_run_len_all(s);
    assert(s.take(s.len() as int) =~= s);
    assert(s.skip(s.len() as int) =~= Seq::<char>::empty());
    assert(tokens(Seq::<char>::empty()) == Seq::<Seq<char>>::empty());
    assert(tokens(s) == seq![s] + tokens(s.skip(s.len() as int)));
    assert(tokens(s) =~= seq![s]);
}

proof fn lemma_run_len_all(s: Seq<char>)
    requires
        forall|k: int| 0 <= k < s.len() ==> !white_space(#[trigger] s[k]),
    ensures
        run_len(s) == s.len(),
    decreases s.len(),
{
    if s.len() > 0 {
        let u = s.drop_first();
        assert forall|k: int| 0 <= k < u.len() implies !white_space(#[trigger] u[k]) by {
            assert(u[k] == s[k + 1]);
        }
        lemma_run_len_all(u);
    }
}

/// A query `name.S`, free of whitespace, whose suffix `S` has a route to `U` makes the session
/// connect to `U` on the upstream port, with `name.S` as the query it will
/// forward.
pub proof fn law_routed_query_connects(
    t: Map<Seq<char>, Seq<char>>,
    name: Seq<char>,
    suffix: Seq<char>,
)
    requires
        t.contains_key(suffix),
        forall|k: int|
            0 <= k < (name + "."@ + suffix).len() ==> !white_space(#[trigger] (name + "."@ + suffix)[k]),
        forall|k: int| 0 <= k < suffix.len() ==> #[trigger] suffix[k] != '.',
    ensures
        transition(t, PhaseModel::Reading, EventModel::Line(name + "."@ + suffix)) == (
            PhaseModel::Connecting(name + "."@ + suffix),
            ActionModel::Connect(t[suffix], UPSTREAM_PORT),
        ),
{
    let l = name + seq!['.'] + suffix;
    assert(name + "."@ + suffix == l) by {
        reveal_strlit(".");
        assert("."@ =~= seq!['.']);
    }
    let d = name.len() as int;
    let nd = name + seq!['.'];
    assert(nd[d] == '.');
    assert(l[d] == '.');
    lemma_tokens_one_run(l);
    assert forall|j: int| d < j < l.len() implies l[j] != '.' by {
        assert(l[j] == suffix[j - d - 1]);
    }
    lemma_labels_last_dot(l, d);
    assert(l.skip(d + 1) =~= suffix);
}

/// Only a line read in the `Reading` phase can open a connection upstream,
/// and it opens one at most.
pub proof fn law_connect_only_on_line(
    t: Map<Seq<char>, Seq<char>>,
    p: PhaseModel,
    e: EventModel,
)
    ensures
        transition(t, p, e).1 is Connect ==> p is Reading && e is Line,
{
}

/// A single-token query whose trailing label has no route gets the rejection
/// text, and the session ends: it waits for nothing more.
pub proof fn law_unrouted_query_rejected(t: Map<Seq<char>, Seq<char>>, l: Seq<char>)
    requires
        routable(l),
        !t.contains_key(suffix_of(l)),
    ensures
        transition(t, PhaseModel::Reading, EventModel::Line(l)) == (
            PhaseModel::Closed,
            ActionModel::Reject(rejection(), RWhoisError::InvalidDomainError),
        ),
        forall|e: EventModel| !awaits(PhaseModel::Closed, e),
{
}

/// A line of more than one token is ignored: no connection, no reply, and
/// the session reads on.
pub proof fn law_many_tokens_ignored(t: Map<Seq<char>, Seq<char>>, l: Seq<char>)
    requires
        tokens(l).len() > 1,
    ensures
        transition(t, PhaseModel::Reading, EventModel::Line(l)) == (
            PhaseModel::Reading,
            ActionModel::ReadLine,
        ),
{
}

/// A line of one token without a dot is ignored: no connection, no reply,
/// and the session reads on.
pub proof fn law_dotless_token_ignored(t: Map<Seq<char>, Seq<char>>, l: Seq<char>)
    requires
        tokens(l).len() == 1,
        forall|k: int| 0 <= k < tokens(l)[0].len() ==> #[trigger] tokens(l)[0][k] != '.',
    ensures
        transition(t, PhaseModel::Reading, EventModel::Line(l)) == (
            PhaseModel::Reading,
            ActionModel::ReadLine,
        ),
{
    lemma_labels_no_dot(tokens(l)[0]);
    assert(labels(tokens(l)[0]).len() == 1);
}

/// Relaying keeps the upstream's bytes: whatever chunks upstream sends before
/// it closes, the client is sent exactly their concatenation, in order, and
/// the session then reads its next line.
pub proof fn law_relay_preserves_bytes(t: Map<Seq<char>, Seq<char>>, chunks: Seq<Seq<u8>>)
    ensures
        run(t, PhaseModel::Relaying, relay_events(chunks)).0 == PhaseModel::Reading,
        relayed(run(t, PhaseModel::Relaying, relay_events(chunks)).1) == chunks.flatten(),
    decreases chunks.len(),
{
    let es = relay_events(chunks);
    if chunks.len() == 0 {
        let none = Seq::<EventModel>::empty();
        assert(es =~= seq![EventModel::UpstreamClosed] + none);
        lemma_run_cons(t, PhaseModel::Relaying, EventModel::UpstreamClosed, none);
        let acts = seq![ActionModel::ReadLine] + Seq::<ActionModel>::empty();
        assert(run(t, PhaseModel::Relaying, es).1 == acts);
        lemma_relayed_cons(ActionModel::ReadLine, Seq::<ActionModel>::empty());
        assert(relayed(Seq::<ActionModel>::empty()) == Seq::<u8>::empty());
        assert(relayed(acts) =~= Seq::<u8>::empty());
        assert(chunks.flatten() == Seq::<u8>::empty());
    } else {
        let c = chunks[0];
        let tail = relay_events(chunks.drop_first());
        law_relay_preserves_bytes(t, chunks.drop_first());
        let rest = run(t, PhaseModel::Relaying, tail);
        assert(es =~= seq![EventModel::UpstreamData(c)] + (seq![EventModel::Sent] + tail));
        lemma_run_cons(t, PhaseModel::Relaying, EventModel::UpstreamData(c), seq![EventModel::Sent] + tail);
        lemma_run_cons(t, PhaseModel::Delivering, EventModel::Sent, tail);
        let acts = seq![ActionModel::SendClient(c)] + (seq![ActionModel::ReadUpstream] + rest.1);
        assert(run(t, PhaseModel::Relaying, es).1 == acts);
        lemma_relayed_cons(ActionModel::SendClient(c), seq![ActionModel::ReadUpstream] + rest.1);
        lemma_relayed_cons(ActionModel::ReadUpstream, rest.1);
        assert(relayed(seq![ActionModel::ReadUpstream] + rest.1) =~= relayed(rest.1));
        assert(chunks.flatten() == c + chunks.drop_first().flatten());
    }
}

/// A failed connection does not end the session: after it, a routed query
/// on the same connection is served as it would be on a fresh one.
pub proof fn law_session_survives_connect_failure(
    t: Map<Seq<char>, Seq<char>>,
    first: Seq<char>,
    l: Seq<char>,
)
    requires
        routable(l),
        t.contains_key(suffix_of(l)),
    ensures
        run(t, PhaseModel::Connecting(first), seq![EventModel::ConnectFailed, EventModel::Line(l)])
            == (
            PhaseModel::Connecting(tokens(l)[0]),
            seq![ActionModel::ReadLine, ActionModel::Connect(t[suffix_of(l)], UPSTREAM_PORT)],
        ),
{
    let none = Seq::<EventModel>::empty();
    let es = seq![EventModel::ConnectFailed] + (seq![EventModel::Line(l)] + none);
    assert(es =~= seq![EventModel::ConnectFailed, EventModel::Line(l)]);
    lemma_run_cons(t, PhaseModel::Connecting(first), EventModel::ConnectFailed, seq![EventModel::Line(l)] + none);
    lemma_run_cons(t, PhaseModel::Reading, EventModel::Line(l), none);
    assert(run(t, PhaseModel::Connecting(first), es).1 =~= seq![
        ActionModel::ReadLine,
        ActionModel::Connect(t[suffix_of(l)], UPSTREAM_PORT),
    ]);
}

} // verus!
