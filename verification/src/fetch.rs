use crate::secrets::{lemma_map_of_append, map_of, Secret, SecretsMap};
use vstd::prelude::*;

verus! {

/// The handle under which the store lists a secret, used only to drive the
/// later get call; its text is the store's identifier for the secret.
pub struct SecretId {
    pub raw: String,
}

impl View for SecretId {
    type V = Seq<char>;

    open spec fn view(&self) -> Seq<char> {
        self.raw@
    }
}

/// Which stage of the fetch failed.
#[derive(Clone, Copy, PartialEq, Eq, Structural, Debug)]
pub enum FetchFailure {
    /// The access token was rejected or authentication did not complete.
    Auth,
    /// Listing the project's secret identifiers failed.
    List,
    /// Fetching one of the listed secrets failed.
    Get,
}

/// The abstract state of a fetch: not yet authenticated, authenticated,
/// working through the listed identifiers, finished with a full secrets map,
/// or failed for good.
pub enum FetchModel {
    Start,
    LoggedIn,
    Fetching { remaining: Seq<Seq<char>>, acc: Map<Seq<char>, Seq<char>> },
    Done { secrets: Map<Seq<char>, Seq<char>> },
    Failed { failure: FetchFailure },
}

/// What the outside world reports back to the fetcher.
pub enum FetchEventModel {
    LoginOk,
    LoginFailed,
    Listed(Seq<Seq<char>>),
    ListFailed,
    Got(Seq<char>, Seq<char>),
    GetFailed,
}

/// The next request the fetch needs the outside world to perform.
#[derive(Clone, Copy, PartialEq, Eq, Structural, Debug)]
pub enum FetchAction {
    /// Authenticate with the access token.
    Login,
    /// List the project's secret identifiers.
    List,
    /// Fetch the secret behind the current identifier.
    Get,
    /// Nothing left to do: the secrets map is complete.
    Finish,
    /// Nothing left to do: the fetch failed and no secrets are handed out.
    Abort,
}

/// How the fetch advances on an event. An event that does not belong to the
/// current state changes nothing; a failure at any stage is terminal.
pub open spec fn fetch_step(m: FetchModel, ev: FetchEventModel) -> FetchModel {
    match (m, ev) {
        (FetchModel::Start, FetchEventModel::LoginOk) => FetchModel::LoggedIn,
        (FetchModel::Start, FetchEventModel::LoginFailed) => FetchModel::Failed {
            failure: FetchFailure::Auth,
        },
        (FetchModel::LoggedIn, FetchEventModel::Listed(ids)) => if ids.len() == 0 {
            FetchModel::Done { secrets: Map::empty() }
        } else {
            FetchModel::Fetching { remaining: ids, acc: Map::empty() }
        },
        (FetchModel::LoggedIn, FetchEventModel::ListFailed) => FetchModel::Failed {
            failure: FetchFailure::List,
        },
        (FetchModel::Fetching { remaining, acc }, FetchEventModel::Got(k, v)) => if remaining.len()
            <= 1 {
            FetchModel::Done { secrets: acc.insert(k, v) }
        } else {
            FetchModel::Fetching { remaining: remaining.drop_first(), acc: acc.insert(k, v) }
        },
        (FetchModel::Fetching { .. }, FetchEventModel::GetFailed) => FetchModel::Failed {
            failure: FetchFailure::Get,
        },
        (state, _) => state,
    }
}

/// The request each state calls for.
pub open spec fn fetch_action(m: FetchModel) -> FetchAction {
    match m {
        FetchModel::Start => FetchAction::Login,
        FetchModel::LoggedIn => FetchAction::List,
        FetchModel::Fetching { .. } => FetchAction::Get,
        FetchModel::Done { .. } => FetchAction::Finish,
        FetchModel::Failed { .. } => FetchAction::Abort,
    }
}

/// The event a listing result stands for.
pub open spec fn listed_event(ids: Option<Vec<SecretId>>) -> FetchEventModel {
    match ids {
        Some(v) => FetchEventModel::Listed(v@.map_values(|s: SecretId| s@)),
        None => FetchEventModel::ListFailed,
    }
}

/// The event a get result stands for.
pub open spec fn got_event(res: Option<Secret>) -> FetchEventModel {
    match res {
        Some(s) => FetchEventModel::Got(s.key@, s.value@),
        None => FetchEventModel::GetFailed,
    }
}

enum Phase {
    Start,
    LoggedIn,
    Fetching,
    Done,
    Failed,
}

/// Orchestrates the store calls for one launch: log in once, list the
/// project's identifiers, fetch every listed secret, and assemble the map;
/// any failure aborts the whole fetch.
pub struct SecretFetcher {
    phase: Phase,
    failure: FetchFailure,
    pending: Vec<SecretId>,
    next: usize,
    acc: SecretsMap,
}

impl View for SecretFetcher {
    type V = FetchModel;

    closed spec fn view(&self) -> FetchModel {
        match self.phase {
            Phase::Start => FetchModel::Start,
            Phase::LoggedIn => FetchModel::LoggedIn,
            Phase::Fetching => FetchModel::Fetching {
                remaining: self.pending@.skip(self.next as int).map_values(|s: SecretId| s@),
                acc: self.acc@,
            },
            Phase::Done => FetchModel::Done { secrets: self.acc@ },
            Phase::Failed => FetchModel::Failed { failure: self.failure },
        }
    }
}

impl SecretFetcher {
    /// The fetcher never runs past its list of identifiers.
    pub closed spec fn wf(self) -> bool {
        self.phase is Fetching ==> self.next < self.pending@.len()
    }

    pub fn new() -> (r: SecretFetcher)
        ensures
            r@ == FetchModel::Start,
            r.wf(),
    {
        SecretFetcher {
            phase: Phase::Start,
            failure: FetchFailure::Auth,
            pending: Vec::new(),
            next: 0,
            acc: SecretsMap::new(),
        }
    }

    /// The request to perform next.
    pub fn next_action(&self) -> (a: FetchAction)
        ensures
            a == fetch_action(self@),
    {
        match self.phase {
            Phase::Start => FetchAction::Login,
            Phase::LoggedIn => FetchAction::List,
            Phase::Fetching => FetchAction::Get,
            Phase::Done => FetchAction::Finish,
            Phase::Failed => FetchAction::Abort,
        }
    }

    /// Record whether authentication succeeded.
    pub fn on_login(&mut self, ok: bool)
        requires
            old(self)@ is Start,
            old(self).wf(),
        ensures
            final(self)@ == fetch_step(
                old(self)@,
                if ok {
                    FetchEventModel::LoginOk
                } else {
                    FetchEventModel::LoginFailed
                },
            ),
            final(self).wf(),
    {
        if ok {
            self.phase = Phase::LoggedIn;
        } else {
            self.phase = Phase::Failed;
            self.failure = FetchFailure::Auth;
        }
    }

    /// Record the outcome of listing the project's secret identifiers; an
    /// empty list is a valid, complete result.
    pub fn on_listed(&mut self, ids: Option<Vec<SecretId>>)
        requires
            old(self)@ is LoggedIn,
            old(self).wf(),
        ensures
            final(self)@ == fetch_step(old(self)@, listed_event(ids)),
            final(self).wf(),
    {
        match ids {
            None => {
                self.phase = Phase::Failed;
                self.failure = FetchFailure::List;
            },
            Some(v) => {
                self.acc = SecretsMap::new();
                self.next = 0;
                let has_any = v.len() > 0;
                self.pending = v;
                if has_any {
                    self.phase = Phase::Fetching;
                    proof {
                        assert(self.pending@.skip(0).map_values(|s: SecretId| s@)
                            =~= self.pending@.map_values(|s: SecretId| s@));
                    }
                } else {
                    self.phase = Phase::Done;
                }
            },
        }
    }

    /// The identifier whose secret is to be fetched next.
    pub fn current_id(&self) -> (r: &SecretId)
        requires
            self@ is Fetching,
            self.wf(),
        ensures
            match self@ {
                FetchModel::Fetching { remaining, .. } => remaining.len() > 0 && r@
                    == remaining[0],
                _ => false,
            },
    {
        &self.pending[self.next]
    }

    /// Record the outcome of fetching one secret: keep its key and value, or
    /// abort the whole fetch on the first failure.
    pub fn on_secret(&mut self, res: Option<Secret>)
        requires
            old(self)@ is Fetching,
            old(self).wf(),
        ensures
            final(self)@ == fetch_step(old(self)@, got_event(res)),
            final(self).wf(),
    {
        match res {
            None => {
                self.phase = Phase::Failed;
                self.failure = FetchFailure::Get;
            },
            Some(s) => {
                let ghost before = self.pending@.skip(self.next as int).map_values(
                    |x: SecretId| x@,
                );
                self.acc.insert(s.key, s.value);
                proof {
                    assert(old(self).phase is Fetching) by {
                        match old(self).phase {
                            Phase::Fetching => {},
                            _ => {
                                assert(!(old(self)@ is Fetching));
                            },
                        }
                    }
                    assert(self.next < self.pending@.len());
                }
                let len = self.pending.len();
                if self.next == len - 1 {
                    self.phase = Phase::Done;
                } else {
                    self.next = self.next + 1;
                    proof {
                        assert(self.pending@.skip(self.next as int).map_values(|x: SecretId| x@)
                            =~= before.drop_first());
                    }
                }
            },
        }
    }

    /// Whether the fetch has completed with a full secrets map.
    pub fn is_done(&self) -> (b: bool)
        ensures
            b == (self@ is Done),
    {
        match self.phase {
            Phase::Done => true,
            _ => false,
        }
    }

    /// Whether the fetch has failed for good.
    pub fn is_failed(&self) -> (b: bool)
        ensures
            b == (self@ is Failed),
    {
        match self.phase {
            Phase::Failed => true,
            _ => false,
        }
    }

    /// Which stage failed.
    pub fn failure_kind(&self) -> (f: FetchFailure)
        requires
            self@ is Failed,
        ensures
            self@ == (FetchModel::Failed { failure: f }),
    {
        self.failure
    }

    /// Hand the assembled secrets out; only a completed fetch has any.
    pub fn take_secrets(self) -> (r: SecretsMap)
        requires
            self@ is Done,
        ensures
            match self@ {
                FetchModel::Done { secrets } => r@ == secrets,
                _ => false,
            },
    {
        self.acc
    }
}

/// The state a fetch reaches after a whole run of events.
pub open spec fn fetch_run(m: FetchModel, evs: Seq<FetchEventModel>) -> FetchModel
    decreases evs.len(),
{
    if evs.len() == 0 {
        m
    } else {
        fetch_run(fetch_step(m, evs[0]), evs.drop_first())
    }
}

/// The events of getting these key/value pairs back, one per listed
/// identifier, in retrieval order.
pub open spec fn got_events(pairs: Seq<(Seq<char>, Seq<char>)>) -> Seq<FetchEventModel> {
    pairs.map_values(|p: (Seq<char>, Seq<char>)| FetchEventModel::Got(p.0, p.1))
}

/// Working through the remaining identifiers with one got secret each ends
/// the fetch with the accumulated map extended by those pairs, later pairs
/// winning.
proof fn lemma_fetch_drain(
    remaining: Seq<Seq<char>>,
    acc: Map<Seq<char>, Seq<char>>,
    pairs: Seq<(Seq<char>, Seq<char>)>,
)
    requires
        remaining.len() == pairs.len(),
        remaining.len() > 0,
    ensures
        fetch_run(FetchModel::Fetching { remaining, acc }, got_events(pairs))
            == (FetchModel::Done { secrets: acc.union_prefer_right(map_of(pairs)) }),
    decreases pairs.len(),
{
    let k0 = pairs[0].0;
    let v0 = pairs[0].1;
    let rest = pairs.drop_first();
    let m0 = FetchModel::Fetching { remaining, acc };
    let evs = got_events(pairs);
    assert(evs[0] == FetchEventModel::Got(k0, v0));
    assert(evs.drop_first() =~= got_events(rest));
    assert(fetch_run(m0, evs) == fetch_run(fetch_step(m0, evs[0]), evs.drop_first()));
    assert(pairs =~= seq![pairs[0]] + rest);
    lemma_map_of_append(seq![pairs[0]], rest);
    let single = seq![pairs[0]];
    assert(single.drop_last() =~= Seq::<(Seq<char>, Seq<char>)>::empty());
    assert(map_of(single.drop_last()) == Map::<Seq<char>, Seq<char>>::empty());
    assert(map_of(single) == map_of(single.drop_last()).insert(single.last().0, single.last().1));
    assert(map_of(single) == Map::<Seq<char>, Seq<char>>::empty().insert(k0, v0));
    if remaining.len() <= 1 {
        assert(fetch_step(m0, evs[0]) == (FetchModel::Done { secrets: acc.insert(k0, v0) }));
        assert(rest.len() == 0);
        assert(got_events(rest).len() == 0);
        assert(fetch_run(FetchModel::Done { secrets: acc.insert(k0, v0) }, got_events(rest))
            == (FetchModel::Done { secrets: acc.insert(k0, v0) }));
        assert(map_of(rest) =~= Map::<Seq<char>, Seq<char>>::empty());
        assert(acc.insert(k0, v0) =~= acc.union_prefer_right(map_of(pairs)));
    } else {
        let m1 = FetchModel::Fetching {
            remaining: remaining.drop_first(),
            acc: acc.insert(k0, v0),
        };
        assert(fetch_step(m0, evs[0]) == m1);
        lemma_fetch_drain(remaining.drop_first(), acc.insert(k0, v0), rest);
        assert(acc.insert(k0, v0).union_prefer_right(map_of(rest)) =~= acc.union_prefer_right(
            map_of(pairs),
        ));
    }
}

/// The assembled output: a fetch that logs in, lists `ids`, and gets one
/// secret back per identifier ends with exactly one entry per retrieved key,
/// a later retrieval of the same key overwriting the earlier one.
pub proof fn lemma_fetch_assembles_all(
    ids: Seq<Seq<char>>,
    pairs: Seq<(Seq<char>, Seq<char>)>,
)
    requires
        ids.len() == pairs.len(),
    ensures
        fetch_run(
            FetchModel::Start,
            seq![FetchEventModel::LoginOk, FetchEventModel::Listed(ids)] + got_events(pairs),
        ) == (FetchModel::Done { secrets: map_of(pairs) }),
{
    let evs = seq![FetchEventModel::LoginOk, FetchEventModel::Listed(ids)] + got_events(pairs);
    assert(evs[0] == FetchEventModel::LoginOk);
    assert(fetch_step(FetchModel::Start, evs[0]) == FetchModel::LoggedIn);
    assert(fetch_run(FetchModel::Start, evs) == fetch_run(FetchModel::LoggedIn, evs.drop_first()));
    let evs1 = evs.drop_first();
    assert(evs1[0] == FetchEventModel::Listed(ids));
    assert(evs1.drop_first() =~= got_events(pairs));
    assert(fetch_run(FetchModel::LoggedIn, evs1) == fetch_run(
        fetch_step(FetchModel::LoggedIn, evs1[0]),
        evs1.drop_first(),
    ));
    if ids.len() == 0 {
        assert(fetch_step(FetchModel::LoggedIn, evs1[0]) == (FetchModel::Done {
            secrets: Map::empty(),
        }));
        assert(got_events(pairs) =~= Seq::<FetchEventModel>::empty());
        assert(fetch_run(
            FetchModel::Done { secrets: Map::empty() },
            got_events(pairs),
        ) == (FetchModel::Done { secrets: Map::<Seq<char>, Seq<char>>::empty() }));
        assert(map_of(pairs) =~= Map::<Seq<char>, Seq<char>>::empty());
    } else {
        assert(fetch_step(FetchModel::LoggedIn, evs1[0]) == (FetchModel::Fetching {
            remaining: ids,
            acc: Map::empty(),
        }));
        lemma_fetch_drain(ids, Map::empty(), pairs);
        assert(Map::<Seq<char>, Seq<char>>::empty().union_prefer_right(map_of(pairs)) =~= map_of(
            pairs,
        ));
    }
}

/// Fail-fast: the first failed secret fetch is terminal, and a fetch that
/// went through it never reaches the state that hands a secrets map out.
pub proof fn lemma_fetch_fail_fast(m: FetchModel)
    requires
        m is Fetching,
    ensures
        fetch_step(m, FetchEventModel::GetFailed) == (FetchModel::Failed {
            failure: FetchFailure::Get,
        }),
        !(fetch_step(m, FetchEventModel::GetFailed) is Done),
{
}

/// A failed fetch stays failed: no later event revives it.
pub proof fn lemma_fetch_failed_terminal(m: FetchModel, ev: FetchEventModel)
    requires
        m is Failed,
    ensures
        fetch_step(m, ev) == m,
{
}

} // verus!
