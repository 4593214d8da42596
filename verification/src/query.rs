//! The dispatcher core: the provider set, the registry that routes a query
//! by its optional prefix filter, and the engine that keeps at most one
//! query session live at a time.
//!
//! The engine models a session by its number: session `n` is the one opened
//! by the `n`th accepted submit.  The surrounding I/O layer pairs each
//! number with the real channel and cancellation handle it creates, performs
//! the fan-out the returned plan lists, and drops the old handles whenever a
//! new plan replaces them; a handle whose number the engine no longer
//! reports current is stale.

use vstd::prelude::*;

pub mod content_search;
pub mod file_search;
pub mod mock_engine;
pub mod wikipedia;

use crate::query::content_search::Rga;
use crate::query::file_search::Fzf;
use crate::query::mock_engine::MockEngine;
use crate::query::wikipedia::WikipediaEngine;
use crate::text::is_blank;
use crate::text::is_blank_spec;

verus! {

/// One registered search provider.
#[derive(Debug, Clone, Copy, PartialEq, Eq)]
pub enum EngineKind {
    Mock(MockEngine),
    Wikipedia(WikipediaEngine),
    Fzf(Fzf),
    Rga(Rga),
}

impl EngineKind {
    /// The provider's name.
    pub open spec fn name_spec(self) -> Seq<char> {
        match self {
            EngineKind::Mock(_) => "mock_engine"@,
            EngineKind::Wikipedia(_) => "wikipedia"@,
            EngineKind::Fzf(_) => "fzf"@,
            EngineKind::Rga(_) => "rga"@,
        }
    }

    /// The provider's routing prefix.
    pub open spec fn prefix_spec(self) -> Seq<char> {
        match self {
            EngineKind::Mock(_) => "@mk"@,
            EngineKind::Wikipedia(_) => "@wi"@,
            EngineKind::Fzf(_) => "@fzf"@,
            EngineKind::Rga(_) => "@rg"@,
        }
    }

    /// The provider's icon marker.
    pub open spec fn icon_spec(self) -> Seq<char> {
        match self {
            EngineKind::Mock(_) => "\u{f0911}"@,
            EngineKind::Wikipedia(_) => "\u{f05ac}"@,
            EngineKind::Fzf(_) => "\u{f15b}"@,
            EngineKind::Rga(_) => "\u{f021e}"@,
        }
    }

    /// The provider's name.
    pub fn name(&self) -> (r: &'static str)
        ensures
            r@ == self.name_spec(),
    {
        match self {
            EngineKind::Mock(e) => e.name(),
            EngineKind::Wikipedia(e) => e.name(),
            EngineKind::Fzf(e) => e.name(),
            EngineKind::Rga(e) => e.name(),
        }
    }

    /// The provider's routing prefix.
    pub fn prefix(&self) -> (r: &'static str)
        ensures
            r@ == self.prefix_spec(),
    {
        match self {
            EngineKind::Mock(e) => e.prefix(),
            EngineKind::Wikipedia(e) => e.prefix(),
            EngineKind::Fzf(e) => e.prefix(),
            EngineKind::Rga(e) => e.prefix(),
        }
    }

    /// The provider's icon marker.
    pub fn icon(&self) -> (r: &'static str)
        ensures
            r@ == self.icon_spec(),
    {
        match self {
            EngineKind::Mock(e) => e.icon(),
            EngineKind::Wikipedia(e) => e.icon(),
            EngineKind::Fzf(e) => e.icon(),
            EngineKind::Rga(e) => e.icon(),
        }
    }
}

/// The providers registered under one routing prefix, in registration order.
#[derive(Debug, Clone, PartialEq, Eq)]
pub struct EngineEntry {
    pub prefix: String,
    pub engines: Vec<EngineKind>,
}

/// The registry: routing prefixes in first-registration order, each with its
/// providers in registration order.  Built once at startup, read-only
/// afterwards.
#[derive(Debug, Clone, PartialEq, Eq)]
pub struct EngineCollection {
    pub entries: Vec<EngineEntry>,
}

/// The index of the entry registered under prefix `p`, if any.
pub open spec fn index_of_prefix(s: Seq<EngineEntry>, p: Seq<char>) -> Option<int>
    decreases s.len(),
{
    if s.len() == 0 {
        None
    } else if s[0].prefix@ == p {
        Some(0int)
    } else {
        match index_of_prefix(s.drop_first(), p) {
            None => None,
            Some(i) => Some(i + 1),
        }
    }
}

/// The providers registered under prefix `p`; none for an unknown prefix.
pub open spec fn engines_for(s: Seq<EngineEntry>, p: Seq<char>) -> Seq<EngineKind> {
    match index_of_prefix(s, p) {
        None => Seq::empty(),
        Some(i) => s[i].engines@,
    }
}

/// All registered providers, flattened in registration order.
pub open spec fn all_engines(s: Seq<EngineEntry>) -> Seq<EngineKind>
    decreases s.len(),
{
    if s.len() == 0 {
        Seq::empty()
    } else {
        s[0].engines@ + all_engines(s.drop_first())
    }
}

/// The filter argument of a lookup, at the specification level.
pub open spec fn filter_view(f: Option<String>) -> Option<Seq<char>> {
    match f {
        None => None,
        Some(p) => Some(p@),
    }
}

proof fn lemma_index_of_prefix_found(s: Seq<EngineEntry>, p: Seq<char>, k: int)
    requires
        0 <= k < s.len(),
        s[k].prefix@ == p,
        forall|i: int| 0 <= i < k ==> s[i].prefix@ != p,
    ensures
        index_of_prefix(s, p) == Some(k),
    decreases k,
{
    if k > 0 {
        lemma_index_of_prefix_found(s.drop_first(), p, k - 1);
    }
}

proof fn lemma_index_of_prefix_none(s: Seq<EngineEntry>, p: Seq<char>)
    requires
        forall|i: int| 0 <= i < s.len() ==> s[i].prefix@ != p,
    ensures
        index_of_prefix(s, p) is None,
    decreases s.len(),
{
    if s.len() > 0 {
        lemma_index_of_prefix_none(s.drop_first(), p);
    }
}

proof fn lemma_all_engines_push(s: Seq<EngineEntry>, e: EngineEntry)
    ensures
        all_engines(s.push(e)) == all_engines(s) + e.engines@,
    decreases s.len(),
{
    let t = s.push(e);
    if s.len() == 0 {
        assert(t[0] == e);
        assert(t.drop_first() =~= Seq::<EngineEntry>::empty());
        assert(all_engines(t.drop_first()) == Seq::<EngineKind>::empty());
        assert(all_engines(t) == e.engines@ + Seq::<EngineKind>::empty());
        assert(e.engines@ + Seq::<EngineKind>::empty() =~= e.engines@);
        assert(all_engines(s) == Seq::<EngineKind>::empty());
        assert(Seq::<EngineKind>::empty() + e.engines@ =~= e.engines@);
    } else {
        assert(s.push(e).drop_first() =~= s.drop_first().push(e));
        lemma_all_engines_push(s.drop_first(), e);
        assert(s.push(e)[0] == s[0]);
        assert(s[0].engines@ + (all_engines(s.drop_first()) + e.engines@) =~= (s[0].engines@
            + all_engines(s.drop_first())) + e.engines@);
    }
}

impl EngineCollection {
    /// Every prefix names one entry, and no entry is empty.
    pub open spec fn wf(&self) -> bool {
        &&& forall|i: int, j: int|
            0 <= i < j < self.entries@.len() ==> self.entries@[i].prefix@
                != self.entries@[j].prefix@
        &&& forall|i: int|
            0 <= i < self.entries@.len() ==> #[trigger] self.entries@[i].engines@.len() >= 1
    }

    /// What a lookup returns: every provider for no filter, the providers of
    /// the filter's entry for a known filter, none for an unknown one.
    pub open spec fn lookup_spec(&self, filter: Option<Seq<char>>) -> Seq<EngineKind> {
        match filter {
            None => all_engines(self.entries@),
            Some(p) => engines_for(self.entries@, p),
        }
    }

    /// What an icon lookup returns: a generic search marker for no filter,
    /// the first provider's marker for a known filter, and a generic unknown
    /// marker otherwise.
    pub open spec fn icon_spec(&self, filter: Option<Seq<char>>) -> Seq<char> {
        match filter {
            None => "\u{f0349}"@,
            Some(p) => match index_of_prefix(self.entries@, p) {
                Some(i) => self.entries@[i].engines@[0].icon_spec(),
                None => "\u{f4f4}"@,
            },
        }
    }

    /// An empty registry.
    pub fn new() -> (r: EngineCollection)
        ensures
            r.entries@.len() == 0,
            r.wf(),
    {
        EngineCollection { entries: Vec::new() }
    }

    /// Register one provider: it joins the entry of its prefix, or opens a
    /// new entry at the end.  Registration order is preserved both across
    /// and within entries.
    #[verifier::loop_isolation(false)]
    pub fn register(&mut self, engine: EngineKind)
        ensures
            match index_of_prefix(old(self).entries@, engine.prefix_spec()) {
                Some(i) => {
                    &&& final(self).entries@.len() == old(self).entries@.len()
                    &&& forall|k: int|
                        0 <= k < old(self).entries@.len() && k != i ==> final(self).entries@[k]
                            == old(self).entries@[k]
                    &&& final(self).entries@[i].prefix == old(self).entries@[i].prefix
                    &&& final(self).entries@[i].engines@ == old(self).entries@[i].engines@.push(
                        engine,
                    )
                },
                None => {
                    &&& final(self).entries@.len() == old(self).entries@.len() + 1
                    &&& forall|k: int|
                        0 <= k < old(self).entries@.len() ==> final(self).entries@[k] == old(
                            self,
                        ).entries@[k]
                    &&& final(self).entries@.last().prefix@ == engine.prefix_spec()
                    &&& final(self).entries@.last().engines@ == seq![engine]
                },
            },
            old(self).wf() ==> final(self).wf(),
    {
        let ghost orig = self.entries@;
        let prefix = String::from_str(engine.prefix());
        let n = self.entries.len();
        let mut i: usize = 0;
        while i < n
            invariant
                i <= n,
                n == self.entries@.len(),
                self.entries@ == orig,
                forall|k: int| 0 <= k < i ==> orig[k].prefix@ != engine.prefix_spec(),
            decreases n - i,
        {
            if self.entries[i].prefix == prefix {
                proof {
                    lemma_index_of_prefix_found(orig, engine.prefix_spec(), i as int);
                }
                let mut entry = self.entries.remove(i);
                entry.engines.push(engine);
                self.entries.insert(i, entry);
                proof {
                    assert forall|k: int|
                        0 <= k < orig.len() && k != i as int implies self.entries@[k]
                        == orig[k] by {
                        if k < i as int {
                            assert(self.entries@[k] == orig.remove(i as int)[k]);
                        } else {
                            assert(self.entries@[k] == orig.remove(i as int)[k - 1]);
                        }
                    }
                }
                return ;
            }
            i += 1;
        }
        proof {
            lemma_index_of_prefix_none(orig, engine.prefix_spec());
        }
        let mut engines = Vec::new();
        engines.push(engine);
        self.entries.push(EngineEntry { prefix, engines });
        proof {
            assert(self.entries@.last().engines@ =~= seq![engine]);
            if old(self).wf() {
                assert forall|a: int, b: int|
                    0 <= a < b < self.entries@.len() implies self.entries@[a].prefix@
                    != self.entries@[b].prefix@ by {
                    if b < orig.len() {
                    } else {
                        assert(self.entries@[a] == orig[a]);
                    }
                }
            }
        }
    }

    /// The fixed provider set, in its standard registration order: the
    /// synthetic provider, the encyclopedia search, the fuzzy filename
    /// filter, and the content search, each under its own prefix.
    pub fn standard() -> (r: EngineCollection)
        ensures
            r.wf(),
            r.entries@.len() == 4,
            r.entries@[0].prefix@ == "@mk"@,
            r.entries@[0].engines@ == seq![EngineKind::Mock(MockEngine)],
            r.entries@[1].prefix@ == "@wi"@,
            r.entries@[1].engines@ == seq![EngineKind::Wikipedia(WikipediaEngine)],
            r.entries@[2].prefix@ == "@fzf"@,
            r.entries@[2].engines@ == seq![EngineKind::Fzf(Fzf)],
            r.entries@[3].prefix@ == "@rg"@,
            r.entries@[3].engines@ == seq![EngineKind::Rga(Rga)],
    {
        proof {
            lemma_standard_prefixes_distinct();
        }
        let mut c = EngineCollection::new();
        c.register(EngineKind::Mock(MockEngine));
        proof {
            lemma_index_of_prefix_none(c.entries@, "@wi"@);
        }
        c.register(EngineKind::Wikipedia(WikipediaEngine::new()));
        proof {
            lemma_index_of_prefix_none(c.entries@, "@fzf"@);
        }
        c.register(EngineKind::Fzf(Fzf::new()));
        proof {
            lemma_index_of_prefix_none(c.entries@, "@rg"@);
        }
        c.register(EngineKind::Rga(Rga::new()));
        c
    }

    /// The providers a query with this filter fans out to: all of them for
    /// no filter, those registered under the filter for a known one, and
    /// none at all for an unknown one.
    #[verifier::loop_isolation(false)]
    pub fn lookup(&self, filter: &Option<String>) -> (r: Vec<EngineKind>)
        ensures
            r@ == self.lookup_spec(filter_view(*filter)),
    {
        match filter {
            None => {
                let mut r: Vec<EngineKind> = Vec::new();
                let n = self.entries.len();
                let mut i: usize = 0;
                while i < n
                    invariant
                        i <= n,
                        n == self.entries@.len(),
                        r@ == all_engines(self.entries@.take(i as int)),
                    decreases n - i,
                {
                    let m = self.entries[i].engines.len();
                    let mut j: usize = 0;
                    while j < m
                        invariant
                            j <= m,
                            i < n,
                            n == self.entries@.len(),
                            m == self.entries@[i as int].engines@.len(),
                            r@ == all_engines(self.entries@.take(i as int))
                                + self.entries@[i as int].engines@.take(j as int),
                        decreases m - j,
                    {
                        r.push(self.entries[i].engines[j]);
                        proof {
                            assert(self.entries@[i as int].engines@.take(j + 1)
                                =~= self.entries@[i as int].engines@.take(j as int).push(
                                self.entries@[i as int].engines@[j as int],
                            ));
                            assert(r@ =~= all_engines(self.entries@.take(i as int))
                                + self.entries@[i as int].engines@.take(j + 1));
                        }
                        j += 1;
                    }
                    proof {
                        assert(self.entries@.take(i + 1) =~= self.entries@.take(i as int).push(
                            self.entries@[i as int],
                        ));
                        lemma_all_engines_push(
                            self.entries@.take(i as int),
                            self.entries@[i as int],
                        );
                        assert(self.entries@[i as int].engines@.take(m as int)
                            =~= self.entries@[i as int].engines@);
                    }
                    i += 1;
                }
                proof {
                    assert(self.entries@.take(n as int) =~= self.entries@);
                }
                r
            },
            Some(p) => {
                let n = self.entries.len();
                let mut i: usize = 0;
                while i < n
                    invariant
                        i <= n,
                        n == self.entries@.len(),
                        forall|k: int| 0 <= k < i ==> self.entries@[k].prefix@ != p@,
                    decreases n - i,
                {
                    if self.entries[i].prefix == *p {
                        proof {
                            lemma_index_of_prefix_found(self.entries@, p@, i as int);
                        }
                        let m = self.entries[i].engines.len();
                        let mut r: Vec<EngineKind> = Vec::new();
                        let mut j: usize = 0;
                        while j < m
                            invariant
                                j <= m,
                                i < n,
                                n == self.entries@.len(),
                                m == self.entries@[i as int].engines@.len(),
                                r@ == self.entries@[i as int].engines@.take(j as int),
                            decreases m - j,
                        {
                            r.push(self.entries[i].engines[j]);
                            proof {
                                assert(self.entries@[i as int].engines@.take(j + 1)
                                    =~= self.entries@[i as int].engines@.take(j as int).push(
                                    self.entries@[i as int].engines@[j as int],
                                ));
                            }
                            j += 1;
                        }
                        proof {
                            assert(self.entries@[i as int].engines@.take(m as int)
                                =~= self.entries@[i as int].engines@);
                        }
                        return r;
                    }
                    i += 1;
                }
                proof {
                    lemma_index_of_prefix_none(self.entries@, p@);
                }
                Vec::new()
            },
        }
    }

    /// The icon marker for a filter: generic search for none, the first
    /// provider's marker for a known filter, generic unknown otherwise.
    #[verifier::loop_isolation(false)]
    pub fn icon_for(&self, filter: &Option<String>) -> (r: &'static str)
        requires
            self.wf(),
        ensures
            r@ == self.icon_spec(filter_view(*filter)),
    {
        match filter {
            None => "\u{f0349}",
            Some(p) => {
                let n = self.entries.len();
                let mut i: usize = 0;
                while i < n
                    invariant
                        i <= n,
                        self.wf(),
                        n == self.entries@.len(),
                        forall|k: int| 0 <= k < i ==> self.entries@[k].prefix@ != p@,
                    decreases n - i,
                {
                    if self.entries[i].prefix == *p {
                        proof {
                            lemma_index_of_prefix_found(self.entries@, p@, i as int);
                        }
                        return self.entries[i].engines[0].icon();
                    }
                    i += 1;
                }
                proof {
                    lemma_index_of_prefix_none(self.entries@, p@);
                }
                "\u{f4f4}"
            },
        }
    }
}

proof fn lemma_standard_prefixes_distinct()
    ensures
        "@mk"@ != "@wi"@,
        "@mk"@ != "@fzf"@,
        "@mk"@ != "@rg"@,
        "@wi"@ != "@fzf"@,
        "@wi"@ != "@rg"@,
        "@fzf"@ != "@rg"@,
{
    reveal_strlit("@mk");
    reveal_strlit("@wi");
    reveal_strlit("@fzf");
    reveal_strlit("@rg");
    assert("@mk"@[1] == 'm' && "@wi"@[1] == 'w' && "@fzf"@[1] == 'f' && "@rg"@[1] == 'r');
}

/// The dispatcher's configuration: the worker pool size, zero meaning "use
/// the detected hardware concurrency".
#[derive(Debug, Clone, Copy, PartialEq, Eq, Structural)]
pub struct QueryConfig {
    pub pool_size: usize,
}

impl Default for QueryConfig {
    /// The default configuration detects the pool size.
    fn default() -> (r: QueryConfig)
        ensures
            r.pool_size == 0,
    {
        QueryConfig { pool_size: 0 }
    }
}

/// Relies on `num_cpus::get`, whose documentation promises a result of at
/// least 1.
#[verifier::external_body]
fn detected_parallelism() -> (r: usize)
    ensures
        r >= 1,
{
    num_cpus::get()
}

/// What one accepted submit asks the I/O layer to do: open the channel of
/// session `session` and run one search per listed provider, fanned out.
#[derive(Debug, Clone, PartialEq, Eq)]
pub struct QueryPlan {
    pub session: u64,
    pub engines: Vec<EngineKind>,
}

/// The query engine: the registry, the worker pool size, and the single
/// current session.  Sessions are numbered in order of creation; at most one
/// is ever current.
#[derive(Debug, Clone, PartialEq, Eq)]
pub struct QueryEngine {
    pub pool_size: usize,
    pub engines: EngineCollection,
    pub next_session: u64,
    pub current: Option<u64>,
}

impl QueryEngine {
    /// The engine's validity: a sized pool, a valid registry, and a current
    /// session (if any) that was actually issued.
    pub open spec fn wf(&self) -> bool {
        &&& self.pool_size >= 1
        &&& self.engines.wf()
        &&& match self.current {
            Some(s) => s < self.next_session,
            None => true,
        }
    }

    /// Whether the session numbered `s` is the current one.
    pub open spec fn is_current_spec(&self, s: u64) -> bool {
        self.current == Some(s)
    }

    /// A fresh engine over the given registry, with no session: the
    /// configured pool size, or the detected concurrency when the
    /// configuration says zero.
    pub fn new(config: &QueryConfig, engines: EngineCollection) -> (r: QueryEngine)
        requires
            engines.wf(),
        ensures
            r.wf(),
            r.engines == engines,
            r.current is None,
            r.next_session == 0,
            config.pool_size != 0 ==> r.pool_size == config.pool_size,
            config.pool_size == 0 ==> r.pool_size >= 1,
    {
        let pool_size = if config.pool_size == 0 {
            detected_parallelism()
        } else {
            config.pool_size
        };
        QueryEngine { pool_size, engines, next_session: 0, current: None }
    }

    /// Submit a query.  A blank query clears the current session and plans
    /// nothing.  Any other query replaces the current session with a fresh
    /// one — every handle issued earlier goes stale — and returns the plan:
    /// the new session's number and the providers the filter routes to.
    pub fn query(&mut self, query: &str, filter: &Option<String>) -> (r: Option<QueryPlan>)
        requires
            old(self).wf(),
            old(self).next_session < u64::MAX,
        ensures
            final(self).wf(),
            final(self).pool_size == old(self).pool_size,
            final(self).engines == old(self).engines,
            is_blank_spec(query@) ==> {
                &&& r is None
                &&& final(self).current is None
                &&& final(self).next_session == old(self).next_session
            },
            !is_blank_spec(query@) ==> {
                &&& r matches Some(plan)
                &&& plan.session == old(self).next_session
                &&& plan.engines@ == old(self).engines.lookup_spec(filter_view(*filter))
                &&& final(self).current == Some(plan.session)
                &&& final(self).next_session == old(self).next_session + 1
            },
    {
        if is_blank(query) {
            self.clear_query();
            return None;
        }
        let session = self.next_session;
        self.next_session = session + 1;
        self.current = Some(session);
        let engines = self.engines.lookup(filter);
        Some(QueryPlan { session, engines })
    }

    /// Discard the current session, if any, without opening a new one.
    pub fn clear_query(&mut self)
        ensures
            final(self).current is None,
            final(self).pool_size == old(self).pool_size,
            final(self).engines == old(self).engines,
            final(self).next_session == old(self).next_session,
            old(self).wf() ==> final(self).wf(),
    {
        self.current = None;
    }

    /// Whether a handle for session `s` still refers to the current session.
    pub fn match_receiver(&self, s: u64) -> (r: bool)
        ensures
            r == self.is_current_spec(s),
    {
        match self.current {
            Some(c) => c == s,
            None => false,
        }
    }

    /// The number of the current session, if one is active.
    pub fn responses(&self) -> (r: Option<u64>)
        ensures
            r == self.current,
    {
        self.current
    }

    /// The icon marker for a filter, looked up in the engine's registry.
    pub fn icon(&self, filter: &Option<String>) -> (r: &'static str)
        requires
            self.wf(),
        ensures
            r@ == self.engines.icon_spec(filter_view(*filter)),
    {
        self.engines.icon_for(filter)
    }

    /// How many sessions have been opened so far; also the number the next
    /// accepted submit will use.
    pub fn sessions_started(&self) -> (r: u64)
        ensures
            r == self.next_session,
    {
        self.next_session
    }
}

/// After a submit opens session `n`, that session alone is current: every
/// session issued earlier — in particular each of the first `n` — is stale,
/// however many submits came before.
pub proof fn lemma_submit_invalidates_earlier(pre: QueryEngine, post: QueryEngine, s: u64)
    requires
        pre.wf(),
        post.current == Some(pre.next_session),
        post.next_session == pre.next_session + 1,
        s < pre.next_session,
    ensures
        post.is_current_spec(pre.next_session),
        !post.is_current_spec(s),
{
}

/// Clearing when no session is active changes nothing at all: clear is
/// idempotent, and the engine still reports no current session.
pub proof fn lemma_clear_idempotent(pre: QueryEngine, post: QueryEngine)
    requires
        pre.current is None,
        post.current is None,
        post.pool_size == pre.pool_size,
        post.engines == pre.engines,
        post.next_session == pre.next_session,
    ensures
        post == pre,
{
}

/// A filter registered under no prefix routes to no provider at all.
pub proof fn lemma_unknown_filter_routes_nowhere(c: EngineCollection, p: Seq<char>)
    requires
        forall|i: int| 0 <= i < c.entries@.len() ==> c.entries@[i].prefix@ != p,
    ensures
        c.lookup_spec(Some(p)) == Seq::<EngineKind>::empty(),
{
    lemma_index_of_prefix_none(c.entries@, p);
}

} // verus!
