//! Thread selection: which thread a spawned task runs on.
use std::collections::BTreeSet;
use std::sync::atomic::{AtomicUsize, Ordering};
use std::sync::Arc;
use regex::Regex;
use vstd::prelude::*;

use crate::error::BuilderError;
use crate::idle::{CreateIdle, IntoCreateIdle};
use crate::text::{decimal, decimal_spec};
use vstd::std_specs::cmp::OrdSpec;
use vstd::std_specs::iter::IteratorSpec;
use vstd::string::StringExecFns;

verus! {

/// Used by a runtime to determine which thread should handle a task.
pub trait ThreadSelector: Send + Sync {
    /// Whether [`ThreadSelector::select`] can choose a thread for the task name.
    spec fn ready_for(&self, task_name: Seq<char>) -> bool;

    /// Whether a thread can be chosen for the task name.
    fn can_select(&self, task_name: &str) -> (r: bool)
        ensures
            r == self.ready_for(task_name@),
    ;

    /// Whether `selection` is a selection that [`ThreadSelector::select`] may make for the task name.
    spec fn may_select(&self, task_name: Seq<char>, selection: ThreadSelect) -> bool;

    fn select(&self, task_name: &str) -> (r: ThreadSelect)
        requires
            self.ready_for(task_name@),
        ensures
            self.may_select(task_name@, r),
    ;
}

/// The result of [`ThreadSelector::select`].
pub enum ThreadSelect {
    /// Spawn the task on a new dedicated thread where it will be the only task that will ever run on the spawned thread.
    Dedicated(Arc<Box<dyn CreateIdle>>),
    /// Spawn the task on a shared non-blocking thread as indicated by the `u64` thread ID
    Shared(u64, Arc<Box<dyn CreateIdle>>),
}

/// An owned, type-erased [`ThreadSelector`], as a runtime holds it.
pub struct SelectorBox(pub Box<dyn ThreadSelector>);

/// The debug text of a thread selection: `Dedicated` or `Shared { thread_id: N }`.
pub open spec fn describe_spec(s: ThreadSelect) -> Seq<char> {
    match s {
        ThreadSelect::Dedicated(_) => "Dedicated"@,
        ThreadSelect::Shared(t, _) => "Shared { thread_id: "@ + decimal_spec(t as nat) + " }"@,
    }
}

impl ThreadSelect {
    /// Creates a [`ThreadSelect::Dedicated`] using [`IntoCreateIdle`].
    pub fn dedicated<I: IntoCreateIdle>(idle: I) -> (r: Self)
        ensures
            r matches ThreadSelect::Dedicated(f) && call_ensures(I::into_create_idle, (idle,), f),
    {
        ThreadSelect::Dedicated(idle.into_create_idle())
    }

    /// Creates a [`ThreadSelect::Shared`] using a thread ID and [`IntoCreateIdle`].
    pub fn shared<I: IntoCreateIdle>(thread_id: u64, idle: I) -> (r: Self)
        ensures
            r matches ThreadSelect::Shared(t, f) && t == thread_id && call_ensures(
                I::into_create_idle,
                (idle,),
                f,
            ),
    {
        ThreadSelect::Shared(thread_id, idle.into_create_idle())
    }

    /// The debug text: `Dedicated` or `Shared { thread_id: N }`.
    pub fn describe(&self) -> (r: String)
        ensures
            r@ == describe_spec(*self),
    {
        match self {
            ThreadSelect::Dedicated(_) => "Dedicated".to_owned(),
            ThreadSelect::Shared(thread_id, _) => {
                let mut s = String::from_str("Shared { thread_id: ");
                let digits = decimal(*thread_id);
                s.append(digits.as_str());
                s.append(" }");
                s
            },
        }
    }
}

impl Clone for ThreadSelect {
    fn clone(&self) -> (r: Self)
        ensures
            r == *self,
    {
        match self {
            ThreadSelect::Dedicated(idle) => ThreadSelect::Dedicated(Arc::clone(idle)),
            ThreadSelect::Shared(thread_id, idle) => ThreadSelect::Shared(*thread_id, Arc::clone(idle)),
        }
    }
}

/// Always selects [`ThreadSelect::Dedicated`].
pub struct DedicatedThreadSelector {
    idle: Arc<Box<dyn CreateIdle>>,
}

impl DedicatedThreadSelector {
    /// The idle factory handed to every dedicated thread.
    pub closed spec fn idle_factory(&self) -> Arc<Box<dyn CreateIdle>> {
        self.idle
    }

    pub fn new<I: IntoCreateIdle>(idle: I) -> (r: Self)
        ensures
            call_ensures(I::into_create_idle, (idle,), r.idle_factory()),
    {
        DedicatedThreadSelector { idle: idle.into_create_idle() }
    }
}

impl ThreadSelector for DedicatedThreadSelector {
    open spec fn ready_for(&self, task_name: Seq<char>) -> bool {
        true
    }

    fn can_select(&self, task_name: &str) -> (r: bool) {
        true
    }

    open spec fn may_select(&self, task_name: Seq<char>, selection: ThreadSelect) -> bool {
        selection == ThreadSelect::Dedicated(self.idle_factory())
    }

    fn select(&self, _task_name: &str) -> (r: ThreadSelect)
        ensures
            r == ThreadSelect::Dedicated(self.idle_factory()),
    {
        ThreadSelect::Dedicated(Arc::clone(&self.idle))
    }
}

/// Whether a sequence of thread ids is strictly increasing, so sorted and free of repeats.
pub open spec fn strictly_increasing(ids: Seq<u64>) -> bool {
    forall|i: int, j: int| 0 <= i < j < ids.len() ==> ids[i] < ids[j]
}

/// The thread id that the `seq`-th selection of a round-robin over `ids` picks.
pub open spec fn round_robin_pick(ids: Seq<u64>, seq: int) -> u64
    recommends
        ids.len() > 0,
{
    ids[seq % (ids.len() as int)]
}

/// Always selects [`ThreadSelect::Shared`], dispatching the load round-robin
/// over its thread ids in increasing order.
pub struct RoundRobinSelector {
    idle: Arc<Box<dyn CreateIdle>>,
    thread_ids: Vec<u64>,
    next_seq: AtomicUsize,
}

impl RoundRobinSelector {
    /// The thread ids, in the order selections go through them.
    pub closed spec fn thread_ids(&self) -> Seq<u64> {
        self.thread_ids@
    }

    /// The idle factory handed to every shared thread.
    pub closed spec fn idle_factory(&self) -> Arc<Box<dyn CreateIdle>> {
        self.idle
    }

    /// Creates a [`RoundRobinSelectorBuilder`].
    pub fn builder() -> (r: RoundRobinSelectorBuilder)
        ensures
            r.idle_factory() is None,
            r.thread_ids() == Set::<u64>::empty(),
    {
        RoundRobinSelectorBuilder::new()
    }

    /// The selection made as the `seq`-th one.
    pub open spec fn selection_spec(&self, seq: usize) -> ThreadSelect {
        ThreadSelect::Shared(round_robin_pick(self.thread_ids(), seq as int), self.idle_factory())
    }

    /// The selection made as the `seq`-th one: the thread ids are taken in
    /// turn, starting over after the last.
    pub fn selection_at(&self, seq: usize) -> (r: ThreadSelect)
        requires
            self.thread_ids().len() > 0,
        ensures
            r == self.selection_spec(seq),
    {
        let idx: usize = seq % self.thread_ids.len();
        ThreadSelect::Shared(self.thread_ids[idx], Arc::clone(&self.idle))
    }
}

impl ThreadSelector for RoundRobinSelector {
    open spec fn ready_for(&self, task_name: Seq<char>) -> bool {
        self.thread_ids().len() > 0
    }

    fn can_select(&self, task_name: &str) -> (r: bool) {
        self.thread_ids.len() > 0
    }

    open spec fn may_select(&self, task_name: Seq<char>, selection: ThreadSelect) -> bool {
        exists|seq: usize| selection == #[trigger] self.selection_spec(seq)
    }

    /// Selects the next thread in turn. Which turn a call takes depends on
    /// the calls made concurrently, so the selection is the one of some turn.
    fn select(&self, _task_name: &str) -> (r: ThreadSelect)
        ensures
            exists|seq: usize| r == #[trigger] self.selection_spec(seq),
    {
        let seq: usize = self.next_seq.fetch_add(1, Ordering::Relaxed);
        self.selection_at(seq)
    }
}

/// The members of a set of thread ids in increasing order.
fn sorted_ids(set: &BTreeSet<u64>) -> (r: Vec<u64>)
    ensures
        r@.to_set() == set@,
        strictly_increasing(r@),
{
    broadcast use vstd::std_specs::btree::group_btree_axioms;
    let ghost keys: Seq<u64> = set.iter().remaining().map_values(|x: &u64| *x);
    let mut ids: Vec<u64> = Vec::new();
    for id in it: set.iter()
        invariant
            it.seq().map_values(|x: &u64| *x) == keys,
            ids@ == keys.take(it.index()),
    {
        ids.push(*id);
        proof {
            assert(keys.take(it.index() + 1) =~= ids@);
        }
    }
    assert(ids@ =~= keys);
    proof {
        broadcast use vstd::laws_cmp::lemma_ref_obeys_cmp_spec;
        let rem = set.iter().remaining();
        assert(keys =~= rem.unref());
        assert forall|i: int, j: int| 0 <= i < j < keys.len() implies keys[i] < keys[j] by {
            assert((&rem[i]).cmp_spec(&&rem[j]) is Less);
        }
    }
    ids
}

/// Builds a [`RoundRobinSelector`], created using [`RoundRobinSelector::builder`].
pub struct RoundRobinSelectorBuilder {
    idle: Option<Arc<Box<dyn CreateIdle>>>,
    thread_ids: BTreeSet<u64>,
}

impl RoundRobinSelectorBuilder {
    /// The idle factory set so far.
    pub closed spec fn idle_factory(&self) -> Option<Arc<Box<dyn CreateIdle>>> {
        self.idle
    }

    /// The thread ids added so far.
    pub closed spec fn thread_ids(&self) -> Set<u64> {
        self.thread_ids@
    }

    pub fn new() -> (r: Self)
        ensures
            r.idle_factory() is None,
            r.thread_ids() == Set::<u64>::empty(),
    {
        RoundRobinSelectorBuilder { idle: None, thread_ids: BTreeSet::new() }
    }

    /// Sets the [`CreateIdle`] to be used by all threads.
    pub fn with_idle<I: IntoCreateIdle>(self, idle: I) -> (r: Self)
        ensures
            r.idle_factory() matches Some(f) && call_ensures(I::into_create_idle, (idle,), f),
            r.thread_ids() == self.thread_ids(),
    {
        RoundRobinSelectorBuilder { idle: Some(idle.into_create_idle()), thread_ids: self.thread_ids }
    }

    /// Adds the given thread id to the round-robin.
    pub fn add_thread_id(self, thread_id: u64) -> (r: Self)
        ensures
            r.idle_factory() == self.idle_factory(),
            r.thread_ids() == self.thread_ids().insert(thread_id),
    {
        let mut builder = self;
        builder.thread_ids.insert(thread_id);
        builder
    }

    /// Adds the given thread ids to the round-robin.
    pub fn add_thread_ids(self, thread_id: Vec<u64>) -> (r: Self)
        ensures
            r.idle_factory() == self.idle_factory(),
            r.thread_ids() == self.thread_ids() + thread_id@.to_set(),
    {
        let mut builder = self;
        let mut i: usize = 0;
        while i < thread_id.len()
            invariant
                i <= thread_id@.len(),
                builder.idle == self.idle,
                builder.thread_ids@ == self.thread_ids@ + thread_id@.take(i as int).to_set(),
            decreases thread_id@.len() - i,
        {
            let id: u64 = thread_id[i];
            builder.thread_ids.insert(id);
            proof {
                let done = thread_id@.take(i as int);
                assert(thread_id@.take(i + 1) =~= done.push(id));
                assert(done.push(id).to_set() =~= done.to_set().insert(id)) by {
                    broadcast use vstd::seq_lib::group_seq_properties;
                }
            }
            i = i + 1;
        }
        proof {
            assert(thread_id@.take(i as int) =~= thread_id@);
        }
        builder
    }

    /// Sets the thread ids to round-robin, replacing any added before.
    pub fn with_thread_ids(self, thread_id: Vec<u64>) -> (r: Self)
        ensures
            r.idle_factory() == self.idle_factory(),
            r.thread_ids() == thread_id@.to_set(),
    {
        let cleared = RoundRobinSelectorBuilder { idle: self.idle, thread_ids: BTreeSet::new() };
        proof {
            assert(cleared.thread_ids@ + thread_id@.to_set() =~= thread_id@.to_set());
        }
        cleared.add_thread_ids(thread_id)
    }

    /// Builds the [`RoundRobinSelector`], which goes through the thread ids
    /// in increasing order. Fails when no idle strategy was set.
    pub fn build(self) -> (r: Result<RoundRobinSelector, BuilderError>)
        ensures
            self.idle_factory() is None <==> r is Err,
            r matches Err(e) ==> e.reason_spec() == "idle not defined"@,
            r matches Ok(sel) ==> {
                &&& Some(sel.idle_factory()) == self.idle_factory()
                &&& sel.thread_ids().to_set() == self.thread_ids()
                &&& strictly_increasing(sel.thread_ids())
            },
    {
        match self.idle {
            None => {
                proof { reveal_strlit("idle not defined"); }
                Err(BuilderError::from_reason("idle not defined"))
            },
            Some(idle) => {
                let ids = sorted_ids(&self.thread_ids);
                Ok(RoundRobinSelector { idle, thread_ids: ids, next_seq: AtomicUsize::new(0) })
            },
        }
    }
}

#[verifier::external_type_specification]
#[verifier::external_body]
pub struct ExRegex(Regex);

#[verifier::external_type_specification]
#[verifier::external_body]
pub struct ExRegexError(regex::Error);

/// Whether `regex::Regex::new` accepts the pattern.
pub uninterp spec fn regex_compiles(pattern: Seq<char>) -> bool;

/// Whether the regex compiled by `regex::Regex::new` from `pattern` matches
/// somewhere in `haystack`, as `regex::Regex::is_match` reports it.
pub uninterp spec fn regex_matches(pattern: Seq<char>, haystack: Seq<char>) -> bool;

/// `regex::Regex::new`: compiles the pattern with the default options. It
/// returns an error exactly when the pattern does not compile, which depends
/// on the pattern alone.
#[verifier::external_body]
fn regex_new(pattern: &str) -> (r: Result<Regex, regex::Error>)
    ensures
        r is Ok == regex_compiles(pattern@),
{
    Regex::new(pattern)
}

/// `regex::Regex::is_match` on the regex that `regex::Regex::new` compiles
/// from the source text of a [`NamePattern`]: whether it matches somewhere in
/// the haystack. The source compiles, so the error arm is never taken.
#[verifier::external_body]
fn regex_is_match(pattern: &NamePattern, haystack: &str) -> (r: bool)
    requires
        regex_compiles(pattern.source()),
    ensures
        r == regex_matches(pattern.source(), haystack@),
{
    match Regex::new(pattern.source.as_str()) {
        Ok(regex) => regex.is_match(haystack),
        Err(_) => false,
    }
}

/// A regular expression over task names, compiled from its source text.
pub struct NamePattern {
    source: String,
}

impl NamePattern {
    /// The source text of a pattern always compiles.
    #[verifier::type_invariant]
    pub closed spec fn wf(&self) -> bool {
        regex_compiles(self.source@)
    }

    /// The source text the pattern was compiled from.
    pub closed spec fn source(&self) -> Seq<char> {
        self.source@
    }

    /// Compiles a pattern; fails when the regular expression does not compile.
    pub fn new(pattern: &str) -> (r: Result<NamePattern, BuilderError>)
        ensures
            r is Ok == regex_compiles(pattern@),
            r matches Ok(p) ==> p.source() == pattern@,
    {
        match regex_new(pattern) {
            Ok(_compiled) => Ok(NamePattern { source: pattern.to_owned() }),
            Err(e) => Err(BuilderError::from_string(e.to_string())),
        }
    }

    /// The source text the pattern was compiled from.
    pub fn as_str(&self) -> (r: &str)
        ensures
            r@ == self.source(),
    {
        self.source.as_str()
    }

    /// Whether the pattern matches somewhere in the name.
    pub fn is_match(&self, name: &str) -> (r: bool)
        ensures
            r == regex_matches(self.source(), name@),
    {
        proof {
            use_type_invariant(self);
        }
        regex_is_match(self, name)
    }
}

/// The map from task names to selections that pinned entries define; a
/// later entry for a name replaces an earlier one.
pub open spec fn pinned_map(entries: Seq<(Seq<char>, ThreadSelect)>) -> Map<Seq<char>, ThreadSelect>
    decreases entries.len(),
{
    if entries.len() == 0 {
        Map::empty()
    } else {
        pinned_map(entries.drop_last()).insert(entries.last().0, entries.last().1)
    }
}

/// The selection of the first pattern, from index `i` on, that matches the name.
pub open spec fn first_match_from(
    patterns: Seq<(Seq<char>, ThreadSelect)>,
    name: Seq<char>,
    i: int,
) -> Option<ThreadSelect>
    decreases patterns.len() - i,
{
    if i < 0 || i >= patterns.len() {
        None
    } else if regex_matches(patterns[i].0, name) {
        Some(patterns[i].1)
    } else {
        first_match_from(patterns, name, i + 1)
    }
}

/// What configured rules select for a name before the fallback is asked:
/// the pinned entry for the name, else the first matching pattern.
pub open spec fn configured_choice(
    pinned: Map<Seq<char>, ThreadSelect>,
    patterns: Seq<(Seq<char>, ThreadSelect)>,
    name: Seq<char>,
) -> Option<ThreadSelect> {
    if pinned.contains_key(name) {
        Some(pinned[name])
    } else {
        first_match_from(patterns, name, 0)
    }
}

/// The latest entry for a name is what the pinned map holds for it.
proof fn lemma_pinned_latest(entries: Seq<(Seq<char>, ThreadSelect)>, j: int, name: Seq<char>)
    requires
        0 <= j < entries.len(),
        entries[j].0 == name,
        forall|k: int| j < k < entries.len() ==> entries[k].0 != name,
    ensures
        pinned_map(entries).contains_key(name),
        pinned_map(entries)[name] == entries[j].1,
    decreases entries.len(),
{
    if j < entries.len() - 1 {
        lemma_pinned_latest(entries.drop_last(), j, name);
    }
}

/// A name with no entry is not in the pinned map.
proof fn lemma_pinned_absent(entries: Seq<(Seq<char>, ThreadSelect)>, name: Seq<char>)
    requires
        forall|k: int| 0 <= k < entries.len() ==> entries[k].0 != name,
    ensures
        !pinned_map(entries).contains_key(name),
    decreases entries.len(),
{
    if entries.len() > 0 {
        lemma_pinned_absent(entries.drop_last(), name);
    }
}

/// The pinned entries as names and selections.
pub open spec fn entries_view(entries: Seq<(String, ThreadSelect)>) -> Seq<(Seq<char>, ThreadSelect)> {
    entries.map_values(|e: (String, ThreadSelect)| (e.0@, e.1))
}

/// The patterns as source texts and selections.
pub open spec fn patterns_view(patterns: Seq<(NamePattern, ThreadSelect)>) -> Seq<(Seq<char>, ThreadSelect)> {
    patterns.map_values(|p: (NamePattern, ThreadSelect)| (p.0.source(), p.1))
}

/// The selection pinned for `name`, scanning from the latest entry.
fn find_pinned(entries: &Vec<(String, ThreadSelect)>, name: &String) -> (r: Option<ThreadSelect>)
    ensures
        pinned_map(entries_view(entries@)).contains_key(name@) ==> r == Some(
            pinned_map(entries_view(entries@))[name@],
        ),
        !pinned_map(entries_view(entries@)).contains_key(name@) ==> r is None,
{
    let ghost view = entries_view(entries@);
    let mut i: usize = entries.len();
    while i > 0
        invariant
            i <= entries@.len(),
            view == entries_view(entries@),
            forall|k: int| i <= k < view.len() ==> view[k].0 != name@,
        decreases i,
    {
        i = i - 1;
        if entries[i].0 == *name {
            proof {
                lemma_pinned_latest(view, i as int, name@);
            }
            return Some(entries[i].1.clone());
        }
    }
    proof {
        lemma_pinned_absent(view, name@);
    }
    None
}

/// The selection of the first pattern that matches the name.
fn find_pattern(patterns: &Vec<(NamePattern, ThreadSelect)>, name: &str) -> (r: Option<ThreadSelect>)
    ensures
        r == first_match_from(patterns_view(patterns@), name@, 0),
{
    let ghost view = patterns_view(patterns@);
    let mut i: usize = 0;
    while i < patterns.len()
        invariant
            i <= patterns@.len(),
            view == patterns_view(patterns@),
            first_match_from(view, name@, 0) == first_match_from(view, name@, i as int),
        decreases patterns@.len() - i,
    {
        if patterns[i].0.is_match(name) {
            return Some(patterns[i].1.clone());
        }
        i = i + 1;
    }
    None
}

/// Uses a set of pre-configured rules to determine which thread to select.
///
/// ## Order of Operations
/// 1. if an exact match by task name is defined, use it
/// 2. check the task name against each pattern in the order they were defined, using the first pattern to match
/// 3. fall back to the given fallback selector
pub struct ConfiguredSelector {
    /// The pinned task names, a map kept as a list of entries in which the
    /// latest entry for a name wins: looking a name up compares its text,
    /// which the proofs follow, where hashing a `String` key would not be.
    exact_matches: Vec<(String, ThreadSelect)>,
    patterns: Vec<(NamePattern, ThreadSelect)>,
    fallback: SelectorBox,
}

impl ConfiguredSelector {
    /// The selection pinned to each task name.
    pub closed spec fn pinned(&self) -> Map<Seq<char>, ThreadSelect> {
        pinned_map(entries_view(self.exact_matches@))
    }

    /// The patterns, by source text, in the order they are tried.
    pub closed spec fn patterns(&self) -> Seq<(Seq<char>, ThreadSelect)> {
        patterns_view(self.patterns@)
    }

    /// The fallback selector.
    pub closed spec fn fallback_spec(&self) -> SelectorBox {
        self.fallback
    }

    /// Whether the fallback selector may make the selection for the name.
    pub open spec fn fallback_may_select(&self, task_name: Seq<char>, selection: ThreadSelect) -> bool {
        self.fallback_spec().0.may_select(task_name, selection)
    }

    /// Whether the fallback selector can select for the name.
    pub open spec fn fallback_ready(&self, task_name: Seq<char>) -> bool {
        self.fallback_spec().0.ready_for(task_name)
    }

    /// Creates a [`ConfiguredSelectorBuilder`].
    pub fn builder() -> (r: ConfiguredSelectorBuilder)
        ensures
            r.pinned() == Map::<Seq<char>, ThreadSelect>::empty(),
            r.patterns() == Seq::<(Seq<char>, ThreadSelect)>::empty(),
            !r.has_fallback(),
    {
        ConfiguredSelectorBuilder::new()
    }
}

impl ThreadSelector for ConfiguredSelector {
    open spec fn ready_for(&self, task_name: Seq<char>) -> bool {
        configured_choice(self.pinned(), self.patterns(), task_name) is Some || self.fallback_ready(
            task_name,
        )
    }

    open spec fn may_select(&self, task_name: Seq<char>, selection: ThreadSelect) -> bool {
        match configured_choice(self.pinned(), self.patterns(), task_name) {
            Some(s) => selection == s,
            None => self.fallback_may_select(task_name, selection),
        }
    }

    fn can_select(&self, task_name: &str) -> (r: bool) {
        let name = task_name.to_owned();
        if find_pinned(&self.exact_matches, &name).is_some() {
            return true;
        }
        if find_pattern(&self.patterns, task_name).is_some() {
            return true;
        }
        self.fallback.0.can_select(task_name)
    }

    /// The pinned selection for the name, else that of the first matching
    /// pattern, else the fallback's.
    fn select(&self, task_name: &str) -> (r: ThreadSelect)
        ensures
            configured_choice(self.pinned(), self.patterns(), task_name@) matches Some(s) ==> r == s,
            configured_choice(self.pinned(), self.patterns(), task_name@) is None
                ==> self.fallback_may_select(task_name@, r),
    {
        let name = task_name.to_owned();
        if let Some(select) = find_pinned(&self.exact_matches, &name) {
            return select;
        }
        if let Some(select) = find_pattern(&self.patterns, task_name) {
            return select;
        }
        self.fallback.0.select(task_name)
    }
}

/// Builds a [`ConfiguredSelector`], created using [`ConfiguredSelector::builder`].
pub struct ConfiguredSelectorBuilder {
    exact_matches: Vec<(String, ThreadSelect)>,
    patterns: Vec<(NamePattern, ThreadSelect)>,
    fallback: Option<SelectorBox>,
}

impl ConfiguredSelectorBuilder {
    /// The selection pinned to each task name so far.
    pub closed spec fn pinned(&self) -> Map<Seq<char>, ThreadSelect> {
        pinned_map(entries_view(self.exact_matches@))
    }

    /// The patterns added so far, by source text, in order.
    pub closed spec fn patterns(&self) -> Seq<(Seq<char>, ThreadSelect)> {
        patterns_view(self.patterns@)
    }

    /// Whether a fallback selector was set.
    pub closed spec fn has_fallback(&self) -> bool {
        self.fallback is Some
    }

    /// The fallback selector that was set, if any.
    pub closed spec fn fallback_spec(&self) -> Option<SelectorBox> {
        self.fallback
    }

    pub fn new() -> (r: Self)
        ensures
            r.pinned() == Map::<Seq<char>, ThreadSelect>::empty(),
            r.patterns() == Seq::<(Seq<char>, ThreadSelect)>::empty(),
            !r.has_fallback(),
    {
        let r = ConfiguredSelectorBuilder { exact_matches: Vec::new(), patterns: Vec::new(), fallback: None };
        assert(entries_view(r.exact_matches@) =~= Seq::empty());
        assert(patterns_view(r.patterns@) =~= Seq::empty());
        r
    }

    /// Sets the [`ThreadSelect`] to use for the given task name, replacing
    /// any set for it before.
    pub fn with_pinned_task<I: Into<String>>(self, task_name: I, thread_select: ThreadSelect) -> (r: Self)
        ensures
            exists|name: String| #[trigger] call_ensures(I::into, (task_name,), name)
                && r.pinned() == self.pinned().insert(name@, thread_select),
            r.patterns() == self.patterns(),
            r.fallback_spec() == self.fallback_spec(),
    {
        let ghost given = task_name;
        let name: String = task_name.into();
        assert(call_ensures(I::into, (given,), name));
        let ghost key = name@;
        let mut builder = self;
        builder.exact_matches.push((name, thread_select));
        proof {
            let v = entries_view(builder.exact_matches@);
            assert(v.drop_last() =~= entries_view(self.exact_matches@));
            assert(v.last() == (key, thread_select));
        }
        builder
    }

    /// Adds a task-name pattern and the [`ThreadSelect`] used for names that match it.
    pub fn with_thread_pattern(self, pattern: NamePattern, thread_select: ThreadSelect) -> (r: Self)
        ensures
            r.pinned() == self.pinned(),
            r.patterns() == self.patterns().push((pattern.source(), thread_select)),
            r.fallback_spec() == self.fallback_spec(),
    {
        let ghost source = pattern.source();
        let mut builder = self;
        builder.patterns.push((pattern, thread_select));
        assert(patterns_view(builder.patterns@) =~= patterns_view(self.patterns@).push((source, thread_select)));
        builder
    }

    /// Sets the fallback selector, used when no pinned task or pattern applies.
    pub fn with_fallback<T: ThreadSelector + 'static>(self, fallback: T) -> (r: Self)
        ensures
            r.pinned() == self.pinned(),
            r.patterns() == self.patterns(),
            r.fallback_spec() == Some(SelectorBox(Box::new(fallback))),
    {
        ConfiguredSelectorBuilder {
            exact_matches: self.exact_matches,
            patterns: self.patterns,
            fallback: Some(SelectorBox(Box::new(fallback))),
        }
    }

    /// Builds the [`ConfiguredSelector`]; fails when no fallback was set.
    pub fn build(self) -> (r: Result<ConfiguredSelector, BuilderError>)
        ensures
            r is Err <==> !self.has_fallback(),
            r matches Err(e) ==> e.reason_spec() == "fallback selector not defined"@,
            r matches Ok(sel) ==> sel.pinned() == self.pinned() && sel.patterns() == self.patterns()
                && self.fallback_spec() == Some(sel.fallback_spec()),
    {
        match self.fallback {
            Some(fallback) => Ok(ConfiguredSelector {
                exact_matches: self.exact_matches,
                patterns: self.patterns,
                fallback,
            }),
            None => {
                proof { reveal_strlit("fallback selector not defined"); }
                Err(BuilderError::from_reason("fallback selector not defined"))
            },
        }
    }
}

/// Round-robin selection repeats with a period of the number of thread ids.
pub proof fn lemma_round_robin_periodic(ids: Seq<u64>, seq: int)
    requires
        ids.len() > 0,
        seq >= 0,
    ensures
        round_robin_pick(ids, seq + ids.len()) == round_robin_pick(ids, seq),
{
    vstd::arithmetic::div_mod::lemma_mod_add_multiples_vanish(seq, ids.len() as int);
}

/// Any run of as many consecutive selections as there are thread ids picks
/// every thread id.
pub proof fn lemma_round_robin_visits_all(ids: Seq<u64>, seq: int, j: int)
    requires
        ids.len() > 0,
        seq >= 0,
        0 <= j < ids.len(),
    ensures
        exists|k: int| 0 <= k < ids.len() && #[trigger] round_robin_pick(ids, seq + k) == ids[j],
{
    let n = ids.len() as int;
    let r = seq % n;
    let q = seq / n;
    vstd::arithmetic::div_mod::lemma_fundamental_div_mod(seq, n);
    vstd::arithmetic::div_mod::lemma_mod_bound(seq, n);
    let c: int = if j >= r { 0 } else { 1 };
    let k = j - r + c * n;
    assert(seq + k == (q + c) * n + j) by (nonlinear_arith)
        requires
            seq == n * q + r,
            k == j - r + c * n,
    ;
    vstd::arithmetic::div_mod::lemma_fundamental_div_mod_converse(seq + k, n, q + c, j);
    assert(round_robin_pick(ids, seq + k) == ids[j]);
}

/// With at least two distinct thread ids, consecutive selections go to
/// different threads, so the load alternates between them.
pub proof fn lemma_round_robin_alternates(ids: Seq<u64>, seq: int)
    requires
        ids.len() >= 2,
        strictly_increasing(ids),
        seq >= 0,
    ensures
        round_robin_pick(ids, seq) != round_robin_pick(ids, seq + 1),
{
    let n = ids.len() as int;
    let q = seq / n;
    let r = seq % n;
    vstd::arithmetic::div_mod::lemma_mod_bound(seq, n);
    vstd::arithmetic::div_mod::lemma_fundamental_div_mod(seq, n);
    if r == n - 1 {
        assert(seq + 1 == (q + 1) * n + 0) by (nonlinear_arith)
            requires
                seq == n * q + r,
                r == n - 1,
        ;
        vstd::arithmetic::div_mod::lemma_fundamental_div_mod_converse(seq + 1, n, q + 1, 0);
        assert(ids[0] < ids[n - 1]);
    } else {
        assert(seq + 1 == q * n + (r + 1)) by (nonlinear_arith)
            requires
                seq == n * q + r,
        ;
        vstd::arithmetic::div_mod::lemma_fundamental_div_mod_converse(seq + 1, n, q, r + 1);
        assert(ids[r] < ids[r + 1]);
    }
}

/// Adding two lists of thread ids to a builder gives the same set of ids in
/// either order.
pub proof fn lemma_added_ids_commute(ids: Set<u64>, first: Seq<u64>, second: Seq<u64>)
    ensures
        (ids + first.to_set()) + second.to_set() == (ids + second.to_set()) + first.to_set(),
{
    assert((ids + first.to_set()) + second.to_set() =~= (ids + second.to_set()) + first.to_set());
}

/// A set of thread ids has one strictly increasing order: two round-robin
/// selectors built from the same set of ids go through the same sequence.
pub proof fn lemma_sorted_ids_unique(a: Seq<u64>, b: Seq<u64>)
    requires
        strictly_increasing(a),
        strictly_increasing(b),
        a.to_set() == b.to_set(),
    ensures
        a == b,
    decreases a.len(),
{
    if a.len() == 0 {
        if b.len() > 0 {
            assert(b.to_set().contains(b[0]));
        }
        assert(a =~= b);
    } else {
        assert(a.to_set().contains(a[0]));
        assert(b.len() > 0);
        assert(b.to_set().contains(b[0]));
        let j = choose|j: int| 0 <= j < b.len() && b[j] == a[0];
        let k = choose|k: int| 0 <= k < a.len() && a[k] == b[0];
        assert(b[0] <= b[j]);
        assert(a[0] <= a[k]);
        assert(a[0] == b[0]);
        let a1 = a.drop_first();
        let b1 = b.drop_first();
        assert forall|x: u64| a1.to_set().contains(x) <==> b1.to_set().contains(x) by {
            if a1.to_set().contains(x) {
                let i = choose|i: int| 0 <= i < a1.len() && a1[i] == x;
                assert(a[i + 1] == x);
                assert(a.to_set().contains(x));
                let m = choose|m: int| 0 <= m < b.len() && b[m] == x;
                assert(m != 0);
                assert(b1[m - 1] == x);
            }
            if b1.to_set().contains(x) {
                let i = choose|i: int| 0 <= i < b1.len() && b1[i] == x;
                assert(b[i + 1] == x);
                assert(b.to_set().contains(x));
                let m = choose|m: int| 0 <= m < a.len() && a[m] == x;
                assert(m != 0);
                assert(a1[m - 1] == x);
            }
        }
        assert(a1.to_set() =~= b1.to_set());
        lemma_sorted_ids_unique(a1, b1);
        assert forall|i: int| 0 <= i < a.len() implies a[i] == b[i] by {
            if i > 0 {
                assert(a[i] == a1[i - 1]);
                assert(b[i] == b1[i - 1]);
            }
        }
        assert(a =~= b);
    }
}

/// A name pinned to a selection gets that selection, whatever patterns match it.
pub proof fn lemma_pinned_name_wins(
    pinned: Map<Seq<char>, ThreadSelect>,
    patterns: Seq<(Seq<char>, ThreadSelect)>,
    name: Seq<char>,
)
    requires
        pinned.contains_key(name),
    ensures
        configured_choice(pinned, patterns, name) == Some(pinned[name]),
{
}

/// A name that no pin or pattern applies to gets a selection that the
/// configured fallback selector may make for it.
pub proof fn lemma_unmatched_name_goes_to_fallback(
    selector: ConfiguredSelector,
    name: Seq<char>,
    selection: ThreadSelect,
)
    requires
        configured_choice(selector.pinned(), selector.patterns(), name) is None,
        selector.may_select(name, selection),
    ensures
        selector.fallback_spec().0.may_select(name, selection),
{
}

/// An unpinned name gets the selection of the first pattern that matches it.
pub proof fn lemma_first_matching_pattern_wins(
    pinned: Map<Seq<char>, ThreadSelect>,
    patterns: Seq<(Seq<char>, ThreadSelect)>,
    name: Seq<char>,
    i: int,
)
    requires
        !pinned.contains_key(name),
        0 <= i < patterns.len(),
        regex_matches(patterns[i].0, name),
        forall|k: int| 0 <= k < i ==> !regex_matches(#[trigger] patterns[k].0, name),
    ensures
        configured_choice(pinned, patterns, name) == Some(patterns[i].1),
{
    lemma_first_match_from(patterns, name, 0, i);
}

proof fn lemma_first_match_from(
    patterns: Seq<(Seq<char>, ThreadSelect)>,
    name: Seq<char>,
    from: int,
    i: int,
)
    requires
        0 <= from <= i < patterns.len(),
        regex_matches(patterns[i].0, name),
        forall|k: int| from <= k < i ==> !regex_matches(#[trigger] patterns[k].0, name),
    ensures
        first_match_from(patterns, name, from) == Some(patterns[i].1),
    decreases i - from,
{
    if from < i {
        lemma_first_match_from(patterns, name, from + 1, i);
    }
}

} // verus!
