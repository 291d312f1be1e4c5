//! Copying one package version from a source registry to a target registry.
//!
//! The copy is a sequence of outside steps (registry queries, a download, an
//! unpack, a publish, pauses). [`Mirror`] makes every decision between those
//! steps: the driver performs the [`Action`] it is handed and answers with the
//! [`Event`] that came of it, until the action is [`Action::Stop`].
use vstd::prelude::*;

verus! {

/// What the mirror reads of a package version held by a registry.
#[derive(Debug)]
pub struct PackageRecord {
    pub version: String,
    /// Where the uploaded archive can be fetched, once it is stored.
    pub download_url: Option<String>,
    /// Where the processed artifact can be fetched, once the registry has
    /// finished converting the upload.
    pub ready_url: Option<String>,
}

impl PackageRecord {
    /// A field-for-field copy.
    pub fn copy(&self) -> (r: PackageRecord)
        ensures
            r == *self,
    {
        PackageRecord {
            version: self.version.clone(),
            download_url: match &self.download_url {
                Some(u) => Some(u.clone()),
                None => None,
            },
            ready_url: match &self.ready_url {
                Some(u) => Some(u.clone()),
                None => None,
            },
        }
    }
}

/// Why a mirror run ended without a record.
#[derive(Clone, Copy, Debug, PartialEq, Eq, Structural)]
pub enum MirrorError {
    /// The source registry has no such package.
    NotFound,
    /// The source version has no stored archive to download.
    MissingArtifact,
    /// Downloading, unpacking, renaming or launching the publish failed.
    IoFailure,
    /// The publish failed and the target still lacks the version.
    PublishFailure,
    /// The target never reported the version ready within the budget.
    Timeout,
    /// A registry query itself failed.
    QueryFailure,
    /// The target stopped reporting a version it had reported before.
    Vanished,
    /// The driver answered with an event that does not fit the pending action.
    OutOfOrder,
}

/// Timing of the readiness wait, in seconds.
#[derive(Clone, Copy, Debug, PartialEq, Eq, Structural)]
pub struct MirrorConfig {
    /// Pause after publishing, before the readiness clock starts.
    pub settle_secs: u64,
    /// Pause between two readiness queries.
    pub poll_interval_secs: u64,
    /// Longest time the readiness wait may take.
    pub timeout_secs: u64,
}

/// Where a mirror run stands.
#[derive(Debug)]
pub enum Phase {
    /// Looking up the requested version on the source registry.
    Resolve,
    /// Asking whether the target already has the source version.
    CheckTarget { source: PackageRecord },
    /// Downloading the source archive.
    Fetch { version: String, url: String },
    /// Unpacking the archive into the working directory.
    Unpack { version: String },
    /// Renaming a manifest found under its legacy name.
    FixManifest { version: String },
    /// Publishing the working directory to the target.
    Publish { version: String },
    /// After a failed publish: asking whether someone else published it.
    Reconcile { version: String },
    /// Pausing before the next readiness query; `first` for the pause that
    /// starts the readiness clock.
    Wait { version: String, first: bool },
    /// Asking the target whether the version is ready.
    Poll { version: String },
    /// Finished: the target's record of the version.
    Done { record: PackageRecord },
    /// Finished without a record.
    Failed { error: MirrorError },
}

/// An outside step for the driver to perform.
#[derive(Debug)]
pub enum Action {
    /// Query the source registry for `name` at `version`; answer `Found` or
    /// `QueryFailed`.
    QuerySource { name: String, version: String },
    /// Query the target registry for `name` at `version`; answer `Found` or
    /// `QueryFailed`.
    QueryTarget { name: String, version: String },
    /// Download `url` into a fresh working directory; answer `Fetched` or
    /// `IoFailed`.
    Download { url: String },
    /// Unpack the downloaded archive in the working directory; answer
    /// `Extracted` with the names at its root, or `IoFailed`.
    Extract,
    /// Rename the file `from` to `to` in the working directory, replacing any
    /// `to`; answer `Renamed` or `IoFailed`.
    RenameManifest { from: String, to: String },
    /// Publish the working directory to the target registry; answer
    /// `Published` or, if the publish could not be started, `IoFailed`.
    Publish,
    /// Pause `secs` seconds, then start the readiness clock; answer `Tick`.
    Settle { secs: u64 },
    /// Pause `secs` seconds; answer `Tick`.
    Sleep { secs: u64 },
    /// The run is over: see the phase.
    Stop,
}

/// What came of the last action.
#[derive(Debug)]
pub enum Event {
    /// A registry answered a query.
    Found { record: Option<PackageRecord> },
    /// A registry query failed.
    QueryFailed,
    /// The archive was downloaded.
    Fetched,
    /// The archive was unpacked; `entries` are the names at its root.
    Extracted { entries: Vec<String> },
    /// The manifest was renamed.
    Renamed,
    /// The publish command ran and reported `success`.
    Published { success: bool },
    /// A download, unpack, rename or publish launch failed.
    IoFailed,
    /// A pause ended `elapsed_secs` seconds (rounded up) after the readiness
    /// clock started.
    Tick { elapsed_secs: u64 },
}

/// One mirror run: what it copies, how long it waits, and where it stands.
#[derive(Debug)]
pub struct Mirror {
    /// `namespace/name` of the package.
    pub full_name: String,
    /// The version asked of the source registry; `*` asks for the newest.
    pub requested: String,
    /// The manifest file name that older archives use.
    pub legacy_manifest: String,
    /// The manifest file name that publishing expects.
    pub manifest: String,
    pub config: MirrorConfig,
    pub phase: Phase,
}

pub open spec fn full_name_of(namespace: Seq<char>, name: Seq<char>) -> Seq<char> {
    namespace + "/"@ + name
}

/// Some entry of `entries` is named `name`.
pub open spec fn lists(entries: Seq<String>, name: Seq<char>) -> bool {
    exists|i: int| 0 <= i < entries.len() && entries[i]@ == name
}

pub open spec fn terminal(p: Phase) -> bool {
    p is Done || p is Failed
}

impl Mirror {
    /// The manifest names are the ones that archives and the publish step use.
    pub open spec fn wf(&self) -> bool {
        &&& self.legacy_manifest@ == "wapm.toml"@
        &&& self.manifest@ == "wasmer.toml"@
    }

    /// The same run in phase `p`.
    pub open spec fn with_phase(self, p: Phase) -> Mirror {
        Mirror { phase: p, ..self }
    }

    /// The action that the current phase waits on.
    pub open spec fn pending(self) -> Action {
        match self.phase {
            Phase::Resolve => Action::QuerySource { name: self.full_name, version: self.requested },
            Phase::CheckTarget { source } => Action::QueryTarget {
                name: self.full_name,
                version: source.version,
            },
            Phase::Fetch { version, url } => Action::Download { url },
            Phase::Unpack { version } => Action::Extract,
            Phase::FixManifest { version } => Action::RenameManifest {
                from: self.legacy_manifest,
                to: self.manifest,
            },
            Phase::Publish { version } => Action::Publish,
            Phase::Reconcile { version } => Action::QueryTarget { name: self.full_name, version },
            Phase::Wait { version, first } => if first {
                Action::Settle { secs: self.config.settle_secs }
            } else {
                Action::Sleep { secs: self.config.poll_interval_secs }
            },
            Phase::Poll { version } => Action::QueryTarget { name: self.full_name, version },
            Phase::Done { record } => Action::Stop,
            Phase::Failed { error } => Action::Stop,
        }
    }

    /// The phase that follows the current one on `e`.
    pub open spec fn next_phase(self, e: Event) -> Phase {
        let fail = |error: MirrorError| Phase::Failed { error };
        match self.phase {
            Phase::Resolve => match e {
                Event::Found { record: Some(source) } => Phase::CheckTarget { source },
                Event::Found { record: None } => fail(MirrorError::NotFound),
                Event::QueryFailed => fail(MirrorError::QueryFailure),
                _ => fail(MirrorError::OutOfOrder),
            },
            Phase::CheckTarget { source } => match e {
                Event::Found { record: Some(record) } => Phase::Done { record },
                Event::Found { record: None } => match source.download_url {
                    Some(url) => Phase::Fetch { version: source.version, url },
                    None => fail(MirrorError::MissingArtifact),
                },
                Event::QueryFailed => fail(MirrorError::QueryFailure),
                _ => fail(MirrorError::OutOfOrder),
            },
            Phase::Fetch { version, url } => match e {
                Event::Fetched => Phase::Unpack { version },
                Event::IoFailed => fail(MirrorError::IoFailure),
                _ => fail(MirrorError::OutOfOrder),
            },
            Phase::Unpack { version } => match e {
                Event::Extracted { entries } => if lists(entries@, self.legacy_manifest@) {
                    Phase::FixManifest { version }
                } else {
                    Phase::Publish { version }
                },
                Event::IoFailed => fail(MirrorError::IoFailure),
                _ => fail(MirrorError::OutOfOrder),
            },
            Phase::FixManifest { version } => match e {
                Event::Renamed => Phase::Publish { version },
                Event::IoFailed => fail(MirrorError::IoFailure),
                _ => fail(MirrorError::OutOfOrder),
            },
            Phase::Publish { version } => match e {
                Event::Published { success } => if success {
                    Phase::Wait { version, first: true }
                } else {
                    Phase::Reconcile { version }
                },
                Event::IoFailed => fail(MirrorError::IoFailure),
                _ => fail(MirrorError::OutOfOrder),
            },
            Phase::Reconcile { version } => match e {
                Event::Found { record: Some(record) } => Phase::Wait { version, first: true },
                Event::Found { record: None } => fail(MirrorError::PublishFailure),
                Event::QueryFailed => fail(MirrorError::QueryFailure),
                _ => fail(MirrorError::OutOfOrder),
            },
            Phase::Wait { version, first } => match e {
                Event::Tick { elapsed_secs } => if elapsed_secs > self.config.timeout_secs {
                    fail(MirrorError::Timeout)
                } else {
                    Phase::Poll { version }
                },
                _ => fail(MirrorError::OutOfOrder),
            },
            Phase::Poll { version } => match e {
                Event::Found { record: Some(record) } => if record.ready_url is Some {
                    Phase::Done { record }
                } else {
                    Phase::Wait { version, first: false }
                },
                Event::Found { record: None } => fail(MirrorError::Vanished),
                Event::QueryFailed => fail(MirrorError::QueryFailure),
                _ => fail(MirrorError::OutOfOrder),
            },
            Phase::Done { record } => Phase::Done { record },
            Phase::Failed { error } => Phase::Failed { error },
        }
    }

    /// The run after `e`.
    pub open spec fn next(self, e: Event) -> Mirror {
        self.with_phase(self.next_phase(e))
    }

    /// A run that copies the newest version of `namespace/name` with the
    /// given timing; it starts by asking the source registry for that version.
    pub fn new(namespace: &str, name: &str, config: MirrorConfig) -> (m: Mirror)
        ensures
            m.wf(),
            m.full_name@ == full_name_of(namespace@, name@),
            m.requested@ == "*"@,
            m.config == config,
            m.phase is Resolve,
    {
        Mirror::for_version(namespace, name, "*", config)
    }

    /// A run that copies version `version` of `namespace/name` (`*` for the
    /// newest) with the given timing.
    pub fn for_version(namespace: &str, name: &str, version: &str, config: MirrorConfig) -> (m:
        Mirror)
        ensures
            m.wf(),
            m.full_name@ == full_name_of(namespace@, name@),
            m.requested@ == version@,
            m.config == config,
            m.phase is Resolve,
    {
        let mut full_name = namespace.to_owned();
        full_name.append("/");
        full_name.append(name);
        proof {
            reveal_strlit("wapm.toml");
            reveal_strlit("wasmer.toml");
        }
        Mirror {
            full_name,
            requested: version.to_owned(),
            legacy_manifest: "wapm.toml".to_owned(),
            manifest: "wasmer.toml".to_owned(),
            config,
            phase: Phase::Resolve,
        }
    }

    /// The action that the current phase waits on.
    pub fn action(&self) -> (a: Action)
        ensures
            a == self.pending(),
    {
        match &self.phase {
            Phase::Resolve => Action::QuerySource {
                name: self.full_name.clone(),
                version: self.requested.clone(),
            },
            Phase::CheckTarget { source } => Action::QueryTarget {
                name: self.full_name.clone(),
                version: source.version.clone(),
            },
            Phase::Fetch { version, url } => Action::Download { url: url.clone() },
            Phase::Unpack { version } => Action::Extract,
            Phase::FixManifest { version } => Action::RenameManifest {
                from: self.legacy_manifest.clone(),
                to: self.manifest.clone(),
            },
            Phase::Publish { version } => Action::Publish,
            Phase::Reconcile { version } => Action::QueryTarget {
                name: self.full_name.clone(),
                version: version.clone(),
            },
            Phase::Wait { version, first } => if *first {
                Action::Settle { secs: self.config.settle_secs }
            } else {
                Action::Sleep { secs: self.config.poll_interval_secs }
            },
            Phase::Poll { version } => Action::QueryTarget {
                name: self.full_name.clone(),
                version: version.clone(),
            },
            Phase::Done { record } => Action::Stop,
            Phase::Failed { error } => Action::Stop,
        }
    }

    /// Whether the run has ended.
    pub fn is_finished(&self) -> (r: bool)
        ensures
            r == terminal(self.phase),
    {
        match &self.phase {
            Phase::Done { .. } => true,
            Phase::Failed { .. } => true,
            _ => false,
        }
    }

    /// The outcome of a finished run: the target's record, or why there is
    /// none; `None` while the run goes on.
    pub fn outcome(&self) -> (r: Option<Result<PackageRecord, MirrorError>>)
        ensures
            match self.phase {
                Phase::Done { record } => r == Some(Ok::<PackageRecord, MirrorError>(record)),
                Phase::Failed { error } => r == Some(Err::<PackageRecord, MirrorError>(error)),
                _ => r is None,
            },
    {
        match &self.phase {
            Phase::Done { record } => Some(Ok(record.copy())),
            Phase::Failed { error } => Some(Err(*error)),
            _ => None,
        }
    }

    fn next_phase_exec(&self, e: Event) -> (p: Phase)
        ensures
            p == self.next_phase(e),
    {
        match &self.phase {
            Phase::Resolve => match e {
                Event::Found { record: Some(source) } => Phase::CheckTarget { source },
                Event::Found { record: None } => Phase::Failed { error: MirrorError::NotFound },
                Event::QueryFailed => Phase::Failed { error: MirrorError::QueryFailure },
                _ => Phase::Failed { error: MirrorError::OutOfOrder },
            },
            Phase::CheckTarget { source } => match e {
                Event::Found { record: Some(record) } => Phase::Done { record },
                Event::Found { record: None } => match &source.download_url {
                    Some(url) => Phase::Fetch { version: source.version.clone(), url: url.clone() },
                    None => Phase::Failed { error: MirrorError::MissingArtifact },
                },
                Event::QueryFailed => Phase::Failed { error: MirrorError::QueryFailure },
                _ => Phase::Failed { error: MirrorError::OutOfOrder },
            },
            Phase::Fetch { version, url } => match e {
                Event::Fetched => Phase::Unpack { version: version.clone() },
                Event::IoFailed => Phase::Failed { error: MirrorError::IoFailure },
                _ => Phase::Failed { error: MirrorError::OutOfOrder },
            },
            Phase::Unpack { version } => match e {
                Event::Extracted { entries } => if lists_exec(&entries, &self.legacy_manifest) {
                    Phase::FixManifest { version: version.clone() }
                } else {
                    Phase::Publish { version: version.clone() }
                },
                Event::IoFailed => Phase::Failed { error: MirrorError::IoFailure },
                _ => Phase::Failed { error: MirrorError::OutOfOrder },
            },
            Phase::FixManifest { version } => match e {
                Event::Renamed => Phase::Publish { version: version.clone() },
                Event::IoFailed => Phase::Failed { error: MirrorError::IoFailure },
                _ => Phase::Failed { error: MirrorError::OutOfOrder },
            },
            Phase::Publish { version } => match e {
                Event::Published { success } => if success {
                    Phase::Wait { version: version.clone(), first: true }
                } else {
                    Phase::Reconcile { version: version.clone() }
                },
                Event::IoFailed => Phase::Failed { error: MirrorError::IoFailure },
                _ => Phase::Failed { error: MirrorError::OutOfOrder },
            },
            Phase::Reconcile { version } => match e {
                Event::Found { record: Some(_) } => Phase::Wait {
                    version: version.clone(),
                    first: true,
                },
                Event::Found { record: None } => Phase::Failed {
                    error: MirrorError::PublishFailure,
                },
                Event::QueryFailed => Phase::Failed { error: MirrorError::QueryFailure },
                _ => Phase::Failed { error: MirrorError::OutOfOrder },
            },
            Phase::Wait { version, first } => match e {
                Event::Tick { elapsed_secs } => if elapsed_secs > self.config.timeout_secs {
                    Phase::Failed { error: MirrorError::Timeout }
                } else {
                    Phase::Poll { version: version.clone() }
                },
                _ => Phase::Failed { error: MirrorError::OutOfOrder },
            },
            Phase::Poll { version } => match e {
                Event::Found { record: Some(record) } => if record.ready_url.is_some() {
                    Phase::Done { record }
                } else {
                    Phase::Wait { version: version.clone(), first: false }
                },
                Event::Found { record: None } => Phase::Failed { error: MirrorError::Vanished },
                Event::QueryFailed => Phase::Failed { error: MirrorError::QueryFailure },
                _ => Phase::Failed { error: MirrorError::OutOfOrder },
            },
            Phase::Done { record } => Phase::Done { record: record.copy() },
            Phase::Failed { error } => Phase::Failed { error: *error },
        }
    }

    /// Takes in what came of the last action and returns the next one.
    pub fn step(&mut self, e: Event) -> (a: Action)
        ensures
            *final(self) == old(self).next(e),
            a == final(self).pending(),
    {
        let p = self.next_phase_exec(e);
        self.phase = p;
        self.action()
    }
}

/// Whether some entry of `entries` is named `name`.
fn lists_exec(entries: &Vec<String>, name: &String) -> (r: bool)
    ensures
        r == lists(entries@, name@),
{
    let mut i: usize = 0;
    while i < entries.len()
        invariant
            i <= entries@.len(),
            forall|k: int| 0 <= k < i ==> entries@[k]@ != name@,
        decreases entries@.len() - i,
    {
        if entries[i] == *name {
            return true;
        }
        i = i + 1;
    }
    false
}

} // verus!

verus! {

/// The run after it has taken in `events`, in order.
pub open spec fn after(m: Mirror, events: Seq<Event>) -> Mirror
    decreases events.len(),
{
    if events.len() == 0 {
        m
    } else {
        after(m.next(events[0]), events.drop_first())
    }
}

/// The actions that a run hands out while it takes in `events`, one per event.
pub open spec fn actions(m: Mirror, events: Seq<Event>) -> Seq<Action>
    decreases events.len(),
{
    if events.len() == 0 {
        Seq::empty()
    } else {
        let m2 = m.next(events[0]);
        seq![m2.pending()] + actions(m2, events.drop_first())
    }
}

/// How many of `acts` are publishes.
pub open spec fn publishes(acts: Seq<Action>) -> nat
    decreases acts.len(),
{
    if acts.len() == 0 {
        0
    } else {
        (if acts[0] is Publish { 1nat } else { 0nat }) + publishes(acts.drop_first())
    }
}

/// The names present in a directory whose entries are `entries`.
pub open spec fn entry_names(entries: Seq<String>) -> Set<Seq<char>> {
    Set::new(|n: Seq<char>| lists(entries, n))
}

/// The names present after renaming `from` to `to`, replacing any `to`.
pub open spec fn renamed(names: Set<Seq<char>>, from: Seq<char>, to: Seq<char>) -> Set<Seq<char>> {
    names.remove(from).insert(to)
}

/// Phases from which no publish is handed out any more.
pub open spec fn publish_behind(p: Phase) -> bool {
    p is Publish || p is Reconcile || p is Wait || p is Poll || p is Done || p is Failed
}

proof fn lemma_behind_stays(m: Mirror, events: Seq<Event>)
    requires
        publish_behind(m.phase),
    ensures
        publishes(actions(m, events)) == 0,
    decreases events.len(),
{
    if events.len() > 0 {
        let m2 = m.next(events[0]);
        lemma_behind_stays(m2, events.drop_first());
        assert((seq![m2.pending()] + actions(m2, events.drop_first())).drop_first()
            =~= actions(m2, events.drop_first()));
    }
}

proof fn lemma_finished_stays(m: Mirror, events: Seq<Event>)
    requires
        terminal(m.phase),
    ensures
        after(m, events) == m,
        forall|i: int| 0 <= i < events.len() ==> actions(m, events)[i] is Stop,
        actions(m, events).len() == events.len(),
    decreases events.len(),
{
    if events.len() > 0 {
        let m2 = m.next(events[0]);
        assert(m2 == m);
        lemma_finished_stays(m2, events.drop_first());
        let acts = actions(m, events);
        assert forall|i: int| 0 <= i < events.len() implies acts[i] is Stop by {
            if i > 0 {
                assert(acts[i] == actions(m2, events.drop_first())[i - 1]);
            }
        }
    }
}

/// Taking in `a` and then `b` is taking in `a + b`.
proof fn lemma_after_concat(m: Mirror, a: Seq<Event>, b: Seq<Event>)
    ensures
        after(m, a + b) == after(after(m, a), b),
        actions(m, a + b) == actions(m, a) + actions(after(m, a), b),
    decreases a.len(),
{
    if a.len() == 0 {
        assert(a + b =~= b);
        assert(actions(m, a) + actions(m, b) =~= actions(m, b));
    } else {
        let m1 = m.next(a[0]);
        assert((a + b)[0] == a[0]);
        assert((a + b).drop_first() =~= a.drop_first() + b);
        lemma_after_concat(m1, a.drop_first(), b);
        assert(seq![m1.pending()] + (actions(m1, a.drop_first()) + actions(
            after(m1, a.drop_first()),
            b,
        )) =~= (seq![m1.pending()] + actions(m1, a.drop_first())) + actions(
            after(m1, a.drop_first()),
            b,
        ));
    }
}

/// The run after two events, and the two actions it hands out.
proof fn lemma_two_steps(m: Mirror, e0: Event, e1: Event)
    ensures
        after(m, seq![e0, e1]) == m.next(e0).next(e1),
        actions(m, seq![e0, e1]) == seq![m.next(e0).pending(), m.next(e0).next(e1).pending()],
{
    let s = seq![e0, e1];
    let m1 = m.next(e0);
    let m2 = m1.next(e1);
    let none = Seq::<Event>::empty();
    assert(s[0] == e0);
    assert(s.drop_first() =~= seq![e1]);
    assert(seq![e1][0] == e1);
    assert(seq![e1].drop_first() =~= none);
    assert(after(m1, seq![e1]) == after(m2, none));
    assert(after(m, s) == after(m1, seq![e1]));
    assert(actions(m1, seq![e1]) == seq![m2.pending()] + actions(m2, none));
    assert(actions(m, s) == seq![m1.pending()] + actions(m1, seq![e1]));
    assert(actions(m, s) =~= seq![m1.pending(), m2.pending()]);
}

/// Two events that end a run, followed by any others: the run stays where the
/// two left it, and hands out nothing but stops after them.
proof fn lemma_ended_after_two(m: Mirror, e0: Event, e1: Event, rest: Seq<Event>)
    requires
        terminal(m.next(e0).next(e1).phase),
    ensures
        ({
            let acts = actions(m, seq![e0, e1] + rest);
            &&& after(m, seq![e0, e1] + rest) == m.next(e0).next(e1)
            &&& acts.len() == 2 + rest.len()
            &&& acts[0] == m.next(e0).pending()
            &&& acts[1] == m.next(e0).next(e1).pending()
            &&& forall|i: int| 2 <= i < acts.len() ==> acts[i] is Stop
        }),
{
    let m2 = m.next(e0).next(e1);
    lemma_two_steps(m, e0, e1);
    lemma_after_concat(m, seq![e0, e1], rest);
    lemma_finished_stays(m2, rest);
}

/// A run publishes at most once: of the action it waits on and all the actions
/// it hands out after, whatever the events, at most one is a publish.
pub proof fn lemma_publish_at_most_once(m: Mirror, events: Seq<Event>)
    ensures
        publishes(seq![m.pending()] + actions(m, events)) <= 1,
    decreases events.len(),
{
    let all = seq![m.pending()] + actions(m, events);
    assert(all.drop_first() =~= actions(m, events));
    if m.phase is Publish {
        lemma_behind_stays(m, events);
    } else if events.len() > 0 {
        let m2 = m.next(events[0]);
        lemma_publish_at_most_once(m2, events.drop_first());
    }
}

/// Mirroring a version that the target already holds copies nothing: the run
/// ends with the target's record, and never downloads or publishes.
pub proof fn lemma_present_version_not_copied(
    m: Mirror,
    source: PackageRecord,
    target: PackageRecord,
    rest: Seq<Event>,
)
    requires
        m.phase is Resolve,
    ensures
        ({
            let events = seq![
                Event::Found { record: Some(source) },
                Event::Found { record: Some(target) },
            ] + rest;
            let acts = actions(m, events);
            &&& after(m, events).phase == (Phase::Done { record: target })
            &&& forall|i: int| 0 <= i < acts.len() ==> !(acts[i] is Publish) && !(acts[i] is Download)
        }),
{
    let e0 = Event::Found { record: Some(source) };
    let e1 = Event::Found { record: Some(target) };
    lemma_ended_after_two(m, e0, e1, rest);
}

/// Phases after the target was found lacking and before the publish.
pub open spec fn before_publish(p: Phase) -> bool {
    p is Fetch || p is Unpack || p is FixManifest
}

proof fn lemma_done_needs_publish(m: Mirror, events: Seq<Event>)
    requires
        before_publish(m.phase),
        after(m, events).phase is Done,
    ensures
        publishes(actions(m, events)) >= 1,
    decreases events.len(),
{
    if events.len() > 0 {
        let m2 = m.next(events[0]);
        let rest = events.drop_first();
        let acts = actions(m, events);
        assert(acts == seq![m2.pending()] + actions(m2, rest));
        assert(acts.drop_first() =~= actions(m2, rest));
        if before_publish(m2.phase) {
            lemma_done_needs_publish(m2, rest);
        } else if m2.phase is Failed {
            lemma_finished_stays(m2, rest);
        }
    }
}

/// Mirroring the same version twice publishes it exactly once: a first run
/// that finds the target lacking the version and ends with a record has
/// published once; a second run, to which the target then reports the
/// version, publishes nothing and ends with the target's record.
pub proof fn lemma_mirror_twice_publishes_once(
    first: Mirror,
    second: Mirror,
    source: PackageRecord,
    first_rest: Seq<Event>,
    target: PackageRecord,
    second_rest: Seq<Event>,
)
    requires
        first.phase is Resolve,
        second.phase is Resolve,
        after(
            first,
            seq![Event::Found { record: Some(source) }, Event::Found { record: None }] + first_rest,
        ).phase is Done,
    ensures
        ({
            let e1 = seq![Event::Found { record: Some(source) }, Event::Found { record: None }]
                + first_rest;
            let e2 = seq![
                Event::Found { record: Some(source) },
                Event::Found { record: Some(target) },
            ] + second_rest;
            &&& publishes(actions(first, e1)) == 1
            &&& publishes(actions(second, e2)) == 0
            &&& after(second, e2).phase == (Phase::Done { record: target })
        }),
{
    let e1 = seq![Event::Found { record: Some(source) }, Event::Found { record: None }]
        + first_rest;
    let m1 = first.next(e1[0]);
    let r1 = e1.drop_first();
    let m2 = m1.next(r1[0]);
    let r2 = r1.drop_first();
    assert(r2 =~= first_rest);
    assert(after(first, e1) == after(m1, r1));
    assert(after(m1, r1) == after(m2, r2));
    let a1 = actions(first, e1);
    assert(a1 == seq![m1.pending()] + actions(m1, r1));
    assert(a1.drop_first() =~= actions(m1, r1));
    assert(actions(m1, r1) == seq![m2.pending()] + actions(m2, r2));
    assert(actions(m1, r1).drop_first() =~= actions(m2, r2));
    if m2.phase is Failed {
        lemma_finished_stays(m2, r2);
    } else {
        lemma_done_needs_publish(m2, r2);
    }
    assert(publishes(actions(m1, r1)) == publishes(actions(m2, r2)));
    assert(publishes(a1) == publishes(actions(m1, r1)));
    lemma_publish_at_most_once(first, e1);
    assert((seq![first.pending()] + a1).drop_first() =~= a1);
    assert(publishes(seq![first.pending()] + a1) == publishes(a1));

    let e2 = seq![
        Event::Found { record: Some(source) },
        Event::Found { record: Some(target) },
    ] + second_rest;
    lemma_present_version_not_copied(second, source, target, second_rest);
    lemma_no_publish_counted(actions(second, e2));
}

proof fn lemma_no_publish_counted(acts: Seq<Action>)
    requires
        forall|i: int| 0 <= i < acts.len() ==> !(acts[i] is Publish),
    ensures
        publishes(acts) == 0,
    decreases acts.len(),
{
    if acts.len() > 0 {
        let rest = acts.drop_first();
        assert forall|i: int| 0 <= i < rest.len() implies !(rest[i] is Publish) by {
            assert(rest[i] == acts[i + 1]);
        }
        lemma_no_publish_counted(rest);
    }
}

/// A source version without a stored archive fails with `MissingArtifact`
/// when the target lacks it, and nothing is downloaded or published.
pub proof fn lemma_missing_artifact(m: Mirror, source: PackageRecord, rest: Seq<Event>)
    requires
        m.phase is Resolve,
        source.download_url is None,
    ensures
        ({
            let events = seq![
                Event::Found { record: Some(source) },
                Event::Found { record: None },
            ] + rest;
            let acts = actions(m, events);
            &&& after(m, events).phase == (Phase::Failed { error: MirrorError::MissingArtifact })
            &&& forall|i: int| 0 <= i < acts.len() ==> !(acts[i] is Publish) && !(acts[i] is Download)
        }),
{
    let e0 = Event::Found { record: Some(source) };
    let e1 = Event::Found { record: None };
    lemma_ended_after_two(m, e0, e1, rest);
}

/// Losing a publish race is no failure: a run whose publish failed and whose
/// target then reports the version (another caller published it first) goes
/// on exactly as a run whose own publish succeeded, whatever follows; its only
/// extra action is the query that found the version.
pub proof fn lemma_publish_race_tolerated(
    m: Mirror,
    version: String,
    other: PackageRecord,
    rest: Seq<Event>,
)
    requires
        m.phase == (Phase::Publish { version }),
    ensures
        ({
            let lost = seq![
                Event::Published { success: false },
                Event::Found { record: Some(other) },
            ] + rest;
            let won = seq![Event::Published { success: true }] + rest;
            &&& after(m, lost) == after(m, won)
            &&& actions(m, lost)[0] is QueryTarget
            &&& actions(m, lost).drop_first() == actions(m, won)
        }),
{
    let e0 = Event::Published { success: false };
    let e1 = Event::Found { record: Some(other) };
    let w0 = Event::Published { success: true };
    lemma_two_steps(m, e0, e1);
    lemma_after_concat(m, seq![e0, e1], rest);
    let w = m.next(w0);
    assert(m.next(e0).next(e1) == w);
    let won = seq![w0] + rest;
    assert(won[0] == w0);
    assert(won.drop_first() =~= rest);
    let lost = seq![e0, e1] + rest;
    assert(actions(m, lost).drop_first() =~= seq![w.pending()] + actions(w, rest));
}

/// Phases of a run that found the target lacking the version and has not
/// ended.
pub open spec fn copying(p: Phase) -> bool {
    before_publish(p) || p is Publish || p is Reconcile || p is Wait || p is Poll
}

proof fn lemma_copy_ends_ready(m: Mirror, events: Seq<Event>)
    requires
        copying(m.phase),
    ensures
        match after(m, events).phase {
            Phase::Done { record } => record.ready_url is Some,
            _ => true,
        },
    decreases events.len(),
{
    if events.len() > 0 {
        let m2 = m.next(events[0]);
        if copying(m2.phase) {
            lemma_copy_ends_ready(m2, events.drop_first());
        } else {
            lemma_finished_stays(m2, events.drop_first());
        }
    }
}

/// A run that copies the version ends, if it ends with a record, with one
/// that the target reports ready.
pub proof fn lemma_copied_record_is_ready(m: Mirror, source: PackageRecord, rest: Seq<Event>)
    requires
        m.phase is Resolve,
    ensures
        match after(
            m,
            seq![Event::Found { record: Some(source) }, Event::Found { record: None }] + rest,
        ).phase {
            Phase::Done { record } => record.ready_url is Some,
            _ => true,
        },
{
    let e0 = Event::Found { record: Some(source) };
    let e1 = Event::Found { record: None };
    lemma_two_steps(m, e0, e1);
    lemma_after_concat(m, seq![e0, e1], rest);
    let m2 = m.next(e0).next(e1);
    if copying(m2.phase) {
        lemma_copy_ends_ready(m2, rest);
    } else {
        lemma_finished_stays(m2, rest);
    }
}

/// The events of readiness polls: for each round a pause ending at
/// `ticks[k]` seconds, then the target's answer `answers[k]`.
pub open spec fn poll_rounds(ticks: Seq<u64>, answers: Seq<PackageRecord>) -> Seq<Event>
    decreases ticks.len(),
{
    if ticks.len() == 0 || answers.len() == 0 {
        Seq::empty()
    } else {
        seq![
            Event::Tick { elapsed_secs: ticks[0] },
            Event::Found { record: Some(answers[0]) },
        ] + poll_rounds(ticks.drop_first(), answers.drop_first())
    }
}

/// Against a target that holds the version but never reports it ready, a
/// waiting run fails with `Timeout` once a pause ends past the budget, and
/// until then keeps waiting; it never ends with a record.
pub proof fn lemma_never_ready_times_out(
    m: Mirror,
    ticks: Seq<u64>,
    answers: Seq<PackageRecord>,
)
    requires
        m.phase is Wait,
        ticks.len() == answers.len(),
        forall|k: int| 0 <= k < answers.len() ==> (#[trigger] answers[k]).ready_url is None,
    ensures
        (exists|k: int| 0 <= k < ticks.len() && #[trigger] ticks[k] > m.config.timeout_secs)
            ==> after(m, poll_rounds(ticks, answers)).phase == (Phase::Failed {
            error: MirrorError::Timeout,
        }),
        (forall|k: int| 0 <= k < ticks.len() ==> #[trigger] ticks[k] <= m.config.timeout_secs)
            ==> after(m, poll_rounds(ticks, answers)).phase is Wait,
    decreases ticks.len(),
{
    if ticks.len() > 0 {
        let e0 = Event::Tick { elapsed_secs: ticks[0] };
        let e1 = Event::Found { record: Some(answers[0]) };
        let rt = ticks.drop_first();
        let ra = answers.drop_first();
        let rest = poll_rounds(rt, ra);
        lemma_two_steps(m, e0, e1);
        lemma_after_concat(m, seq![e0, e1], rest);
        let m2 = m.next(e0).next(e1);
        assert(answers[0].ready_url is None);
        if ticks[0] > m.config.timeout_secs {
            lemma_finished_stays(m2, rest);
        } else {
            assert forall|k: int| 0 <= k < ra.len() implies (#[trigger] ra[k]).ready_url is None by {
                assert(ra[k] == answers[k + 1]);
            }
            lemma_never_ready_times_out(m2, rt, ra);
            if exists|k: int| 0 <= k < ticks.len() && #[trigger] ticks[k] > m.config.timeout_secs {
                let k = choose|k: int| 0 <= k < ticks.len() && #[trigger] ticks[k] > m.config.timeout_secs;
                assert(rt[k - 1] == ticks[k]);
            }
            if forall|k: int| 0 <= k < ticks.len() ==> #[trigger] ticks[k] <= m.config.timeout_secs {
                assert forall|k: int| 0 <= k < rt.len() implies #[trigger] rt[k] <= m.config.timeout_secs by {
                    assert(rt[k] == ticks[k + 1]);
                }
            }
        }
    }
}

/// While the target never reports the version ready, a run in its readiness
/// wait never ends with a record.
pub proof fn lemma_never_ready_never_done(m: Mirror, events: Seq<Event>)
    requires
        m.phase is Wait || m.phase is Poll || m.phase is Failed,
        forall|i: int|
            0 <= i < events.len() ==> match #[trigger] events[i] {
                Event::Found { record: Some(r) } => r.ready_url is None,
                _ => true,
            },
    ensures
        !(after(m, events).phase is Done),
    decreases events.len(),
{
    if events.len() > 0 {
        let rest = events.drop_first();
        assert forall|i: int| 0 <= i < rest.len() implies match #[trigger] rest[i] {
            Event::Found { record: Some(r) } => r.ready_url is None,
            _ => true,
        } by {
            assert(rest[i] == events[i + 1]);
        }
        let e0 = events[0];
        assert(match e0 {
            Event::Found { record: Some(r) } => r.ready_url is None,
            _ => true,
        });
        lemma_never_ready_never_done(m.next(e0), rest);
    }
}

/// An archive whose root holds the legacy manifest gets it renamed: after the
/// rename the run asks for, the directory holds the canonical manifest name
/// and not the legacy one.
pub proof fn lemma_legacy_manifest_renamed(m: Mirror, version: String, entries: Vec<String>)
    requires
        m.wf(),
        m.phase == (Phase::Unpack { version }),
        lists(entries@, "wapm.toml"@),
    ensures
        ({
            let a = m.next(Event::Extracted { entries }).pending();
            &&& a == (Action::RenameManifest { from: m.legacy_manifest, to: m.manifest })
            &&& renamed(entry_names(entries@), m.legacy_manifest@, m.manifest@).contains("wasmer.toml"@)
            &&& !renamed(entry_names(entries@), m.legacy_manifest@, m.manifest@).contains("wapm.toml"@)
        }),
{
    reveal_strlit("wapm.toml");
    reveal_strlit("wasmer.toml");
    assert("wapm.toml"@.len() != "wasmer.toml"@.len());
}

} // verus!
