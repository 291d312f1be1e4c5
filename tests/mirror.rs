use watest::mirror::{Action, Event, Mirror, MirrorConfig, MirrorError, PackageRecord, Phase};

fn config() -> MirrorConfig {
    MirrorConfig { settle_secs: 5, poll_interval_secs: 1, timeout_secs: 600 }
}

fn record(version: &str, download: Option<&str>, ready: Option<&str>) -> PackageRecord {
    PackageRecord {
        version: version.to_string(),
        download_url: download.map(|s| s.to_string()),
        ready_url: ready.map(|s| s.to_string()),
    }
}

/// A registry held in memory: (full name, version, record).
struct FakeRegistry {
    versions: Vec<(String, String, PackageRecord)>,
    fail_queries: bool,
}

impl FakeRegistry {
    fn empty() -> Self {
        FakeRegistry { versions: Vec::new(), fail_queries: false }
    }

    fn lookup(&self, name: &str, version: &str) -> Option<PackageRecord> {
        self.versions
            .iter()
            .rev()
            .find(|(n, v, _)| n == name && (version == "*" || v == version))
            .map(|(_, _, r)| r.copy())
    }

    fn put(&mut self, name: &str, rec: PackageRecord) {
        let version = rec.version.clone();
        self.versions.push((name.to_string(), version, rec));
    }
}

/// How the fake target reacts to publishes.
#[derive(Clone, Copy, PartialEq)]
enum TargetMode {
    /// A publish stores the version, ready at once.
    Accepts,
    /// A publish stores the version, which never becomes ready.
    NeverReady,
    /// A publish fails, but another caller stores the version meanwhile.
    LosesRace,
    /// A publish fails and nothing is stored.
    Refuses,
}

struct Trace {
    actions: Vec<String>,
    publishes: usize,
    downloads: usize,
    dir: Vec<String>,
}

fn drive(
    m: &mut Mirror,
    source: &FakeRegistry,
    target: &mut FakeRegistry,
    mode: TargetMode,
    archive: &[&str],
) -> (Result<PackageRecord, MirrorError>, Trace) {
    let mut trace = Trace { actions: Vec::new(), publishes: 0, downloads: 0, dir: Vec::new() };
    let mut clock: u64 = 0;
    let mut pending_version = String::new();
    let mut action = m.action();
    for _ in 0..10_000 {
        let event = match &action {
            Action::QuerySource { name, version } => {
                trace.actions.push(format!("query-source {name} {version}"));
                if source.fail_queries {
                    Event::QueryFailed
                } else {
                    let found = source.lookup(name, version);
                    if let Some(r) = &found {
                        pending_version = r.version.clone();
                    }
                    Event::Found { record: found }
                }
            }
            Action::QueryTarget { name, version } => {
                trace.actions.push(format!("query-target {name} {version}"));
                if target.fail_queries {
                    Event::QueryFailed
                } else {
                    Event::Found { record: target.lookup(name, version) }
                }
            }
            Action::Download { url } => {
                trace.actions.push(format!("download {url}"));
                trace.downloads += 1;
                trace.dir = archive.iter().map(|s| s.to_string()).collect();
                Event::Fetched
            }
            Action::Extract => {
                trace.actions.push("extract".to_string());
                Event::Extracted { entries: trace.dir.clone() }
            }
            Action::RenameManifest { from, to } => {
                trace.actions.push(format!("rename {from} {to}"));
                trace.dir.retain(|n| n != from && n != to);
                trace.dir.push(to.clone());
                Event::Renamed
            }
            Action::Publish => {
                trace.actions.push("publish".to_string());
                trace.publishes += 1;
                let name = m.full_name.clone();
                let url = format!("https://cdn.example/{name}/{pending_version}.webc");
                match mode {
                    TargetMode::Accepts => {
                        target.put(&name, record(&pending_version, Some("https://t/a.tar.gz"), Some(&url)));
                        Event::Published { success: true }
                    }
                    TargetMode::NeverReady => {
                        target.put(&name, record(&pending_version, Some("https://t/a.tar.gz"), None));
                        Event::Published { success: true }
                    }
                    TargetMode::LosesRace => {
                        target.put(&name, record(&pending_version, Some("https://t/a.tar.gz"), Some(&url)));
                        Event::Published { success: false }
                    }
                    TargetMode::Refuses => Event::Published { success: false },
                }
            }
            Action::Settle { secs } => {
                trace.actions.push(format!("settle {secs}"));
                clock = 0;
                Event::Tick { elapsed_secs: clock }
            }
            Action::Sleep { secs } => {
                trace.actions.push(format!("sleep {secs}"));
                clock += secs;
                Event::Tick { elapsed_secs: clock }
            }
            Action::Stop => break,
        };
        action = m.step(event);
    }
    (m.outcome().expect("the run should have finished"), trace)
}

fn widget_source() -> FakeRegistry {
    let mut source = FakeRegistry::empty();
    source.put("acme/widget", record("1.1.0", Some("https://src/acme/widget-1.1.0.tar.gz"), Some("x")));
    source.put("acme/widget", record("1.2.0", Some("https://src/acme/widget-1.2.0.tar.gz"), Some("y")));
    source
}

#[test]
fn mirror_copies_new_version_end_to_end() {
    let source = widget_source();
    let mut target = FakeRegistry::empty();
    let mut m = Mirror::new("acme", "widget", config());
    let (out, trace) = drive(&mut m, &source, &mut target, TargetMode::Accepts, &["wasmer.toml", "src"]);
    let rec = out.expect("mirror should succeed");
    assert_eq!(rec.version, "1.2.0");
    assert!(!rec.ready_url.as_ref().unwrap().is_empty());
    let direct = target.lookup("acme/widget", "1.2.0").expect("target should hold the version");
    assert_eq!(direct.version, "1.2.0");
    assert_eq!(trace.publishes, 1);
    assert_eq!(trace.downloads, 1);
    assert_eq!(
        trace.actions,
        vec![
            "query-source acme/widget *",
            "query-target acme/widget 1.2.0",
            "download https://src/acme/widget-1.2.0.tar.gz",
            "extract",
            "publish",
            "settle 5",
            "query-target acme/widget 1.2.0",
        ]
    );
}

#[test]
fn mirror_twice_publishes_once() {
    let source = widget_source();
    let mut target = FakeRegistry::empty();
    let mut first = Mirror::new("acme", "widget", config());
    let (out1, t1) = drive(&mut first, &source, &mut target, TargetMode::Accepts, &["wasmer.toml"]);
    let mut second = Mirror::new("acme", "widget", config());
    let (out2, t2) = drive(&mut second, &source, &mut target, TargetMode::Accepts, &["wasmer.toml"]);
    let (r1, r2) = (out1.unwrap(), out2.unwrap());
    assert_eq!(t1.publishes + t2.publishes, 1);
    assert_eq!(t2.publishes, 0);
    assert_eq!(t2.downloads, 0);
    assert_eq!(r1.version, r2.version);
    assert_eq!(r1.ready_url, r2.ready_url);
    assert_eq!(t2.actions, vec!["query-source acme/widget *", "query-target acme/widget 1.2.0"]);
}

#[test]
fn mirror_tolerates_lost_publish_race() {
    let source = widget_source();
    let mut target_a = FakeRegistry::empty();
    let mut a = Mirror::new("acme", "widget", config());
    let (out_a, _) = drive(&mut a, &source, &mut target_a, TargetMode::Accepts, &["wasmer.toml"]);
    let mut target_b = FakeRegistry::empty();
    let mut b = Mirror::new("acme", "widget", config());
    let (out_b, trace_b) = drive(&mut b, &source, &mut target_b, TargetMode::LosesRace, &["wasmer.toml"]);
    let (ra, rb) = (out_a.unwrap(), out_b.unwrap());
    assert_eq!(ra.version, rb.version);
    assert_eq!(ra.ready_url, rb.ready_url);
    assert_eq!(trace_b.publishes, 1);
}

#[test]
fn mirror_fails_when_publish_refused() {
    let source = widget_source();
    let mut target = FakeRegistry::empty();
    let mut m = Mirror::new("acme", "widget", config());
    let (out, _) = drive(&mut m, &source, &mut target, TargetMode::Refuses, &["wasmer.toml"]);
    assert_eq!(out.unwrap_err(), MirrorError::PublishFailure);
}

#[test]
fn mirror_times_out_when_never_ready() {
    let source = widget_source();
    let mut target = FakeRegistry::empty();
    let cfg = MirrorConfig { settle_secs: 5, poll_interval_secs: 1, timeout_secs: 120 };
    let mut m = Mirror::new("acme", "widget", cfg);
    let (out, trace) = drive(&mut m, &source, &mut target, TargetMode::NeverReady, &["wasmer.toml"]);
    assert_eq!(out.unwrap_err(), MirrorError::Timeout);
    let sleeps = trace.actions.iter().filter(|a| a.as_str() == "sleep 1").count();
    assert_eq!(sleeps, 121);
}

#[test]
fn mirror_missing_artifact_downloads_nothing() {
    let mut source = FakeRegistry::empty();
    source.put("acme/bare", record("0.3.0", None, None));
    let mut target = FakeRegistry::empty();
    let mut m = Mirror::new("acme", "bare", config());
    let (out, trace) = drive(&mut m, &source, &mut target, TargetMode::Accepts, &["wasmer.toml"]);
    assert_eq!(out.unwrap_err(), MirrorError::MissingArtifact);
    assert_eq!(trace.downloads, 0);
    assert_eq!(trace.publishes, 0);
}

#[test]
fn mirror_unknown_package_is_not_found() {
    let source = widget_source();
    let mut target = FakeRegistry::empty();
    let mut m = Mirror::new("acme", "gadget", config());
    let (out, _) = drive(&mut m, &source, &mut target, TargetMode::Accepts, &["wasmer.toml"]);
    assert_eq!(out.unwrap_err(), MirrorError::NotFound);
}

#[test]
fn mirror_query_failure() {
    let mut source = widget_source();
    source.fail_queries = true;
    let mut target = FakeRegistry::empty();
    let mut m = Mirror::new("acme", "widget", config());
    let (out, _) = drive(&mut m, &source, &mut target, TargetMode::Accepts, &["wasmer.toml"]);
    assert_eq!(out.unwrap_err(), MirrorError::QueryFailure);
}

#[test]
fn mirror_renames_legacy_manifest() {
    let source = widget_source();
    let mut target = FakeRegistry::empty();
    let mut m = Mirror::new("acme", "widget", config());
    let (out, trace) = drive(&mut m, &source, &mut target, TargetMode::Accepts, &["wapm.toml", "src"]);
    assert!(out.is_ok());
    assert!(trace.actions.contains(&"rename wapm.toml wasmer.toml".to_string()));
    assert!(trace.dir.contains(&"wasmer.toml".to_string()));
    assert!(!trace.dir.contains(&"wapm.toml".to_string()));
}

#[test]
fn mirror_rename_step_names_both_manifests() {
    let mut m = Mirror::new("acme", "widget", config());
    m.step(Event::Found { record: Some(record("1.2.0", Some("https://src/a"), None)) });
    m.step(Event::Found { record: None });
    assert!(matches!(m.step(Event::Fetched), Action::Extract));
    let entries = vec!["src".to_string(), "wapm.toml".to_string()];
    match m.step(Event::Extracted { entries }) {
        Action::RenameManifest { from, to } => {
            assert_eq!(from, "wapm.toml");
            assert_eq!(to, "wasmer.toml");
        }
        _ => panic!("expected a rename"),
    }
    assert!(matches!(m.step(Event::Renamed), Action::Publish));
}

#[test]
fn mirror_io_failure() {
    let mut m = Mirror::new("acme", "widget", config());
    m.step(Event::Found { record: Some(record("1.2.0", Some("https://src/a"), None)) });
    m.step(Event::Found { record: None });
    assert!(matches!(m.step(Event::IoFailed), Action::Stop));
    assert_eq!(m.outcome().unwrap().unwrap_err(), MirrorError::IoFailure);
    assert!(m.is_finished());
}

#[test]
fn mirror_vanished_version() {
    let mut m = Mirror::new("acme", "widget", config());
    m.step(Event::Found { record: Some(record("1.2.0", Some("https://src/a"), None)) });
    m.step(Event::Found { record: None });
    m.step(Event::Fetched);
    m.step(Event::Extracted { entries: vec!["wasmer.toml".to_string()] });
    assert!(matches!(m.step(Event::Published { success: true }), Action::Settle { secs: 5 }));
    assert!(matches!(m.step(Event::Tick { elapsed_secs: 0 }), Action::QueryTarget { .. }));
    m.step(Event::Found { record: None });
    assert_eq!(m.outcome().unwrap().unwrap_err(), MirrorError::Vanished);
}

#[test]
fn mirror_out_of_order_event() {
    let mut m = Mirror::new("acme", "widget", config());
    assert!(!m.is_finished());
    assert!(m.outcome().is_none());
    assert!(matches!(m.step(Event::Fetched), Action::Stop));
    assert_eq!(m.outcome().unwrap().unwrap_err(), MirrorError::OutOfOrder);
    assert!(matches!(m.phase, Phase::Failed { .. }));
}

#[test]
fn mirror_finished_run_ignores_events() {
    let mut m = Mirror::new("acme", "widget", config());
    m.step(Event::Found { record: None });
    assert!(matches!(m.step(Event::Fetched), Action::Stop));
    assert_eq!(m.outcome().unwrap().unwrap_err(), MirrorError::NotFound);
}

#[test]
fn mirror_full_name_joins_namespace() {
    let m = Mirror::new("acme", "widget", config());
    assert_eq!(m.full_name, "acme/widget");
    match m.action() {
        Action::QuerySource { name, version } => {
            assert_eq!(name, "acme/widget");
            assert_eq!(version, "*");
        }
        _ => panic!("expected a source query"),
    }
}

#[test]
fn mirror_exact_version() {
    let source = widget_source();
    let mut target = FakeRegistry::empty();
    let mut m = Mirror::for_version("acme", "widget", "1.1.0", config());
    let (out, trace) = drive(&mut m, &source, &mut target, TargetMode::Accepts, &["wasmer.toml"]);
    assert_eq!(out.unwrap().version, "1.1.0");
    assert_eq!(trace.actions[0], "query-source acme/widget 1.1.0");
    assert_eq!(trace.actions[2], "download https://src/acme/widget-1.1.0.tar.gz");
}
