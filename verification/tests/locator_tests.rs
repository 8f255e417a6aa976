use nidalee::locator::{
    drive_candidates, locator_start, DirEntry, Locator, LocatorProbe, LocatorReply, LocatorState,
    RegistryHive,
};

/// A scripted OS: what the registry holds, which paths exist, which drives
/// are mounted, what each directory contains, and what the process listing
/// says.
struct Fixture {
    wow64_value: Option<String>,
    machine_value: Option<String>,
    user_value: Option<String>,
    existing_paths: Vec<String>,
    drives: Vec<String>,
    listings: Vec<(String, Vec<DirEntry>)>,
    process_listing: String,
}

impl Fixture {
    fn empty() -> Fixture {
        Fixture {
            wow64_value: None,
            machine_value: None,
            user_value: None,
            existing_paths: Vec::new(),
            drives: Vec::new(),
            listings: Vec::new(),
            process_listing: String::new(),
        }
    }

    fn answer(&self, probe: &LocatorProbe) -> LocatorReply {
        match probe {
            LocatorProbe::ReadRegistry { hive, key } => {
                let value = if *hive == RegistryHive::LocalMachine && key.contains("WOW6432Node") {
                    self.wow64_value.clone()
                } else if *hive == RegistryHive::LocalMachine {
                    self.machine_value.clone()
                } else {
                    self.user_value.clone()
                };
                LocatorReply::RegistryValue { value }
            }
            LocatorProbe::CheckPath { path } => LocatorReply::PathExists {
                yes: self.existing_paths.iter().any(|p| p == path),
            },
            LocatorProbe::ListDrives => LocatorReply::Drives { roots: self.drives.clone() },
            LocatorProbe::ListDir { path } => {
                let entries = self
                    .listings
                    .iter()
                    .find(|(p, _)| p == path)
                    .map(|(_, es)| es.clone())
                    .unwrap_or_default();
                LocatorReply::DirEntries { entries }
            }
            LocatorProbe::QueryProcessList => LocatorReply::ProcessListing {
                listing: self.process_listing.clone(),
            },
        }
    }
}

fn probe_kind(probe: &LocatorProbe) -> &'static str {
    match probe {
        LocatorProbe::ReadRegistry { .. } => "registry",
        LocatorProbe::CheckPath { .. } => "check",
        LocatorProbe::ListDrives => "drives",
        LocatorProbe::ListDir { .. } => "listdir",
        LocatorProbe::QueryProcessList => "processes",
    }
}

/// Run the locator against the fixture; the result plus the probe log.
fn run(fix: &Fixture) -> (Option<String>, Vec<String>) {
    let (mut loc, first) = locator_start();
    let mut probe = first;
    let mut log: Vec<String> = Vec::new();
    let mut guard = 0;
    loop {
        guard += 1;
        assert!(guard < 10_000, "locator did not finish");
        log.push(match &probe {
            LocatorProbe::CheckPath { path } => format!("check:{}", path),
            LocatorProbe::ListDir { path } => format!("listdir:{}", path),
            other => String::from(probe_kind(other)),
        });
        let reply = fix.answer(&probe);
        let (next, next_probe) = loc.step(reply);
        loc = next;
        match next_probe {
            Some(p) => probe = p,
            None => break,
        }
    }
    match loc.state {
        LocatorState::Done { result } => (result, log),
        _ => panic!("locator stopped outside Done"),
    }
}

fn file(path: &str, name: &str) -> DirEntry {
    DirEntry { path: String::from(path), name: String::from(name), is_dir: false }
}

fn dir(path: &str, name: &str) -> DirEntry {
    DirEntry { path: String::from(path), name: String::from(name), is_dir: true }
}

#[test]
fn registry_hit_short_circuits_everything_else() {
    let mut fix = Fixture::empty();
    fix.wow64_value = Some(String::from("C:\\Riot Games\\Riot Client"));
    fix.existing_paths =
        vec![String::from("C:\\Riot Games\\Riot Client\\RiotClientServices.exe")];
    let (result, log) = run(&fix);
    assert_eq!(result.as_deref(), Some("C:\\Riot Games\\Riot Client\\RiotClientServices.exe"));
    assert_eq!(log.len(), 2);
    assert_eq!(log[0], "registry");
}

#[test]
fn common_path_hit_comes_after_all_registry_keys() {
    let mut fix = Fixture::empty();
    fix.existing_paths =
        vec![String::from("C:\\Program Files\\Riot Games\\Riot Client\\RiotClientServices.exe")];
    let (result, log) = run(&fix);
    assert_eq!(
        result.as_deref(),
        Some("C:\\Program Files\\Riot Games\\Riot Client\\RiotClientServices.exe")
    );
    assert_eq!(log.iter().filter(|l| *l == "registry").count(), 3);
    assert!(!log.iter().any(|l| l == "drives"));
}

#[test]
fn drive_strategy_is_never_preempted_by_later_strategies() {
    // Only strategy 3 (the conventional path on a mounted drive) can
    // succeed here; the deep search and the process listing must never be
    // consulted, and every earlier strategy must have been tried first.
    let mut fix = Fixture::empty();
    fix.drives = vec![String::from("C:\\"), String::from("D:\\")];
    fix.existing_paths =
        vec![String::from("D:\\Riot Games\\Riot Client\\RiotClientServices.exe")];
    let (result, log) = run(&fix);
    assert_eq!(result.as_deref(), Some("D:\\Riot Games\\Riot Client\\RiotClientServices.exe"));
    assert!(!log.iter().any(|l| l.starts_with("listdir")), "strategy 4 ran: {:?}", log);
    assert!(!log.iter().any(|l| l == "processes"), "strategy 5 ran: {:?}", log);
    // Priority order: 3 registry reads, then 3 common-path checks, then the
    // drive enumeration, then the per-drive checks.
    assert_eq!(log.iter().filter(|l| *l == "registry").count(), 3);
    let drives_pos = log.iter().position(|l| l == "drives").unwrap();
    assert_eq!(drives_pos, 6);
    assert_eq!(log[7], "check:C:\\Riot Games\\Riot Client\\RiotClientServices.exe");
    assert_eq!(log[8], "check:D:\\Riot Games\\Riot Client\\RiotClientServices.exe");
}

#[test]
fn deep_search_walks_directories_and_finds_the_file() {
    let mut fix = Fixture::empty();
    fix.drives = vec![String::from("C:\\")];
    let root = "C:\\Program Files\\Riot Games";
    fix.existing_paths = vec![String::from(root)];
    fix.listings = vec![
        (
            String::from(root),
            vec![
                file("C:\\Program Files\\Riot Games\\readme.txt", "readme.txt"),
                dir("C:\\Program Files\\Riot Games\\Riot Client", "Riot Client"),
            ],
        ),
        (
            String::from("C:\\Program Files\\Riot Games\\Riot Client"),
            vec![file(
                "C:\\Program Files\\Riot Games\\Riot Client\\RiotClientServices.exe",
                "RiotClientServices.exe",
            )],
        ),
    ];
    let (result, log) = run(&fix);
    assert_eq!(
        result.as_deref(),
        Some("C:\\Program Files\\Riot Games\\Riot Client\\RiotClientServices.exe")
    );
    assert!(log.iter().any(|l| l == "listdir:C:\\Program Files\\Riot Games"));
    assert!(log.iter().any(|l| l == "listdir:C:\\Program Files\\Riot Games\\Riot Client"));
}

#[test]
fn process_listing_is_the_last_resort() {
    let mut fix = Fixture::empty();
    fix.drives = vec![String::from("C:\\")];
    fix.process_listing = String::from(
        "ExecutablePath\r\n\r\nE:\\Games\\Riot Client\\RiotClientServices.exe \r\n",
    );
    let (result, log) = run(&fix);
    assert_eq!(result.as_deref(), Some("E:\\Games\\Riot Client\\RiotClientServices.exe"));
    assert_eq!(log.last().map(String::as_str), Some("processes"));
}

#[test]
fn exhausted_search_reports_nothing_found() {
    let fix = Fixture::empty();
    let (result, log) = run(&fix);
    assert_eq!(result, None);
    // 3 registry keys, 3 common paths, the drive enumeration (empty), then
    // the process listing.
    assert_eq!(log.len(), 8);
    assert_eq!(log.last().map(String::as_str), Some("processes"));
}

#[test]
fn drive_candidates_are_the_26_roots() {
    let roots = drive_candidates();
    assert_eq!(roots.len(), 26);
    assert_eq!(roots[0], "A:\\");
    assert_eq!(roots[2], "C:\\");
    assert_eq!(roots[25], "Z:\\");
}

#[test]
fn locator_state_starts_at_the_first_registry_key() {
    let (loc, probe) = locator_start();
    assert!(matches!(loc.state, LocatorState::RegQuery { idx: 0 }));
    match probe {
        LocatorProbe::ReadRegistry { hive, key } => {
            assert_eq!(hive, RegistryHive::LocalMachine);
            assert_eq!(key, "SOFTWARE\\WOW6432Node\\Riot Games\\Riot Client");
        }
        _ => panic!("unexpected first probe"),
    }
    let _ = Locator { drives: Vec::new(), state: LocatorState::ProcessQuery };
}
