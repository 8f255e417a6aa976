//! The executable locator: a prioritized, short-circuiting search for the
//! client binary.
//!
//! Five strategies are tried strictly in order: the vendor's registry keys,
//! a fixed list of historically common install paths, the conventional path
//! on every mounted drive, a depth-first directory search under each
//! drive's conventional folders, and finally the path read back from an
//! already-running client process.  The machine below only decides; every
//! filesystem, registry and process probe is named by a [`LocatorProbe`]
//! that the driver answers with a [`LocatorReply`].

use vstd::prelude::*;
use crate::text;

verus! {

/// Number of registry locations tried by the first strategy.
pub const REGISTRY_KEY_COUNT: usize = 3;

/// Number of fixed install paths tried by the second strategy.
pub const COMMON_PATH_COUNT: usize = 3;

/// Number of conventional folders searched per drive by the fourth
/// strategy.
pub const FAMILY_DIR_COUNT: usize = 3;

/// The registry hive a key lives under.
#[derive(Clone, Copy, PartialEq, Eq, Structural, Debug)]
pub enum RegistryHive {
    LocalMachine,
    CurrentUser,
}

/// One directory entry handed back by a `ListDir` probe.
#[derive(Clone, Debug)]
pub struct DirEntry {
    /// Full path of the entry.
    pub path: String,
    /// Bare file or directory name.
    pub name: String,
    pub is_dir: bool,
}

/// A question the machine asks of the OS.
pub enum LocatorProbe {
    /// Read the `InstallLocation` value under the given key.
    ReadRegistry { hive: RegistryHive, key: String },
    /// Does `path` exist on the filesystem?
    CheckPath { path: String },
    /// Enumerate the mounted drive roots.
    ListDrives,
    /// List the entries of a directory.
    ListDir { path: String },
    /// Capture a process listing that carries executable paths.
    QueryProcessList,
}

/// The driver's answer to the pending probe.
pub enum LocatorReply {
    RegistryValue { value: Option<String> },
    PathExists { yes: bool },
    Drives { roots: Vec<String> },
    DirEntries { entries: Vec<DirEntry> },
    ProcessListing { listing: String },
}

/// Control state of the search.
#[derive(Debug)]
pub enum LocatorState {
    /// Strategy 1: awaiting the registry value of key `idx`.
    RegQuery { idx: usize },
    /// Strategy 1: awaiting the existence check of the candidate built
    /// from key `idx`'s install location.
    RegCheck { idx: usize, candidate: String },
    /// Strategy 2: awaiting the existence check of common path `idx`.
    CommonCheck { idx: usize },
    /// Strategy 3: awaiting the drive enumeration.
    DrivesQuery,
    /// Strategy 3: awaiting the direct-path check on drive `di`.
    DriveDirect { di: usize },
    /// Strategy 4: awaiting the existence check of conventional folder
    /// `si` on drive `di`.
    SearchRootCheck { di: usize, si: usize },
    /// Strategy 4: depth-first search below folder `si` of drive `di`;
    /// `stack` holds the directories still to list, top last.
    Searching { di: usize, si: usize, stack: Vec<String> },
    /// Strategy 5: awaiting the process listing.
    ProcessQuery,
    /// The search is over.
    Done { result: Option<String> },
}

/// The locator machine: the drive list (filled by strategy 3) plus the
/// control state.
pub struct Locator {
    pub drives: Vec<String>,
    pub state: LocatorState,
}

/// The client executable's file name.
pub open spec fn exe_name() -> Seq<char> {
    "RiotClientServices.exe"@
}

/// The registry key path of strategy 1's key `i`.
pub open spec fn registry_key_path(i: int) -> Seq<char> {
    if i == 0 {
        "SOFTWARE\\WOW6432Node\\Riot Games\\Riot Client"@
    } else {
        "SOFTWARE\\Riot Games\\Riot Client"@
    }
}

/// The hive of strategy 1's key `i`: both machine-wide keys first, the
/// per-user key last.
pub open spec fn registry_hive_of(i: int) -> RegistryHive {
    if i < 2 {
        RegistryHive::LocalMachine
    } else {
        RegistryHive::CurrentUser
    }
}

/// The candidate built from a registry install location.
pub open spec fn registry_candidate(dir: Seq<char>) -> Seq<char> {
    dir + "\\RiotClientServices.exe"@
}

/// Strategy 2's fixed install paths, in priority order.
pub open spec fn common_path(i: int) -> Seq<char> {
    if i == 0 {
        "C:\\Riot Games\\Riot Client\\RiotClientServices.exe"@
    } else if i == 1 {
        "C:\\Program Files\\Riot Games\\Riot Client\\RiotClientServices.exe"@
    } else {
        "C:\\Program Files (x86)\\Riot Games\\Riot Client\\RiotClientServices.exe"@
    }
}

/// Strategy 3's conventional path on one drive.
pub open spec fn direct_path(drive: Seq<char>) -> Seq<char> {
    drive + "Riot Games\\Riot Client\\RiotClientServices.exe"@
}

/// Strategy 4's conventional folder `si` on one drive.
pub open spec fn family_dir(drive: Seq<char>, si: int) -> Seq<char> {
    drive + (if si == 0 {
        "Program Files\\Riot Games"@
    } else if si == 1 {
        "Program Files (x86)\\Riot Games"@
    } else {
        "Riot Games"@
    })
}

/// Which of the five strategies (1–5) a state belongs to; `Done` ranks
/// past them all.
pub open spec fn strategy_rank(st: LocatorState) -> int {
    match st {
        LocatorState::RegQuery { .. } => 1,
        LocatorState::RegCheck { .. } => 1,
        LocatorState::CommonCheck { .. } => 2,
        LocatorState::DrivesQuery => 3,
        LocatorState::DriveDirect { .. } => 3,
        LocatorState::SearchRootCheck { .. } => 4,
        LocatorState::Searching { .. } => 4,
        LocatorState::ProcessQuery => 5,
        LocatorState::Done { .. } => 6,
    }
}

/// The full path of one entry, when it is a directory.
pub open spec fn one_dir(e: DirEntry) -> Seq<Seq<char>> {
    if e.is_dir {
        seq![e.path@]
    } else {
        Seq::<Seq<char>>::empty()
    }
}

/// The paths of the directory entries, in listing order.
pub open spec fn dir_paths(entries: Seq<DirEntry>) -> Seq<Seq<char>>
    decreases entries.len(),
{
    if entries.len() == 0 {
        Seq::<Seq<char>>::empty()
    } else {
        one_dir(entries[0]) + dir_paths(entries.skip(1))
    }
}

/// The wrapped path of one entry, when it is the client executable.
pub open spec fn one_hit(e: DirEntry) -> Option<Seq<char>> {
    if !e.is_dir && e.name@ == exe_name() {
        Option::Some(e.path@)
    } else {
        Option::None
    }
}

/// The path of the first entry that is the client executable file, if any.
pub open spec fn file_hit(entries: Seq<DirEntry>) -> Option<Seq<char>>
    decreases entries.len(),
{
    if entries.len() == 0 {
        Option::None
    } else if one_hit(entries[0]) is Some {
        one_hit(entries[0])
    } else {
        file_hit(entries.skip(1))
    }
}

/// Listing one more entry extends the collected directories by that
/// entry's contribution.
proof fn lemma_dir_paths_push(entries: Seq<DirEntry>, e: DirEntry)
    ensures
        dir_paths(entries.push(e)) =~~= dir_paths(entries) + one_dir(e),
    decreases entries.len(),
{
    reveal_with_fuel(dir_paths, 3);
    if entries.len() == 0 {
        assert(entries.push(e)[0] == e);
        assert(entries.push(e).skip(1) =~= Seq::<DirEntry>::empty());
    } else {
        assert(entries.push(e)[0] == entries[0]);
        assert(entries.push(e).skip(1) =~= entries.skip(1).push(e));
        lemma_dir_paths_push(entries.skip(1), e);
        assert(dir_paths(entries.push(e)) == one_dir(entries[0]) + dir_paths(
            entries.skip(1).push(e),
        ));
        assert(one_dir(entries[0]) + (dir_paths(entries.skip(1)) + one_dir(e)) =~~= (one_dir(
            entries[0],
        ) + dir_paths(entries.skip(1))) + one_dir(e));
    }
}

impl Locator {
    /// The machine's invariant: indices stay within their strategy's
    /// bounds.
    pub open spec fn wf(self) -> bool {
        match self.state {
            LocatorState::RegQuery { idx } => idx < REGISTRY_KEY_COUNT,
            LocatorState::RegCheck { idx, .. } => idx < REGISTRY_KEY_COUNT,
            LocatorState::CommonCheck { idx } => idx < COMMON_PATH_COUNT,
            LocatorState::DriveDirect { di } => di < self.drives@.len(),
            LocatorState::SearchRootCheck { di, si } => di < self.drives@.len() && si
                < FAMILY_DIR_COUNT,
            LocatorState::Searching { di, si, .. } => di < self.drives@.len() && si
                < FAMILY_DIR_COUNT,
            _ => true,
        }
    }

    /// Which reply answers the pending probe of each state.
    pub open spec fn accepts(self, reply: LocatorReply) -> bool {
        match self.state {
            LocatorState::RegQuery { .. } => reply is RegistryValue,
            LocatorState::RegCheck { .. } => reply is PathExists,
            LocatorState::CommonCheck { .. } => reply is PathExists,
            LocatorState::DrivesQuery => reply is Drives,
            LocatorState::DriveDirect { .. } => reply is PathExists,
            LocatorState::SearchRootCheck { .. } => reply is PathExists,
            LocatorState::Searching { .. } => reply is DirEntries,
            LocatorState::ProcessQuery => reply is ProcessListing,
            LocatorState::Done { .. } => false,
        }
    }
}

/// The probe that asks for registry key `i`.
fn registry_probe(i: usize) -> (r: LocatorProbe)
    requires
        i < REGISTRY_KEY_COUNT,
    ensures
        (r matches LocatorProbe::ReadRegistry { hive, key } && hive == registry_hive_of(i as int)
            && key@ == registry_key_path(i as int)),
{
    if i == 0 {
        LocatorProbe::ReadRegistry {
            hive: RegistryHive::LocalMachine,
            key: String::from_str("SOFTWARE\\WOW6432Node\\Riot Games\\Riot Client"),
        }
    } else if i == 1 {
        LocatorProbe::ReadRegistry {
            hive: RegistryHive::LocalMachine,
            key: String::from_str("SOFTWARE\\Riot Games\\Riot Client"),
        }
    } else {
        LocatorProbe::ReadRegistry {
            hive: RegistryHive::CurrentUser,
            key: String::from_str("SOFTWARE\\Riot Games\\Riot Client"),
        }
    }
}

/// The common install path `i` as an owned string.
fn common_path_string(i: usize) -> (r: String)
    requires
        i < COMMON_PATH_COUNT,
    ensures
        r@ == common_path(i as int),
{
    if i == 0 {
        String::from_str("C:\\Riot Games\\Riot Client\\RiotClientServices.exe")
    } else if i == 1 {
        String::from_str("C:\\Program Files\\Riot Games\\Riot Client\\RiotClientServices.exe")
    } else {
        String::from_str(
            "C:\\Program Files (x86)\\Riot Games\\Riot Client\\RiotClientServices.exe",
        )
    }
}

/// The conventional folder `si` on `drive` as an owned string.
fn family_dir_string(drive: &String, si: usize) -> (r: String)
    requires
        si < FAMILY_DIR_COUNT,
    ensures
        r@ == family_dir(drive@, si as int),
{
    if si == 0 {
        drive.clone().concat("Program Files\\Riot Games")
    } else if si == 1 {
        drive.clone().concat("Program Files (x86)\\Riot Games")
    } else {
        drive.clone().concat("Riot Games")
    }
}

/// What follows when registry key `idx` yields nothing: the next key, or
/// the first common path.
fn next_after_registry(idx: usize) -> (r: (LocatorState, LocatorProbe))
    requires
        idx < REGISTRY_KEY_COUNT,
    ensures
        idx + 1 < REGISTRY_KEY_COUNT ==> (r.0 == LocatorState::RegQuery { idx: (idx + 1) as usize }
            && (r.1 matches LocatorProbe::ReadRegistry { hive, key } && hive == registry_hive_of(
            idx + 1,
        ) && key@ == registry_key_path(idx + 1))),
        idx + 1 == REGISTRY_KEY_COUNT ==> (r.0 == LocatorState::CommonCheck { idx: 0 } && (r.1
            matches LocatorProbe::CheckPath { path } && path@ == common_path(0))),
{
    if idx + 1 < REGISTRY_KEY_COUNT {
        (LocatorState::RegQuery { idx: idx + 1 }, registry_probe(idx + 1))
    } else {
        (
            LocatorState::CommonCheck { idx: 0 },
            LocatorProbe::CheckPath { path: common_path_string(0) },
        )
    }
}

/// What follows when conventional folder `si` of drive `di` is exhausted:
/// the next folder, the next drive's first folder, or the process-list
/// strategy.
fn advance_search(drives: &Vec<String>, di: usize, si: usize) -> (r: (
    LocatorState,
    LocatorProbe,
))
    requires
        di < drives@.len(),
        si < FAMILY_DIR_COUNT,
    ensures
        si + 1 < FAMILY_DIR_COUNT ==> (r.0 == LocatorState::SearchRootCheck {
            di,
            si: (si + 1) as usize,
        } && (r.1 matches LocatorProbe::CheckPath { path } && path@ == family_dir(
            drives@[di as int]@,
            si + 1,
        ))),
        si + 1 == FAMILY_DIR_COUNT && di + 1 < drives@.len() ==> (r.0
            == LocatorState::SearchRootCheck { di: (di + 1) as usize, si: 0 } && (r.1 matches
            LocatorProbe::CheckPath { path } && path@ == family_dir(drives@[di + 1]@, 0))),
        si + 1 == FAMILY_DIR_COUNT && di + 1 == drives@.len() ==> (r.0
            == LocatorState::ProcessQuery && r.1 == LocatorProbe::QueryProcessList),
{
    let n = drives.len();
    if si + 1 < FAMILY_DIR_COUNT {
        (
            LocatorState::SearchRootCheck { di, si: si + 1 },
            LocatorProbe::CheckPath { path: family_dir_string(&drives[di], si + 1) },
        )
    } else if di + 1 < n {
        (
            LocatorState::SearchRootCheck { di: di + 1, si: 0 },
            LocatorProbe::CheckPath { path: family_dir_string(&drives[di + 1], 0) },
        )
    } else {
        (LocatorState::ProcessQuery, LocatorProbe::QueryProcessList)
    }
}

/// Scan a directory listing: the first client-executable file wins;
/// otherwise the subdirectories are collected in order.
fn scan_entries(entries: &Vec<DirEntry>) -> (r: (Option<String>, Vec<String>))
    ensures
        (r.0 matches Option::Some(p) ==> file_hit(entries@) == Option::Some(p@)),
        r.0 is None ==> file_hit(entries@) is None,
        r.0 is None ==> r.1.deep_view() == dir_paths(entries@),
{
    let mut dirs: Vec<String> = Vec::new();
    let mut i: usize = 0;
    proof {
        assert(dirs.deep_view() =~~= dir_paths(entries@.take(0)));
        assert(entries@.skip(0) =~= entries@);
    }
    while i < entries.len()
        invariant
            i <= entries@.len(),
            dirs.deep_view() == dir_paths(entries@.take(i as int)),
            file_hit(entries@) == file_hit(entries@.skip(i as int)),
        decreases entries@.len() - i,
    {
        let e = &entries[i];
        proof {
            assert(entries@.skip(i as int)[0] == entries@[i as int]);
            assert(entries@.skip(i as int).skip(1) =~= entries@.skip(i + 1));
        }
        if !e.is_dir && text::str_eq(e.name.as_str(), "RiotClientServices.exe") {
            proof {
                assert(one_hit(entries@[i as int]) == Option::Some(entries@[i as int].path@));
                assert(file_hit(entries@.skip(i as int)) == Option::Some(
                    entries@[i as int].path@,
                ));
            }
            return (Option::Some(e.path.clone()), dirs);
        }
        if e.is_dir {
            dirs.push(e.path.clone());
        }
        proof {
            assert(one_hit(entries@[i as int]) is None);
            assert(entries@.take(i + 1) =~= entries@.take(i as int).push(entries@[i as int]));
            lemma_dir_paths_push(entries@.take(i as int), entries@[i as int]);
            assert(dirs.deep_view() =~~= dir_paths(entries@.take(i as int)) + one_dir(
                entries@[i as int],
            ));
        }
        i += 1;
    }
    proof {
        assert(entries@.take(entries@.len() as int) =~= entries@);
        assert(entries@.skip(entries@.len() as int) =~= Seq::<DirEntry>::empty());
    }
    (Option::None, dirs)
}

/// Every drive root a Windows system can mount, in letter order; the
/// driver answers `ListDrives` with the subset that exists.
pub open spec fn drive_roots() -> Seq<Seq<char>> {
    seq![
        "A:\\"@, "B:\\"@, "C:\\"@, "D:\\"@, "E:\\"@, "F:\\"@, "G:\\"@, "H:\\"@, "I:\\"@,
        "J:\\"@, "K:\\"@, "L:\\"@, "M:\\"@, "N:\\"@, "O:\\"@, "P:\\"@, "Q:\\"@, "R:\\"@,
        "S:\\"@, "T:\\"@, "U:\\"@, "V:\\"@, "W:\\"@, "X:\\"@, "Y:\\"@, "Z:\\"@,
    ]
}

/// The candidate drive roots `A:\` through `Z:\`.
pub fn drive_candidates() -> (r: Vec<String>)
    ensures
        r.deep_view() == drive_roots(),
{
    let mut r: Vec<String> = Vec::new();
    r.push(String::from_str("A:\\"));
    r.push(String::from_str("B:\\"));
    r.push(String::from_str("C:\\"));
    r.push(String::from_str("D:\\"));
    r.push(String::from_str("E:\\"));
    r.push(String::from_str("F:\\"));
    r.push(String::from_str("G:\\"));
    r.push(String::from_str("H:\\"));
    r.push(String::from_str("I:\\"));
    r.push(String::from_str("J:\\"));
    r.push(String::from_str("K:\\"));
    r.push(String::from_str("L:\\"));
    r.push(String::from_str("M:\\"));
    r.push(String::from_str("N:\\"));
    r.push(String::from_str("O:\\"));
    r.push(String::from_str("P:\\"));
    r.push(String::from_str("Q:\\"));
    r.push(String::from_str("R:\\"));
    r.push(String::from_str("S:\\"));
    r.push(String::from_str("T:\\"));
    r.push(String::from_str("U:\\"));
    r.push(String::from_str("V:\\"));
    r.push(String::from_str("W:\\"));
    r.push(String::from_str("X:\\"));
    r.push(String::from_str("Y:\\"));
    r.push(String::from_str("Z:\\"));
    proof {
        assert(r.deep_view() =~~= drive_roots());
    }
    r
}

/// Open the search: strategy 1, first registry key.
pub fn locator_start() -> (r: (Locator, LocatorProbe))
    ensures
        r.0.wf(),
        (r.0.state == LocatorState::RegQuery { idx: 0 }),
        r.0.drives@.len() == 0,
        (r.1 matches LocatorProbe::ReadRegistry { hive, key } && hive == registry_hive_of(0)
            && key@ == registry_key_path(0)),
{
    (Locator { drives: Vec::new(), state: LocatorState::RegQuery { idx: 0 } }, registry_probe(0))
}

impl Locator {
    /// Feed the driver's answer to the pending probe back in.  The ensures
    /// pin every transition; in particular the strategy rank never moves
    /// backwards, so the strategies are tried strictly in priority order,
    /// and the probe is `None` exactly when the search is over.
    pub fn step(self, reply: LocatorReply) -> (r: (Locator, Option<LocatorProbe>))
        requires
            self.wf(),
            self.accepts(reply),
        ensures
            r.0.wf(),
            strategy_rank(r.0.state) >= strategy_rank(self.state),
            (r.1 is None <==> r.0.state is Done),
            !(self.state is DrivesQuery) ==> r.0.drives == self.drives,
            (self.state matches LocatorState::RegQuery { idx } ==> (reply matches
                LocatorReply::RegistryValue { value } ==> ((value matches Option::Some(dir) ==> (
            r.0.state matches LocatorState::RegCheck { idx: i2, candidate } && i2 == idx
                && candidate@ == registry_candidate(dir@) && (r.1 matches Option::Some(
                LocatorProbe::CheckPath { path },
            ) && path@ == registry_candidate(dir@)))) && (value is None ==> ((idx + 1
                < REGISTRY_KEY_COUNT ==> (r.0.state == LocatorState::RegQuery {
                idx: (idx + 1) as usize,
            } && (r.1 matches Option::Some(LocatorProbe::ReadRegistry { hive, key }) && hive
                == registry_hive_of(idx + 1) && key@ == registry_key_path(idx + 1)))) && (idx + 1
                == REGISTRY_KEY_COUNT ==> (r.0.state == LocatorState::CommonCheck { idx: 0 } && (
            r.1 matches Option::Some(LocatorProbe::CheckPath { path }) && path@ == common_path(
                0,
            ))))))))),
            (self.state matches LocatorState::RegCheck { idx, candidate } ==> (reply matches
                LocatorReply::PathExists { yes } ==> ((yes ==> r.0.state == (
            LocatorState::Done { result: Option::Some(candidate) })) && (!yes ==> ((idx + 1
                < REGISTRY_KEY_COUNT ==> r.0.state == LocatorState::RegQuery {
                idx: (idx + 1) as usize,
            }) && (idx + 1 == REGISTRY_KEY_COUNT ==> r.0.state == LocatorState::CommonCheck {
                idx: 0,
            })))))),
            (self.state matches LocatorState::CommonCheck { idx } ==> (reply matches
                LocatorReply::PathExists { yes } ==> ((yes ==> (r.0.state matches
                LocatorState::Done { result } && result matches Option::Some(p) && p@
                == common_path(idx as int))) && (!yes ==> ((idx + 1 < COMMON_PATH_COUNT ==> (
            r.0.state == LocatorState::CommonCheck { idx: (idx + 1) as usize } && (r.1 matches
                Option::Some(LocatorProbe::CheckPath { path }) && path@ == common_path(
                idx + 1,
            )))) && (idx + 1 == COMMON_PATH_COUNT ==> (r.0.state == LocatorState::DrivesQuery
                && r.1 == Option::Some(LocatorProbe::ListDrives)))))))),
            (self.state is DrivesQuery ==> (reply matches LocatorReply::Drives { roots } ==> ((
            roots@.len() > 0 ==> (r.0.drives == roots && r.0.state == LocatorState::DriveDirect {
                di: 0,
            } && (r.1 matches Option::Some(LocatorProbe::CheckPath { path }) && path@
                == direct_path(roots@[0]@)))) && (roots@.len() == 0 ==> (r.0.state
                == LocatorState::ProcessQuery && r.1 == Option::Some(
                LocatorProbe::QueryProcessList,
            )))))),
            (self.state matches LocatorState::DriveDirect { di } ==> (reply matches
                LocatorReply::PathExists { yes } ==> ((yes ==> (r.0.state matches
                LocatorState::Done { result } && result matches Option::Some(p) && p@
                == direct_path(self.drives@[di as int]@))) && (!yes ==> ((di + 1
                < self.drives@.len() ==> (r.0.state == LocatorState::DriveDirect {
                di: (di + 1) as usize,
            } && (r.1 matches Option::Some(LocatorProbe::CheckPath { path }) && path@
                == direct_path(self.drives@[di + 1]@)))) && (di + 1 == self.drives@.len() ==> (
            r.0.state == LocatorState::SearchRootCheck { di: 0, si: 0 } && (r.1 matches
                Option::Some(LocatorProbe::CheckPath { path }) && path@ == family_dir(
                self.drives@[0]@,
                0,
            ))))))))),
            (self.state matches LocatorState::SearchRootCheck { di, si } ==> (reply matches
                LocatorReply::PathExists { yes } ==> ((yes ==> (r.0.state matches
                LocatorState::Searching { di: d2, si: s2, stack } && d2 == di && s2 == si
                && stack.deep_view() =~~= seq![family_dir(self.drives@[di as int]@, si as int)]
                && (r.1 matches Option::Some(LocatorProbe::ListDir { path }) && path@
                == family_dir(self.drives@[di as int]@, si as int)))) && (!yes ==> after_family(
                self,
                di as int,
                si as int,
                r,
            ))))),
            (self.state matches LocatorState::Searching { di, si, stack } ==> (reply matches
                LocatorReply::DirEntries { entries } ==> ((file_hit(entries@) matches
                Option::Some(p) ==> (r.0.state matches LocatorState::Done { result } && result
                matches Option::Some(rp) && rp@ == p)) && (file_hit(entries@) is None ==> ({
                let full = stack.deep_view() + dir_paths(entries@);
                &&& full.len() > 0 ==> (r.0.state matches LocatorState::Searching {
                    di: d2,
                    si: s2,
                    stack: st2,
                } && d2 == di && s2 == si && st2.deep_view() =~~= full.take(full.len() - 1) && (
                r.1 matches Option::Some(LocatorProbe::ListDir { path }) && path@ == full.last()))
                &&& full.len() == 0 ==> after_family(self, di as int, si as int, r)
            }))))),
            (self.state is ProcessQuery ==> (reply matches LocatorReply::ProcessListing {
                listing,
            } ==> (r.0.state matches LocatorState::Done { result } && ((result matches
                Option::Some(p) ==> text::first_suffixed_line(text::split_nl(listing@), exe_name())
                == Option::Some(p@)) && (result is None ==> text::first_suffixed_line(
                text::split_nl(listing@),
                exe_name(),
            ) is None))))),
    {
        let Locator { drives, state } = self;
        match (state, reply) {
            (LocatorState::RegQuery { idx }, LocatorReply::RegistryValue { value }) => {
                match value {
                    Option::Some(dir) => {
                        let candidate = dir.concat("\\RiotClientServices.exe");
                        let probe = LocatorProbe::CheckPath { path: candidate.clone() };
                        (
                            Locator {
                                drives,
                                state: LocatorState::RegCheck { idx, candidate },
                            },
                            Option::Some(probe),
                        )
                    },
                    Option::None => {
                        let (st, probe) = next_after_registry(idx);
                        (Locator { drives, state: st }, Option::Some(probe))
                    },
                }
            },
            (LocatorState::RegCheck { idx, candidate }, LocatorReply::PathExists { yes }) => {
                if yes {
                    (
                        Locator {
                            drives,
                            state: LocatorState::Done { result: Option::Some(candidate) },
                        },
                        Option::None,
                    )
                } else {
                    let (st, probe) = next_after_registry(idx);
                    (Locator { drives, state: st }, Option::Some(probe))
                }
            },
            (LocatorState::CommonCheck { idx }, LocatorReply::PathExists { yes }) => {
                if yes {
                    (
                        Locator {
                            drives,
                            state: LocatorState::Done {
                                result: Option::Some(common_path_string(idx)),
                            },
                        },
                        Option::None,
                    )
                } else if idx + 1 < COMMON_PATH_COUNT {
                    (
                        Locator { drives, state: LocatorState::CommonCheck { idx: idx + 1 } },
                        Option::Some(
                            LocatorProbe::CheckPath { path: common_path_string(idx + 1) },
                        ),
                    )
                } else {
                    (
                        Locator { drives, state: LocatorState::DrivesQuery },
                        Option::Some(LocatorProbe::ListDrives),
                    )
                }
            },
            (LocatorState::DrivesQuery, LocatorReply::Drives { roots }) => {
                if roots.len() > 0 {
                    let probe = LocatorProbe::CheckPath {
                        path: roots[0].clone().concat(
                            "Riot Games\\Riot Client\\RiotClientServices.exe",
                        ),
                    };
                    (
                        Locator { drives: roots, state: LocatorState::DriveDirect { di: 0 } },
                        Option::Some(probe),
                    )
                } else {
                    (
                        Locator { drives: roots, state: LocatorState::ProcessQuery },
                        Option::Some(LocatorProbe::QueryProcessList),
                    )
                }
            },
            (LocatorState::DriveDirect { di }, LocatorReply::PathExists { yes }) => {
                let n = drives.len();
                if yes {
                    let found = drives[di].clone().concat(
                        "Riot Games\\Riot Client\\RiotClientServices.exe",
                    );
                    (
                        Locator {
                            drives,
                            state: LocatorState::Done { result: Option::Some(found) },
                        },
                        Option::None,
                    )
                } else if di + 1 < n {
                    let probe = LocatorProbe::CheckPath {
                        path: drives[di + 1].clone().concat(
                            "Riot Games\\Riot Client\\RiotClientServices.exe",
                        ),
                    };
                    (
                        Locator { drives, state: LocatorState::DriveDirect { di: di + 1 } },
                        Option::Some(probe),
                    )
                } else {
                    let probe = LocatorProbe::CheckPath {
                        path: family_dir_string(&drives[0], 0),
                    };
                    (
                        Locator {
                            drives,
                            state: LocatorState::SearchRootCheck { di: 0, si: 0 },
                        },
                        Option::Some(probe),
                    )
                }
            },
            (LocatorState::SearchRootCheck { di, si }, LocatorReply::PathExists { yes }) => {
                if yes {
                    let root = family_dir_string(&drives[di], si);
                    let mut stack: Vec<String> = Vec::new();
                    stack.push(root.clone());
                    proof {
                        assert(stack.deep_view() =~~= seq![root@]);
                    }
                    (
                        Locator {
                            drives,
                            state: LocatorState::Searching { di, si, stack },
                        },
                        Option::Some(LocatorProbe::ListDir { path: root }),
                    )
                } else {
                    let (st, probe) = advance_search(&drives, di, si);
                    (Locator { drives, state: st }, Option::Some(probe))
                }
            },
            (LocatorState::Searching { di, si, stack }, LocatorReply::DirEntries { entries }) => {
                let (hit, dirs) = scan_entries(&entries);
                match hit {
                    Option::Some(p) => {
                        (
                            Locator {
                                drives,
                                state: LocatorState::Done { result: Option::Some(p) },
                            },
                            Option::None,
                        )
                    },
                    Option::None => {
                        let mut stack = stack;
                        let ghost old_stack = stack.deep_view();
                        let mut k: usize = 0;
                        while k < dirs.len()
                            invariant
                                k <= dirs@.len(),
                                stack.deep_view() =~~= old_stack + dirs.deep_view().take(
                                    k as int,
                                ),
                            decreases dirs@.len() - k,
                        {
                            let ghost prev = stack.deep_view();
                            stack.push(dirs[k].clone());
                            proof {
                                assert(dirs.deep_view()[k as int] == dirs@[k as int]@);
                                assert(stack.deep_view() =~~= prev.push(dirs@[k as int]@));
                                assert(dirs.deep_view().take(k + 1) =~~= dirs.deep_view().take(
                                    k as int,
                                ).push(dirs.deep_view()[k as int]));
                                assert(stack.deep_view() =~~= old_stack + dirs.deep_view().take(
                                    k + 1,
                                ));
                            }
                            k += 1;
                        }
                        proof {
                            assert(dirs.deep_view().take(dirs@.len() as int) =~~=
                                dirs.deep_view());
                        }
                        match stack.pop() {
                            Option::Some(top) => {
                                proof {
                                    let full = old_stack + dirs.deep_view();
                                    assert(stack.deep_view() =~~= full.take(full.len() - 1));
                                }
                                (
                                    Locator {
                                        drives,
                                        state: LocatorState::Searching { di, si, stack },
                                    },
                                    Option::Some(LocatorProbe::ListDir { path: top }),
                                )
                            },
                            Option::None => {
                                let (st, probe) = advance_search(&drives, di, si);
                                (Locator { drives, state: st }, Option::Some(probe))
                            },
                        }
                    },
                }
            },
            (LocatorState::ProcessQuery, LocatorReply::ProcessListing { listing }) => {
                let found = text::first_line_with_suffix(
                    listing.as_str(),
                    "RiotClientServices.exe",
                );
                (Locator { drives, state: LocatorState::Done { result: found } }, Option::None)
            },
            (st, _) => {
                // Unreachable under the precondition: every non-terminal
                // state accepts exactly one reply shape.
                (Locator { drives, state: st }, Option::None)
            },
        }
    }
}

/// What [`Locator::step`] promises when folder `si` of drive `di` is
/// exhausted: the search advances to the next folder, the next drive, or
/// the process-list strategy.
pub open spec fn after_family(
    o: Locator,
    di: int,
    si: int,
    r: (Locator, Option<LocatorProbe>),
) -> bool {
    &&& (si + 1 < FAMILY_DIR_COUNT ==> (r.0.state == LocatorState::SearchRootCheck {
        di: di as usize,
        si: (si + 1) as usize,
    } && (r.1 matches Option::Some(LocatorProbe::CheckPath { path }) && path@ == family_dir(
        o.drives@[di]@,
        si + 1,
    ))))
    &&& (si + 1 == FAMILY_DIR_COUNT && di + 1 < o.drives@.len() ==> (r.0.state
        == LocatorState::SearchRootCheck { di: (di + 1) as usize, si: 0 } && (r.1 matches
        Option::Some(LocatorProbe::CheckPath { path }) && path@ == family_dir(
        o.drives@[di + 1]@,
        0,
    ))))
    &&& (si + 1 == FAMILY_DIR_COUNT && di + 1 == o.drives@.len() ==> (r.0.state
        == LocatorState::ProcessQuery && r.1 == Option::Some(LocatorProbe::QueryProcessList)))
}

} // verus!
