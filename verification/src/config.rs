//! Configuration model, validation and reload.
//!
//! The configuration file is parsed by the surrounding process into the raw
//! shape [`RawConfig`]; everything optional is still optional there, delays
//! still carry their sign, exclude patterns are still plain strings, and
//! each entry path comes with whether it exists on disk. Validation turns
//! that raw shape into a [`Config`]: flags defaulted and overridden by the
//! command line, delays checked non-negative, patterns compiled, and the
//! entries keyed by path with a later entry replacing an earlier one of the
//! same path.
//!
//! A reload validates the newly parsed raw configuration the same way and
//! installs it only when it is valid in full; on any failure the previous
//! configuration stands unchanged, so the daemon keeps running on it.

use vstd::prelude::*;

use crate::cli::Options;
use crate::pattern::{regex_valid, Pattern};

verus! {

/// A coalescing delay as parsed: its sign, and its magnitude in
/// milliseconds. Kept apart so that a negative delay — a configuration
/// error — is still visible after parsing.
#[derive(Clone, Copy)]
pub struct RawDelay {
    /// The parsed value was negative (a negative zero counts as negative).
    pub negative: bool,
    /// The magnitude, in whole milliseconds.
    pub millis: u64,
}

/// One entry as parsed from the configuration file, not yet validated.
pub struct RawEntry {
    /// The path to watch.
    pub path: String,
    /// Whether that path existed on disk when the file was read.
    pub path_exists: bool,
    /// Watch subdirectories; absent means no.
    pub recursive: Option<bool>,
    /// Coalescing delay; absent means zero.
    pub delay: Option<RawDelay>,
    /// Exclude pattern sources; absent means none.
    pub excludes: Option<Vec<String>>,
    /// The shell commands to run, in order.
    pub commands: Vec<String>,
}

/// The configuration file as parsed, not yet validated.
pub struct RawConfig {
    /// Run every entry's commands once at startup; absent means no.
    pub init: Option<bool>,
    /// Log commands instead of executing them; absent means no.
    pub dry_run: Option<bool>,
    /// Emit diagnostic log entries; absent means no.
    pub verbose: Option<bool>,
    /// The entries, in file order.
    pub entries: Vec<RawEntry>,
}

/// Why a configuration could not be loaded.
pub enum ConfigError {
    /// The configuration file could not be read.
    Unreadable { path: String },
    /// The configuration file is not well-formed.
    Malformed { message: String },
    /// An entry names a path that does not exist.
    MissingPath { path: String },
    /// An entry's delay is negative.
    NegativeDelay { path: String },
    /// An entry's exclude pattern is not a valid regular expression.
    BadPattern { path: String, pattern: String },
}

/// One validated entry: what a watcher/handler pair is built from.
pub struct Entry {
    /// The watched path.
    pub path: String,
    /// Watch subdirectories.
    pub recursive: bool,
    /// Coalescing delay in milliseconds; zero means run on every event.
    pub delay_ms: u64,
    /// Compiled exclude patterns, in file order.
    pub excludes: Vec<Pattern>,
    /// The shell commands to run, in order.
    pub commands: Vec<String>,
}

/// The mathematical shape of one validated entry.
#[verifier::ext_equal]
pub struct EntryView {
    pub path: Seq<char>,
    pub recursive: bool,
    pub delay_ms: u64,
    pub excludes: Seq<Seq<char>>,
    pub commands: Seq<Seq<char>>,
}

impl View for Entry {
    type V = EntryView;

    open spec fn view(&self) -> EntryView {
        EntryView {
            path: self.path@,
            recursive: self.recursive,
            delay_ms: self.delay_ms,
            excludes: self.excludes@.map_values(|p: Pattern| p@),
            commands: self.commands@.map_values(|s: String| s@),
        }
    }
}

/// The validated configuration the whole daemon runs on.
pub struct Config {
    /// Run every entry's commands once at startup.
    pub init: bool,
    /// Log commands instead of executing them.
    pub dry_run: bool,
    /// Emit diagnostic log entries.
    pub verbose: bool,
    /// The entries, with pairwise distinct paths.
    pub entries: Vec<Entry>,
    /// The command-line options the configuration was loaded under; a reload
    /// re-applies them.
    pub options: Options,
}

/// A flag of the file, defaulted to off and overridden by the command line.
pub open spec fn spec_flag(file_value: Option<bool>, override_flag: bool) -> bool {
    override_flag || match file_value {
        Some(b) => b,
        None => false,
    }
}

/// The exclude sources of a raw entry, absent meaning none.
pub open spec fn spec_excludes_or_empty(e: RawEntry) -> Seq<String> {
    match e.excludes {
        Some(v) => v@,
        None => Seq::empty(),
    }
}

/// The delay of a raw entry in milliseconds, absent meaning zero.
pub open spec fn spec_delay_ms(e: RawEntry) -> u64 {
    match e.delay {
        Some(d) => d.millis,
        None => 0,
    }
}

/// Whether the raw entry's delay is non-negative (or absent).
pub open spec fn spec_delay_ok(e: RawEntry) -> bool {
    match e.delay {
        Some(d) => !d.negative,
        None => true,
    }
}

/// Whether every exclude source of the raw entry compiles.
pub open spec fn spec_patterns_ok(e: RawEntry) -> bool {
    forall|i: int| 0 <= i < spec_excludes_or_empty(e).len()
        ==> regex_valid(spec_excludes_or_empty(e)[i]@)
}

/// Whether a raw entry passes validation: its path exists, its delay is
/// non-negative and its exclude patterns all compile.
pub open spec fn spec_entry_ok(e: RawEntry) -> bool {
    e.path_exists && spec_delay_ok(e) && spec_patterns_ok(e)
}

/// The validated shape of a raw entry.
pub open spec fn spec_entry_view(e: RawEntry) -> EntryView {
    EntryView {
        path: e.path@,
        recursive: match e.recursive {
            Some(b) => b,
            None => false,
        },
        delay_ms: spec_delay_ms(e),
        excludes: spec_excludes_or_empty(e).map_values(|s: String| s@),
        commands: e.commands@.map_values(|s: String| s@),
    }
}

/// The error reported for an invalid raw entry: a missing path first, then a
/// negative delay, then the first exclude pattern that does not compile.
pub open spec fn spec_entry_error(e: RawEntry, err: ConfigError) -> bool {
    if !e.path_exists {
        err matches ConfigError::MissingPath { path } && path@ == e.path@
    } else if !spec_delay_ok(e) {
        err matches ConfigError::NegativeDelay { path } && path@ == e.path@
    } else {
        exists|k: int| {
            &&& 0 <= k < spec_excludes_or_empty(e).len()
            &&& !regex_valid(spec_excludes_or_empty(e)[k]@)
            &&& (forall|j: int| 0 <= j < k ==> regex_valid(spec_excludes_or_empty(e)[j]@))
            &&& (err matches ConfigError::BadPattern { path, pattern }
                && path@ == e.path@ && pattern@ == spec_excludes_or_empty(e)[k]@)
        }
    }
}

/// The error validation reports: the one for the first invalid entry.
pub open spec fn spec_first_error(s: Seq<RawEntry>, err: ConfigError) -> bool {
    exists|i: int| {
        &&& 0 <= i < s.len()
        &&& !spec_entry_ok(s[i])
        &&& (forall|j: int| 0 <= j < i ==> spec_entry_ok(s[j]))
        &&& spec_entry_error(s[i], err)
    }
}

/// The views of a sequence of validated entries.
pub open spec fn spec_entries_view(s: Seq<Entry>) -> Seq<EntryView> {
    s.map_values(|e: Entry| e@)
}

/// The path-keyed mapping a sequence of entry views stands for: a later
/// entry with the same path replaces an earlier one.
pub open spec fn spec_entry_map(s: Seq<EntryView>) -> Map<Seq<char>, EntryView>
    decreases s.len(),
{
    if s.len() == 0 {
        Map::empty()
    } else {
        spec_entry_map(s.drop_last()).insert(s.last().path, s.last())
    }
}

/// The path-keyed mapping that validating a raw entry sequence must yield.
pub open spec fn spec_raw_entry_map(s: Seq<RawEntry>) -> Map<Seq<char>, EntryView>
    decreases s.len(),
{
    if s.len() == 0 {
        Map::empty()
    } else {
        spec_raw_entry_map(s.drop_last()).insert(
            s.last().path@,
            spec_entry_view(s.last()),
        )
    }
}

proof fn lemma_entry_map_push(s: Seq<EntryView>, e: EntryView)
    ensures
        spec_entry_map(s.push(e)) == spec_entry_map(s).insert(e.path, e),
{
    assert(s.push(e).drop_last() =~= s);
    assert(s.push(e).last() == e);
}

proof fn lemma_entry_map_update(s: Seq<EntryView>, k: int, e: EntryView)
    requires
        0 <= k < s.len(),
        e.path == s[k].path,
        forall|a: int, b: int| 0 <= a < b < s.len() ==> s[a].path != s[b].path,
    ensures
        spec_entry_map(s.update(k, e)) == spec_entry_map(s).insert(e.path, e),
    decreases s.len(),
{
    let t = s.update(k, e);
    if k == s.len() - 1 {
        assert(t.drop_last() =~= s.drop_last());
        assert(t.last() == e);
        assert(spec_entry_map(s.drop_last()).insert(e.path, s.last()).insert(e.path, e)
            =~= spec_entry_map(s.drop_last()).insert(e.path, e));
    } else {
        assert(t.drop_last() =~= s.drop_last().update(k, e));
        assert(t.last() == s.last());
        assert(forall|a: int, b: int| 0 <= a < b < s.drop_last().len()
            ==> s.drop_last()[a].path != s.drop_last()[b].path);
        lemma_entry_map_update(s.drop_last(), k, e);
        assert(e.path != s.last().path);
        assert(spec_entry_map(s.drop_last()).insert(e.path, e).insert(s.last().path, s.last())
            =~= spec_entry_map(s.drop_last()).insert(s.last().path, s.last()).insert(e.path, e));
    }
}

proof fn lemma_raw_map_extend(s: Seq<RawEntry>, i: int)
    requires
        0 <= i < s.len(),
    ensures
        spec_raw_entry_map(s.subrange(0, i + 1))
            == spec_raw_entry_map(s.subrange(0, i)).insert(s[i].path@, spec_entry_view(s[i])),
{
    assert(s.subrange(0, i + 1).drop_last() =~= s.subrange(0, i));
    assert(s.subrange(0, i + 1).last() == s[i]);
}

/// Clone a list of strings, keeping every element.
fn clone_strings(v: &Vec<String>) -> (r: Vec<String>)
    ensures
        r@ == v@,
{
    let mut r: Vec<String> = Vec::new();
    let mut i: usize = 0;
    while i < v.len()
        invariant
            i <= v@.len(),
            r@ == v@.subrange(0, i as int),
        decreases v@.len() - i,
    {
        r.push(v[i].clone());
        assert(r@ =~= v@.subrange(0, i + 1));
        i += 1;
    }
    assert(r@ =~= v@);
    r
}

/// Validate one raw entry: check its path and delay, compile its excludes
/// and copy its commands.
fn build_entry(raw: &RawEntry) -> (r: Result<Entry, ConfigError>)
    ensures
        r is Ok <==> spec_entry_ok(*raw),
        (r matches Ok(e) ==> e@ == spec_entry_view(*raw)),
        (r matches Err(err) ==> !spec_entry_ok(*raw) && spec_entry_error(*raw, err)),
{
    if !raw.path_exists {
        return Err(ConfigError::MissingPath { path: raw.path.clone() });
    }
    let delay_ms: u64 = match &raw.delay {
        Some(d) => {
            if d.negative {
                return Err(ConfigError::NegativeDelay { path: raw.path.clone() });
            }
            d.millis
        },
        None => 0,
    };
    let mut excludes: Vec<Pattern> = Vec::new();
    match &raw.excludes {
        Some(pats) => {
            let mut i: usize = 0;
            while i < pats.len()
                invariant
                    i <= pats@.len(),
                    excludes@.len() == i,
                    raw.path_exists,
                    spec_delay_ok(*raw),
                    raw.excludes matches Some(p) && p@ == pats@,
                    forall|j: int| 0 <= j < i ==> regex_valid(pats@[j]@),
                    forall|j: int| 0 <= j < i ==> excludes@[j]@ == pats@[j]@,
                decreases pats@.len() - i,
            {
                match Pattern::new(pats[i].clone()) {
                    Ok(p) => excludes.push(p),
                    Err(_) => {
                        let err = ConfigError::BadPattern {
                            path: raw.path.clone(),
                            pattern: pats[i].clone(),
                        };
                        proof {
                            let k = i as int;
                            assert(!regex_valid(spec_excludes_or_empty(*raw)[k]@));
                            assert(err matches ConfigError::BadPattern { path, pattern }
                                && path@ == raw.path@
                                && pattern@ == spec_excludes_or_empty(*raw)[k]@);
                            assert(!spec_patterns_ok(*raw));
                            assert(spec_entry_error(*raw, err));
                        }
                        return Err(err);
                    },
                }
                i += 1;
            }
        },
        None => {},
    }
    let entry = Entry {
        path: raw.path.clone(),
        recursive: match &raw.recursive {
            Some(b) => *b,
            None => false,
        },
        delay_ms,
        excludes,
        commands: clone_strings(&raw.commands),
    };
    assert(entry@ =~= spec_entry_view(*raw));
    Ok(entry)
}

/// Find the entry that already holds `path`, if any.
fn find_path(entries: &Vec<Entry>, path: &String) -> (r: Option<usize>)
    ensures
        (r matches Some(k) ==> k < entries@.len() && entries@[k as int]@.path == path@),
        (r is None ==> forall|j: int| 0 <= j < entries@.len()
            ==> entries@[j]@.path != path@),
{
    let mut i: usize = 0;
    while i < entries.len()
        invariant
            i <= entries@.len(),
            forall|j: int| 0 <= j < i ==> entries@[j]@.path != path@,
        decreases entries@.len() - i,
    {
        if entries[i].path.eq(path) {
            return Some(i);
        }
        i += 1;
    }
    None
}

/// Validate every raw entry in order, building the entry list keyed by
/// path, a later entry replacing an earlier one of the same path.
fn validate_entries(raw_entries: &Vec<RawEntry>) -> (r: Result<Vec<Entry>, ConfigError>)
    ensures
        r is Ok <==> (forall|i: int| 0 <= i < raw_entries@.len()
            ==> spec_entry_ok(raw_entries@[i])),
        (r matches Ok(v) ==> {
            &&& (forall|a: int, b: int| 0 <= a < b < v@.len()
                ==> v@[a]@.path != v@[b]@.path)
            &&& spec_entry_map(spec_entries_view(v@)) == spec_raw_entry_map(raw_entries@)
        }),
        (r matches Err(err) ==> spec_first_error(raw_entries@, err)),
{
    let mut entries: Vec<Entry> = Vec::new();
    let mut i: usize = 0;
    while i < raw_entries.len()
        invariant
            i <= raw_entries@.len(),
            forall|j: int| 0 <= j < i ==> spec_entry_ok(raw_entries@[j]),
            forall|a: int, b: int| 0 <= a < b < entries@.len()
                ==> entries@[a]@.path != entries@[b]@.path,
            spec_entry_map(spec_entries_view(entries@))
                == spec_raw_entry_map(raw_entries@.subrange(0, i as int)),
        decreases raw_entries@.len() - i,
    {
        let ghost prev = entries@;
        match build_entry(&raw_entries[i]) {
            Err(err) => {
                assert(spec_first_error(raw_entries@, err)) by {
                    assert(!spec_entry_ok(raw_entries@[i as int]));
                    assert(spec_entry_error(raw_entries@[i as int], err));
                }
                return Err(err);
            },
            Ok(entry) => {
                let ghost ev = entry@;
                match find_path(&entries, &entry.path) {
                    Some(k) => {
                        entries.set(k, entry);
                        proof {
                            assert(spec_entries_view(entries@)
                                =~= spec_entries_view(prev).update(k as int, ev));
                            lemma_entry_map_update(spec_entries_view(prev), k as int, ev);
                            lemma_raw_map_extend(raw_entries@, i as int);
                        }
                    },
                    None => {
                        entries.push(entry);
                        proof {
                            assert(spec_entries_view(entries@)
                                =~= spec_entries_view(prev).push(ev));
                            lemma_entry_map_push(spec_entries_view(prev), ev);
                            lemma_raw_map_extend(raw_entries@, i as int);
                        }
                    },
                }
            },
        }
        i += 1;
    }
    assert(raw_entries@.subrange(0, raw_entries@.len() as int) =~= raw_entries@);
    Ok(entries)
}

/// Pick a flag: the command-line override wins, else the file's value, else
/// off.
fn flag(file_value: &Option<bool>, override_flag: bool) -> (r: bool)
    ensures
        r == spec_flag(*file_value, override_flag),
{
    override_flag || match file_value {
        Some(b) => *b,
        None => false,
    }
}

impl Config {
    /// The entries have pairwise distinct paths.
    pub open spec fn wf(&self) -> bool {
        forall|a: int, b: int| 0 <= a < b < self.entries@.len()
            ==> self.entries@[a]@.path != self.entries@[b]@.path
    }

    /// The path-keyed mapping this configuration stands for.
    pub open spec fn entry_map(&self) -> Map<Seq<char>, EntryView> {
        spec_entry_map(spec_entries_view(self.entries@))
    }

    /// Build the startup configuration from the parsed file and the
    /// command-line options. Fails exactly when the parse failed or some
    /// entry is invalid; the daemon then does not start.
    pub fn from(options: Options, parsed: Result<RawConfig, ConfigError>) -> (r: Result<
        Config,
        ConfigError,
    >)
        ensures
            (parsed matches Err(e) ==> (r matches Err(e2) && e2 == e)),
            (parsed matches Ok(raw) ==> {
                &&& (r is Ok <==> (forall|i: int| 0 <= i < raw.entries@.len()
                    ==> spec_entry_ok(raw.entries@[i])))
                &&& (r matches Ok(c) ==> {
                    &&& c.wf()
                    &&& c.init == spec_flag(raw.init, options.init)
                    &&& c.dry_run == spec_flag(raw.dry_run, options.dry_run)
                    &&& c.verbose == spec_flag(raw.verbose, options.verbose)
                    &&& c.options == options
                    &&& c.entry_map() == spec_raw_entry_map(raw.entries@)
                })
                &&& (r matches Err(err) ==> spec_first_error(raw.entries@, err))
            }),
    {
        match parsed {
            Err(e) => Err(e),
            Ok(raw) => match validate_entries(&raw.entries) {
                Err(err) => Err(err),
                Ok(entries) => Ok(Config {
                    init: flag(&raw.init, options.init),
                    dry_run: flag(&raw.dry_run, options.dry_run),
                    verbose: flag(&raw.verbose, options.verbose),
                    entries,
                    options,
                }),
            },
        }
    }

    /// Replace this configuration by the newly parsed one, re-applying the
    /// command-line overrides — or, when the parse failed or any entry is
    /// invalid, change nothing at all, so the previous configuration keeps
    /// running.
    pub fn reload(&mut self, parsed: Result<RawConfig, ConfigError>) -> (r: Result<
        (),
        ConfigError,
    >)
        ensures
            (r is Err ==> *final(self) == *old(self)),
            (parsed matches Err(e) ==> (r matches Err(e2) && e2 == e)),
            (parsed matches Ok(raw) ==> {
                &&& (r is Ok <==> (forall|i: int| 0 <= i < raw.entries@.len()
                    ==> spec_entry_ok(raw.entries@[i])))
                &&& (r is Ok ==> {
                    &&& final(self).wf()
                    &&& final(self).init == spec_flag(raw.init, old(self).options.init)
                    &&& final(self).dry_run == spec_flag(raw.dry_run, old(self).options.dry_run)
                    &&& final(self).verbose == spec_flag(raw.verbose, old(self).options.verbose)
                    &&& final(self).options == old(self).options
                    &&& final(self).entry_map() == spec_raw_entry_map(raw.entries@)
                })
                &&& (r matches Err(err) ==> spec_first_error(raw.entries@, err))
            }),
    {
        match parsed {
            Err(e) => Err(e),
            Ok(raw) => match validate_entries(&raw.entries) {
                Err(err) => Err(err),
                Ok(entries) => {
                    self.init = flag(&raw.init, self.options.init);
                    self.dry_run = flag(&raw.dry_run, self.options.dry_run);
                    self.verbose = flag(&raw.verbose, self.options.verbose);
                    self.entries = entries;
                    Ok(())
                },
            },
        }
    }
}

} // verus!
