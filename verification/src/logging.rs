//! Where the application logs to, which logs it keeps, and what it says about
//! an operation.
use vstd::prelude::*;

use crate::paths::{orders_before, AppPath};
use crate::quality::PreviewQuality;
use crate::text::{ends_with, push_decimal, same_text, starts_with};

verus! {

/// How many launch logs are kept, the active one among them.
pub const RETAINED_LOG_FILES: usize = 6;

pub const DEFAULT_LOG_FILTER: &'static str = "warn,terra_app=info,terra_core=info,terra_gpu=info,terra_render=info,terra_io=info,terra_gui=info";

pub const LOG_FILE_PREFIX: &'static str = "log-";

/// Where log lines go.
#[derive(Debug)]
pub enum LogDestination {
    File(AppPath),
    /// Only to the console, for the reason given.
    ConsoleOnly(String),
}

/// The log directory below the per-user data directory.
pub fn log_directory_from_local_data(local_data: &AppPath) -> (r: AppPath)
    ensures
        r@ == local_data@.push(crate::paths::Part::Normal("Terra"@)).push(
            crate::paths::Part::Normal("logs"@),
        ),
{
    local_data.join("Terra").join("logs")
}

/// The directory where Terra writes its application logs.
pub fn log_directory(local_data: Option<&AppPath>) -> (r: Result<AppPath, String>)
    ensures
        match local_data {
            Some(local) => r matches Ok(path) && path@ == local@.push(
                crate::paths::Part::Normal("Terra"@),
            ).push(crate::paths::Part::Normal("logs"@)),
            None => r matches Err(error) && error@
                == "per-user local application-data directory is unavailable"@,
        },
{
    match local_data {
        Some(local) => Ok(log_directory_from_local_data(local)),
        None => Err("per-user local application-data directory is unavailable".to_owned()),
    }
}

/// Chooses the destination. `shown` is the directory as the host shows it, and
/// `created` what came of creating it; a directory that cannot be had leaves the
/// console.
pub fn prepare_log_destination(
    directory: Result<AppPath, String>,
    shown: &str,
    created: Result<(), String>,
) -> (r: LogDestination)
    ensures
        match (directory, created) {
            (Ok(path), Ok(_)) => r == LogDestination::File(path),
            (Ok(_), Err(error)) => r matches LogDestination::ConsoleOnly(reason) && reason@
                == "could not create "@ + shown@ + ": "@ + error@,
            (Err(error), _) => r == LogDestination::ConsoleOnly(error),
        },
{
    match directory {
        Ok(path) => match created {
            Ok(()) => LogDestination::File(path),
            Err(error) => {
                let mut reason = "could not create ".to_owned();
                reason.append(shown);
                reason.append(": ");
                reason.append(error.as_str());
                LogDestination::ConsoleOnly(reason)
            },
        },
        Err(error) => LogDestination::ConsoleOnly(error),
    }
}

/// What `flexi_logger` says against a filter, if anything.
pub uninterp spec fn filter_complaint(text: Seq<char>) -> Option<Seq<char>>;

/// Calls `flexi_logger::LogSpecification::parse` and keeps only its error, as
/// `Display` writes it. The parser reads nothing but its argument and reports
/// malformed parts as an error; that the answer is a function of the text is
/// all that is claimed.
#[verifier::external_body]
fn filter_error(text: &str) -> (r: Option<String>)
    ensures
        crate::eval::opt_text(r) == filter_complaint(text@),
{
    match flexi_logger::LogSpecification::parse(text) {
        Ok(_) => None,
        Err(error) => Some(format!("{error}")),
    }
}

/// The filter that the logger starts with.
#[derive(Debug, Clone, Copy, PartialEq, Eq, Structural)]
pub enum FilterSource {
    /// The one of the environment.
    Environment,
    Default,
    /// Warnings and errors of every module, because no filter is usable.
    WarningsOnly,
}

/// A filter and what is to be said about it.
#[derive(Debug)]
pub struct FilterChoice {
    pub source: FilterSource,
    pub warning: Option<String>,
}

/// The source of the filter, given what is said against the two candidates. The
/// environment comes first, and a filter of it that is malformed counts as
/// none.
pub open spec fn filter_source(
    configured: bool,
    configured_complaint: Option<Seq<char>>,
    default_complaint: Option<Seq<char>>,
) -> FilterSource {
    if configured && configured_complaint is None {
        FilterSource::Environment
    } else if default_complaint is None {
        FilterSource::Default
    } else {
        FilterSource::WarningsOnly
    }
}

/// The warning that goes with a choice.
pub open spec fn filter_warning(
    source: FilterSource,
    default_complaint: Option<Seq<char>>,
) -> Option<Seq<char>> {
    match (source, default_complaint) {
        (FilterSource::WarningsOnly, Some(complaint)) => Some(
            "invalid RUST_LOG filter: "@ + complaint,
        ),
        _ => None,
    }
}

/// Chooses between the filter of the environment and the default one.
pub fn choose_filter(
    configured: bool,
    configured_complaint: Option<String>,
    default_complaint: Option<String>,
) -> (r: FilterChoice)
    ensures
        r.source == filter_source(
            configured,
            crate::eval::opt_text(configured_complaint),
            crate::eval::opt_text(default_complaint),
        ),
        crate::eval::opt_text(r.warning) == filter_warning(
            r.source,
            crate::eval::opt_text(default_complaint),
        ),
{
    if configured && configured_complaint.is_none() {
        return FilterChoice { source: FilterSource::Environment, warning: None };
    }
    match default_complaint {
        None => FilterChoice { source: FilterSource::Default, warning: None },
        Some(complaint) => {
            let mut warning = "invalid RUST_LOG filter: ".to_owned();
            warning.append(complaint.as_str());
            FilterChoice { source: FilterSource::WarningsOnly, warning: Some(warning) }
        },
    }
}

/// The filter to start with, where the environment may configure one.
pub fn configured_filter(rust_log: Option<&str>) -> (r: FilterChoice)
    ensures
        ({
            let configured = match rust_log {
                Some(text) => filter_complaint(text@),
                None => None,
            };
            &&& r.source == filter_source(
                rust_log is Some,
                configured,
                filter_complaint(DEFAULT_LOG_FILTER@),
            )
            &&& crate::eval::opt_text(r.warning) == filter_warning(
                r.source,
                filter_complaint(DEFAULT_LOG_FILTER@),
            )
        }),
{
    let configured_complaint = match rust_log {
        Some(text) => filter_error(text),
        None => None,
    };
    let default_complaint = filter_error(DEFAULT_LOG_FILTER);
    choose_filter(rust_log.is_some(), configured_complaint, default_complaint)
}

/// The name of the launch log of `timestamp`. Attempts after the first carry
/// their number.
pub open spec fn log_name(timestamp: Seq<char>, attempt: nat) -> Seq<char> {
    if attempt <= 1 {
        "log-"@ + timestamp + ".log"@
    } else {
        "log-"@ + timestamp + "-"@ + crate::text::decimal(attempt) + ".log"@
    }
}

/// The name of the `attempt`th try.
pub fn launch_log_name(timestamp: &str, attempt: u32) -> (r: String)
    requires
        attempt >= 1,
    ensures
        r@ == log_name(timestamp@, attempt as nat),
{
    let mut name = LOG_FILE_PREFIX.to_owned();
    name.append(timestamp);
    if attempt > 1 {
        name.append("-");
        push_decimal(&mut name, attempt as u64);
    }
    name.append(".log");
    name
}

/// A file has the name.
pub open spec fn name_taken(taken: Seq<String>, name: Seq<char>) -> bool {
    exists|i: int| #![trigger taken[i]] 0 <= i < taken.len() && taken[i]@ == name
}

/// `attempt` is the least one whose name is free.
pub open spec fn first_free_attempt(timestamp: Seq<char>, taken: Seq<String>, attempt: nat) -> bool {
    &&& attempt >= 1
    &&& !name_taken(taken, log_name(timestamp, attempt))
    &&& forall|earlier: nat|
        1 <= earlier < attempt ==> name_taken(taken, #[trigger] log_name(timestamp, earlier))
}

fn is_taken(taken: &Vec<String>, name: &str) -> (r: bool)
    ensures
        r == name_taken(taken@, name@),
{
    let mut i: usize = 0;
    while i < taken.len()
        invariant
            i <= taken@.len(),
            forall|j: int| #![trigger taken@[j]] 0 <= j < i ==> taken@[j]@ != name@,
        decreases taken@.len() - i,
    {
        if same_text(taken[i].as_str(), name) {
            return true;
        }
        i += 1;
    }
    false
}

/// The name of the launch log beside the `taken` ones: that of the first attempt
/// which is free.
pub fn unique_log_name(timestamp: &str, taken: &Vec<String>) -> (r: String)
    requires
        taken@.len() < u32::MAX,
    ensures
        exists|attempt: nat| #[trigger]
            first_free_attempt(timestamp@, taken@, attempt) && r@ == log_name(timestamp@, attempt),
{
    let mut attempt: u32 = 1;
    loop
        invariant
            1 <= attempt,
            taken@.len() < u32::MAX,
            forall|earlier: nat|
                1 <= earlier < attempt ==> name_taken(
                    taken@,
                    #[trigger] log_name(timestamp@, earlier),
                ),
        decreases taken@.len() + 1 - attempt,
    {
        let name = launch_log_name(timestamp, attempt);
        if !is_taken(taken, name.as_str()) {
            assert(first_free_attempt(timestamp@, taken@, attempt as nat));
            return name;
        }
        proof {
            let names = texts(taken@);
            assert forall|k: nat| 1 <= k <= attempt implies names.contains(
                #[trigger] log_name(timestamp@, k),
            ) by {
                let i = choose|i: int|
                    #![trigger taken@[i]]
                    0 <= i < taken@.len() && taken@[i]@ == log_name(timestamp@, k);
                assert(names[i] == log_name(timestamp@, k));
            }
            taken_names_are_counted(timestamp@, attempt as nat, names);
        }
        attempt += 1;
    }
}

/// The texts of some names.
spec fn texts(names: Seq<String>) -> Seq<Seq<char>> {
    names.map_values(|name: String| name@)
}

/// Names that differ take a place each.
proof fn taken_names_are_counted(timestamp: Seq<char>, attempts: nat, names: Seq<Seq<char>>)
    requires
        forall|k: nat| 1 <= k <= attempts ==> names.contains(#[trigger] log_name(timestamp, k)),
    ensures
        attempts <= names.len(),
    decreases attempts,
{
    if attempts > 0 {
        let last = log_name(timestamp, attempts);
        assert(names.contains(last));
        let at = choose|i: int| 0 <= i < names.len() && names[i] == last;
        let rest = names.remove(at);
        let fewer = (attempts - 1) as nat;
        assert forall|k: nat| 1 <= k <= fewer implies rest.contains(
            #[trigger] log_name(timestamp, k),
        ) by {
            let name = log_name(timestamp, k);
            attempts_have_names_of_their_own(timestamp, k, attempts);
            assert(names.contains(name));
            let i = choose|i: int| 0 <= i < names.len() && names[i] == name;
            let j = if i < at {
                i
            } else {
                i - 1
            };
            assert(rest[j] == name);
        }
        taken_names_are_counted(timestamp, fewer, rest);
    }
}

/// `text` with blanks behind it up to `width` characters.
pub open spec fn left_aligned(text: Seq<char>, width: nat) -> Seq<char> {
    if text.len() >= width {
        text
    } else {
        text + Seq::new((width - text.len()) as nat, |i: int| ' ')
    }
}

/// A line of the log: when, how serious, on which thread, from where, and what.
/// A thread without a name is called so.
pub fn log_line(
    timestamp: &str,
    level: &str,
    thread_name: Option<&str>,
    thread_id: &str,
    target: &str,
    message: &str,
) -> (r: String)
    ensures
        r@ == timestamp@ + " "@ + left_aligned(level@, 5) + " ["@ + (match thread_name {
            Some(name) => name@,
            None => "<unnamed>"@,
        }) + " "@ + thread_id@ + "] "@ + target@ + ": "@ + message@ + "\n"@,
{
    let mut line = timestamp.to_owned();
    line.append(" ");
    let ghost head = line@;
    line.append(level);
    let mut written: usize = level.unicode_len();
    assert(line@ =~= head + level@);
    assert(Seq::new(0, |i: int| ' ') =~= Seq::<char>::empty());
    while written < 5
        invariant
            level@.len() <= written,
            written <= 5 || written == level@.len(),
            line@ == head + level@ + Seq::new((written - level@.len()) as nat, |i: int| ' '),
        decreases 5 - written,
    {
        let ghost before = line@;
        line.append(" ");
        proof {
            reveal_strlit(" ");
            assert(line@ =~= head + level@ + Seq::new(
                (written + 1 - level@.len()) as nat,
                |i: int| ' ',
            ));
        }
        written += 1;
    }
    assert(line@ =~= head + left_aligned(level@, 5));
    line.append(" [");
    match thread_name {
        Some(name) => {
            line.append(name);
        },
        None => {
            line.append("<unnamed>");
        },
    }
    line.append(" ");
    line.append(thread_id);
    line.append("] ");
    line.append(target);
    line.append(": ");
    line.append(message);
    line.append("\n");
    line
}

/// What the log says of a panic. A payload that is no text, and a place that is
/// not known, are called so.
pub fn panic_text(location: Option<&str>, payload: Option<&str>) -> (r: String)
    ensures
        r@ == "panic at "@ + (match location {
            Some(place) => place@,
            None => "<unknown>"@,
        }) + ": "@ + (match payload {
            Some(text) => text@,
            None => "non-string panic payload"@,
        }),
{
    let mut text = "panic at ".to_owned();
    match location {
        Some(place) => {
            text.append(place);
        },
        None => {
            text.append("<unknown>");
        },
    }
    text.append(": ");
    match payload {
        Some(message) => {
            text.append(message);
        },
        None => {
            text.append("non-string panic payload");
        },
    }
    text
}

/// A launch log by its name.
pub open spec fn is_launch_name(name: Option<Seq<char>>) -> bool {
    name matches Some(name) && crate::text::opens_with(name, "log-"@)
        && crate::text::closes_with(name, ".log"@)
}

/// Whether a file is a launch log. A name that is no text is none.
pub fn is_launch_log(name: Option<&str>) -> (r: bool)
    ensures
        r == is_launch_name(
            match name {
                Some(name) => Some(name@),
                None => None,
            },
        ),
{
    match name {
        Some(name) => starts_with(name, LOG_FILE_PREFIX) && ends_with(name, ".log"),
        None => false,
    }
}

/// A file of the log directory.
#[derive(Debug)]
pub struct LogFile {
    /// The encoded bytes of its name, by which files of one age are ordered.
    pub name: Vec<u8>,
    /// The name as text, where it is one.
    pub text: Option<String>,
    /// When it was last written, in nanoseconds from the epoch.
    pub modified_nanos: i128,
}

impl LogFile {
    /// A launch log other than the active one.
    pub open spec fn removable(self, active: Seq<u8>) -> bool {
        self.name@ != active && is_launch_name(crate::eval::opt_text(self.text))
    }

    /// Written earlier, or at the same time under an earlier name.
    pub open spec fn older(self, other: LogFile) -> bool {
        self.modified_nanos < other.modified_nanos || (self.modified_nanos == other.modified_nanos
            && crate::paths::name_before(self.name@, other.name@))
    }
}

proof fn age_is_ordered(a: LogFile, b: LogFile, c: LogFile)
    ensures
        !b.older(a) && !c.older(b) ==> !c.older(a),
        a.older(b) ==> !b.older(a),
        !a.older(a),
{
    crate::paths::name_order_is_transitive(a.name@, b.name@, c.name@);
}

fn is_older(a: &LogFile, b: &LogFile) -> (r: bool)
    ensures
        r == a.older(*b),
{
    if a.modified_nanos != b.modified_nanos {
        return a.modified_nanos < b.modified_nanos;
    }
    orders_before(&a.name, &b.name)
}

fn same_bytes(a: &Vec<u8>, b: &Vec<u8>) -> (r: bool)
    ensures
        r == (a@ == b@),
{
    if a.len() != b.len() {
        return false;
    }
    let mut i: usize = 0;
    while i < a.len()
        invariant
            a@.len() == b@.len(),
            i <= a@.len(),
            forall|j: int| 0 <= j < i ==> a@[j] == b@[j],
        decreases a@.len() - i,
    {
        if a[i] != b[i] {
            return false;
        }
        i += 1;
    }
    assert(a@ =~= b@);
    true
}

fn is_removable(file: &LogFile, active: &Vec<u8>) -> (r: bool)
    ensures
        r == file.removable(active@),
{
    let launch = match &file.text {
        Some(text) => is_launch_log(Some(text.as_str())),
        None => false,
    };
    launch && !same_bytes(&file.name, active)
}

/// How many of `previous` launch logs go, so that with the active one
/// `RETAINED_LOG_FILES` stay.
pub open spec fn excess(previous: nat) -> nat {
    if previous + 1 > RETAINED_LOG_FILES {
        (previous + 1 - RETAINED_LOG_FILES) as nat
    } else {
        0
    }
}

/// The launch logs of a directory other than the active one.
pub open spec fn previous_logs(files: Seq<LogFile>, active: Seq<u8>) -> Seq<LogFile> {
    files.filter(|file: LogFile| file.removable(active))
}

/// `order` lists the removable files among the first `end`, the oldest first.
pub open spec fn lists_by_age(
    files: Seq<LogFile>,
    active: Seq<u8>,
    end: int,
    order: Seq<usize>,
) -> bool {
    &&& order.no_duplicates()
    &&& forall|k: int|
        #![trigger order[k]]
        0 <= k < order.len() ==> order[k] < end && files[order[k] as int].removable(active)
    &&& forall|i: usize|
        #![trigger order.contains(i)]
        i < end && files[i as int].removable(active) ==> order.contains(i)
    &&& forall|k: int, l: int|
        #![trigger order[k], order[l]]
        0 <= k < l < order.len() ==> !files[order[l] as int].older(files[order[k] as int])
}

fn place_by_age(files: &Vec<LogFile>, order: &mut Vec<usize>, new: usize, active: Ghost<Seq<u8>>)
    requires
        new < files@.len(),
        lists_by_age(files@, active@, new as int, old(order)@),
        files@[new as int].removable(active@),
    ensures
        lists_by_age(files@, active@, new + 1, final(order)@),
        final(order)@.len() == old(order)@.len() + 1,
{
    let mut at: usize = order.len();
    while at > 0 && is_older(&files[new], &files[order[at - 1]])
        invariant
            at <= order@.len(),
            order@ == old(order)@,
            new < files@.len(),
            lists_by_age(files@, active@, new as int, order@),
            forall|k: int|
                #![trigger order@[k]]
                at <= k < order@.len() ==> files@[new as int].older(files@[order@[k] as int]),
        decreases at,
    {
        at = at - 1;
    }
    let ghost before = order@;
    order.insert(at, new);
    proof {
        let after = order@;
        let newest = files@[new as int];
        assert forall|i: usize| #![trigger after.contains(i)]
            i < new + 1 && files@[i as int].removable(active@) implies after.contains(i) by {
            if i == new {
                assert(after[at as int] == new);
            } else {
                assert(before.contains(i));
                let k = choose|k: int| 0 <= k < before.len() && before[k] == i;
                assert(after[if k < at { k } else { k + 1 }] == i);
            }
        }
        assert forall|k: int, l: int| #![trigger after[k], after[l]]
            0 <= k < l < after.len() implies !files@[after[l] as int].older(
            files@[after[k] as int],
        ) by {
            let kk = if k < at { k } else { k - 1 };
            let ll = if l < at { l } else { l - 1 };
            if k != at && l != at {
                assert(after[k] == before[kk]);
                assert(after[l] == before[ll]);
            } else if k == at {
                assert(after[l] == before[ll]);
                age_is_ordered(newest, files@[before[ll] as int], newest);
            } else {
                assert(after[k] == before[kk]);
                let neighbour = files@[before[at - 1] as int];
                if kk < at - 1 {
                    assert(!neighbour.older(files@[before[kk] as int]));
                }
                age_is_ordered(files@[before[kk] as int], neighbour, newest);
            }
        }
        assert forall|k: int, l: int| 0 <= k < l < after.len() implies after[k] != after[l] by {
            let kk = if k < at { k } else { k - 1 };
            let ll = if l < at { l } else { l - 1 };
            if k != at {
                assert(after[k] == before[kk]);
            }
            if l != at {
                assert(after[l] == before[ll]);
            }
        }
        assert forall|k: int| #![trigger after[k]] 0 <= k < after.len() implies after[k] < new + 1
            && files@[after[k] as int].removable(active@) by {
            let kk = if k < at { k } else { k - 1 };
            if k != at {
                assert(after[k] == before[kk]);
            }
        }
    }
}

/// Chooses the logs to remove, the oldest first: of the launch logs other than
/// the active one as many as exceed what is kept. Other files are never chosen.
pub fn logs_to_remove(files: &Vec<LogFile>, active: &Vec<u8>) -> (r: Vec<usize>)
    ensures
        r@.len() == excess(previous_logs(files@, active@).len()),
        r@.no_duplicates(),
        forall|k: int|
            #![trigger r@[k]]
            0 <= k < r@.len() ==> r@[k] < files@.len() && files@[r@[k] as int].removable(active@),
        forall|k: int, l: int|
            #![trigger r@[k], r@[l]]
            0 <= k < l < r@.len() ==> !files@[r@[l] as int].older(files@[r@[k] as int]),
        forall|i: usize, k: int|
            #![trigger files@[i as int], r@[k]]
            i < files@.len() && files@[i as int].removable(active@) && !r@.contains(i) && 0 <= k
                < r@.len() ==> !files@[i as int].older(files@[r@[k] as int]),
{
    let ghost chosen = |file: LogFile| file.removable(active@);
    let mut order: Vec<usize> = Vec::new();
    let mut i: usize = 0;
    proof {
        reveal(Seq::filter);
        assert(files@.take(0) =~= Seq::<LogFile>::empty());
    }
    while i < files.len()
        invariant
            i <= files@.len(),
            chosen == (|file: LogFile| file.removable(active@)),
            lists_by_age(files@, active@, i as int, order@),
            order@.len() == files@.take(i as int).filter(chosen).len(),
        decreases files@.len() - i,
    {
        proof {
            reveal(Seq::filter);
            assert(files@.take(i + 1).drop_last() =~= files@.take(i as int));
            assert(files@.take(i + 1).last() == files@[i as int]);
        }
        if is_removable(&files[i], active) {
            place_by_age(files, &mut order, i, Ghost(active@));
        }
        i += 1;
    }
    assert(files@.take(i as int) =~= files@);
    let mut kept: Vec<usize> = Vec::new();
    let goal: usize = if order.len() >= RETAINED_LOG_FILES {
        order.len() - (RETAINED_LOG_FILES - 1)
    } else {
        0
    };
    let mut k: usize = 0;
    while k < goal
        invariant
            k <= goal <= order@.len(),
            kept@ == order@.take(k as int),
        decreases goal - k,
    {
        kept.push(order[k]);
        k += 1;
        assert(kept@ =~= order@.take(k as int));
    }
    proof {
        assert forall|i: usize, k: int| #![trigger files@[i as int], kept@[k]]
            i < files@.len() && files@[i as int].removable(active@) && !kept@.contains(i) && 0 <= k
                < kept@.len() implies !files@[i as int].older(files@[kept@[k] as int]) by {
            assert(order@.contains(i));
            let at = choose|at: int| 0 <= at < order@.len() && order@[at] == i;
            if at < goal {
                assert(kept@[at] == i);
            }
            assert(order@[k] == kept@[k]);
        }
    }
    kept
}

/// A text as `Debug` writes it.
pub uninterp spec fn debug_text(text: Seq<char>) -> Seq<char>;

/// Formats a text with the `Debug` of `str`, which quotes it and escapes what
/// would not read as itself. That the outcome is a function of the text is all
/// that is claimed.
#[verifier::external_body]
pub(crate) fn quoted(text: &str) -> (r: String)
    ensures
        r@ == debug_text(text@),
{
    format!("{text:?}")
}

/// Consistent context of a fallible operation.
#[derive(Debug, Clone, Copy)]
pub struct OperationContext<'a> {
    pub operation: &'static str,
    pub token: Option<u64>,
    pub quality: Option<PreviewQuality>,
    pub layer: Option<&'a str>,
    /// The project's path as the host writes it in a log line, quotes included.
    /// What is escaped in a path differs from host to host.
    pub project_path: Option<&'a str>,
}

/// The name of a quality in a log line.
pub open spec fn quality_tag(quality: PreviewQuality) -> Seq<char> {
    match quality {
        PreviewQuality::Draft => "Draft"@,
        PreviewQuality::Medium => "Medium"@,
        PreviewQuality::Full => "Full"@,
        PreviewQuality::Export => "Export"@,
    }
}

fn quality_word(quality: PreviewQuality) -> (r: &'static str)
    ensures
        r@ == quality_tag(quality),
{
    match quality {
        PreviewQuality::Draft => "Draft",
        PreviewQuality::Medium => "Medium",
        PreviewQuality::Full => "Full",
        PreviewQuality::Export => "Export",
    }
}

/// ` key=value`, or nothing without a value.
pub open spec fn labelled(label: Seq<char>, value: Option<Seq<char>>) -> Seq<char> {
    match value {
        Some(value) => label + value,
        None => seq![],
    }
}

fn push_labelled(out: &mut String, label: &str, value: Option<&str>)
    ensures
        final(out)@ == old(out)@ + labelled(
            label@,
            match value {
                Some(value) => Some(value@),
                None => None,
            },
        ),
{
    match value {
        Some(value) => {
            out.append(label);
            out.append(value);
            assert(out@ =~= old(out)@ + (label@ + value@));
        },
        None => {
            assert(out@ =~= old(out)@ + Seq::<char>::empty());
        },
    }
}

impl<'a> OperationContext<'a> {
    /// The context of an evaluation.
    pub fn evaluation(token: u64, quality: PreviewQuality) -> (r: Self)
        ensures
            r.operation@ == "evaluation"@,
            r.token == Some(token),
            r.quality == Some(quality),
            r.layer is None,
            r.project_path is None,
    {
        OperationContext {
            operation: "evaluation",
            token: Some(token),
            quality: Some(quality),
            layer: None,
            project_path: None,
        }
    }

    pub fn with_layer(self, layer: Option<&'a str>) -> (r: Self)
        ensures
            r == (OperationContext { layer, ..self }),
    {
        OperationContext { layer, ..self }
    }

    pub fn with_project_path(self, project_path: Option<&'a str>) -> (r: Self)
        ensures
            r == (OperationContext { project_path, ..self }),
    {
        OperationContext { project_path, ..self }
    }

    /// The context as one line, with the layer written as `layer_shown` and the
    /// path as `path_shown`.
    pub open spec fn line(
        self,
        layer_shown: Option<Seq<char>>,
        path_shown: Option<Seq<char>>,
    ) -> Seq<char> {
        "operation="@ + self.operation@ + labelled(
            " token="@,
            match self.token {
                Some(token) => Some(crate::text::decimal(token as nat)),
                None => None,
            },
        ) + labelled(
            " quality="@,
            match self.quality {
                Some(quality) => Some(quality_tag(quality)),
                None => None,
            },
        ) + labelled(" layer="@, layer_shown) + labelled(" project="@, path_shown)
    }

    /// Writes the line from its parts.
    pub fn text_with(&self, layer_shown: Option<&str>, path_shown: Option<&str>) -> (r: String)
        ensures
            r@ == self.line(
                match layer_shown {
                    Some(shown) => Some(shown@),
                    None => None,
                },
                match path_shown {
                    Some(shown) => Some(shown@),
                    None => None,
                },
            ),
    {
        let mut out = "operation=".to_owned();
        out.append(self.operation);
        match self.token {
            Some(token) => {
                let mut digits = "".to_owned();
                push_decimal(&mut digits, token);
                proof {
                    reveal_strlit("");
                    assert(digits@ =~= crate::text::decimal(token as nat));
                }
                push_labelled(&mut out, " token=", Some(digits.as_str()));
            },
            None => {
                push_labelled(&mut out, " token=", None);
            },
        }
        match self.quality {
            Some(quality) => {
                push_labelled(&mut out, " quality=", Some(quality_word(quality)));
            },
            None => {
                push_labelled(&mut out, " quality=", None);
            },
        }
        push_labelled(&mut out, " layer=", layer_shown);
        push_labelled(&mut out, " project=", path_shown);
        out
    }

    /// The context as one line. The layer's name is quoted; the path comes as it
    /// is written.
    pub fn text(&self) -> (r: String)
        ensures
            r@ == self.line(
                match self.layer {
                    Some(layer) => Some(debug_text(layer@)),
                    None => None,
                },
                match self.project_path {
                    Some(path) => Some(path@),
                    None => None,
                },
            ),
    {
        let layer = match self.layer {
            Some(layer) => Some(quoted(layer)),
            None => None,
        };
        let layer_shown = match &layer {
            Some(shown) => Some(shown.as_str()),
            None => None,
        };
        self.text_with(layer_shown, self.project_path)
    }
}

/// How logging came up.
#[derive(Debug)]
pub enum LoggingOutcome {
    /// To this file, shown as the host shows it, and to the console.
    File { log_file: String },
    /// To the console only.
    ConsoleOnly { file_error: String },
    /// Not at all.
    Unavailable { file_error: String, console_error: String },
}

impl LoggingOutcome {
    /// The complaint about a log that is not what it should be.
    pub open spec fn complaint(self) -> Option<Seq<char>> {
        match self {
            LoggingOutcome::File { .. } => None,
            LoggingOutcome::ConsoleOnly { file_error } => Some(
                "persistent logging unavailable; using console only: "@ + file_error@,
            ),
            LoggingOutcome::Unavailable { file_error, console_error } => Some(
                "Terra logging unavailable: "@ + file_error@ + "; console logger failed: "@
                    + console_error@,
            ),
        }
    }

    pub fn warning(&self) -> (r: Option<String>)
        ensures
            crate::eval::opt_text(r) == self.complaint(),
    {
        match self {
            LoggingOutcome::File { .. } => None,
            LoggingOutcome::ConsoleOnly { file_error } => {
                let mut text = "persistent logging unavailable; using console only: ".to_owned();
                text.append(file_error.as_str());
                Some(text)
            },
            LoggingOutcome::Unavailable { file_error, console_error } => {
                let mut text = "Terra logging unavailable: ".to_owned();
                text.append(file_error.as_str());
                text.append("; console logger failed: ");
                text.append(console_error.as_str());
                Some(text)
            },
        }
    }
}

/// What came of opening the file log and, where that failed, the console log.
pub fn logging_outcome(
    file_logger: Result<String, String>,
    console_logger: Result<(), String>,
) -> (r: LoggingOutcome)
    ensures
        r == match (file_logger, console_logger) {
            (Ok(log_file), _) => LoggingOutcome::File { log_file },
            (Err(file_error), Ok(_)) => LoggingOutcome::ConsoleOnly { file_error },
            (Err(file_error), Err(console_error)) => LoggingOutcome::Unavailable {
                file_error,
                console_error,
            },
        },
{
    match file_logger {
        Ok(log_file) => LoggingOutcome::File { log_file },
        Err(file_error) => match console_logger {
            Ok(()) => LoggingOutcome::ConsoleOnly { file_error },
            Err(console_error) => LoggingOutcome::Unavailable { file_error, console_error },
        },
    }
}

/// Cleaning up leaves at most the retained number of launch logs, the active one
/// among them, and takes nothing while there is room.
pub proof fn cleanup_keeps_the_retained_number(previous: nat)
    ensures
        excess(previous) <= previous,
        previous - excess(previous) + 1 <= RETAINED_LOG_FILES,
        previous + 1 <= RETAINED_LOG_FILES <==> excess(previous) == 0,
        previous + 1 >= RETAINED_LOG_FILES ==> previous - excess(previous) + 1
            == RETAINED_LOG_FILES,
{
}

proof fn numerals_differ(a: nat, b: nat)
    requires
        a != b,
    ensures
        crate::text::decimal(a) != crate::text::decimal(b),
    decreases a + b,
{
    let x = crate::text::decimal(a);
    let y = crate::text::decimal(b);
    if a < 10 && b < 10 {
        assert(x[0] != y[0]);
    } else if a >= 10 && b >= 10 {
        if x == y {
            assert(x.last() == y.last());
            assert(x.drop_last() =~= crate::text::decimal(a / 10));
            assert(y.drop_last() =~= crate::text::decimal(b / 10));
            if a / 10 != b / 10 {
                numerals_differ(a / 10, b / 10);
            }
        }
    } else if a >= 10 {
        numeral_is_not_empty(a / 10);
        assert(x.len() > 1);
    } else {
        numeral_is_not_empty(b / 10);
        assert(y.len() > 1);
    }
}

proof fn numeral_is_not_empty(n: nat)
    ensures
        crate::text::decimal(n).len() > 0,
{
}

/// Two attempts at a name are two names, so a launch that counts upward finds a
/// free one.
pub proof fn attempts_have_names_of_their_own(timestamp: Seq<char>, a: nat, b: nat)
    requires
        1 <= a,
        1 <= b,
        a != b,
    ensures
        log_name(timestamp, a) != log_name(timestamp, b),
{
    let head = "log-"@ + timestamp;
    let x = log_name(timestamp, a);
    let y = log_name(timestamp, b);
    reveal_strlit("log-");
    reveal_strlit("-");
    reveal_strlit(".log");
    numerals_differ(a, b);
    if x == y {
        if a == 1 || b == 1 {
            let n = if a == 1 {
                b
            } else {
                a
            };
            numeral_is_not_empty(n);
            assert(log_name(timestamp, n).len() > log_name(timestamp, 1).len());
        } else {
            let start = head.len() + 1;
            assert(x.subrange(start as int, x.len() - 4) =~= crate::text::decimal(a));
            assert(y.subrange(start as int, y.len() - 4) =~= crate::text::decimal(b));
        }
    }
}

/// What a launch writes is recognised as a launch log.
pub proof fn launch_names_are_launch_logs(timestamp: Seq<char>, attempt: nat)
    ensures
        is_launch_name(Some(log_name(timestamp, attempt))),
{
    let name = log_name(timestamp, attempt);
    reveal_strlit("log-");
    reveal_strlit("-");
    reveal_strlit(".log");
    assert(name.subrange(0, 4) =~= "log-"@);
    assert(name.subrange(name.len() - 4, name.len() as int) =~= ".log"@);
}

/// A filter of the environment that nothing is said against is used; without one the
/// default is; where that is malformed too only warnings are logged, and it is said.
pub proof fn a_usable_filter_is_used(
    configured: bool,
    configured_complaint: Option<String>,
    default_complaint: Option<String>,
    choice: FilterChoice,
)
    requires
        call_ensures(choose_filter, (configured, configured_complaint, default_complaint), choice),
    ensures
        choice.source is Environment <==> configured && configured_complaint is None,
        choice.source is WarningsOnly <==> default_complaint is Some && (!configured
            || configured_complaint is Some),
        choice.warning is Some <==> choice.source is WarningsOnly,
        choice.warning matches Some(warning) ==> (default_complaint matches Some(complaint)
            && warning@ == "invalid RUST_LOG filter: "@ + complaint@),
{
}

/// The filter that is started with answers to the environment alone: one that the
/// parser accepts is taken, and none can win without being set.
pub proof fn the_environment_comes_first(rust_log: Option<&str>, choice: FilterChoice)
    requires
        call_ensures(configured_filter, (rust_log,), choice),
    ensures
        choice.source is Environment <==> (rust_log matches Some(text) && filter_complaint(
            text@,
        ) is None),
        choice.warning is Some <==> choice.source is WarningsOnly,
        choice.source is WarningsOnly ==> filter_complaint(DEFAULT_LOG_FILTER@) is Some,
        choice.source is Default ==> filter_complaint(DEFAULT_LOG_FILTER@) is None,
{
}

/// A launch writes to a log of its own: no file has its name, it is that of the bare
/// timestamp where that is free, and it is known for a launch log again.
pub proof fn launches_write_logs_of_their_own(timestamp: &str, taken: &Vec<String>, name: String)
    requires
        taken@.len() < u32::MAX,
        call_ensures(unique_log_name, (timestamp, taken), name),
    ensures
        forall|i: int| 0 <= i < taken@.len() ==> #[trigger] taken@[i]@ != name@,
        !name_taken(taken@, "log-"@ + timestamp@ + ".log"@) ==> name@ == "log-"@ + timestamp@
            + ".log"@,
        is_launch_name(Some(name@)),
{
    let attempt = choose|attempt: nat| #[trigger]
        first_free_attempt(timestamp@, taken@, attempt) && name@ == log_name(timestamp@, attempt);
    assert(first_free_attempt(timestamp@, taken@, attempt));
    launch_names_are_launch_logs(timestamp@, attempt);
    assert(log_name(timestamp@, 1) == "log-"@ + timestamp@ + ".log"@);
    if attempt > 1 {
        assert(name_taken(taken@, log_name(timestamp@, 1)));
    }
    assert forall|i: int| 0 <= i < taken@.len() implies #[trigger] taken@[i]@ != name@ by {
        if taken@[i]@ == name@ {
            assert(name_taken(taken@, name@));
        }
    }
}

/// The first attempt is named by its time, and a later one by its time and number.
pub proof fn later_attempts_carry_their_number(timestamp: &str, attempt: u32, name: String)
    requires
        attempt >= 1,
        call_ensures(launch_log_name, (timestamp, attempt), name),
    ensures
        attempt == 1 ==> name@ == "log-"@ + timestamp@ + ".log"@,
        attempt > 1 ==> name@ == "log-"@ + timestamp@ + "-"@ + crate::text::decimal(attempt as nat)
            + ".log"@,
{
}

/// Cleaning up never takes the active log nor a file that is no launch log, takes the
/// older ones first and none while six would stay, and keeps no log that is older than
/// one it takes.
pub proof fn cleanup_takes_the_oldest_logs(
    files: &Vec<LogFile>,
    active: &Vec<u8>,
    gone: Vec<usize>,
    at: int,
)
    requires
        call_ensures(logs_to_remove, (files, active), gone),
        0 <= at < gone@.len(),
    ensures
        gone@[at] < files@.len(),
        files@[gone@[at] as int].name@ != active@,
        files@[gone@[at] as int].text matches Some(text) && is_launch_name(Some(text@)),
        gone@.len() + 5 == previous_logs(files@, active@).len(),
        forall|later: int|
            at < later < gone@.len() ==> files@[at_index(gone@, at)].modified_nanos
                <= files@[#[trigger] at_index(gone@, later)].modified_nanos,
        forall|kept: usize|
            #![trigger files@[kept as int]]
            kept < files@.len() && files@[kept as int].removable(active@) && !gone@.contains(kept)
                ==> files@[gone@[at] as int].modified_nanos <= files@[kept as int].modified_nanos,
{
    assert forall|later: int| at < later < gone@.len() implies files@[at_index(
        gone@,
        at,
    )].modified_nanos <= files@[#[trigger] at_index(gone@, later)].modified_nanos by {
        assert(!files@[gone@[later] as int].older(files@[gone@[at] as int]));
    }
}

/// The file that a place of a list stands for.
pub open spec fn at_index(list: Seq<usize>, at: int) -> int {
    list[at] as int
}

/// The launch logs are those that open and close as one; a name that is no text is
/// none.
pub proof fn launch_logs_are_known_by_their_name(name: Option<&str>, known: bool)
    requires
        call_ensures(is_launch_log, (name,), known),
    ensures
        name is None ==> !known,
        name matches Some(text) ==> (known <==> crate::text::opens_with(text@, "log-"@)
            && crate::text::closes_with(text@, ".log"@)),
{
}

/// Of two files the one written earlier is older, and of two of one age the one with
/// the earlier name.
pub proof fn age_is_time_and_name(a: LogFile, b: LogFile)
    ensures
        a.modified_nanos < b.modified_nanos ==> a.older(b) && !b.older(a),
        a.modified_nanos == b.modified_nanos ==> (a.older(b) <==> crate::paths::name_before(
            a.name@,
            b.name@,
        )),
        a.removable(b.name@) ==> a.name@ != b.name@,
{
}

/// A line opens with its time, closes with its message and a line break, and names
/// the level, the thread and the target in between; a short level is filled up so
/// that what follows is aligned.
pub proof fn lines_say_when_where_and_what(
    timestamp: &str,
    level: &str,
    thread_name: Option<&str>,
    thread_id: &str,
    target: &str,
    message: &str,
    line: String,
)
    requires
        call_ensures(log_line, (timestamp, level, thread_name, thread_id, target, message), line),
        level@.len() <= 5,
    ensures
        line@.take(timestamp@.len() as int) == timestamp@,
        line@[timestamp@.len() as int] == ' ',
        line@.subrange(timestamp@.len() as int + 1, timestamp@.len() as int + 1 + level@.len()) == level@,
        forall|i: int|
            timestamp@.len() as int + 1 + level@.len() <= i < timestamp@.len() as int + 7 ==> line@[i] == ' ',
        line@[timestamp@.len() as int + 7] == '[',
        thread_name matches Some(name) ==> line@.subrange(
            timestamp@.len() as int + 8,
            timestamp@.len() as int + 8 + name@.len(),
        ) == name@,
        line@.last() == '\n',
        line@.len() > message@.len(),
        line@.drop_last().skip(line@.len() - 1 - message@.len()) == message@,
        line@.subrange(
            line@.len() - 3 - message@.len() - target@.len(),
            line@.len() - 3 - message@.len(),
        ) == target@,
        line@.subrange(
            line@.len() - 5 - message@.len() - target@.len() - thread_id@.len(),
            line@.len() - 5 - message@.len() - target@.len(),
        ) == thread_id@,
{
    reveal_strlit(" ");
    reveal_strlit(" [");
    reveal_strlit("] ");
    reveal_strlit(": ");
    reveal_strlit("\n");
    let n = line@.len() as int;
    let m = message@.len() as int;
    let t = target@.len() as int;
    let d = thread_id@.len() as int;
    assert(line@.take(timestamp@.len() as int) =~= timestamp@);
    assert(line@.drop_last().skip(n - 1 - m) =~= message@);
    assert(line@.subrange(n - 3 - m - t, n - 3 - m) =~= target@);
    assert(line@.subrange(n - 5 - m - t - d, n - 5 - m - t) =~= thread_id@);
    assert(line@.subrange(timestamp@.len() as int + 1, timestamp@.len() as int + 1 + level@.len()) =~= level@);
    if let Some(name) = thread_name {
        assert(line@.subrange(timestamp@.len() as int + 8, timestamp@.len() as int + 8 + name@.len()) =~= name@);
    }
}

/// A panic is told with its place and its message, and what is missing of them is
/// said.
pub proof fn panics_are_told(location: Option<&str>, payload: Option<&str>, text: String)
    requires
        call_ensures(panic_text, (location, payload), text),
    ensures
        (location matches Some(place) ==> (payload matches Some(message) ==> text@ == "panic at "@
            + place@ + ": "@ + message@)),
        (location matches Some(place) ==> (payload is None ==> text@ == "panic at "@ + place@
            + ": "@ + "non-string panic payload"@)),
        (location is None ==> (payload matches Some(message) ==> text@ == "panic at "@
            + "<unknown>"@ + ": "@ + message@)),
{
}

/// Logs lie below the data directory of the user, and without one there are none.
pub proof fn logs_lie_below_the_user_data(local_data: Option<&AppPath>, directory: Result<AppPath, String>)
    requires
        call_ensures(log_directory, (local_data,), directory),
    ensures
        directory is Ok <==> local_data is Some,
        local_data matches Some(local) ==> (directory matches Ok(path) ==> path@ == local@ + seq![
            crate::paths::Part::Normal("Terra"@),
            crate::paths::Part::Normal("logs"@),
        ]),
{
}

/// A file is logged to exactly where its directory is known and could be had.
pub proof fn files_need_their_directory(
    directory: Result<AppPath, String>,
    shown: &str,
    created: Result<(), String>,
    destination: LogDestination,
)
    requires
        call_ensures(prepare_log_destination, (directory, shown, created), destination),
    ensures
        destination is File <==> directory is Ok && created is Ok,
        destination matches LogDestination::File(path) ==> directory == Ok::<AppPath, String>(path),
        directory matches Err(error) ==> destination == LogDestination::ConsoleOnly(error),
        directory is Ok ==> (created matches Err(error) ==> (
        destination matches LogDestination::ConsoleOnly(reason) && reason@ == "could not create "@
            + shown@ + ": "@ + error@)),
{
}

/// A context names what it holds and is silent about the rest.
pub proof fn contexts_name_what_they_hold(context: OperationContext<'_>, text: String)
    requires
        call_ensures(OperationContext::text, (&context,), text),
    ensures
        context.token is None && context.quality is None && context.layer is None
            && context.project_path is None ==> text@ == "operation="@ + context.operation@,
        context.quality is None && context.layer is None && context.project_path is None ==> (
        context.token matches Some(token) ==> text@ == "operation="@ + context.operation@
            + " token="@ + crate::text::decimal(token as nat)),
        context.token is None && context.layer is None && context.project_path is None ==> (
        context.quality matches Some(quality) ==> text@ == "operation="@ + context.operation@
            + " quality="@ + quality_tag(quality)),
        context.token is None && context.quality is None && context.project_path is None ==> (
        context.layer matches Some(layer) ==> text@ == "operation="@ + context.operation@
            + " layer="@ + debug_text(layer@)),
        context.token is None && context.quality is None && context.layer is None ==> (
        context.project_path matches Some(path) ==> text@ == "operation="@ + context.operation@
            + " project="@ + path@),
{
    let head = "operation="@ + context.operation@;
    let none = Seq::<char>::empty();
    assert(head + none + none + none + none =~= head);
    if let Some(token) = context.token {
        let part = " token="@ + crate::text::decimal(token as nat);
        assert(head + part + none + none + none =~= head + " token="@ + crate::text::decimal(
            token as nat,
        ));
    }
    if let Some(quality) = context.quality {
        let part = " quality="@ + quality_tag(quality);
        assert(head + none + part + none + none =~= head + " quality="@ + quality_tag(quality));
    }
    if let Some(layer) = context.layer {
        let part = " layer="@ + debug_text(layer@);
        assert(head + none + none + part + none =~= head + " layer="@ + debug_text(layer@));
    }
    if let Some(path) = context.project_path {
        let part = " project="@ + path@;
        assert(head + none + none + none + part =~= head + " project="@ + path@);
    }
}

/// Each quality has a tag of its own.
pub proof fn qualities_have_their_own_tag(quality: PreviewQuality)
    ensures
        quality is Draft <==> quality_tag(quality) == "Draft"@,
        quality is Medium <==> quality_tag(quality) == "Medium"@,
        quality is Full <==> quality_tag(quality) == "Full"@,
        quality is Export <==> quality_tag(quality) == "Export"@,
{
    reveal_strlit("Draft");
    reveal_strlit("Medium");
    reveal_strlit("Full");
    reveal_strlit("Export");
    assert("Draft"@[0] == 'D');
    assert("Medium"@[0] == 'M');
    assert("Full"@[0] == 'F');
    assert("Export"@[0] == 'E');
}

/// A log that is not written to a file is complained about, with every reason there
/// is.
pub proof fn missing_logs_are_complained_about(
    file_logger: Result<String, String>,
    console_logger: Result<(), String>,
    outcome: LoggingOutcome,
    warning: Option<String>,
)
    requires
        call_ensures(logging_outcome, (file_logger, console_logger), outcome),
        call_ensures(LoggingOutcome::warning, (&outcome,), warning),
    ensures
        warning is None <==> file_logger is Ok,
        file_logger matches Ok(log_file) ==> outcome == (LoggingOutcome::File { log_file }),
        file_logger matches Err(file_error) ==> (console_logger is Ok ==> (
        warning matches Some(text) && text@
            == "persistent logging unavailable; using console only: "@ + file_error@)),
        file_logger matches Err(file_error) ==> (console_logger matches Err(console_error) ==> (
        warning matches Some(text) && text@ == "Terra logging unavailable: "@ + file_error@
            + "; console logger failed: "@ + console_error@)),
{
}

/// A context is built up piece by piece, and a later piece leaves the earlier ones.
pub proof fn contexts_are_built_up<'a>(
    token: u64,
    quality: PreviewQuality,
    layer: Option<&'a str>,
    path: Option<&'a str>,
    bare: OperationContext<'a>,
    layered: OperationContext<'a>,
    whole: OperationContext<'a>,
)
    requires
        call_ensures(OperationContext::<'a>::evaluation, (token, quality), bare),
        call_ensures(OperationContext::<'a>::with_layer, (bare, layer), layered),
        call_ensures(OperationContext::<'a>::with_project_path, (layered, path), whole),
    ensures
        bare.layer is None,
        bare.project_path is None,
        layered.project_path is None,
        whole.operation@ == "evaluation"@,
        whole.token == Some(token),
        whole.quality == Some(quality),
        whole.layer == layer,
        whole.project_path == path,
{
}

} // verus!
