//! Process discovery: locating the target application's processes.
//!
//! The caller obtains a process listing from the operating system (or an
//! error when the enumeration facility fails) and hands it over as plain
//! lines.  Discovery parses the lines, keeps the entries whose name equals
//! one of the target name variants up to ASCII case, and returns them as
//! records.  An empty result is a normal outcome, not a failure; a failure
//! of the enumeration facility itself is surfaced as a `DiscoveryError`.

use vstd::prelude::*;
use crate::listing::entry_of_line;
use crate::matching::matches_any_variant;
use crate::matching::name_matches;

verus! {

/// One running process: its identifier and resolved executable name.
/// The identifier is only meaningful for the lifetime of the process it
/// names; records are built fresh on every discovery call.
pub struct ProcessRecord {
    pub identifier: u32,
    pub name: String,
}

/// Mathematical image of a `ProcessRecord`.
pub struct RecordView {
    pub identifier: u32,
    pub name: Seq<char>,
}

impl View for ProcessRecord {
    type V = RecordView;

    open spec fn view(&self) -> RecordView {
        RecordView { identifier: self.identifier, name: self.name@ }
    }
}

impl DeepView for ProcessRecord {
    type V = RecordView;

    open spec fn deep_view(&self) -> RecordView {
        self@
    }
}

/// The operating system's enumeration facility failed; carries the
/// human-readable cause.  "No process matched" is never an error.
pub struct DiscoveryError {
    pub message: String,
}

/// The records a listing contributes, in listing order: one per line that
/// parses as an entry and whose name matches a target variant.
pub open spec fn located_entries(lines: Seq<Seq<char>>, variants: Seq<Seq<char>>) -> Seq<
    RecordView,
>
    decreases lines.len(),
{
    if lines.len() == 0 {
        seq![]
    } else {
        let rest = located_entries(lines.drop_last(), variants);
        match entry_of_line(lines.last()) {
            Some(e) => if name_matches(e.1, variants) {
                rest.push(RecordView { identifier: e.0, name: e.1 })
            } else {
                rest
            },
            None => rest,
        }
    }
}

/// Selects from the listing every process whose name matches a target
/// variant, case-insensitively and exactly, in listing order.  Lines that
/// do not parse as entries are skipped, so a single garbled line never
/// fails the call.
pub fn find_in_listing(lines: &Vec<String>, variants: &Vec<String>) -> (r: Vec<ProcessRecord>)
    ensures
        r.deep_view() == located_entries(lines.deep_view(), variants.deep_view()),
{
    let mut r: Vec<ProcessRecord> = Vec::new();
    let mut i: usize = 0;
    while i < lines.len()
        invariant
            i <= lines@.len(),
            r.deep_view() == located_entries(
                lines.deep_view().take(i as int),
                variants.deep_view(),
            ),
        decreases lines@.len() - i,
    {
        let ghost ldv = lines.deep_view();
        proof {
            assert(ldv.take(i as int + 1).drop_last() =~= ldv.take(i as int));
            assert(ldv.take(i as int + 1).last() == lines@[i as int]@);
        }
        match crate::listing::parse_line(lines[i].as_str()) {
            Some(entry) => {
                let (identifier, name) = entry;
                if matches_any_variant(name.as_str(), variants) {
                    let ghost old_dv = r.deep_view();
                    r.push(ProcessRecord { identifier, name });
                    proof {
                        assert(r.deep_view() =~= old_dv.push(
                            located_entries(
                                ldv.take(i as int + 1),
                                variants.deep_view(),
                            ).last(),
                        ));
                    }
                }
            },
            None => {},
        }
        i = i + 1;
    }
    proof {
        assert(lines.deep_view().take(lines@.len() as int) =~= lines.deep_view());
    }
    r
}

/// Discovery from the listing facility's own result: a failed enumeration
/// is surfaced as a `DiscoveryError` with its cause, a successful one is
/// filtered down to the matching records.
pub fn find_matching(listing: Result<Vec<String>, String>, variants: &Vec<String>) -> (r: Result<
    Vec<ProcessRecord>,
    DiscoveryError,
>)
    ensures
        (match listing {
            Ok(lines) => r matches Ok(recs) && recs.deep_view() == located_entries(
                lines.deep_view(),
                variants.deep_view(),
            ),
            Err(cause) => r matches Err(e) && e.message@ == cause@,
        }),
{
    match listing {
        Ok(lines) => Ok(find_in_listing(&lines, variants)),
        Err(cause) => Err(DiscoveryError { message: cause }),
    }
}

/// The liveness check's boundary adapter: whether discovery proves the
/// target running.  A discovery failure maps to `false` — the conservative
/// reading, chosen so the check can never raise — and the swallowed error
/// stays in the `Result` for the caller to report.
pub fn running_from_discovery(discovery: &Result<Vec<ProcessRecord>, DiscoveryError>) -> (r:
    bool)
    ensures
        r == (discovery matches Ok(recs) && recs@.len() > 0),
{
    match discovery {
        Ok(recs) => recs.len() > 0,
        Err(_) => false,
    }
}

/// Whether any process named by a target variant appears in the listing.
/// Never raises: an enumeration failure answers `false`.
pub fn is_running(listing: Result<Vec<String>, String>, variants: &Vec<String>) -> (r: bool)
    ensures
        r == (listing matches Ok(lines) && located_entries(
            lines.deep_view(),
            variants.deep_view(),
        ).len() > 0),
{
    let discovery = find_matching(listing, variants);
    running_from_discovery(&discovery)
}

/// The identifiers of the discovered records, in order, for the
/// termination walk.
pub fn identifiers_of(records: &Vec<ProcessRecord>) -> (r: Vec<u32>)
    ensures
        r@.len() == records@.len(),
        forall|i: int| 0 <= i < records@.len() ==> r@[i] == (#[trigger] records@[i]).identifier,
{
    let mut r: Vec<u32> = Vec::new();
    let mut i: usize = 0;
    while i < records.len()
        invariant
            i <= records@.len(),
            r@.len() == i,
            forall|j: int| 0 <= j < i ==> r@[j] == (#[trigger] records@[j]).identifier,
        decreases records@.len() - i,
    {
        r.push(records[i].identifier);
        i = i + 1;
    }
    r
}

/// The fixed target name set: the product's primary name and its
/// lower-case variant.  A static configuration value, not user input.
pub fn target_name_variants() -> (r: Vec<String>)
    ensures
        r.deep_view().len() == 2,
        r.deep_view()[0] == "Cursor"@,
        r.deep_view()[1] == "cursor"@,
{
    let mut r: Vec<String> = Vec::new();
    r.push("Cursor".to_owned());
    r.push("cursor".to_owned());
    proof {
        assert(r.deep_view()[0] == "Cursor"@);
        assert(r.deep_view()[1] == "cursor"@);
    }
    r
}

} // verus!
