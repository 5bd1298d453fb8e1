//! Assembling summary records from the text of a valgrind run.
use vstd::prelude::*;
use vstd::string::*;

use crate::types::{CacheMissText, HeapSummary, LeakSummary};
use crate::utils::{
    capture_outcome, captured_field, field_at, field_value, field_warnings, fields_of, Capture,
    CaptureError, FieldWarning, parse_output_line,
};

verus! {

/// The line of memcheck's heap summary with the bytes and blocks still in use at exit.
pub const IN_USE_AT_EXIT_PATTERN: &'static str = r".*in use at exit\D*([\d|,]*)\D*([\d|,]*)";

/// The line of memcheck's heap summary with allocations, frees and bytes allocated.
pub const TOTAL_HEAP_USAGE_PATTERN: &'static str = r".*total heap usage: ([\d|,]*)\D*([\d|,]*)\D*([\d|,]*)";

/// The leak summary's line of bytes and blocks definitely lost.
pub const DEFINITELY_LOST_PATTERN: &'static str = r".*definitely lost: ([\d|,]*)\D*([\d|,]*)";

/// The leak summary's line of bytes and blocks indirectly lost.
pub const INDIRECTLY_LOST_PATTERN: &'static str = r".*indirectly lost: ([\d|,]*)\D*([\d|,]*)";

/// The leak summary's line of bytes and blocks possibly lost.
pub const POSSIBLY_LOST_PATTERN: &'static str = r".*possibly lost: ([\d|,]*)\D*([\d|,]*)";

/// The leak summary's line of bytes and blocks still reachable.
pub const STILL_REACHABLE_PATTERN: &'static str = r".*still reachable: ([\d|,]*)\D*([\d|,]*)";

/// The leak summary's line of bytes and blocks suppressed.
pub const SUPPRESSED_PATTERN: &'static str = r".*suppressed: ([\d|,]*)\D*([\d|,]*)";

/// Cachegrind's line with the first-level instruction cache miss rate.
pub const I1_MISS_RATE_PATTERN: &'static str = r"I1\s*miss rate:\s*([\d|\.]*)";

/// Cachegrind's line with the last-level cache miss rate for instructions.
pub const LL_INSTRUCTION_MISS_RATE_PATTERN: &'static str = r"L[L|2]i\s*miss rate:\s*([\d|\.]*)";

/// Cachegrind's line with the first-level data cache miss rate.
pub const D1_MISS_RATE_PATTERN: &'static str = r"D1\s*miss rate:\s*([\d|\.]*)";

/// Cachegrind's line with the last-level cache miss rate for data.
pub const LL_DATA_MISS_RATE_PATTERN: &'static str = r"L[L|2]d\s*miss rate:\s*([\d|\.]*)";

/// Cachegrind's line with the last-level cache miss rate overall.
pub const LL_TOTAL_MISS_RATE_PATTERN: &'static str = r"L[L|2]\s*miss rate:\s*([\d|\.]*)";

/// A section of a report that a summary needs.
#[derive(Debug, Clone, Copy, PartialEq, Eq, Structural)]
pub enum Section {
    InUseAtExit,
    TotalHeapUsage,
    DefinitelyLost,
    IndirectlyLost,
    PossiblyLost,
    StillReachable,
    Suppressed,
    I1MissRate,
    LlInstructionMissRate,
    D1MissRate,
    LlDataMissRate,
    LlTotalMissRate,
}

/// The section's name as the report writes it.
pub open spec fn section_label(s: Section) -> Seq<char> {
    match s {
        Section::InUseAtExit => "in use at exit"@,
        Section::TotalHeapUsage => "total heap usage"@,
        Section::DefinitelyLost => "definitely lost"@,
        Section::IndirectlyLost => "indirectly lost"@,
        Section::PossiblyLost => "possibly lost"@,
        Section::StillReachable => "still reachable"@,
        Section::Suppressed => "suppressed"@,
        Section::I1MissRate => "I1 miss rate"@,
        Section::LlInstructionMissRate => "LL/L2 instruction miss rate"@,
        Section::D1MissRate => "D1 miss rate"@,
        Section::LlDataMissRate => "LL/L2 data miss rate"@,
        Section::LlTotalMissRate => "LL/L2 total miss rate"@,
    }
}

impl Section {
    /// The section's name as the report writes it.
    pub fn label(&self) -> (r: &'static str)
        ensures
            r@ == section_label(*self),
    {
        match self {
            Section::InUseAtExit => "in use at exit",
            Section::TotalHeapUsage => "total heap usage",
            Section::DefinitelyLost => "definitely lost",
            Section::IndirectlyLost => "indirectly lost",
            Section::PossiblyLost => "possibly lost",
            Section::StillReachable => "still reachable",
            Section::Suppressed => "suppressed",
            Section::I1MissRate => "I1 miss rate",
            Section::LlInstructionMissRate => "LL/L2 instruction miss rate",
            Section::D1MissRate => "D1 miss rate",
            Section::LlDataMissRate => "LL/L2 data miss rate",
            Section::LlTotalMissRate => "LL/L2 total miss rate",
        }
    }
}

/// Why a report gave no summary.
#[derive(Debug, Clone, Copy, PartialEq, Eq, Structural)]
pub enum ReportError {
    /// The section is nowhere in the report.
    SectionNotFound(Section),
    /// The section's pattern does not compile.
    InvalidPattern(Section),
}

/// The error for `section` when its capture failed with `e`.
pub open spec fn section_error(section: Section, e: CaptureError) -> ReportError {
    match e {
        CaptureError::InvalidPattern => ReportError::InvalidPattern(section),
        CaptureError::NoMatch => ReportError::SectionNotFound(section),
    }
}

fn to_report_error(section: Section, e: CaptureError) -> (r: ReportError)
    ensures
        r == section_error(section, e),
{
    match e {
        CaptureError::InvalidPattern => ReportError::InvalidPattern(section),
        CaptureError::NoMatch => ReportError::SectionNotFound(section),
    }
}

/// The capture groups of each section in turn, or the error of the first
/// section that gives none.
pub open spec fn sections_outcome(sections: Seq<(Section, Seq<char>)>, report: Seq<char>) -> Result<
    Seq<Seq<Option<Seq<char>>>>,
    ReportError,
>
    decreases sections.len(),
{
    if sections.len() == 0 {
        Ok(seq![])
    } else {
        match sections_outcome(sections.drop_last(), report) {
            Err(e) => Err(e),
            Ok(found) => match capture_outcome(sections.last().1, report) {
                Err(e) => Err(section_error(sections.last().0, e)),
                Ok(groups) => Ok(found.push(groups)),
            },
        }
    }
}

/// Sections with their patterns as text.
pub open spec fn sections_view(sections: Seq<(Section, &'static str)>) -> Seq<(Section, Seq<char>)> {
    sections.map_values(|s: (Section, &'static str)| (s.0, s.1@))
}

/// The capture groups of several captures.
pub open spec fn captures_view(caps: Seq<Capture>) -> Seq<Seq<Option<Seq<char>>>> {
    caps.map_values(|c: Capture| c@)
}

/// Applies each section's pattern to `report`, in order, and stops at the
/// first section that gives no match.
pub fn capture_sections(sections: &Vec<(Section, &'static str)>, report: &str) -> (r: Result<
    Vec<Capture>,
    ReportError,
>)
    ensures
        match sections_outcome(sections_view(sections@), report@) {
            Err(e) => r == Err::<Vec<Capture>, _>(e),
            Ok(found) => r matches Ok(caps) && captures_view(caps@) == found,
        },
{
    let mut caps: Vec<Capture> = Vec::new();
    let mut i: usize = 0;
    assert(sections_view(sections@.subrange(0, 0)) =~= Seq::<(Section, Seq<char>)>::empty());
    assert(captures_view(caps@) =~= Seq::<Seq<Option<Seq<char>>>>::empty());
    while i < sections.len()
        invariant
            i <= sections.len(),
            sections_outcome(sections_view(sections@.subrange(0, i as int)), report@) == Ok::<
                _,
                ReportError,
            >(captures_view(caps@)),
        decreases sections.len() - i,
    {
        let ghost prefix = sections@.subrange(0, i as int);
        let ghost next = sections@.subrange(0, i + 1);
        assert(sections_view(next).drop_last() =~= sections_view(prefix));
        assert(sections_view(next) =~= sections_view(sections@).subrange(0, i + 1));
        assert(sections_view(next).last() == (sections@[i as int].0, sections@[i as int].1@));
        let (section, pattern) = sections[i];
        match Capture::new(pattern, report) {
            Ok(c) => {
                let ghost before = caps@;
                caps.push(c);
                assert(captures_view(caps@) =~= captures_view(before).push(c@));
            },
            Err(e) => {
                let err = to_report_error(section, e);
                proof {
                    lemma_outcome_error_stays(sections_view(sections@), report@, i as int + 1);
                }
                return Err(err);
            },
        }
        i += 1;
    }
    assert(sections@.subrange(0, sections.len() as int) =~= sections@);
    Ok(caps)
}

/// Once a section fails, the sections after it do not change the outcome.
proof fn lemma_outcome_error_stays(sections: Seq<(Section, Seq<char>)>, report: Seq<char>, k: int)
    requires
        0 <= k <= sections.len(),
        sections_outcome(sections.subrange(0, k), report) is Err,
    ensures
        sections_outcome(sections, report) == sections_outcome(sections.subrange(0, k), report),
    decreases sections.len() - k,
{
    if k < sections.len() {
        assert(sections.subrange(0, k + 1).drop_last() =~= sections.subrange(0, k));
        lemma_outcome_error_stays(sections, report, k + 1);
    } else {
        assert(sections.subrange(0, k) =~= sections);
    }
}

/// The value of field `i` of a section whose capture groups are `groups`.
pub open spec fn section_field(groups: Seq<Option<Seq<char>>>, i: int) -> i64 {
    field_value(captured_field(fields_of(groups), i))
}

/// The warnings that reading field `i` of a section gives.
pub open spec fn section_field_warnings(
    label: Seq<char>,
    groups: Seq<Option<Seq<char>>>,
    i: int,
) -> Seq<(Seq<char>, Option<Seq<char>>)> {
    field_warnings(label, captured_field(fields_of(groups), i))
}

/// `v` brought into the range of `i64`.
pub open spec fn clamp_i64(v: int) -> i64 {
    if v < i64::MIN {
        i64::MIN
    } else if v > i64::MAX {
        i64::MAX
    } else {
        v as i64
    }
}

fn subtract_clamped(a: i64, b: i64) -> (r: i64)
    ensures
        r == clamp_i64(a - b),
{
    if b > 0 && a < i64::MIN + b {
        i64::MIN
    } else if b < 0 && a > i64::MAX + b {
        i64::MAX
    } else {
        a - b
    }
}

/// The heap summary that the two sections give, with `subtract_bytes` taken
/// off the bytes allocated in total.
pub open spec fn heap_from_groups(
    exit: Seq<Option<Seq<char>>>,
    total: Seq<Option<Seq<char>>>,
    subtract_bytes: i64,
) -> HeapSummary {
    HeapSummary {
        allocated_total: clamp_i64(section_field(total, 2) - subtract_bytes),
        frees: section_field(total, 1),
        allocations: section_field(total, 0),
        allocated_at_exit: section_field(exit, 0),
        blocks_at_exit: section_field(exit, 1),
    }
}

/// The warnings that reading the heap summary's fields gives, in the order of
/// bytes at exit, blocks at exit, allocations, frees, bytes in total.
pub open spec fn heap_warnings(exit: Seq<Option<Seq<char>>>, total: Seq<Option<Seq<char>>>) -> Seq<
    (Seq<char>, Option<Seq<char>>),
> {
    section_field_warnings("in use at exit"@, exit, 0) + section_field_warnings(
        "in use at exit blocks"@,
        exit,
        1,
    ) + section_field_warnings("heap allocated"@, total, 0) + section_field_warnings(
        "heap frees"@,
        total,
        1,
    ) + section_field_warnings("total heap usage"@, total, 2)
}

/// Reads field `i` of a capture, adding any warning to `warnings`.
fn read_field(
    label: &str,
    fields: &Vec<Option<String>>,
    i: usize,
    warnings: &mut Vec<FieldWarning>,
    Ghost(groups): Ghost<Seq<Option<Seq<char>>>>,
) -> (r: i64)
    requires
        fields.deep_view() == fields_of(groups),
    ensures
        r == section_field(groups, i as int),
        final(warnings).deep_view() == old(warnings).deep_view() + section_field_warnings(
            label@,
            groups,
            i as int,
        ),
{
    parse_output_line(label, field_at(fields, i), warnings)
}

/// Builds the heap summary from the captures of its two sections, taking
/// `subtract_bytes` off the bytes allocated in total (clamped to `i64`).
pub fn heap_from_captures(
    exit: &Capture,
    total: &Capture,
    subtract_bytes: i64,
    warnings: &mut Vec<FieldWarning>,
) -> (r: HeapSummary)
    ensures
        r == heap_from_groups(exit@, total@, subtract_bytes),
        final(warnings).deep_view() == old(warnings).deep_view() + heap_warnings(exit@, total@),
{
    let ghost w0 = warnings.deep_view();
    let exit_fields = exit.iter_next();
    let total_fields = total.iter_next();
    let allocated_at_exit = read_field("in use at exit", &exit_fields, 0, warnings, Ghost(exit@));
    let blocks_at_exit = read_field(
        "in use at exit blocks",
        &exit_fields,
        1,
        warnings,
        Ghost(exit@),
    );
    let allocations = read_field("heap allocated", &total_fields, 0, warnings, Ghost(total@));
    let frees = read_field("heap frees", &total_fields, 1, warnings, Ghost(total@));
    let allocated = read_field("total heap usage", &total_fields, 2, warnings, Ghost(total@));
    assert(warnings.deep_view() =~= w0 + heap_warnings(exit@, total@));
    HeapSummary {
        allocated_total: subtract_clamped(allocated, subtract_bytes),
        frees,
        allocations,
        allocated_at_exit,
        blocks_at_exit,
    }
}

/// Each found section gives one set of capture groups.
proof fn lemma_outcome_len(sections: Seq<(Section, Seq<char>)>, report: Seq<char>)
    ensures
        sections_outcome(sections, report) matches Ok(found) ==> found.len() == sections.len(),
    decreases sections.len(),
{
    if sections.len() > 0 {
        lemma_outcome_len(sections.drop_last(), report);
    }
}

/// The sections of memcheck's heap summary, in the order they are looked up.
pub open spec fn heap_sections() -> Seq<(Section, Seq<char>)> {
    seq![
        (Section::InUseAtExit, IN_USE_AT_EXIT_PATTERN@),
        (Section::TotalHeapUsage, TOTAL_HEAP_USAGE_PATTERN@),
    ]
}

/// Reads the heap summary out of memcheck's output `report`, taking
/// `subtract_bytes` (the runtime's own allocations) off the bytes allocated in
/// total. Fails when a section is missing; a field that does not read counts
/// as zero and adds a warning.
pub fn heap_summary(report: &str, subtract_bytes: i64, warnings: &mut Vec<FieldWarning>) -> (r:
    Result<HeapSummary, ReportError>)
    ensures
        match sections_outcome(heap_sections(), report@) {
            Err(e) => r == Err::<HeapSummary, _>(e) && final(warnings)@ == old(warnings)@,
            Ok(found) => r == Ok::<_, ReportError>(
                heap_from_groups(found[0], found[1], subtract_bytes),
            ) && final(warnings).deep_view() == old(warnings).deep_view() + heap_warnings(
                found[0],
                found[1],
            ),
        },
{
    let sections = vec![
        (Section::InUseAtExit, IN_USE_AT_EXIT_PATTERN),
        (Section::TotalHeapUsage, TOTAL_HEAP_USAGE_PATTERN),
    ];
    assert(sections_view(sections@) =~= heap_sections());
    proof {
        lemma_outcome_len(heap_sections(), report@);
    }
    let caps = match capture_sections(&sections, report) {
        Ok(caps) => caps,
        Err(e) => return Err(e),
    };
    assert(captures_view(caps@)[0] == caps@[0]@);
    assert(captures_view(caps@)[1] == caps@[1]@);
    Ok(heap_from_captures(&caps[0], &caps[1], subtract_bytes, warnings))
}

/// The leak summary that the five sections give.
pub open spec fn leak_from_groups(
    definite: Seq<Option<Seq<char>>>,
    indirect: Seq<Option<Seq<char>>>,
    possible: Seq<Option<Seq<char>>>,
    reachable: Seq<Option<Seq<char>>>,
    suppressed: Seq<Option<Seq<char>>>,
) -> LeakSummary {
    LeakSummary {
        definitely_lost: section_field(definite, 0),
        indirectly_lost: section_field(indirect, 0),
        possibly_lost: section_field(possible, 0),
        still_reachable: section_field(reachable, 0),
        supressed: section_field(suppressed, 0),
        definitely_lost_blocks: section_field(definite, 1),
        indrectly_lost_blocks: section_field(indirect, 1),
        possibly_lost_blocks: section_field(possible, 1),
        still_reachable_blocks: section_field(reachable, 1),
        supressed_blocks: section_field(suppressed, 1),
    }
}

/// The warnings that reading a leak section's bytes, then its blocks, gives.
pub open spec fn pair_warnings(
    bytes_label: Seq<char>,
    blocks_label: Seq<char>,
    groups: Seq<Option<Seq<char>>>,
) -> Seq<(Seq<char>, Option<Seq<char>>)> {
    section_field_warnings(bytes_label, groups, 0) + section_field_warnings(
        blocks_label,
        groups,
        1,
    )
}

/// The warnings that reading the leak summary's fields gives, section by
/// section, bytes before blocks.
pub open spec fn leak_warnings(
    definite: Seq<Option<Seq<char>>>,
    indirect: Seq<Option<Seq<char>>>,
    possible: Seq<Option<Seq<char>>>,
    reachable: Seq<Option<Seq<char>>>,
    suppressed: Seq<Option<Seq<char>>>,
) -> Seq<(Seq<char>, Option<Seq<char>>)> {
    pair_warnings("definitely_lost"@, "definitely_lost_blocks"@, definite) + pair_warnings(
        "indirectly_lost"@,
        "indirect_lost_blocks"@,
        indirect,
    ) + pair_warnings("possibly_lost"@, "possibly_lost_blocks"@, possible) + pair_warnings(
        "still_reachable"@,
        "still_reachable_blocks"@,
        reachable,
    ) + pair_warnings("supressed"@, "supressed_blocks"@, suppressed)
}

/// Reads the bytes and the blocks of a leak section.
fn read_pair(
    bytes_label: &str,
    blocks_label: &str,
    cap: &Capture,
    warnings: &mut Vec<FieldWarning>,
) -> (r: (i64, i64))
    ensures
        r.0 == section_field(cap@, 0),
        r.1 == section_field(cap@, 1),
        final(warnings).deep_view() == old(warnings).deep_view() + pair_warnings(
            bytes_label@,
            blocks_label@,
            cap@,
        ),
{
    let ghost w0 = warnings.deep_view();
    let fields = cap.iter_next();
    let bytes = read_field(bytes_label, &fields, 0, warnings, Ghost(cap@));
    let blocks = read_field(blocks_label, &fields, 1, warnings, Ghost(cap@));
    assert(warnings.deep_view() =~= w0 + pair_warnings(bytes_label@, blocks_label@, cap@));
    (bytes, blocks)
}

/// Builds the leak summary from the captures of its five sections.
pub fn leak_from_captures(
    definite: &Capture,
    indirect: &Capture,
    possible: &Capture,
    reachable: &Capture,
    suppressed: &Capture,
    warnings: &mut Vec<FieldWarning>,
) -> (r: LeakSummary)
    ensures
        r == leak_from_groups(definite@, indirect@, possible@, reachable@, suppressed@),
        final(warnings).deep_view() == old(warnings).deep_view() + leak_warnings(
            definite@,
            indirect@,
            possible@,
            reachable@,
            suppressed@,
        ),
{
    let ghost w0 = warnings.deep_view();
    let ghost p1 = pair_warnings("definitely_lost"@, "definitely_lost_blocks"@, definite@);
    let ghost p2 = pair_warnings("indirectly_lost"@, "indirect_lost_blocks"@, indirect@);
    let ghost p3 = pair_warnings("possibly_lost"@, "possibly_lost_blocks"@, possible@);
    let ghost p4 = pair_warnings("still_reachable"@, "still_reachable_blocks"@, reachable@);
    let ghost p5 = pair_warnings("supressed"@, "supressed_blocks"@, suppressed@);
    let d = read_pair("definitely_lost", "definitely_lost_blocks", definite, warnings);
    let i = read_pair("indirectly_lost", "indirect_lost_blocks", indirect, warnings);
    assert(warnings.deep_view() =~= w0 + (p1 + p2));
    let p = read_pair("possibly_lost", "possibly_lost_blocks", possible, warnings);
    assert(warnings.deep_view() =~= w0 + (p1 + p2 + p3));
    let s = read_pair("still_reachable", "still_reachable_blocks", reachable, warnings);
    assert(warnings.deep_view() =~= w0 + (p1 + p2 + p3 + p4));
    let u = read_pair("supressed", "supressed_blocks", suppressed, warnings);
    assert(warnings.deep_view() =~= w0 + (p1 + p2 + p3 + p4 + p5));
    LeakSummary {
        definitely_lost: d.0,
        indirectly_lost: i.0,
        possibly_lost: p.0,
        still_reachable: s.0,
        supressed: u.0,
        definitely_lost_blocks: d.1,
        indrectly_lost_blocks: i.1,
        possibly_lost_blocks: p.1,
        still_reachable_blocks: s.1,
        supressed_blocks: u.1,
    }
}

/// The sections of memcheck's leak summary, in the order they are looked up.
pub open spec fn leak_sections() -> Seq<(Section, Seq<char>)> {
    seq![
        (Section::DefinitelyLost, DEFINITELY_LOST_PATTERN@),
        (Section::IndirectlyLost, INDIRECTLY_LOST_PATTERN@),
        (Section::PossiblyLost, POSSIBLY_LOST_PATTERN@),
        (Section::StillReachable, STILL_REACHABLE_PATTERN@),
        (Section::Suppressed, SUPPRESSED_PATTERN@),
    ]
}

/// Reads the leak summary out of memcheck's output `report`. Fails when a
/// section is missing; a field that does not read counts as zero and adds a
/// warning.
pub fn leak_summary(report: &str, warnings: &mut Vec<FieldWarning>) -> (r: Result<
    LeakSummary,
    ReportError,
>)
    ensures
        match sections_outcome(leak_sections(), report@) {
            Err(e) => r == Err::<LeakSummary, _>(e) && final(warnings)@ == old(warnings)@,
            Ok(found) => r == Ok::<_, ReportError>(
                leak_from_groups(found[0], found[1], found[2], found[3], found[4]),
            ) && final(warnings).deep_view() == old(warnings).deep_view() + leak_warnings(
                found[0],
                found[1],
                found[2],
                found[3],
                found[4],
            ),
        },
{
    let sections = vec![
        (Section::DefinitelyLost, DEFINITELY_LOST_PATTERN),
        (Section::IndirectlyLost, INDIRECTLY_LOST_PATTERN),
        (Section::PossiblyLost, POSSIBLY_LOST_PATTERN),
        (Section::StillReachable, STILL_REACHABLE_PATTERN),
        (Section::Suppressed, SUPPRESSED_PATTERN),
    ];
    assert(sections_view(sections@) =~= leak_sections());
    proof {
        lemma_outcome_len(leak_sections(), report@);
    }
    let caps = match capture_sections(&sections, report) {
        Ok(caps) => caps,
        Err(e) => return Err(e),
    };
    assert(forall|k: int| 0 <= k < 5 ==> captures_view(caps@)[k] == #[trigger] caps@[k]@);
    Ok(leak_from_captures(&caps[0], &caps[1], &caps[2], &caps[3], &caps[4], warnings))
}

/// The text of the one field of a miss-rate section, if it has any.
pub open spec fn rate_text(groups: Seq<Option<Seq<char>>>) -> Option<Seq<char>> {
    match captured_field(fields_of(groups), 0) {
        Some(Some(t)) => Some(t),
        _ => None,
    }
}

fn rate_field(cap: &Capture) -> (r: Option<String>)
    ensures
        r.deep_view() == rate_text(cap@),
{
    let fields = cap.iter_next();
    match field_at(&fields, 0) {
        Some(Some(t)) => Some(String::from_str(t)),
        _ => None,
    }
}

/// Whether `r` holds the rates of the five sections.
pub open spec fn cache_text_of(
    r: CacheMissText,
    i1: Seq<Option<Seq<char>>>,
    lli: Seq<Option<Seq<char>>>,
    d1: Seq<Option<Seq<char>>>,
    lld: Seq<Option<Seq<char>>>,
    ll: Seq<Option<Seq<char>>>,
) -> bool {
    &&& r.i1_miss.deep_view() == rate_text(i1)
    &&& r.l2i_miss.deep_view() == rate_text(lli)
    &&& r.d1_miss.deep_view() == rate_text(d1)
    &&& r.l2d_miss.deep_view() == rate_text(lld)
    &&& r.l2_miss.deep_view() == rate_text(ll)
}

/// Takes the five miss rates from the captures of their sections, each from its own.
pub fn cache_from_captures(
    i1: &Capture,
    lli: &Capture,
    d1: &Capture,
    lld: &Capture,
    ll: &Capture,
) -> (r: CacheMissText)
    ensures
        cache_text_of(r, i1@, lli@, d1@, lld@, ll@),
{
    CacheMissText {
        i1_miss: rate_field(i1),
        l2i_miss: rate_field(lli),
        d1_miss: rate_field(d1),
        l2d_miss: rate_field(lld),
        l2_miss: rate_field(ll),
    }
}

/// The sections of cachegrind's summary, in the order they are looked up.
pub open spec fn cache_sections() -> Seq<(Section, Seq<char>)> {
    seq![
        (Section::I1MissRate, I1_MISS_RATE_PATTERN@),
        (Section::LlInstructionMissRate, LL_INSTRUCTION_MISS_RATE_PATTERN@),
        (Section::D1MissRate, D1_MISS_RATE_PATTERN@),
        (Section::LlDataMissRate, LL_DATA_MISS_RATE_PATTERN@),
        (Section::LlTotalMissRate, LL_TOTAL_MISS_RATE_PATTERN@),
    ]
}

/// Reads the five miss rates out of cachegrind's output `report`, as text.
/// Fails when a section is missing.
pub fn cache_summary(report: &str) -> (r: Result<CacheMissText, ReportError>)
    ensures
        match sections_outcome(cache_sections(), report@) {
            Err(e) => r == Err::<CacheMissText, _>(e),
            Ok(found) => r matches Ok(rates) && cache_text_of(
                rates,
                found[0],
                found[1],
                found[2],
                found[3],
                found[4],
            ),
        },
{
    let sections = vec![
        (Section::I1MissRate, I1_MISS_RATE_PATTERN),
        (Section::LlInstructionMissRate, LL_INSTRUCTION_MISS_RATE_PATTERN),
        (Section::D1MissRate, D1_MISS_RATE_PATTERN),
        (Section::LlDataMissRate, LL_DATA_MISS_RATE_PATTERN),
        (Section::LlTotalMissRate, LL_TOTAL_MISS_RATE_PATTERN),
    ];
    assert(sections_view(sections@) =~= cache_sections());
    proof {
        lemma_outcome_len(cache_sections(), report@);
    }
    let caps = match capture_sections(&sections, report) {
        Ok(caps) => caps,
        Err(e) => return Err(e),
    };
    assert(forall|k: int| 0 <= k < 5 ==> captures_view(caps@)[k] == #[trigger] caps@[k]@);
    Ok(cache_from_captures(&caps[0], &caps[1], &caps[2], &caps[3], &caps[4]))
}

} // verus!
