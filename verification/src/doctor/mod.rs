//! Pre-flight diagnostics report: check results, their aggregation into an
//! overall status, and the terminal dashboard text.
use vstd::prelude::*;

pub mod checks;
pub mod sections;

use crate::text::{contains_seq, decimal, push_chars, push_decimal, push_str, chars_of, string_from_chars};

verus! {

/// Outcome of one diagnostic check.
#[derive(Debug, Clone, Copy, PartialEq, Eq, Structural)]
pub enum CheckStatus {
    Pass,
    Warn,
    Fail,
}

/// One diagnostic check and what it found.
#[derive(Debug, Clone)]
pub struct CheckResult {
    pub name: String,
    pub status: CheckStatus,
    pub summary: String,
    pub details: Vec<String>,
    pub remediation: Option<String>,
}

/// The full diagnostic report.
#[derive(Debug, Clone)]
pub struct DoctorReport {
    pub timestamp: String,
    pub overall_status: CheckStatus,
    pub checks: Vec<CheckResult>,
}

/// The shape every `chrono::Utc::now().to_rfc3339()` string has: at least
/// `YYYY-MM-DDTHH:MM:SS` followed by the UTC offset `+00:00`.
pub open spec fn utc_rfc3339_shape(s: Seq<char>) -> bool {
    s.len() >= 25 && s.subrange(s.len() - 6, s.len() as int) == "+00:00"@
}

/// `std::time::SystemTime`, carried opaquely from the clock read to the
/// conversion that measures it against the Unix epoch.
#[verifier::external_type_specification]
#[verifier::external_body]
pub struct ExSystemTime(std::time::SystemTime);

/// Calls `SystemTime::now`; nothing is known of the reading.
#[verifier::external_body]
fn system_time_now() -> std::time::SystemTime {
    std::time::SystemTime::now()
}

/// Calls `SystemTime::duration_since(UNIX_EPOCH)` and hands the `Duration` back
/// as whole seconds and the nanoseconds beyond them (`as_secs`,
/// `subsec_nanos`); `None` where the time lies before the epoch (the `Err`
/// case). The reading depends on the clock, so only the range of the
/// nanoseconds is stated.
#[verifier::external_body]
fn since_unix_epoch(t: &std::time::SystemTime) -> (r: Option<(u64, u32)>)
    ensures
        match r {
            Some((_, nanos)) => nanos < 1_000_000_000,
            None => true,
        },
{
    match t.duration_since(std::time::UNIX_EPOCH) {
        Ok(d) => Some((d.as_secs(), d.subsec_nanos())),
        Err(_) => None,
    }
}

/// `chrono::DateTime::<Utc>::from_timestamp(secs, nanos)` written with
/// `to_rfc3339`: the UTC date and time of a Unix timestamp.
pub uninterp spec fn utc_rfc3339_at(secs: i64, nanos: u32) -> Seq<char>;

/// Calls `chrono::DateTime::from_timestamp(secs, nanos)` and writes the
/// `DateTime<Utc>` it gives with `to_rfc3339`. chrono returns `None` only for
/// seconds out of its range or an invalid nanosecond count; every timestamp
/// from the epoch to the end of year 9999 with fewer than 10^9 nanoseconds is
/// in range. The text is the named one, and has the shape chrono writes for
/// any UTC time: a date and time of at least 19 characters, then the offset
/// `+00:00` (UTC's zero offset, written with minutes and a colon).
#[verifier::external_body]
fn rfc3339_from_timestamp(secs: i64, nanos: u32) -> (r: Option<String>)
    ensures
        0 <= secs <= 253_402_300_799 && nanos < 1_000_000_000 ==> r is Some,
        match r {
            Some(s) => s@ == utc_rfc3339_at(secs, nanos) && utc_rfc3339_shape(s@),
            None => true,
        },
{
    match chrono::DateTime::from_timestamp(secs, nanos) {
        Some(d) => Some(d.to_rfc3339()),
        None => None,
    }
}

/// The RFC 3339 stamp of a clock reading given as whole seconds and
/// nanoseconds since the Unix epoch: `None` for no reading (a clock before the
/// epoch) and for seconds beyond `i64`; otherwise chrono's UTC text of that
/// timestamp, which exists for every reading up to the end of year 9999.
pub fn stamp_of_reading(reading: Option<(u64, u32)>) -> (r: Option<String>)
    ensures
        match reading {
            None => r is None,
            Some((s, n)) => {
                &&& s > 9_223_372_036_854_775_807 ==> r is None
                &&& s <= 253_402_300_799 && n < 1_000_000_000 ==> r is Some
                &&& match r {
                    Some(t) => s <= 9_223_372_036_854_775_807 && t@ == utc_rfc3339_at(s as i64, n)
                        && utc_rfc3339_shape(t@),
                    None => true,
                }
            },
        },
{
    match reading {
        Some((secs, nanos)) => {
            if secs <= 9_223_372_036_854_775_807u64 {
                rfc3339_from_timestamp(secs as i64, nanos)
            } else {
                None
            }
        },
        None => None,
    }
}

/// How serious a status is: Pass < Warn < Fail.
pub open spec fn severity(s: CheckStatus) -> int {
    match s {
        CheckStatus::Pass => 0,
        CheckStatus::Warn => 1,
        CheckStatus::Fail => 2,
    }
}

/// The more serious of two statuses.
pub open spec fn worst(a: CheckStatus, b: CheckStatus) -> CheckStatus {
    if severity(b) > severity(a) {
        b
    } else {
        a
    }
}

/// The overall status of a list of checks: the most serious one, Pass if none.
pub open spec fn aggregate(checks: Seq<CheckResult>) -> CheckStatus
    decreases checks.len(),
{
    if checks.len() == 0 {
        CheckStatus::Pass
    } else {
        worst(aggregate(checks.drop_last()), checks.last().status)
    }
}

impl DoctorReport {
    /// An empty report with the given time stamp; an empty stamp where the
    /// time could not be read.
    pub fn with_timestamp(stamp: Option<String>) -> (r: Self)
        ensures
            r.overall_status == CheckStatus::Pass,
            r.checks@.len() == 0,
            r.timestamp@ == (match stamp {
                Some(s) => s@,
                None => Seq::<char>::empty(),
            }),
    {
        let timestamp = match stamp {
            Some(s) => s,
            None => String::new(),
        };
        DoctorReport { timestamp, overall_status: CheckStatus::Pass, checks: Vec::new() }
    }

    /// An empty report, stamped with the current time in UTC (the stamp of
    /// the clock's reading, see `stamp_of_reading`); the stamp is empty where
    /// the clock cannot be read as such a time (before 1970).
    pub fn new() -> (r: Self)
        ensures
            r.overall_status == CheckStatus::Pass,
            r.checks@.len() == 0,
            r.timestamp@.len() == 0 || (utc_rfc3339_shape(r.timestamp@) && exists|s: u64, n: u32|
                n < 1_000_000_000 && s <= 9_223_372_036_854_775_807 && r.timestamp@ == #[trigger] utc_rfc3339_at(
                    s as i64,
                    n,
                )),
    {
        let reading = since_unix_epoch(&system_time_now());
        let stamp = stamp_of_reading(reading);
        let ghost gstamp = stamp;
        proof {
            match reading {
                Some((s, n)) => {
                    match gstamp {
                        Some(t) => {
                            assert(t@ == utc_rfc3339_at(s as i64, n));
                        },
                        None => {},
                    }
                },
                None => {},
            }
        }
        Self::with_timestamp(stamp)
    }

    /// Appends a check, raising the overall status to the check's if it is worse.
    pub fn add(&mut self, check: CheckResult)
        ensures
            final(self).overall_status == worst(old(self).overall_status, check.status),
            final(self).checks@ == old(self).checks@.push(check),
            final(self).timestamp == old(self).timestamp,
    {
        match check.status {
            CheckStatus::Fail => self.overall_status = CheckStatus::Fail,
            CheckStatus::Warn => {
                if self.overall_status != CheckStatus::Fail {
                    self.overall_status = CheckStatus::Warn;
                }
            },
            CheckStatus::Pass => {},
        }
        self.checks.push(check);
    }
}

impl Default for DoctorReport {
    fn default() -> (r: Self)
        ensures
            r.overall_status == CheckStatus::Pass,
            r.checks@.len() == 0,
    {
        Self::new()
    }
}

/// The report of the full diagnostic suite, its checks in the order run:
/// configuration, audio hardware, transcription backend, virtual input,
/// daemon, desktop integration.
pub fn diagnose(
    config: CheckResult,
    audio: CheckResult,
    stt: CheckResult,
    input: CheckResult,
    daemon: CheckResult,
    desktop: CheckResult,
) -> (r: DoctorReport)
    ensures
        r.checks@ == seq![config, audio, stt, input, daemon, desktop],
        r.overall_status == aggregate(r.checks@),
{
    let mut report = DoctorReport::new();
    let ghost c0 = config;
    let ghost c1 = audio;
    let ghost c2 = stt;
    let ghost c3 = input;
    let ghost c4 = daemon;
    let ghost c5 = desktop;
    proof {
        lemma_add_keeps_aggregate(report.overall_status, report.checks@, c0);
    }
    report.add(config);
    proof {
        lemma_add_keeps_aggregate(report.overall_status, report.checks@, c1);
    }
    report.add(audio);
    proof {
        lemma_add_keeps_aggregate(report.overall_status, report.checks@, c2);
    }
    report.add(stt);
    proof {
        lemma_add_keeps_aggregate(report.overall_status, report.checks@, c3);
    }
    report.add(input);
    proof {
        lemma_add_keeps_aggregate(report.overall_status, report.checks@, c4);
    }
    report.add(daemon);
    proof {
        lemma_add_keeps_aggregate(report.overall_status, report.checks@, c5);
    }
    report.add(desktop);
    assert(report.checks@ =~= seq![c0, c1, c2, c3, c4, c5]);
    report
}

/// Adding a check keeps the overall status equal to the aggregate of all checks.
pub proof fn lemma_add_keeps_aggregate(overall: CheckStatus, checks: Seq<CheckResult>, check: CheckResult)
    requires
        overall == aggregate(checks),
    ensures
        worst(overall, check.status) == aggregate(checks.push(check)),
{
    assert(checks.push(check).drop_last() =~= checks);
}

/// The aggregate is Fail exactly when some check failed, and Pass exactly when
/// every check passed.
pub proof fn lemma_aggregate_meaning(checks: Seq<CheckResult>)
    ensures
        aggregate(checks) == CheckStatus::Fail <==> exists|i: int|
            0 <= i < checks.len() && #[trigger] checks[i].status == CheckStatus::Fail,
        aggregate(checks) == CheckStatus::Pass <==> forall|i: int|
            0 <= i < checks.len() ==> #[trigger] checks[i].status == CheckStatus::Pass,
    decreases checks.len(),
{
    if checks.len() > 0 {
        let rest = checks.drop_last();
        lemma_aggregate_meaning(rest);
        assert forall|i: int| 0 <= i < rest.len() implies #[trigger] rest[i] == checks[i] by {}
        if aggregate(checks) == CheckStatus::Fail {
            if checks.last().status != CheckStatus::Fail {
                let i = choose|i: int| 0 <= i < rest.len() && #[trigger] rest[i].status == CheckStatus::Fail;
                assert(checks[i].status == CheckStatus::Fail);
            } else {
                assert(checks[checks.len() - 1].status == CheckStatus::Fail);
            }
        } else {
            assert forall|i: int| 0 <= i < checks.len() implies #[trigger] checks[i].status != CheckStatus::Fail by {
                if i < rest.len() {
                    assert(rest[i].status != CheckStatus::Fail);
                }
            }
        }
        if aggregate(checks) == CheckStatus::Pass {
            assert forall|i: int| 0 <= i < checks.len() implies #[trigger] checks[i].status == CheckStatus::Pass by {
                if i < rest.len() {
                    assert(rest[i].status == CheckStatus::Pass);
                }
            }
        } else {
            if aggregate(rest) != CheckStatus::Pass {
                let i = choose|i: int| 0 <= i < rest.len() && !(#[trigger] rest[i].status == CheckStatus::Pass);
                assert(checks[i].status != CheckStatus::Pass);
            } else {
                assert(checks[checks.len() - 1].status != CheckStatus::Pass);
            }
        }
    }
}

/// Colored status mark of a check line.
pub open spec fn status_icon(s: CheckStatus) -> Seq<char> {
    match s {
        CheckStatus::Pass => "\x1b[32m✓\x1b[0m"@,
        CheckStatus::Warn => "\x1b[33m⚠️\x1b[0m"@,
        CheckStatus::Fail => "\x1b[31m✗\x1b[0m"@,
    }
}

/// Colored status label of a check line.
pub open spec fn status_label(s: CheckStatus) -> Seq<char> {
    match s {
        CheckStatus::Pass => "\x1b[1;32m[Pass]\x1b[0m"@,
        CheckStatus::Warn => "\x1b[1;33m[Warn]\x1b[0m"@,
        CheckStatus::Fail => "\x1b[1;31m[Fail]\x1b[0m"@,
    }
}

/// One bullet line per detail.
pub open spec fn detail_lines(details: Seq<String>) -> Seq<char>
    decreases details.len(),
{
    if details.len() == 0 {
        Seq::empty()
    } else {
        detail_lines(details.drop_last()) + "   • "@ + details.last()@ + "\n"@
    }
}

/// The dashboard block of one check.
pub open spec fn check_block(c: CheckResult) -> Seq<char> {
    status_icon(c.status) + " "@ + status_label(c.status) + " \x1b[1m"@ + c.name@ + "\x1b[0m: "@
        + c.summary@ + "\n"@ + detail_lines(c.details@) + "\n"@
}

/// The blocks of all checks, in order.
pub open spec fn check_blocks(checks: Seq<CheckResult>) -> Seq<char>
    decreases checks.len(),
{
    if checks.len() == 0 {
        Seq::empty()
    } else {
        check_blocks(checks.drop_last()) + check_block(checks.last())
    }
}

/// How many checks have status `s`.
pub open spec fn count_status(checks: Seq<CheckResult>, s: CheckStatus) -> nat
    decreases checks.len(),
{
    if checks.len() == 0 {
        0
    } else {
        count_status(checks.drop_last(), s) + if checks.last().status == s {
            1nat
        } else {
            0nat
        }
    }
}

/// Every newline followed by a three-space indent (`str::replace('\n', "\n   ")`).
pub open spec fn indent_newlines(s: Seq<char>) -> Seq<char>
    decreases s.len(),
{
    if s.len() == 0 {
        Seq::empty()
    } else if s.last() == '\n' {
        indent_newlines(s.drop_last()) + seq!['\n', ' ', ' ', ' ']
    } else {
        indent_newlines(s.drop_last()).push(s.last())
    }
}

/// The suggested-action lines of the checks that carry a remediation.
pub open spec fn remediation_lines(checks: Seq<CheckResult>) -> Seq<char>
    decreases checks.len(),
{
    if checks.len() == 0 {
        Seq::empty()
    } else {
        remediation_lines(checks.drop_last()) + match checks.last().remediation {
            Some(rem) => " • \x1b[1m"@ + checks.last().name@ + "\x1b[0m:\n   "@ + indent_newlines(rem@)
                + "\n"@,
            None => Seq::empty(),
        }
    }
}

/// Whether some check carries a remediation.
pub open spec fn has_remediation(checks: Seq<CheckResult>) -> bool {
    exists|i: int| 0 <= i < checks.len() && #[trigger] checks[i].remediation is Some
}

/// Appending a check adds a remediation exactly when the check carries one.
proof fn lemma_has_remediation_push(checks: Seq<CheckResult>, c: CheckResult)
    ensures
        has_remediation(checks.push(c)) == (has_remediation(checks) || c.remediation is Some),
{
    let all = checks.push(c);
    if has_remediation(all) {
        let k = choose|k: int| 0 <= k < all.len() && #[trigger] all[k].remediation is Some;
        if k < checks.len() {
            assert(checks[k] == all[k]);
        }
    }
    if has_remediation(checks) {
        let k = choose|k: int| 0 <= k < checks.len() && #[trigger] checks[k].remediation is Some;
        assert(all[k] == checks[k]);
    }
    if c.remediation is Some {
        assert(all[checks.len() as int] == c);
    }
}

/// The closing verdict line.
pub open spec fn verdict_line(fail_count: nat, warn_count: nat) -> Seq<char> {
    if fail_count == 0 && warn_count == 0 {
        "\n\x1b[32m✨ All system diagnostics passed! OpenWhisper is fully operational.\x1b[0m\n"@
    } else if fail_count == 0 {
        "\n\x1b[33m⚠️ OpenWhisper is operational with minor warnings.\x1b[0m\n"@
    } else {
        "\n\x1b[31m❌ OpenWhisper encountered issues that may prevent speech dictation.\x1b[0m\n"@
    }
}

/// The dashboard text of a report.
pub open spec fn report_text(checks: Seq<CheckResult>) -> Seq<char> {
    let pass = count_status(checks, CheckStatus::Pass);
    let warn = count_status(checks, CheckStatus::Warn);
    let fail = count_status(checks, CheckStatus::Fail);
    "\n🩺 OpenWhisper System Diagnostics\n"@ + "==================================\n\n"@
        + check_blocks(checks) + "==================================\n"@ + "Summary: "@ + decimal(pass)
        + " passed, "@ + decimal(warn) + " warnings, "@ + decimal(fail) + " failures.\n"@ + (
    if has_remediation(checks) {
        "\n💡 Suggested Actions:\n"@ + remediation_lines(checks)
    } else {
        Seq::empty()
    }) + verdict_line(fail, warn)
}

/// The summary line of a report with `pass`, `warn` and `fail` checks.
pub open spec fn summary_line(pass: nat, warn: nat, fail: nat) -> Seq<char> {
    "Summary: "@ + decimal(pass) + " passed, "@ + decimal(warn) + " warnings, "@ + decimal(fail)
        + " failures."@
}

proof fn lemma_contains_in_context(a: Seq<char>, b: Seq<char>, c: Seq<char>, t: Seq<char>)
    requires
        contains_seq(b, t),
    ensures
        contains_seq(a + b + c, t),
{
    let i = choose|i: int| 0 <= i && i + t.len() <= b.len() && #[trigger] b.subrange(i, i + t.len()) == t;
    let j = a.len() + i;
    assert((a + b + c).subrange(j, j + t.len()) =~= b.subrange(i, i + t.len()));
}

proof fn lemma_contains_self(t: Seq<char>)
    ensures
        contains_seq(t, t),
{
    let i: int = 0;
    assert(t.subrange(i, i + t.len()) =~= t);
}

proof fn lemma_contains_piece(a: Seq<char>, t: Seq<char>, c: Seq<char>)
    ensures
        contains_seq(a + t + c, t),
{
    lemma_contains_self(t);
    lemma_contains_in_context(a, t, c, t);
}

proof fn lemma_contains_trans(s: Seq<char>, b: Seq<char>, t: Seq<char>)
    requires
        contains_seq(s, b),
        contains_seq(b, t),
    ensures
        contains_seq(s, t),
{
    let i = choose|i: int| 0 <= i && i + b.len() <= s.len() && #[trigger] s.subrange(i, i + b.len()) == b;
    let k = choose|k: int| 0 <= k && k + t.len() <= b.len() && #[trigger] b.subrange(k, k + t.len()) == t;
    assert(s.subrange(i + k, i + k + t.len()) =~= b.subrange(k, k + t.len()));
}

proof fn lemma_detail_lines_contain(details: Seq<String>, j: int)
    requires
        0 <= j < details.len(),
    ensures
        contains_seq(detail_lines(details), details[j]@),
    decreases details.len(),
{
    let rest = details.drop_last();
    if j == details.len() - 1 {
        lemma_contains_piece(detail_lines(rest) + "   • "@, details.last()@, "\n"@);
    } else {
        lemma_detail_lines_contain(rest, j);
        assert(rest[j] == details[j]);
        lemma_contains_in_context(
            Seq::empty(),
            detail_lines(rest),
            "   • "@ + details.last()@ + "\n"@,
            details[j]@,
        );
        assert(Seq::<char>::empty() + detail_lines(rest) + ("   • "@ + details.last()@ + "\n"@)
            =~= detail_lines(details));
    }
}

proof fn lemma_check_block_contains(c: CheckResult)
    ensures
        contains_seq(check_block(c), c.name@),
        contains_seq(check_block(c), c.summary@),
        forall|j: int| 0 <= j < c.details@.len() ==> contains_seq(check_block(c), #[trigger] c.details@[j]@),
{
    let pre = status_icon(c.status) + " "@ + status_label(c.status) + " \x1b[1m"@;
    lemma_contains_piece(pre, c.name@, "\x1b[0m: "@ + c.summary@ + "\n"@ + detail_lines(c.details@) + "\n"@);
    assert(pre + c.name@ + ("\x1b[0m: "@ + c.summary@ + "\n"@ + detail_lines(c.details@) + "\n"@)
        =~= check_block(c));
    let pre2 = pre + c.name@ + "\x1b[0m: "@;
    lemma_contains_piece(pre2, c.summary@, "\n"@ + detail_lines(c.details@) + "\n"@);
    assert(pre2 + c.summary@ + ("\n"@ + detail_lines(c.details@) + "\n"@) =~= check_block(c));
    let pre3 = pre2 + c.summary@ + "\n"@;
    assert(pre3 + detail_lines(c.details@) + "\n"@ =~= check_block(c));
    assert forall|j: int| 0 <= j < c.details@.len() implies contains_seq(check_block(c), #[trigger] c.details@[j]@) by {
        lemma_detail_lines_contain(c.details@, j);
        lemma_contains_in_context(pre3, detail_lines(c.details@), "\n"@, c.details@[j]@);
    }
}

proof fn lemma_check_blocks_contain(checks: Seq<CheckResult>, i: int)
    requires
        0 <= i < checks.len(),
    ensures
        contains_seq(check_blocks(checks), check_block(checks[i])),
    decreases checks.len(),
{
    let rest = checks.drop_last();
    if i == checks.len() - 1 {
        lemma_contains_piece(check_blocks(rest), check_block(checks.last()), Seq::empty());
        assert(check_blocks(rest) + check_block(checks.last()) + Seq::<char>::empty() =~= check_blocks(checks));
    } else {
        lemma_check_blocks_contain(rest, i);
        assert(rest[i] == checks[i]);
        lemma_contains_in_context(Seq::empty(), check_blocks(rest), check_block(checks.last()), check_block(checks[i]));
        assert(Seq::<char>::empty() + check_blocks(rest) + check_block(checks.last()) =~= check_blocks(checks));
    }
}

/// The dashboard's opening title and rule.
pub open spec fn report_head() -> Seq<char> {
    "\n🩺 OpenWhisper System Diagnostics\n"@ + "==================================\n\n"@
}

/// The suggested-actions section of the dashboard, empty where no check
/// carries a remediation.
pub open spec fn suggestions_section(checks: Seq<CheckResult>) -> Seq<char> {
    if has_remediation(checks) {
        "\n💡 Suggested Actions:\n"@ + remediation_lines(checks)
    } else {
        Seq::empty()
    }
}

proof fn lemma_report_parts(checks: Seq<CheckResult>)
    ensures
        report_text(checks) == report_head() + check_blocks(checks) + "==================================\n"@
            + summary_line(
            count_status(checks, CheckStatus::Pass),
            count_status(checks, CheckStatus::Warn),
            count_status(checks, CheckStatus::Fail),
        ) + "\n"@ + suggestions_section(checks) + verdict_line(
            count_status(checks, CheckStatus::Fail),
            count_status(checks, CheckStatus::Warn),
        ),
{
    reveal_strlit(" failures.\n");
    reveal_strlit(" failures.");
    reveal_strlit("\n");
    assert(" failures.\n"@ =~= " failures."@ + "\n"@);
    let pass = count_status(checks, CheckStatus::Pass);
    let warn = count_status(checks, CheckStatus::Warn);
    let fail = count_status(checks, CheckStatus::Fail);
    assert(report_text(checks) =~= report_head() + check_blocks(checks) + "==================================\n"@
        + summary_line(pass, warn, fail) + "\n"@ + suggestions_section(checks) + verdict_line(fail, warn));
}

proof fn lemma_report_shows_check(checks: Seq<CheckResult>, i: int)
    requires
        0 <= i < checks.len(),
    ensures
        contains_seq(report_text(checks), checks[i].name@),
        contains_seq(report_text(checks), checks[i].summary@),
        forall|j: int| 0 <= j < checks[i].details@.len() ==> contains_seq(report_text(checks), #[trigger] checks[i].details@[j]@),
{
    lemma_report_parts(checks);
    let r = report_text(checks);
    let rest = "==================================\n"@ + summary_line(
        count_status(checks, CheckStatus::Pass),
        count_status(checks, CheckStatus::Warn),
        count_status(checks, CheckStatus::Fail),
    ) + "\n"@ + suggestions_section(checks) + verdict_line(
        count_status(checks, CheckStatus::Fail),
        count_status(checks, CheckStatus::Warn),
    );
    assert(report_head() + check_blocks(checks) + rest =~= r);
    lemma_check_blocks_contain(checks, i);
    lemma_contains_in_context(report_head(), check_blocks(checks), rest, check_block(checks[i]));
    lemma_check_block_contains(checks[i]);
    lemma_contains_trans(r, check_block(checks[i]), checks[i].name@);
    lemma_contains_trans(r, check_block(checks[i]), checks[i].summary@);
    assert forall|j: int| 0 <= j < checks[i].details@.len() implies contains_seq(r, #[trigger] checks[i].details@[j]@) by {
        lemma_contains_trans(r, check_block(checks[i]), checks[i].details@[j]@);
    }
}

proof fn lemma_report_shows_summary_and_suggestions(checks: Seq<CheckResult>)
    ensures
        contains_seq(
            report_text(checks),
            summary_line(
                count_status(checks, CheckStatus::Pass),
                count_status(checks, CheckStatus::Warn),
                count_status(checks, CheckStatus::Fail),
            ),
        ),
        has_remediation(checks) ==> contains_seq(report_text(checks), "Suggested Actions"@),
{
    lemma_report_parts(checks);
    let r = report_text(checks);
    let sl = summary_line(
        count_status(checks, CheckStatus::Pass),
        count_status(checks, CheckStatus::Warn),
        count_status(checks, CheckStatus::Fail),
    );
    let v = verdict_line(count_status(checks, CheckStatus::Fail), count_status(checks, CheckStatus::Warn));
    let before = report_head() + check_blocks(checks) + "==================================\n"@;
    lemma_contains_piece(before, sl, "\n"@ + suggestions_section(checks) + v);
    assert(before + sl + ("\n"@ + suggestions_section(checks) + v) =~= r);
    if has_remediation(checks) {
        let sa = "Suggested Actions"@;
        let block = "\n💡 Suggested Actions:\n"@;
        let k: int = 3;
        assert(contains_seq(block, sa)) by {
            reveal_strlit("Suggested Actions");
            reveal_strlit("\n💡 Suggested Actions:\n");
            assert(block.subrange(k, k + sa.len()) =~= sa);
        }
        let pre = before + sl + "\n"@;
        assert(pre + block + (remediation_lines(checks) + v) =~= r);
        lemma_contains_in_context(pre, block, remediation_lines(checks) + v, sa);
    }
}

proof fn lemma_verdict_lines_differ()
    ensures
        verdict_line(0, 0)[4] == '2',
        verdict_line(0, 1)[4] == '3',
        verdict_line(1, 0)[4] == '1',
{
    reveal_strlit("\n\x1b[32m✨ All system diagnostics passed! OpenWhisper is fully operational.\x1b[0m\n");
    reveal_strlit("\n\x1b[33m⚠️ OpenWhisper is operational with minor warnings.\x1b[0m\n");
    reveal_strlit("\n\x1b[31m❌ OpenWhisper encountered issues that may prevent speech dictation.\x1b[0m\n");
}

/// The dashboard shows every check's name, summary and details, the summary
/// line with the numbers of passed, warning and failed checks, and the
/// suggested-actions section whenever some check carries a remediation. It
/// closes with the verdict line, which is the all-passed line exactly when no
/// check warned or failed, the minor-warnings line exactly when some warned
/// and none failed, and the issues line exactly when some failed.
pub proof fn lemma_report_shows_everything(checks: Seq<CheckResult>)
    ensures
        forall|i: int| #![trigger checks[i]] 0 <= i < checks.len() ==> contains_seq(report_text(checks), checks[i].name@)
            && contains_seq(report_text(checks), checks[i].summary@) && forall|j: int|
            0 <= j < checks[i].details@.len() ==> contains_seq(report_text(checks), #[trigger] checks[i].details@[j]@),
        contains_seq(
            report_text(checks),
            summary_line(
                count_status(checks, CheckStatus::Pass),
                count_status(checks, CheckStatus::Warn),
                count_status(checks, CheckStatus::Fail),
            ),
        ),
        has_remediation(checks) ==> contains_seq(report_text(checks), "Suggested Actions"@),
        ({
            let v = verdict_line(count_status(checks, CheckStatus::Fail), count_status(checks, CheckStatus::Warn));
            &&& report_text(checks).len() >= v.len()
            &&& report_text(checks).subrange(report_text(checks).len() - v.len(), report_text(checks).len() as int) == v
        }),
        ({
            let fail = count_status(checks, CheckStatus::Fail);
            let warn = count_status(checks, CheckStatus::Warn);
            &&& (verdict_line(fail, warn) == verdict_line(0, 0) <==> fail == 0 && warn == 0)
            &&& (verdict_line(fail, warn) == verdict_line(0, 1) <==> fail == 0 && warn > 0)
            &&& (verdict_line(fail, warn) == verdict_line(1, 0) <==> fail > 0)
        }),
{
    assert forall|i: int| #![trigger checks[i]] 0 <= i < checks.len() implies contains_seq(report_text(checks), checks[i].name@)
        && contains_seq(report_text(checks), checks[i].summary@) && forall|j: int|
        0 <= j < checks[i].details@.len() ==> contains_seq(report_text(checks), #[trigger] checks[i].details@[j]@) by {
        lemma_report_shows_check(checks, i);
    }
    lemma_report_shows_summary_and_suggestions(checks);
    lemma_report_parts(checks);
    let fail = count_status(checks, CheckStatus::Fail);
    let warn = count_status(checks, CheckStatus::Warn);
    let v = verdict_line(fail, warn);
    let r = report_text(checks);
    let body = report_head() + check_blocks(checks) + "==================================\n"@ + summary_line(
        count_status(checks, CheckStatus::Pass),
        warn,
        fail,
    ) + "\n"@ + suggestions_section(checks);
    assert(r =~= body + v);
    assert(r.subrange(r.len() - v.len(), r.len() as int) =~= v);
    lemma_verdict_lines_differ();
}

fn push_status_marks(out: &mut Vec<char>, s: CheckStatus)
    ensures
        final(out)@ == old(out)@ + status_icon(s) + " "@ + status_label(s),
{
    match s {
        CheckStatus::Pass => {
            push_str(out, "\x1b[32m✓\x1b[0m");
            push_str(out, " ");
            push_str(out, "\x1b[1;32m[Pass]\x1b[0m");
        },
        CheckStatus::Warn => {
            push_str(out, "\x1b[33m⚠️\x1b[0m");
            push_str(out, " ");
            push_str(out, "\x1b[1;33m[Warn]\x1b[0m");
        },
        CheckStatus::Fail => {
            push_str(out, "\x1b[31m✗\x1b[0m");
            push_str(out, " ");
            push_str(out, "\x1b[1;31m[Fail]\x1b[0m");
        },
    }
}

fn push_check_block(out: &mut Vec<char>, c: &CheckResult)
    ensures
        final(out)@ == old(out)@ + check_block(*c),
{
    let ghost start = out@;
    push_status_marks(out, c.status);
    push_str(out, " \x1b[1m");
    push_str(out, c.name.as_str());
    push_str(out, "\x1b[0m: ");
    push_str(out, c.summary.as_str());
    push_str(out, "\n");
    let ghost before_details = out@;
    let mut i: usize = 0;
    while i < c.details.len()
        invariant
            i <= c.details@.len(),
            out@ == before_details + detail_lines(c.details@.take(i as int)),
        decreases c.details.len() - i,
    {
        assert(c.details@.take(i + 1).drop_last() =~= c.details@.take(i as int));
        push_str(out, "   • ");
        push_str(out, c.details[i].as_str());
        push_str(out, "\n");
        assert(out@ =~= before_details + detail_lines(c.details@.take(i + 1)));
        i = i + 1;
    }
    assert(c.details@.take(c.details@.len() as int) =~= c.details@);
    push_str(out, "\n");
    assert(out@ =~= start + check_block(*c));
}

fn push_indented(out: &mut Vec<char>, s: &str)
    ensures
        final(out)@ == old(out)@ + indent_newlines(s@),
{
    let cs = chars_of(s);
    let ghost start = out@;
    let mut i: usize = 0;
    while i < cs.len()
        invariant
            i <= cs@.len(),
            cs@ == s@,
            out@ == start + indent_newlines(cs@.take(i as int)),
        decreases cs.len() - i,
    {
        assert(cs@.take(i + 1).drop_last() =~= cs@.take(i as int));
        if cs[i] == '\n' {
            out.push('\n');
            out.push(' ');
            out.push(' ');
            out.push(' ');
        } else {
            out.push(cs[i]);
        }
        assert(out@ =~= start + indent_newlines(cs@.take(i + 1)));
        i = i + 1;
    }
    assert(cs@.take(cs@.len() as int) =~= cs@);
}

/// Formats the report as a colorized terminal dashboard.
pub fn format_terminal_report(report: &DoctorReport) -> (r: String)
    ensures
        r@ == report_text(report.checks@),
{
    let checks = &report.checks;
    let mut out: Vec<char> = Vec::new();
    push_str(&mut out, "\n🩺 OpenWhisper System Diagnostics\n");
    push_str(&mut out, "==================================\n\n");
    let ghost head = out@;
    let mut pass_count: usize = 0;
    let mut warn_count: usize = 0;
    let mut fail_count: usize = 0;
    let mut any_remediation = false;
    let mut i: usize = 0;
    while i < checks.len()
        invariant
            i <= checks@.len(),
            out@ == head + check_blocks(checks@.take(i as int)),
            pass_count == count_status(checks@.take(i as int), CheckStatus::Pass),
            warn_count == count_status(checks@.take(i as int), CheckStatus::Warn),
            fail_count == count_status(checks@.take(i as int), CheckStatus::Fail),
            pass_count + warn_count + fail_count == i,
            any_remediation == has_remediation(checks@.take(i as int)),
        decreases checks.len() - i,
    {
        let ghost prefix = checks@.take(i as int);
        assert(checks@.take(i + 1).drop_last() =~= prefix);
        let c = &checks[i];
        match c.status {
            CheckStatus::Pass => pass_count = pass_count + 1,
            CheckStatus::Warn => warn_count = warn_count + 1,
            CheckStatus::Fail => fail_count = fail_count + 1,
        }
        proof {
            lemma_has_remediation_push(prefix, *c);
            assert(prefix.push(*c) =~= checks@.take(i + 1));
        }
        if c.remediation.is_some() {
            any_remediation = true;
        }
        push_check_block(&mut out, c);
        assert(out@ =~= head + check_blocks(checks@.take(i + 1)));
        i = i + 1;
    }
    assert(checks@.take(checks@.len() as int) =~= checks@);
    push_str(&mut out, "==================================\n");
    push_str(&mut out, "Summary: ");
    push_decimal(&mut out, pass_count);
    push_str(&mut out, " passed, ");
    push_decimal(&mut out, warn_count);
    push_str(&mut out, " warnings, ");
    push_decimal(&mut out, fail_count);
    push_str(&mut out, " failures.\n");
    let ghost before_rem = out@;
    if any_remediation {
        push_str(&mut out, "\n💡 Suggested Actions:\n");
        let ghost rem_head = out@;
        let mut j: usize = 0;
        while j < checks.len()
            invariant
                j <= checks@.len(),
                out@ == rem_head + remediation_lines(checks@.take(j as int)),
            decreases checks.len() - j,
        {
            assert(checks@.take(j + 1).drop_last() =~= checks@.take(j as int));
            let c = &checks[j];
            match &c.remediation {
                Some(rem) => {
                    push_str(&mut out, " • \x1b[1m");
                    push_str(&mut out, c.name.as_str());
                    push_str(&mut out, "\x1b[0m:\n   ");
                    push_indented(&mut out, rem.as_str());
                    push_str(&mut out, "\n");
                },
                None => {},
            }
            assert(out@ =~= rem_head + remediation_lines(checks@.take(j + 1)));
            j = j + 1;
        }
    }
    if fail_count == 0 && warn_count == 0 {
        push_str(
            &mut out,
            "\n\x1b[32m✨ All system diagnostics passed! OpenWhisper is fully operational.\x1b[0m\n",
        );
    } else if fail_count == 0 {
        push_str(&mut out, "\n\x1b[33m⚠️ OpenWhisper is operational with minor warnings.\x1b[0m\n");
    } else {
        push_str(
            &mut out,
            "\n\x1b[31m❌ OpenWhisper encountered issues that may prevent speech dictation.\x1b[0m\n",
        );
    }
    assert(out@ =~= report_text(checks@));
    string_from_chars(out.as_slice())
}

} // verus!
