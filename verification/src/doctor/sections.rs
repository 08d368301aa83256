//! Where the suggested-actions heading can occur in the diagnostics
//! dashboard: only in its own section, unless a check's own text carries it.
use vstd::prelude::*;

use crate::doctor::{
    check_block, check_blocks, count_status, detail_lines, has_remediation, lemma_report_shows_everything,
    report_head, report_text, status_icon, status_label, summary_line, suggestions_section,
    verdict_line, CheckResult, CheckStatus,
};
use crate::text::{contains_seq, decimal, digit_char};

verus! {

/// The heading of the dashboard's suggested-actions section.
pub open spec fn actions_heading() -> Seq<char> {
    "Suggested Actions"@
}

/// Whether the character `c` occurs nowhere in `s`.
pub open spec fn lacks(s: Seq<char>, c: char) -> bool {
    forall|i: int| 0 <= i < s.len() ==> #[trigger] s[i] != c
}

proof fn lemma_heading_chars()
    ensures
        actions_heading().len() == 17,
        actions_heading()[0] == 'S',
        actions_heading()[10] == 'A',
        lacks(actions_heading(), '\n'),
        lacks(actions_heading(), '\x1b'),
        lacks(actions_heading(), 'm'),
        lacks(actions_heading(), ':'),
        lacks(actions_heading(), '•'),
        lacks(actions_heading(), '='),
{
    reveal_strlit("Suggested Actions");
}

/// A text that lacks one of the heading's characters does not contain it.
proof fn lemma_lacking_char(s: Seq<char>, k: int)
    requires
        0 <= k < actions_heading().len(),
        lacks(s, actions_heading()[k]),
    ensures
        !contains_seq(s, actions_heading()),
{
    let t = actions_heading();
    if contains_seq(s, t) {
        let i = choose|i: int| 0 <= i && i + t.len() <= s.len() && #[trigger] s.subrange(i, i + t.len()) == t;
        assert(s.subrange(i, i + t.len())[k] == s[i + k]);
    }
}

/// An occurrence in `a + b` lies within `a` or within `b` when the character
/// on either side of the seam is not one of the heading's.
proof fn lemma_split(a: Seq<char>, b: Seq<char>)
    requires
        (a.len() > 0 && lacks(actions_heading(), a.last())) || (b.len() > 0 && lacks(
            actions_heading(),
            b[0],
        )),
        !contains_seq(a, actions_heading()),
        !contains_seq(b, actions_heading()),
    ensures
        !contains_seq(a + b, actions_heading()),
{
    let t = actions_heading();
    let s = a + b;
    if contains_seq(s, t) {
        let i = choose|i: int| 0 <= i && i + t.len() <= s.len() && #[trigger] s.subrange(i, i + t.len()) == t;
        if i + t.len() <= a.len() {
            assert(a.subrange(i, i + t.len()) =~= s.subrange(i, i + t.len()));
        } else if i >= a.len() {
            let j = i - a.len();
            assert(b.subrange(j, j + t.len()) =~= s.subrange(i, i + t.len()));
        } else {
            if a.len() > 0 && lacks(t, a.last()) {
                let k = a.len() - 1 - i;
                assert(s.subrange(i, i + t.len())[k] == s[a.len() - 1]);
                assert(t[k] == a.last());
            } else {
                let k = a.len() - i;
                assert(s.subrange(i, i + t.len())[k] == s[a.len() as int]);
                assert(t[k] == b[0]);
            }
        }
    }
}

/// A leading space cannot start an occurrence, since the heading starts with
/// a capital letter.
proof fn lemma_lead_space(s: Seq<char>)
    requires
        !contains_seq(s, actions_heading()),
    ensures
        !contains_seq(seq![' '] + s, actions_heading()),
{
    lemma_heading_chars();
    let t = actions_heading();
    let x = seq![' '] + s;
    if contains_seq(x, t) {
        let i = choose|i: int| 0 <= i && i + t.len() <= x.len() && #[trigger] x.subrange(i, i + t.len()) == t;
        if i == 0 {
            assert(x.subrange(i, i + t.len())[0] == x[0]);
        } else {
            let j = i - 1;
            assert(s.subrange(j, j + t.len()) =~= x.subrange(i, i + t.len()));
        }
    }
}

proof fn lemma_lacks_concat(a: Seq<char>, b: Seq<char>, c: char)
    requires
        lacks(a, c),
        lacks(b, c),
    ensures
        lacks(a + b, c),
{
    assert forall|i: int| 0 <= i < (a + b).len() implies #[trigger] (a + b)[i] != c by {
        if i < a.len() {
            assert((a + b)[i] == a[i]);
        } else {
            assert((a + b)[i] == b[i - a.len()]);
        }
    }
}

proof fn lemma_decimal_lacks_capital(n: nat)
    ensures
        lacks(decimal(n), 'A'),
    decreases n,
{
    if n >= 10 {
        lemma_decimal_lacks_capital(n / 10);
        let d = digit_char((n % 10) as int);
        assert(d != 'A');
        assert forall|i: int| 0 <= i < decimal(n).len() implies #[trigger] decimal(n)[i] != 'A' by {
            if i < decimal(n / 10).len() {
                assert(decimal(n)[i] == decimal(n / 10)[i]);
            }
        }
    } else {
        assert(digit_char(n as int) != 'A');
    }
}

proof fn lemma_marks(st: CheckStatus)
    ensures
        status_icon(st).len() > 0,
        status_icon(st)[0] == '\x1b',
        lacks(status_icon(st), 'A'),
        status_label(st).len() > 0,
        status_label(st).last() == 'm',
        lacks(status_label(st), 'A'),
        lacks(" "@, 'A'),
        " \x1b[1m"@.len() > 0,
        " \x1b[1m"@.last() == 'm',
        lacks(" \x1b[1m"@, 'A'),
{
    reveal_strlit("\x1b[32m✓\x1b[0m");
    reveal_strlit("\x1b[33m⚠️\x1b[0m");
    reveal_strlit("\x1b[31m✗\x1b[0m");
    reveal_strlit("\x1b[1;32m[Pass]\x1b[0m");
    reveal_strlit("\x1b[1;33m[Warn]\x1b[0m");
    reveal_strlit("\x1b[1;31m[Fail]\x1b[0m");
    reveal_strlit(" ");
    reveal_strlit(" \x1b[1m");
}

proof fn lemma_separators()
    ensures
        "\x1b[0m: "@ == "\x1b[0m:"@ + seq![' '],
        "\x1b[0m:"@.len() > 0,
        "\x1b[0m:"@.last() == ':',
        lacks("\x1b[0m:"@, 'A'),
        "\n"@ == seq!['\n'],
        "   • "@ == "   •"@ + seq![' '],
        "   •"@.len() > 0,
        "   •"@.last() == '•',
        lacks("   •"@, 'A'),
{
    reveal_strlit("\x1b[0m: ");
    reveal_strlit("\x1b[0m:");
    reveal_strlit("\n");
    reveal_strlit("   • ");
    reveal_strlit("   •");
    assert("\x1b[0m: "@ =~= "\x1b[0m:"@ + seq![' ']);
    assert("   • "@ =~= "   •"@ + seq![' ']);
}

proof fn lemma_frame()
    ensures
        report_head().len() > 0,
        report_head().last() == '\n',
        lacks(report_head(), 'A'),
        "==================================\n"@.len() > 0,
        "==================================\n"@[0] == '=',
        "==================================\n"@.last() == '\n',
        lacks("==================================\n"@, 'A'),
        lacks("Summary: "@, 'A'),
        lacks(" passed, "@, 'A'),
        lacks(" warnings, "@, 'A'),
        lacks(" failures."@, 'A'),
{
    reveal_strlit("\n🩺 OpenWhisper System Diagnostics\n");
    reveal_strlit("==================================\n\n");
    reveal_strlit("==================================\n");
    reveal_strlit("Summary: ");
    reveal_strlit(" passed, ");
    reveal_strlit(" warnings, ");
    reveal_strlit(" failures.");
    lemma_lacks_concat("\n🩺 OpenWhisper System Diagnostics\n"@, "==================================\n\n"@, 'A');
}

proof fn lemma_verdicts_lack_capital_s(fail: nat, warn: nat)
    ensures
        lacks(verdict_line(fail, warn), 'S'),
{
    reveal_strlit("\n\x1b[32m✨ All system diagnostics passed! OpenWhisper is fully operational.\x1b[0m\n");
    reveal_strlit("\n\x1b[33m⚠️ OpenWhisper is operational with minor warnings.\x1b[0m\n");
    reveal_strlit("\n\x1b[31m❌ OpenWhisper encountered issues that may prevent speech dictation.\x1b[0m\n");
}

/// Whether none of a check's own texts contains the heading.
pub open spec fn check_text_clean(c: CheckResult) -> bool {
    &&& !contains_seq(c.name@, actions_heading())
    &&& !contains_seq(c.summary@, actions_heading())
    &&& forall|j: int| 0 <= j < c.details@.len() ==> !contains_seq(#[trigger] c.details@[j]@, actions_heading())
}

proof fn lemma_newline_clean()
    ensures
        !contains_seq("\n"@, actions_heading()),
        "\n"@.len() == 1,
        "\n"@[0] == '\n',
{
    lemma_separators();
    lemma_heading_chars();
    assert(lacks("\n"@, 'A'));
    lemma_lacking_char("\n"@, 10);
}

proof fn lemma_details_clean(ds: Seq<String>)
    requires
        forall|j: int| 0 <= j < ds.len() ==> !contains_seq(#[trigger] ds[j]@, actions_heading()),
    ensures
        !contains_seq(detail_lines(ds), actions_heading()),
        detail_lines(ds).len() == 0 || detail_lines(ds).last() == '\n',
    decreases ds.len(),
{
    lemma_heading_chars();
    if ds.len() > 0 {
        let init = ds.drop_last();
        assert forall|j: int| 0 <= j < init.len() implies !contains_seq(#[trigger] init[j]@, actions_heading()) by {
            assert(init[j] == ds[j]);
        }
        lemma_details_clean(init);
        lemma_heading_chars();
        lemma_separators();
        lemma_newline_clean();
        let d = ds.last()@;
        assert(!contains_seq(ds[ds.len() - 1]@, actions_heading()));
        let f1 = d + "\n"@;
        lemma_split(d, "\n"@);
        let f2 = seq![' '] + f1;
        lemma_lead_space(f1);
        let bullet = "   •"@;
        lemma_lacking_char(bullet, 10);
        let f3 = bullet + f2;
        lemma_split(bullet, f2);
        let dl = detail_lines(init);
        assert(dl + "   • "@ + d + "\n"@ =~= dl + f3);
        if dl.len() == 0 {
            assert(dl + f3 =~= f3);
        } else {
            lemma_split(dl, f3);
        }
        assert((dl + f3).last() == '\n');
    }
}

proof fn lemma_block_clean(c: CheckResult)
    requires
        check_text_clean(c),
    ensures
        !contains_seq(check_block(c), actions_heading()),
        check_block(c).len() > 0,
        check_block(c)[0] == '\x1b',
{
    lemma_heading_chars();
    lemma_marks(c.status);
    lemma_separators();
    lemma_newline_clean();
    let icon = status_icon(c.status);
    let label = status_label(c.status);
    let open = " \x1b[1m"@;
    let p1 = icon + " "@ + label + open;
    lemma_lacks_concat(icon, " "@, 'A');
    lemma_lacks_concat(icon + " "@, label, 'A');
    lemma_lacks_concat(icon + " "@ + label, open, 'A');
    lemma_lacking_char(p1, 10);
    assert(p1.last() == 'm');
    lemma_details_clean(c.details@);
    let nl = "\n"@;
    let e1 = detail_lines(c.details@) + nl;
    lemma_split(detail_lines(c.details@), nl);
    let e2 = nl + e1;
    lemma_split(nl, e1);
    let e3 = c.summary@ + e2;
    lemma_split(c.summary@, e2);
    let e4 = seq![' '] + e3;
    lemma_lead_space(e3);
    let close = "\x1b[0m:"@;
    lemma_lacking_char(close, 10);
    let e5 = close + e4;
    lemma_split(close, e4);
    let e6 = c.name@ + e5;
    reveal_strlit("\x1b[0m:");
    assert(e5[0] == '\x1b');
    lemma_split(c.name@, e5);
    lemma_split(p1, e6);
    assert(check_block(c) =~= p1 + e6);
    assert(check_block(c)[0] == icon[0]);
}

proof fn lemma_blocks_clean(checks: Seq<CheckResult>)
    requires
        forall|i: int| 0 <= i < checks.len() ==> check_text_clean(#[trigger] checks[i]),
    ensures
        !contains_seq(check_blocks(checks), actions_heading()),
    decreases checks.len(),
{
    lemma_heading_chars();
    if checks.len() > 0 {
        let init = checks.drop_last();
        assert forall|i: int| 0 <= i < init.len() implies check_text_clean(#[trigger] init[i]) by {
            assert(init[i] == checks[i]);
        }
        lemma_blocks_clean(init);
        assert(check_text_clean(checks[checks.len() - 1]));
        lemma_block_clean(checks.last());
        lemma_heading_chars();
        lemma_split(check_blocks(init), check_block(checks.last()));
    }
}

proof fn lemma_summary_line_lacks_capital_a(pass: nat, warn: nat, fail: nat)
    ensures
        lacks(summary_line(pass, warn, fail), 'A'),
{
    lemma_frame();
    lemma_decimal_lacks_capital(pass);
    lemma_decimal_lacks_capital(warn);
    lemma_decimal_lacks_capital(fail);
    let a = "Summary: "@ + decimal(pass);
    lemma_lacks_concat("Summary: "@, decimal(pass), 'A');
    lemma_lacks_concat(a, " passed, "@, 'A');
    lemma_lacks_concat(a + " passed, "@, decimal(warn), 'A');
    lemma_lacks_concat(a + " passed, "@ + decimal(warn), " warnings, "@, 'A');
    lemma_lacks_concat(a + " passed, "@ + decimal(warn) + " warnings, "@, decimal(fail), 'A');
    lemma_lacks_concat(a + " passed, "@ + decimal(warn) + " warnings, "@ + decimal(fail), " failures."@, 'A');
}

/// The dashboard contains the suggested-actions heading exactly when some
/// check carries a remediation, provided no check's name, summary or detail
/// contains that heading itself.
pub proof fn lemma_actions_heading_only_with_remediation(checks: Seq<CheckResult>)
    requires
        forall|i: int| 0 <= i < checks.len() ==> check_text_clean(#[trigger] checks[i]),
    ensures
        contains_seq(report_text(checks), actions_heading()) <==> has_remediation(checks),
{
    lemma_report_shows_everything(checks);
    if !has_remediation(checks) {
        let pass = count_status(checks, CheckStatus::Pass);
        let warn = count_status(checks, CheckStatus::Warn);
        let fail = count_status(checks, CheckStatus::Fail);
        let rule = "==================================\n"@;
        let nl = "\n"@;
        let v = verdict_line(fail, warn);
        lemma_heading_chars();
        lemma_frame();
        lemma_newline_clean();
        lemma_verdicts_lack_capital_s(fail, warn);
        let g1 = nl + v;
        lemma_lacks_concat(nl, v, 'S');
        lemma_lacking_char(g1, 0);
        let sl = summary_line(pass, warn, fail);
        lemma_summary_line_lacks_capital_a(pass, warn, fail);
        lemma_lacking_char(sl, 10);
        let g2 = sl + g1;
        lemma_split(sl, g1);
        lemma_lacking_char(rule, 10);
        let g3 = rule + g2;
        lemma_split(rule, g2);
        lemma_blocks_clean(checks);
        let g4 = check_blocks(checks) + g3;
        lemma_split(check_blocks(checks), g3);
        lemma_lacking_char(report_head(), 10);
        let g5 = report_head() + g4;
        lemma_split(report_head(), g4);
        crate::doctor::lemma_report_parts(checks);
        assert(suggestions_section(checks) =~= Seq::<char>::empty());
        assert(report_text(checks) =~= g5);
    }
}

} // verus!
