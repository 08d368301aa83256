//! Desktop setup logic: cleaning terminal output, where the KWin window rule
//! places the HUD, and how the HUD rule joins KWin's list of active rules.
use vstd::prelude::*;
use vstd::string::StringExecFns;

use crate::config::HudPosition;
use crate::text::{all_digits, char_is_whitespace, char_views, contains_chars, contains_seq, digits_value,
    is_whitespace_char, lemma_digits_value_grows, vec_from_range, chars_equal, chars_of, decimal, push_chars, push_decimal, push_str, string_from_chars,
    trim_chars, trim_seq};

verus! {

/// `s` with ANSI colour sequences removed, reading from the state `in_escape`:
/// an escape character starts a sequence, which ends with the next `m`.
pub open spec fn strip_ansi_from(s: Seq<char>, in_escape: bool) -> Seq<char>
    decreases s.len(),
{
    if s.len() == 0 {
        Seq::empty()
    } else if s[0] == '\x1b' {
        strip_ansi_from(s.drop_first(), true)
    } else if in_escape {
        strip_ansi_from(s.drop_first(), s[0] != 'm')
    } else {
        seq![s[0]] + strip_ansi_from(s.drop_first(), false)
    }
}

/// Removes ANSI colour sequences (`ESC ... m`) from terminal output.
pub fn strip_ansi(s: &str) -> (r: String)
    ensures
        r@ == strip_ansi_from(s@, false),
{
    let cs = chars_of(s);
    let mut out: Vec<char> = Vec::new();
    let mut in_escape = false;
    let mut i: usize = 0;
    assert(cs@.skip(0) =~= cs@);
    assert(out@ + strip_ansi_from(cs@.skip(0), false) =~= strip_ansi_from(s@, false));
    while i < cs.len()
        invariant
            cs@ == s@,
            i <= cs@.len(),
            out@ + strip_ansi_from(cs@.skip(i as int), in_escape) == strip_ansi_from(s@, false),
        decreases cs.len() - i,
    {
        let c = cs[i];
        assert(cs@.skip(i as int).drop_first() =~= cs@.skip(i + 1));
        assert(cs@.skip(i as int)[0] == c);
        if c == '\x1b' {
            in_escape = true;
        } else if in_escape {
            if c == 'm' {
                in_escape = false;
            }
        } else {
            let ghost before = out@;
            out.push(c);
            assert(out@ + strip_ansi_from(cs@.skip(i + 1), false) =~= before + (seq![c]
                + strip_ansi_from(cs@.skip(i + 1), false)));
        }
        i = i + 1;
    }
    assert(cs@.skip(i as int) =~= Seq::<char>::empty());
    assert(out@ + Seq::<char>::empty() =~= out@);
    string_from_chars(out.as_slice())
}

/// Width of the HUD window, in pixels.
pub const HUD_WIDTH: i32 = 290;

/// Height of the HUD window, in pixels.
pub const HUD_HEIGHT: i32 = 48;

/// Gap between the HUD and the top or bottom screen edge.
pub const HUD_MARGIN_Y: i32 = 60;

/// Gap between the HUD and the right screen edge.
pub const HUD_MARGIN_X: i32 = 40;

/// Integer division by two rounding toward zero, as Rust's `/` does.
pub open spec fn half_toward_zero(v: int) -> int {
    if v >= 0 {
        v / 2
    } else {
        -((-v) / 2)
    }
}

/// The top-left corner of the HUD window on a `w` by `h` screen.
pub open spec fn hud_origin(position: HudPosition, w: int, h: int) -> (int, int) {
    match position {
        HudPosition::BottomCenter => (half_toward_zero(w - 290), h - 48 - 60),
        HudPosition::TopCenter => (half_toward_zero(w - 290), 60),
        HudPosition::BottomRight => (w - 290 - 40, h - 48 - 60),
        HudPosition::TopRight => (w - 290 - 40, 60),
    }
}

/// Where the KWin rule places the HUD window on a `screen_w` by `screen_h`
/// screen.
pub fn hud_window_position(position: HudPosition, screen_w: i32, screen_h: i32) -> (r: (i32, i32))
    requires
        screen_w - 290 - 40 >= i32::MIN,
        screen_h - 48 - 60 >= i32::MIN,
    ensures
        (r.0 as int, r.1 as int) == hud_origin(position, screen_w as int, screen_h as int),
{
    match position {
        HudPosition::BottomCenter => (half_of(screen_w - HUD_WIDTH), screen_h - HUD_HEIGHT - HUD_MARGIN_Y),
        HudPosition::TopCenter => (half_of(screen_w - HUD_WIDTH), HUD_MARGIN_Y),
        HudPosition::BottomRight => (screen_w - HUD_WIDTH - HUD_MARGIN_X, screen_h - HUD_HEIGHT - HUD_MARGIN_Y),
        HudPosition::TopRight => (screen_w - HUD_WIDTH - HUD_MARGIN_X, HUD_MARGIN_Y),
    }
}

fn half_of(v: i32) -> (r: i32)
    ensures
        r as int == half_toward_zero(v as int),
{
    if v >= 0 {
        v / 2
    } else {
        let m: i64 = -(v as i64);
        let q: i64 = m / 2;
        (-q) as i32
    }
}

/// Decimal representation of a signed number, as `format!("{}", v)` writes it.
pub open spec fn signed_decimal(v: int) -> Seq<char> {
    if v < 0 {
        seq!['-'] + decimal((-v) as nat)
    } else {
        decimal(v as nat)
    }
}

fn push_signed(out: &mut Vec<char>, v: i32)
    ensures
        final(out)@ == old(out)@ + signed_decimal(v as int),
{
    if v < 0 {
        out.push('-');
        let m: i64 = -(v as i64);
        let ghost mid = out@;
        push_decimal(out, m as usize);
        assert(out@ =~= old(out)@ + signed_decimal(v as int));
    } else {
        push_decimal(out, v as usize);
    }
}

/// The value of the KWin `position` key for the corner `(x, y)`: `x,y`.
pub fn kwin_position_value(x: i32, y: i32) -> (r: String)
    ensures
        r@ == signed_decimal(x as int) + ","@ + signed_decimal(y as int),
{
    let mut out: Vec<char> = Vec::new();
    push_signed(&mut out, x);
    push_str(&mut out, ",");
    push_signed(&mut out, y);
    string_from_chars(out.as_slice())
}

/// The pieces of `s` between the occurrences of `sep` (`str::split`).
pub open spec fn split_on(s: Seq<char>, sep: char) -> Seq<Seq<char>>
    decreases s.len(),
{
    if s.len() == 0 {
        seq![Seq::empty()]
    } else {
        let rest = split_on(s.drop_first(), sep);
        if s[0] == sep {
            seq![Seq::empty()] + rest
        } else {
            rest.update(0, seq![s[0]] + rest[0])
        }
    }
}

proof fn lemma_split_on_nonempty(s: Seq<char>, sep: char)
    ensures
        split_on(s, sep).len() >= 1,
    decreases s.len(),
{
    if s.len() > 0 {
        lemma_split_on_nonempty(s.drop_first(), sep);
    }
}

/// Whether `rule` is one of the comma-separated entries of `rules` (each entry
/// trimmed).
pub open spec fn rule_listed(rules: Seq<char>, rule: Seq<char>) -> bool {
    exists|i: int| 0 <= i < split_on(rules, ',').len() && #[trigger] trim_seq(split_on(rules, ',')[i]) == rule
}

/// The new value of KWin's active rule list when `rule` must be in it: `None`
/// when it is listed already, else the trimmed list with `rule` appended.
pub open spec fn rule_list_with(existing: Seq<char>, rule: Seq<char>) -> Option<Seq<char>> {
    let current = trim_seq(existing);
    if rule_listed(current, rule) {
        None
    } else if current.len() == 0 {
        Some(rule)
    } else {
        Some(current + ","@ + rule)
    }
}

proof fn lemma_split_step(s: Seq<char>, i: int, sep: char)
    requires
        0 <= i < s.len(),
    ensures
        s.skip(i).drop_first() == s.skip(i + 1),
        s.skip(i)[0] == s[i],
        split_on(s.skip(i), sep) == (if s[i] == sep {
            seq![Seq::<char>::empty()] + split_on(s.skip(i + 1), sep)
        } else {
            split_on(s.skip(i + 1), sep).update(0, seq![s[i]] + split_on(s.skip(i + 1), sep)[0])
        }),
{
    assert(s.skip(i).drop_first() =~= s.skip(i + 1));
}

/// The pieces of `s` between the occurrences of `sep`.
fn split_on_char(s: &[char], sep: char) -> (r: Vec<Vec<char>>)
    ensures
        r@.len() == split_on(s@, sep).len(),
        forall|i: int| 0 <= i < r@.len() ==> #[trigger] r@[i]@ == split_on(s@, sep)[i],
{
    let mut done: Vec<Vec<char>> = Vec::new();
    let mut cur: Vec<char> = Vec::new();
    let mut i: usize = 0;
    proof {
        lemma_split_on_nonempty(s@, sep);
        assert(s@.skip(0) =~= s@);
    }
    while i < s.len()
        invariant
            i <= s@.len(),
            split_on(s@.skip(i as int), sep).len() >= 1,
            done@.len() + split_on(s@.skip(i as int), sep).len() == split_on(s@, sep).len(),
            forall|k: int| 0 <= k < done@.len() ==> #[trigger] done@[k]@ == split_on(s@, sep)[k],
            cur@ + split_on(s@.skip(i as int), sep)[0] == split_on(s@, sep)[done@.len() as int],
            forall|k: int|
                1 <= k < split_on(s@.skip(i as int), sep).len() ==> #[trigger] split_on(s@.skip(i as int), sep)[k]
                    == split_on(s@, sep)[done@.len() + k],
        decreases s.len() - i,
    {
        proof {
            lemma_split_step(s@, i as int, sep);
            lemma_split_on_nonempty(s@.skip(i + 1), sep);
        }
        let c = s[i];
        let ghost rest = split_on(s@.skip(i + 1), sep);
        if c == sep {
            assert(cur@ + Seq::<char>::empty() =~= cur@);
            done.push(cur);
            cur = Vec::new();
            assert(cur@ + rest[0] =~= rest[0]);
            assert(split_on(s@.skip(i as int), sep)[1] == rest[0]);
            assert forall|k: int| 1 <= k < rest.len() implies #[trigger] rest[k] == split_on(s@, sep)[done@.len() + k] by {
                assert(rest[k] == split_on(s@.skip(i as int), sep)[k + 1]);
            }
        } else {
            let ghost before = cur@;
            cur.push(c);
            assert(cur@ + rest[0] =~= before + (seq![c] + rest[0]));
            assert(split_on(s@.skip(i as int), sep)[0] == seq![c] + rest[0]);
            assert forall|k: int| 1 <= k < rest.len() implies #[trigger] rest[k] == split_on(s@, sep)[done@.len() + k] by {
                assert(rest[k] == split_on(s@.skip(i as int), sep)[k]);
            }
        }
        i = i + 1;
    }
    assert(s@.skip(i as int) =~= Seq::<char>::empty());
    assert(cur@ + Seq::<char>::empty() =~= cur@);
    done.push(cur);
    done
}

/// The new value of KWin's active rule list so that it holds `rule`, or `None`
/// when it already does (see `rule_list_with`).
pub fn merge_rule_list(existing: &str, rule: &str) -> (r: Option<String>)
    ensures
        match r {
            Some(v) => rule_list_with(existing@, rule@) == Some(v@),
            None => rule_list_with(existing@, rule@) is None,
        },
{
    let ecs = chars_of(existing);
    let current = trim_chars(ecs.as_slice());
    let rcs = chars_of(rule);
    let parts = split_on_char(current.as_slice(), ',');
    let mut i: usize = 0;
    while i < parts.len()
        invariant
            current@ == trim_seq(existing@),
            rcs@ == rule@,
            parts@.len() == split_on(current@, ',').len(),
            forall|k: int| 0 <= k < parts@.len() ==> #[trigger] parts@[k]@ == split_on(current@, ',')[k],
            i <= parts@.len(),
            forall|k: int| 0 <= k < i ==> #[trigger] trim_seq(split_on(current@, ',')[k]) != rule@,
        decreases parts.len() - i,
    {
        let piece = trim_chars(parts[i].as_slice());
        if chars_equal(piece.as_slice(), rcs.as_slice()) {
            assert(trim_seq(split_on(current@, ',')[i as int]) == rule@);
            return None;
        }
        i = i + 1;
    }
    assert(!rule_listed(current@, rule@));
    if current.len() == 0 {
        Some(string_from_chars(rcs.as_slice()))
    } else {
        let mut out = current;
        push_str(&mut out, ",");
        push_chars(&mut out, rcs.as_slice());
        Some(string_from_chars(out.as_slice()))
    }
}


/// The sign and digits of a number written as `str::parse::<i32>` reads it.
pub open spec fn signed_body(s: Seq<char>) -> (bool, Seq<char>) {
    if s.len() > 0 && s[0] == '-' {
        (true, s.drop_first())
    } else if s.len() > 0 && s[0] == '+' {
        (false, s.drop_first())
    } else {
        (false, s)
    }
}

/// `str::parse::<i32>`: an optional sign followed by at least one decimal
/// digit, with a value in the range of `i32`.
pub open spec fn parsed_i32(s: Seq<char>) -> Option<i32> {
    let (neg, body) = signed_body(s);
    let v = if neg {
        -digits_value(body)
    } else {
        digits_value(body)
    };
    if body.len() > 0 && all_digits(body) && i32::MIN <= v <= i32::MAX {
        Some(v as i32)
    } else {
        None
    }
}

/// Parses a decimal number the way `str::parse::<i32>` does.
pub fn parse_i32(s: &[char]) -> (r: Option<i32>)
    ensures
        r == parsed_i32(s@),
{
    let neg = s.len() > 0 && s[0] == '-';
    let start: usize = if s.len() > 0 && (s[0] == '-' || s[0] == '+') { 1 } else { 0 };
    let body = vec_from_range(s, start, s.len());
    assert(body@ =~= signed_body(s@).1);
    if body.len() == 0 {
        return None;
    }
    let limit: u64 = if neg { 2147483648 } else { 2147483647 };
    let mut value: u64 = 0;
    let mut i: usize = 0;
    assert(body@.take(0) =~= Seq::<char>::empty());
    while i < body.len()
        invariant
            i <= body@.len(),
            body@ == signed_body(s@).1,
            neg == signed_body(s@).0,
            limit == (if neg { 2147483648u64 } else { 2147483647u64 }),
            all_digits(body@.take(i as int)),
            value as int == digits_value(body@.take(i as int)),
            value <= limit,
        decreases body.len() - i,
    {
        let c = body[i];
        assert(body@.take(i + 1).drop_last() =~= body@.take(i as int));
        if c < '0' || c > '9' {
            return None;
        }
        assert(all_digits(body@.take(i + 1))) by {
            assert forall|k: int| 0 <= k < i + 1 implies '0' <= #[trigger] body@.take(i + 1)[k] <= '9' by {
                if k < i {
                    assert(body@.take(i + 1)[k] == body@.take(i as int)[k]);
                }
            }
        }
        let d = (c as u64) - ('0' as u64);
        let next = value * 10 + d;
        if next > limit {
            proof {
                if all_digits(body@) {
                    assert(body@.take(body@.len() as int) =~= body@);
                    lemma_digits_value_grows(body@, i + 1, body@.len() as int);
                }
            }
            return None;
        }
        value = next;
        i = i + 1;
    }
    assert(body@.take(body@.len() as int) =~= body@);
    if neg {
        let v: i64 = -(value as i64);
        Some(v as i32)
    } else {
        Some(value as i32)
    }
}

/// The whitespace-separated words of `s` (`str::split_whitespace`), read from
/// the start of `s` with `cur` already collected for the current word.
pub open spec fn ws_tokens_from(s: Seq<char>, cur: Seq<char>) -> Seq<Seq<char>>
    decreases s.len(),
{
    if s.len() == 0 {
        if cur.len() > 0 {
            seq![cur]
        } else {
            Seq::empty()
        }
    } else if is_whitespace_char(s[0]) {
        (if cur.len() > 0 {
            seq![cur]
        } else {
            Seq::empty()
        }) + ws_tokens_from(s.drop_first(), Seq::empty())
    } else {
        ws_tokens_from(s.drop_first(), cur.push(s[0]))
    }
}

/// The whitespace-separated words of `s` (`str::split_whitespace`).
pub open spec fn split_ws(s: Seq<char>) -> Seq<Seq<char>> {
    ws_tokens_from(s, Seq::empty())
}

/// The words of `s`.
pub fn split_whitespace_chars(s: &[char]) -> (r: Vec<Vec<char>>)
    ensures
        char_views(r@) == split_ws(s@),
{
    let mut done: Vec<Vec<char>> = Vec::new();
    let mut cur: Vec<char> = Vec::new();
    let mut i: usize = 0;
    assert(s@.skip(0) =~= s@);
    assert(char_views(done@) + ws_tokens_from(s@.skip(0), cur@) =~= split_ws(s@));
    while i < s.len()
        invariant
            i <= s@.len(),
            char_views(done@) + ws_tokens_from(s@.skip(i as int), cur@) == split_ws(s@),
        decreases s.len() - i,
    {
        let c = s[i];
        assert(s@.skip(i as int).drop_first() =~= s@.skip(i + 1));
        assert(s@.skip(i as int)[0] == c);
        let ghost tail = ws_tokens_from(s@.skip(i + 1), Seq::empty());
        if char_is_whitespace(c) {
            if cur.len() > 0 {
                let ghost before = char_views(done@);
                let ghost cv = cur@;
                done.push(cur);
                assert(char_views(done@) =~= before.push(cv));
                assert(char_views(done@) + tail =~= before + (seq![cv] + tail));
            } else {
                assert(char_views(done@) + tail =~= char_views(done@) + (Seq::<Seq<char>>::empty() + tail));
            }
            cur = Vec::new();
        } else {
            cur.push(c);
        }
        i = i + 1;
    }
    assert(s@.skip(i as int) =~= Seq::<char>::empty());
    if cur.len() > 0 {
        let ghost before = char_views(done@);
        let ghost cv = cur@;
        done.push(cur);
        assert(char_views(done@) =~= before.push(cv));
        assert(before + seq![cv] =~= before.push(cv));
    } else {
        assert(char_views(done@) + Seq::<Seq<char>>::empty() =~= char_views(done@));
    }
    done
}

/// A line without the `\r` of a `\r\n` ending.
pub open spec fn without_cr(line: Seq<char>) -> Seq<char> {
    if line.len() > 0 && line.last() == '\r' {
        line.drop_last()
    } else {
        line
    }
}

/// The lines of `s` (`str::lines`), read from the start of `s` with `cur`
/// already collected for the current line: lines end at `\n` (a `\r` before
/// it is dropped), and a last line without ending counts when it is not empty.
pub open spec fn lines_from(s: Seq<char>, cur: Seq<char>) -> Seq<Seq<char>>
    decreases s.len(),
{
    if s.len() == 0 {
        if cur.len() > 0 {
            seq![cur]
        } else {
            Seq::empty()
        }
    } else if s[0] == '\n' {
        seq![without_cr(cur)] + lines_from(s.drop_first(), Seq::empty())
    } else {
        lines_from(s.drop_first(), cur.push(s[0]))
    }
}

/// The lines of `s` (`str::lines`).
pub open spec fn lines_of(s: Seq<char>) -> Seq<Seq<char>> {
    lines_from(s, Seq::empty())
}

/// The lines of `s`.
pub fn split_lines(s: &[char]) -> (r: Vec<Vec<char>>)
    ensures
        char_views(r@) == lines_of(s@),
{
    let mut done: Vec<Vec<char>> = Vec::new();
    let mut cur: Vec<char> = Vec::new();
    let mut i: usize = 0;
    assert(s@.skip(0) =~= s@);
    assert(char_views(done@) + lines_from(s@.skip(0), cur@) =~= lines_of(s@));
    while i < s.len()
        invariant
            i <= s@.len(),
            char_views(done@) + lines_from(s@.skip(i as int), cur@) == lines_of(s@),
        decreases s.len() - i,
    {
        let c = s[i];
        assert(s@.skip(i as int).drop_first() =~= s@.skip(i + 1));
        assert(s@.skip(i as int)[0] == c);
        if c == '\n' {
            let ghost tail = lines_from(s@.skip(i + 1), Seq::empty());
            let line = if cur.len() > 0 && cur[cur.len() - 1] == '\r' {
                let n = cur.len() - 1;
                let l = vec_from_range(cur.as_slice(), 0, n);
                assert(l@ =~= cur@.drop_last());
                l
            } else {
                cur
            };
            let ghost before = char_views(done@);
            let ghost lv = line@;
            done.push(line);
            assert(char_views(done@) =~= before.push(lv));
            assert(char_views(done@) + tail =~= before + (seq![lv] + tail));
            cur = Vec::new();
        } else {
            cur.push(c);
        }
        i = i + 1;
    }
    assert(s@.skip(i as int) =~= Seq::<char>::empty());
    if cur.len() > 0 {
        let ghost before = char_views(done@);
        let ghost cv = cur@;
        done.push(cur);
        assert(char_views(done@) =~= before.push(cv));
        assert(before + seq![cv] =~= before.push(cv));
    } else {
        assert(char_views(done@) + Seq::<Seq<char>>::empty() =~= char_views(done@));
    }
    done
}


/// Smallest screen width taken as a real display.
pub const MIN_SCREEN_WIDTH: i32 = 400;

/// Smallest screen height taken as a real display.
pub const MIN_SCREEN_HEIGHT: i32 = 300;

/// Screen width assumed when no tool reports one.
pub const DEFAULT_SCREEN_WIDTH: i32 = 1920;

/// Screen height assumed when no tool reports one.
pub const DEFAULT_SCREEN_HEIGHT: i32 = 1080;

/// A width and height, kept when both are plausible display dimensions.
pub open spec fn plausible_size(w: Option<i32>, h: Option<i32>) -> Option<(i32, i32)> {
    match (w, h) {
        (Some(w), Some(h)) => if w >= 400 && h >= 300 {
            Some((w, h))
        } else {
            None
        },
        _ => None,
    }
}

/// The size that a `kscreen-doctor` geometry word such as `1707x1067` gives: a
/// word with one `x`, no `@` and no `,`, whose two sides are numbers.
pub open spec fn kscreen_word_size(t: Seq<char>) -> Option<(i32, i32)> {
    let parts = split_on(t, 'x');
    if t.contains('x') && !t.contains('@') && !t.contains(',') && parts.len() == 2 {
        plausible_size(parsed_i32(parts[0]), parsed_i32(parts[1]))
    } else {
        None
    }
}

/// The first size among words `ws` (see `kscreen_word_size`).
pub open spec fn first_kscreen_word(ws: Seq<Seq<char>>) -> Option<(i32, i32)>
    decreases ws.len(),
{
    if ws.len() == 0 {
        None
    } else {
        match kscreen_word_size(ws[0]) {
            Some(sz) => Some(sz),
            None => first_kscreen_word(ws.drop_first()),
        }
    }
}

/// The screen size that `kscreen-doctor -o` prints: the first geometry word of
/// the first `Geometry:` line that has one, with colour codes removed.
pub open spec fn first_kscreen_line(ls: Seq<Seq<char>>) -> Option<(i32, i32)>
    decreases ls.len(),
{
    if ls.len() == 0 {
        None
    } else {
        let here = if contains_seq(ls[0], "Geometry:"@) {
            first_kscreen_word(split_ws(strip_ansi_from(ls[0], false)))
        } else {
            None
        };
        match here {
            Some(sz) => Some(sz),
            None => first_kscreen_line(ls.drop_first()),
        }
    }
}

/// Index of the first `c` in `t`.
pub open spec fn first_index(t: Seq<char>, c: char) -> Option<int>
    decreases t.len(),
{
    if t.len() == 0 {
        None
    } else if t[0] == c {
        Some(0)
    } else {
        match first_index(t.drop_first(), c) {
            Some(i) => Some(i + 1),
            None => None,
        }
    }
}

/// `str::split_once`: the text before and after the first `c`.
pub open spec fn split_once_at(t: Seq<char>, c: char) -> Option<(Seq<char>, Seq<char>)> {
    match first_index(t, c) {
        Some(i) => Some((t.take(i), t.skip(i + 1))),
        None => None,
    }
}

proof fn lemma_first_index(t: Seq<char>, c: char, i: int)
    requires
        0 <= i <= t.len(),
        forall|k: int| 0 <= k < i ==> t[k] != c,
    ensures
        i < t.len() && t[i] == c ==> first_index(t, c) == Some(i),
        i == t.len() ==> first_index(t, c) is None,
    decreases i,
{
    if i > 0 {
        lemma_first_index(t.drop_first(), c, i - 1);
    }
}

fn index_of_char(t: &[char], c: char) -> (r: Option<usize>)
    ensures
        match r {
            Some(i) => first_index(t@, c) == Some(i as int) && i < t@.len(),
            None => first_index(t@, c) is None,
        },
{
    let mut i: usize = 0;
    while i < t.len()
        invariant
            i <= t@.len(),
            forall|k: int| 0 <= k < i ==> t@[k] != c,
        decreases t.len() - i,
    {
        if t[i] == c {
            proof {
                lemma_first_index(t@, c, i as int);
            }
            return Some(i);
        }
        i = i + 1;
    }
    proof {
        lemma_first_index(t@, c, i as int);
    }
    None
}

fn has_char(t: &[char], c: char) -> (r: bool)
    ensures
        r == t@.contains(c),
{
    let mut i: usize = 0;
    while i < t.len()
        invariant
            i <= t@.len(),
            forall|k: int| 0 <= k < i ==> t@[k] != c,
        decreases t.len() - i,
    {
        if t[i] == c {
            assert(t@[i as int] == c);
            return true;
        }
        i = i + 1;
    }
    false
}

/// The size that an `xrandr` mode word such as `1920x1080+0+0` gives: the text
/// before the first `+`, split at its first `x` into two numbers.
pub open spec fn xrandr_word_size(t: Seq<char>) -> Option<(i32, i32)> {
    match split_once_at(t, '+') {
        Some((geom, _)) => match split_once_at(geom, 'x') {
            Some((w, h)) => plausible_size(parsed_i32(w), parsed_i32(h)),
            None => None,
        },
        None => None,
    }
}

/// The first size among words `ws` (see `xrandr_word_size`).
pub open spec fn first_xrandr_word(ws: Seq<Seq<char>>) -> Option<(i32, i32)>
    decreases ws.len(),
{
    if ws.len() == 0 {
        None
    } else {
        match xrandr_word_size(ws[0]) {
            Some(sz) => Some(sz),
            None => first_xrandr_word(ws.drop_first()),
        }
    }
}

/// The screen size that `xrandr --current` prints: the first mode word of the
/// first ` connected` line that has one.
pub open spec fn first_xrandr_line(ls: Seq<Seq<char>>) -> Option<(i32, i32)>
    decreases ls.len(),
{
    if ls.len() == 0 {
        None
    } else {
        let here = if contains_seq(ls[0], " connected"@) {
            first_xrandr_word(split_ws(ls[0]))
        } else {
            None
        };
        match here {
            Some(sz) => Some(sz),
            None => first_xrandr_line(ls.drop_first()),
        }
    }
}

fn plausible(w: Option<i32>, h: Option<i32>) -> (r: Option<(i32, i32)>)
    ensures
        r == plausible_size(w, h),
{
    match (w, h) {
        (Some(w), Some(h)) => if w >= MIN_SCREEN_WIDTH && h >= MIN_SCREEN_HEIGHT {
            Some((w, h))
        } else {
            None
        },
        _ => None,
    }
}

fn kscreen_word(t: &[char]) -> (r: Option<(i32, i32)>)
    ensures
        r == kscreen_word_size(t@),
{
    if !has_char(t, 'x') || has_char(t, '@') || has_char(t, ',') {
        return None;
    }
    let parts = split_on_char(t, 'x');
    if parts.len() != 2 {
        return None;
    }
    let w = parse_i32(parts[0].as_slice());
    let h = parse_i32(parts[1].as_slice());
    plausible(w, h)
}

fn xrandr_word(t: &[char]) -> (r: Option<(i32, i32)>)
    ensures
        r == xrandr_word_size(t@),
{
    match index_of_char(t, '+') {
        Some(p) => {
            let geom = vec_from_range(t, 0, p);
            assert(geom@ =~= t@.take(p as int));
            match index_of_char(geom.as_slice(), 'x') {
                Some(q) => {
                    let w = vec_from_range(geom.as_slice(), 0, q);
                    let h = vec_from_range(geom.as_slice(), q + 1, geom.len());
                    assert(w@ =~= geom@.take(q as int));
                    assert(h@ =~= geom@.skip(q + 1));
                    plausible(parse_i32(w.as_slice()), parse_i32(h.as_slice()))
                },
                None => None,
            }
        },
        None => None,
    }
}

fn first_word_size(ws: &Vec<Vec<char>>, kscreen: bool) -> (r: Option<(i32, i32)>)
    ensures
        kscreen ==> r == first_kscreen_word(char_views(ws@)),
        !kscreen ==> r == first_xrandr_word(char_views(ws@)),
{
    let mut i: usize = 0;
    let ghost all = char_views(ws@);
    assert(all.skip(0) =~= all);
    while i < ws.len()
        invariant
            all == char_views(ws@),
            i <= ws@.len(),
            kscreen ==> first_kscreen_word(all) == first_kscreen_word(all.skip(i as int)),
            !kscreen ==> first_xrandr_word(all) == first_xrandr_word(all.skip(i as int)),
        decreases ws.len() - i,
    {
        assert(all.skip(i as int).drop_first() =~= all.skip(i + 1));
        assert(all.skip(i as int)[0] == ws@[i as int]@);
        let found = if kscreen {
            kscreen_word(ws[i].as_slice())
        } else {
            xrandr_word(ws[i].as_slice())
        };
        if found.is_some() {
            return found;
        }
        i = i + 1;
    }
    assert(all.skip(i as int) =~= Seq::<Seq<char>>::empty());
    None
}

/// The screen size reported by `kscreen-doctor -o` (see `first_kscreen_line`).
pub fn screen_size_from_kscreen(text: &str) -> (r: Option<(i32, i32)>)
    ensures
        r == first_kscreen_line(lines_of(text@)),
{
    let cs = chars_of(text);
    let lines = split_lines(cs.as_slice());
    let ghost all = char_views(lines@);
    let mut i: usize = 0;
    assert(all.skip(0) =~= all);
    while i < lines.len()
        invariant
            all == char_views(lines@),
            all == lines_of(text@),
            i <= lines@.len(),
            first_kscreen_line(all) == first_kscreen_line(all.skip(i as int)),
        decreases lines.len() - i,
    {
        assert(all.skip(i as int).drop_first() =~= all.skip(i + 1));
        assert(all.skip(i as int)[0] == lines@[i as int]@);
        let marker = chars_of("Geometry:");
        if contains_chars(lines[i].as_slice(), marker.as_slice()) {
            let line = string_from_chars(lines[i].as_slice());
            let clean = strip_ansi(line.as_str());
            let ccs = chars_of(clean.as_str());
            let words = split_whitespace_chars(ccs.as_slice());
            let found = first_word_size(&words, true);
            if found.is_some() {
                return found;
            }
        }
        i = i + 1;
    }
    assert(all.skip(i as int) =~= Seq::<Seq<char>>::empty());
    None
}

/// The screen size reported by `xrandr --current` (see `first_xrandr_line`).
pub fn screen_size_from_xrandr(text: &str) -> (r: Option<(i32, i32)>)
    ensures
        r == first_xrandr_line(lines_of(text@)),
{
    let cs = chars_of(text);
    let lines = split_lines(cs.as_slice());
    let ghost all = char_views(lines@);
    let mut i: usize = 0;
    assert(all.skip(0) =~= all);
    while i < lines.len()
        invariant
            all == char_views(lines@),
            all == lines_of(text@),
            i <= lines@.len(),
            first_xrandr_line(all) == first_xrandr_line(all.skip(i as int)),
        decreases lines.len() - i,
    {
        assert(all.skip(i as int).drop_first() =~= all.skip(i + 1));
        assert(all.skip(i as int)[0] == lines@[i as int]@);
        let marker = chars_of(" connected");
        if contains_chars(lines[i].as_slice(), marker.as_slice()) {
            let words = split_whitespace_chars(lines[i].as_slice());
            let found = first_word_size(&words, false);
            if found.is_some() {
                return found;
            }
        }
        i = i + 1;
    }
    assert(all.skip(i as int) =~= Seq::<Seq<char>>::empty());
    None
}


/// Name of the KWin window rule that keeps the HUD floating.
pub const HUD_RULE_NAME: &'static str = "openwhisper_hud";

/// The keys and values of the KWin rule for the HUD window: matched by window
/// class, kept above other windows, without border, taskbar or pager entry.
pub open spec fn hud_rule_entries() -> Seq<(Seq<char>, Seq<char>)> {
    seq![
        ("Description"@, "OpenWhisper Floating HUD"@),
        ("wmclass"@, "net.local.openwhisper.hud"@),
        ("wmclassmatch"@, "1"@),
        ("wmclasscomplete"@, "false"@),
        ("above"@, "true"@),
        ("aboverule"@, "2"@),
        ("noborder"@, "true"@),
        ("noborderrule"@, "2"@),
        ("skiptaskbar"@, "true"@),
        ("skiptaskbarrule"@, "2"@),
        ("skippager"@, "true"@),
        ("skippagerrule"@, "2"@),
    ]
}

fn entry(key: &str, val: &str) -> (r: (String, String))
    ensures
        r.0@ == key@,
        r.1@ == val@,
{
    (String::from_str(key), String::from_str(val))
}

/// The KWin rule entries for the HUD window (see `hud_rule_entries`).
pub fn kwin_hud_rules() -> (r: Vec<(String, String)>)
    ensures
        r@.len() == hud_rule_entries().len(),
        forall|i: int| 0 <= i < r@.len() ==> (#[trigger] r@[i].0@, r@[i].1@) == hud_rule_entries()[i],
{
    let mut r: Vec<(String, String)> = Vec::new();
    r.push(entry("Description", "OpenWhisper Floating HUD"));
    r.push(entry("wmclass", "net.local.openwhisper.hud"));
    r.push(entry("wmclassmatch", "1"));
    r.push(entry("wmclasscomplete", "false"));
    r.push(entry("above", "true"));
    r.push(entry("aboverule", "2"));
    r.push(entry("noborder", "true"));
    r.push(entry("noborderrule", "2"));
    r.push(entry("skiptaskbar", "true"));
    r.push(entry("skiptaskbarrule", "2"));
    r.push(entry("skippager", "true"));
    r.push(entry("skippagerrule", "2"));
    r
}

} // verus!
