//! Transcript post-processing: Whisper prompt construction, word extraction and
//! the output formatting modes.
use vstd::prelude::*;

use crate::text::{
    char_is_alphanumeric, char_views, opt_str_view, opt_string_view, push_joined, char_to_uppercase, chars_of, ends_with_char, is_alphanumeric_char,
    join_seq, lowercase_of, push_chars, push_str, str_to_lowercase, string_from_chars,
    trim_chars, trim_end_by, trim_seq, uppercase_of_char, vec_from_range, views,
    is_whitespace_char, lemma_trim_drops_trailing_whitespace, lemma_trimmed_has_no_edge_whitespace,
    lemma_trim_idempotent, no_edge_whitespace, all_ascii, ascii_lower, is_ascii_alnum, is_ascii_char,
    lemma_trim_keeps_unpadded, lemma_trim_start_suffix, lemma_trim_end_by_prefix, trim_start_seq, ascii_upper,
};

verus! {

/// How a transcript is shaped before it is typed or pasted.
#[derive(Debug, Clone, Copy, PartialEq, Eq, Structural)]
pub enum FormattingMode {
    Standard,
    SnakeCase,
    CamelCase,
    KebabCase,
    Raw,
}

impl Default for FormattingMode {
    fn default() -> (r: Self)
        ensures
            r == FormattingMode::Standard,
    {
        FormattingMode::Standard
    }
}

/// The vocabulary words trimmed, with empty ones left out.
pub open spec fn clean_vocabulary(v: Seq<Seq<char>>) -> Seq<Seq<char>>
    decreases v.len(),
{
    if v.len() == 0 {
        Seq::empty()
    } else {
        let rest = clean_vocabulary(v.drop_last());
        let t = trim_seq(v.last());
        if t.len() > 0 {
            rest.push(t)
        } else {
            rest
        }
    }
}

/// The custom prompt trimmed, if anything is left of it.
pub open spec fn clean_prompt(p: Option<Seq<char>>) -> Option<Seq<char>> {
    match p {
        Some(s) => if trim_seq(s).len() > 0 {
            Some(trim_seq(s))
        } else {
            None
        },
        None => None,
    }
}

/// The Whisper decoding prompt for the vocabulary and custom prompt.
pub open spec fn whisper_prompt(vocabulary: Seq<Seq<char>>, custom: Option<Seq<char>>) -> Option<Seq<char>> {
    let words = clean_vocabulary(vocabulary);
    match clean_prompt(custom) {
        Some(p) => if words.len() > 0 {
            Some(trim_end_by(p, |c: char| c == '.') + ". Technical vocabulary: "@ + join_seq(words, ", "@) + "."@)
        } else {
            Some(p)
        },
        None => if words.len() > 0 {
            Some("Technical vocabulary: "@ + join_seq(words, ", "@) + "."@)
        } else {
            None
        },
    }
}

/// Builds the contextual prompt to pass to Whisper's `/v1/audio/transcriptions`
/// endpoint, merging custom prompt instructions with vocabulary biasing words.
pub fn build_whisper_prompt(vocabulary: &[String], custom_prompt: Option<&str>) -> (r: Option<String>)
    ensures
        opt_string_view(r) == whisper_prompt(views(vocabulary@), opt_str_view(custom_prompt)),
{
    let ghost vs = views(vocabulary@);
    let mut clean: Vec<Vec<char>> = Vec::new();
    let mut i: usize = 0;
    while i < vocabulary.len()
        invariant
            i <= vocabulary@.len(),
            vs == views(vocabulary@),
            vs.len() == vocabulary@.len(),
            char_views(clean@) == clean_vocabulary(vs.take(i as int)),
        decreases vocabulary.len() - i,
    {
        let cs = chars_of(vocabulary[i].as_str());
        let t = trim_chars(cs.as_slice());
        assert(vs.take(i + 1).drop_last() =~= vs.take(i as int));
        assert(vs[i as int] == vocabulary@[i as int]@);
        if t.len() > 0 {
            let ghost old_clean = clean@;
            clean.push(t);
            assert(char_views(clean@) =~= char_views(old_clean).push(t@));
        }
        i = i + 1;
    }
    assert(vs.take(vocabulary@.len() as int) =~= vs);
    let prompt: Option<Vec<char>> = match custom_prompt {
        Some(p) => {
            let cs = chars_of(p);
            let t = trim_chars(cs.as_slice());
            if t.len() > 0 {
                Some(t)
            } else {
                None
            }
        },
        None => None,
    };
    match prompt {
        Some(p) => {
            if clean.len() > 0 {
                let mut j = p.len();
                assert(p@.take(j as int) =~= p@);
                while j > 0 && p[j - 1] == '.'
                    invariant
                        j <= p@.len(),
                        trim_end_by(p@, |c: char| c == '.') == trim_end_by(
                            p@.take(j as int),
                            |c: char| c == '.',
                        ),
                    decreases j,
                {
                    assert(p@.take(j as int).drop_last() =~= p@.take(j - 1));
                    j = j - 1;
                }
                let mut out = vec_from_range(p.as_slice(), 0, j);
                assert(out@ =~= p@.take(j as int));
                push_str(&mut out, ". Technical vocabulary: ");
                push_joined(&mut out, &clean, ", ");
                push_str(&mut out, ".");
                Some(string_from_chars(out.as_slice()))
            } else {
                Some(string_from_chars(p.as_slice()))
            }
        },
        None => {
            if clean.len() > 0 {
                let mut out: Vec<char> = Vec::new();
                push_str(&mut out, "Technical vocabulary: ");
                push_joined(&mut out, &clean, ", ");
                push_str(&mut out, ".");
                assert(out@ =~= "Technical vocabulary: "@ + join_seq(char_views(clean@), ", "@) + "."@);
                Some(string_from_chars(out.as_slice()))
            } else {
                None
            }
        },
    }
}

/// Word splitting state after reading `s`: the finished words and the word in progress.
pub open spec fn word_scan(s: Seq<char>) -> (Seq<Seq<char>>, Seq<char>)
    decreases s.len(),
{
    if s.len() == 0 {
        (Seq::empty(), Seq::empty())
    } else {
        let (words, cur) = word_scan(s.drop_last());
        let c = s.last();
        if is_alphanumeric_char(c) {
            (words, cur.push(c))
        } else if cur.len() > 0 {
            (words.push(cur), Seq::empty())
        } else {
            (words, cur)
        }
    }
}

/// The maximal runs of alphanumeric characters of `s`, in order.
pub open spec fn words_of(s: Seq<char>) -> Seq<Seq<char>> {
    let (words, cur) = word_scan(s);
    if cur.len() > 0 {
        words.push(cur)
    } else {
        words
    }
}

/// Each word lowercased.
pub open spec fn lowered(words: Seq<Seq<char>>) -> Seq<Seq<char>> {
    words.map_values(|w: Seq<char>| lowercase_of(w))
}

/// A word with its first character uppercased.
pub open spec fn capitalized(w: Seq<char>) -> Seq<char> {
    if w.len() == 0 {
        Seq::empty()
    } else {
        uppercase_of_char(w[0]) + w.drop_first()
    }
}

/// camelCase identifier of the words: the first lowercased, the others lowercased
/// and capitalized.
pub open spec fn camel_join(words: Seq<Seq<char>>) -> Seq<char>
    decreases words.len(),
{
    if words.len() == 0 {
        Seq::empty()
    } else if words.len() == 1 {
        lowercase_of(words[0])
    } else {
        camel_join(words.drop_last()) + capitalized(lowercase_of(words.last()))
    }
}

/// A trailing space appended unless asked not to or the text already ends in a
/// space or newline.
pub open spec fn with_trailing_space(r: Seq<char>, trailing_space: bool) -> Seq<char> {
    if trailing_space && !ends_with_char(r, ' ') && !ends_with_char(r, '\n') {
        r.push(' ')
    } else {
        r
    }
}

/// Punctuation that raw mode strips from the end of a transcript.
pub open spec fn is_raw_trailing_punct(c: char) -> bool {
    c == '.' || c == '!' || c == '?' || c == ','
}

/// Trailing raw-mode punctuation removed (`str::trim_end_matches(['.', '!', '?', ','])`).
pub open spec fn trim_raw_punct(s: Seq<char>) -> Seq<char>
    decreases s.len(),
{
    if s.len() > 0 && is_raw_trailing_punct(s.last()) {
        trim_raw_punct(s.drop_last())
    } else {
        s
    }
}

/// The formatted transcript for `text` in `mode`.
pub open spec fn formatted(text: Seq<char>, mode: FormattingMode, trailing_space: bool) -> Seq<char> {
    let t = trim_seq(text);
    if t.len() == 0 {
        Seq::empty()
    } else {
        match mode {
            FormattingMode::Standard => with_trailing_space(t, trailing_space),
            FormattingMode::Raw => with_trailing_space(
                trim_seq(trim_raw_punct(t)),
                trailing_space,
            ),
            FormattingMode::SnakeCase => join_seq(lowered(words_of(t)), seq!['_']),
            FormattingMode::CamelCase => camel_join(words_of(t)),
            FormattingMode::KebabCase => join_seq(lowered(words_of(t)), seq!['-']),
        }
    }
}

/// The alphanumeric characters of `s`, in order.
pub open spec fn alphanumeric_chars(s: Seq<char>) -> Seq<char> {
    s.filter(|c: char| is_alphanumeric_char(c))
}

/// Whether every character of `w` is alphanumeric.
pub open spec fn all_alphanumeric(w: Seq<char>) -> bool {
    forall|j: int| 0 <= j < w.len() ==> is_alphanumeric_char(#[trigger] w[j])
}

proof fn lemma_word_scan_parts(s: Seq<char>)
    ensures
        forall|i: int| 0 <= i < word_scan(s).0.len() ==> (#[trigger] word_scan(s).0[i]).len() > 0
            && all_alphanumeric(word_scan(s).0[i]),
        all_alphanumeric(word_scan(s).1),
        word_scan(s).0.flatten() + word_scan(s).1 == alphanumeric_chars(s),
    decreases s.len(),
{
    reveal(Seq::filter);
    if s.len() > 0 {
        lemma_word_scan_parts(s.drop_last());
        let (words, cur) = word_scan(s.drop_last());
        let c = s.last();
        assert(alphanumeric_chars(s) == if is_alphanumeric_char(c) {
            alphanumeric_chars(s.drop_last()).push(c)
        } else {
            alphanumeric_chars(s.drop_last())
        });
        if is_alphanumeric_char(c) {
            assert(words.flatten() + cur.push(c) =~= (words.flatten() + cur).push(c));
            assert(all_alphanumeric(cur.push(c)));
        } else if cur.len() > 0 {
            words.lemma_flatten_push(cur);
            assert(words.push(cur).flatten() + Seq::<char>::empty() =~= words.flatten() + cur);
        } else {
            assert(cur =~= Seq::<char>::empty());
        }
    } else {
        assert(Seq::<Seq<char>>::empty().flatten() + Seq::<char>::empty() =~= Seq::<char>::empty());
    }
}

/// The words of a text are non-empty runs of alphanumeric characters, and
/// together they are exactly its alphanumeric characters, in order.
pub proof fn lemma_words_are_alphanumeric_runs(s: Seq<char>)
    ensures
        forall|i: int| 0 <= i < words_of(s).len() ==> (#[trigger] words_of(s)[i]).len() > 0
            && all_alphanumeric(words_of(s)[i]),
        words_of(s).flatten() == alphanumeric_chars(s),
{
    lemma_word_scan_parts(s);
    let (words, cur) = word_scan(s);
    if cur.len() > 0 {
        words.lemma_flatten_push(cur);
        assert forall|i: int| 0 <= i < words_of(s).len() implies (#[trigger] words_of(s)[i]).len() > 0
            && all_alphanumeric(words_of(s)[i]) by {
            if i < words.len() {
                assert(words_of(s)[i] == words[i]);
            }
        }
    } else {
        assert(words.flatten() + cur =~= words.flatten());
    }
}

proof fn lemma_scan_after_separator(a: Seq<char>, c: char, b: Seq<char>)
    requires
        !is_alphanumeric_char(c),
    ensures
        word_scan(a.push(c) + b) == (words_of(a) + word_scan(b).0, word_scan(b).1),
    decreases b.len(),
{
    if b.len() == 0 {
        lemma_scan_separator(a, c);
        assert(a.push(c) + b =~= a.push(c));
        assert(words_of(a) + Seq::<Seq<char>>::empty() =~= words_of(a));
    } else {
        let bl = b.drop_last();
        lemma_scan_after_separator(a, c, bl);
        assert((a.push(c) + b).drop_last() =~= a.push(c) + bl);
        assert((a.push(c) + b).last() == b.last());
        let (w, cur) = word_scan(bl);
        assert((words_of(a) + w).push(cur) =~= words_of(a) + w.push(cur));
    }
}

/// A character that is not alphanumeric always ends a word: the words of a
/// text split at such a character are the words before it followed by the
/// words after it, so the words are the maximal alphanumeric runs.
pub proof fn lemma_words_split_at_separator(a: Seq<char>, c: char, b: Seq<char>)
    requires
        !is_alphanumeric_char(c),
    ensures
        words_of(a.push(c) + b) == words_of(a) + words_of(b),
{
    lemma_scan_after_separator(a, c, b);
    let (w, cur) = word_scan(b);
    if cur.len() > 0 {
        assert((words_of(a) + w).push(cur) =~= words_of(a) + w.push(cur));
    }
}

/// The trailing space: one space when asked for, nothing otherwise.
pub open spec fn space_if(trailing_space: bool) -> Seq<char> {
    if trailing_space {
        seq![' ']
    } else {
        Seq::empty()
    }
}

/// Standard and raw modes add exactly one space when asked to (the trimmed
/// text never ends in whitespace), and nothing otherwise; the identifier modes
/// ignore the trailing-space setting.
pub proof fn lemma_trailing_space_is_one_space(text: Seq<char>, trailing_space: bool)
    requires
        trim_seq(text).len() > 0,
    ensures
        formatted(text, FormattingMode::Standard, trailing_space) == trim_seq(text) + space_if(trailing_space),
        formatted(text, FormattingMode::Raw, trailing_space) == trim_seq(trim_raw_punct(trim_seq(text)))
            + space_if(trailing_space),
        formatted(text, FormattingMode::SnakeCase, true) == formatted(text, FormattingMode::SnakeCase, false),
        formatted(text, FormattingMode::KebabCase, true) == formatted(text, FormattingMode::KebabCase, false),
        formatted(text, FormattingMode::CamelCase, true) == formatted(text, FormattingMode::CamelCase, false),
{
    let t = trim_seq(text);
    lemma_trimmed_has_no_edge_whitespace(text);
    assert(is_whitespace_char(' ') && is_whitespace_char('\n'));
    assert(with_trailing_space(t, trailing_space) =~= t + space_if(trailing_space));
    let r = trim_seq(trim_raw_punct(t));
    lemma_trimmed_has_no_edge_whitespace(trim_raw_punct(t));
    assert(with_trailing_space(r, trailing_space) =~= r + space_if(trailing_space));
}

/// Formatting in standard mode twice gives what formatting once gives.
pub proof fn lemma_standard_idempotent(text: Seq<char>, trailing_space: bool)
    ensures
        formatted(formatted(text, FormattingMode::Standard, trailing_space), FormattingMode::Standard, trailing_space)
            == formatted(text, FormattingMode::Standard, trailing_space),
{
    let t = trim_seq(text);
    if t.len() > 0 {
        lemma_trailing_space_is_one_space(text, trailing_space);
        lemma_trimmed_has_no_edge_whitespace(text);
        let once = formatted(text, FormattingMode::Standard, trailing_space);
        if trailing_space {
            assert(once == t.push(' '));
            lemma_trim_drops_trailing_whitespace(t, ' ');
        } else {
            assert(once =~= t);
            lemma_trim_idempotent(text);
        }
        assert(trim_seq(once) == t);
        lemma_trailing_space_is_one_space(once, trailing_space);
    }
}

proof fn lemma_scan_alnum_suffix(a: Seq<char>, b: Seq<char>)
    requires
        all_alphanumeric(b),
    ensures
        word_scan(a + b) == (word_scan(a).0, word_scan(a).1 + b),
    decreases b.len(),
{
    if b.len() == 0 {
        assert(a + b =~= a);
        assert(word_scan(a).1 + b =~= word_scan(a).1);
    } else {
        let bl = b.drop_last();
        assert(all_alphanumeric(bl)) by {
            assert forall|j: int| 0 <= j < bl.len() implies is_alphanumeric_char(#[trigger] bl[j]) by {
                assert(bl[j] == b[j]);
            }
        }
        lemma_scan_alnum_suffix(a, bl);
        assert((a + b).drop_last() =~= a + bl);
        assert((a + b).last() == b.last());
        assert(is_alphanumeric_char(b[b.len() - 1]));
        assert((word_scan(a).1 + bl).push(b.last()) =~= word_scan(a).1 + b);
    }
}

proof fn lemma_scan_separator(a: Seq<char>, c: char)
    requires
        !is_alphanumeric_char(c),
    ensures
        word_scan(a.push(c)) == (words_of(a), Seq::<char>::empty()),
{
    assert(a.push(c).drop_last() =~= a);
    let cur = word_scan(a).1;
    if cur.len() == 0 {
        assert(cur =~= Seq::<char>::empty());
    }
}

/// Splitting the words joined by a non-alphanumeric separator gives the words
/// back, when each is a non-empty run of alphanumeric characters.
proof fn lemma_words_of_join(ws: Seq<Seq<char>>, sep: char)
    requires
        forall|i: int| 0 <= i < ws.len() ==> (#[trigger] ws[i]).len() > 0 && all_alphanumeric(ws[i]),
        !is_alphanumeric_char(sep),
    ensures
        words_of(join_seq(ws, seq![sep])) == ws,
    decreases ws.len(),
{
    if ws.len() == 0 {
        assert(words_of(Seq::<char>::empty()) =~= ws);
    } else if ws.len() == 1 {
        assert(ws[0].len() > 0 && all_alphanumeric(ws[0]));
        lemma_scan_alnum_suffix(Seq::empty(), ws[0]);
        assert(Seq::<char>::empty() + ws[0] =~= ws[0]);
        assert(Seq::<char>::empty() + ws[0] =~= ws[0]);
        assert(words_of(ws[0]) =~= Seq::<Seq<char>>::empty().push(ws[0]));
        assert(ws =~= seq![ws[0]]);
    } else {
        let init = ws.drop_last();
        assert forall|i: int| 0 <= i < init.len() implies (#[trigger] init[i]).len() > 0 && all_alphanumeric(init[i]) by {
            assert(init[i] == ws[i]);
        }
        lemma_words_of_join(init, sep);
        let j = join_seq(init, seq![sep]);
        lemma_scan_separator(j, sep);
        assert(j + seq![sep] =~= j.push(sep));
        let last = ws[ws.len() - 1];
        assert(last.len() > 0 && all_alphanumeric(last));
        lemma_scan_alnum_suffix(j.push(sep), last);
        assert(j.push(sep) + Seq::<char>::empty() + last =~= join_seq(ws, seq![sep]));
        assert(Seq::<char>::empty() + last =~= last);
        assert(j.push(sep) + last =~= join_seq(ws, seq![sep]));
        assert(words_of(join_seq(ws, seq![sep])) =~= init.push(last));
        assert(init.push(last) =~= ws);
    }
}

proof fn lemma_word_scan_ascii(s: Seq<char>)
    requires
        all_ascii(s),
    ensures
        forall|i: int| 0 <= i < word_scan(s).0.len() ==> all_ascii(#[trigger] word_scan(s).0[i]),
        all_ascii(word_scan(s).1),
    decreases s.len(),
{
    if s.len() > 0 {
        let init = s.drop_last();
        assert(all_ascii(init)) by {
            assert forall|i: int| 0 <= i < init.len() implies is_ascii_char(#[trigger] init[i]) by {
                assert(init[i] == s[i]);
            }
        }
        lemma_word_scan_ascii(init);
        let (words, cur) = word_scan(init);
        assert(is_ascii_char(s[s.len() - 1]));
        let c = s.last();
        if is_alphanumeric_char(c) {
            assert(all_ascii(cur.push(c))) by {
                assert forall|i: int| 0 <= i < cur.push(c).len() implies is_ascii_char(#[trigger] cur.push(c)[i]) by {
                    if i < cur.len() {
                        assert(cur.push(c)[i] == cur[i]);
                    }
                }
            }
        } else if cur.len() > 0 {
            assert forall|i: int| 0 <= i < words.push(cur).len() implies all_ascii(#[trigger] words.push(cur)[i]) by {
                if i < words.len() {
                    assert(words.push(cur)[i] == words[i]);
                }
            }
            assert(all_ascii(Seq::<char>::empty()));
        }
    }
}

proof fn lemma_ascii_lower_char(c: char)
    requires
        is_ascii_char(c),
    ensures
        is_ascii_char(ascii_lower(c)),
        is_ascii_alnum(ascii_lower(c)) == is_ascii_alnum(c),
        ascii_lower(ascii_lower(c)) == ascii_lower(c),
{
}

/// What lowercasing does to an ASCII word of letters and digits: it stays a
/// non-empty ASCII word of letters and digits, and lowercasing it again changes
/// nothing.
proof fn lemma_lower_ascii_word(w: Seq<char>)
    requires
        w.len() > 0,
        all_alphanumeric(w),
        all_ascii(w),
    ensures
        lowercase_of(w).len() > 0,
        all_alphanumeric(lowercase_of(w)),
        all_ascii(lowercase_of(w)),
        lowercase_of(lowercase_of(w)) == lowercase_of(w),
{
    let l = lowercase_of(w);
    assert(l == w.map_values(|c: char| ascii_lower(c)));
    assert forall|j: int| 0 <= j < l.len() implies is_ascii_char(#[trigger] l[j]) && is_alphanumeric_char(l[j])
        && ascii_lower(l[j]) == l[j] by {
        assert(is_ascii_char(w[j]) && is_alphanumeric_char(w[j]));
        lemma_ascii_lower_char(w[j]);
    }
    assert(all_ascii(l));
    assert(lowercase_of(l) =~= l);
}

proof fn lemma_trim_ascii(s: Seq<char>)
    requires
        all_ascii(s),
    ensures
        all_ascii(trim_seq(s)),
{
    let a = trim_start_seq(s);
    lemma_trim_start_suffix(s);
    lemma_trim_end_by_prefix(a, |c: char| is_whitespace_char(c));
    let t = trim_seq(s);
    assert forall|i: int| 0 <= i < t.len() implies is_ascii_char(#[trigger] t[i]) by {
        assert(t[i] == a[i]);
        assert(a[i] == s[s.len() - a.len() + i]);
    }
}

/// On ASCII text, formatting in snake or kebab case a second time changes
/// nothing.
pub proof fn lemma_identifier_modes_idempotent(text: Seq<char>, mode: FormattingMode, trailing_space: bool)
    requires
        all_ascii(text),
        mode == FormattingMode::SnakeCase || mode == FormattingMode::KebabCase,
    ensures
        formatted(formatted(text, mode, trailing_space), mode, trailing_space) == formatted(text, mode, trailing_space),
{
    let sep = if mode == FormattingMode::SnakeCase { '_' } else { '-' };
    let t = trim_seq(text);
    if t.len() == 0 {
        assert(trim_seq(Seq::<char>::empty()) =~= Seq::<char>::empty());
    } else {
        lemma_trim_ascii(text);
        let ws = words_of(t);
        lemma_words_are_alphanumeric_runs(t);
        lemma_word_scan_ascii(t);
        assert forall|i: int| 0 <= i < ws.len() implies all_ascii(#[trigger] ws[i]) by {
            let (words, cur) = word_scan(t);
            if i < words.len() {
                assert(all_ascii(words[i]));
            }
        }
        let lw = lowered(ws);
        assert forall|i: int| 0 <= i < lw.len() implies (#[trigger] lw[i]).len() > 0 && all_alphanumeric(lw[i])
            && all_ascii(lw[i]) && lowercase_of(lw[i]) == lw[i] by {
            assert(ws[i].len() > 0 && all_alphanumeric(ws[i]) && all_ascii(ws[i]));
            lemma_lower_ascii_word(ws[i]);
        }
        let once = join_seq(lw, seq![sep]);
        assert(formatted(text, mode, trailing_space) == once);
        assert(!is_alphanumeric_char(sep));
        lemma_words_of_join(lw, sep);
        if lw.len() > 0 {
            lemma_join_edges(lw, sep);
            lemma_trim_keeps_unpadded(once);
            assert(trim_seq(once) == once);
            assert(lowered(lw) =~= lw);
        } else {
            assert(once =~= Seq::<char>::empty());
            assert(trim_seq(Seq::<char>::empty()) =~= Seq::<char>::empty());
        }
    }
}

/// A non-empty join of ASCII alphanumeric words starts and ends with an
/// alphanumeric character, so it has no whitespace at either end.
proof fn lemma_join_edges(ws: Seq<Seq<char>>, sep: char)
    requires
        ws.len() > 0,
        forall|i: int| 0 <= i < ws.len() ==> (#[trigger] ws[i]).len() > 0 && all_alphanumeric(ws[i]) && all_ascii(ws[i]),
    ensures
        no_edge_whitespace(join_seq(ws, seq![sep])),
        join_seq(ws, seq![sep]).len() > 0,
        join_seq(ws, seq![sep])[0] == ws[0][0],
        join_seq(ws, seq![sep]).last() == ws.last().last(),
    decreases ws.len(),
{
    let j = join_seq(ws, seq![sep]);
    if ws.len() > 1 {
        let init = ws.drop_last();
        assert forall|i: int| 0 <= i < init.len() implies (#[trigger] init[i]).len() > 0 && all_alphanumeric(init[i])
            && all_ascii(init[i]) by {
            assert(init[i] == ws[i]);
        }
        lemma_join_edges(init, sep);
        assert(init[0] == ws[0]);
    }
    let f = ws[0][0];
    let l = ws.last().last();
    assert(ws[0].len() > 0 && all_alphanumeric(ws[0]) && all_ascii(ws[0]));
    assert(is_alphanumeric_char(ws[0][0]) && is_ascii_char(ws[0][0]));
    let lw = ws[ws.len() - 1];
    assert(lw.len() > 0 && all_alphanumeric(lw) && all_ascii(lw));
    assert(is_alphanumeric_char(lw[lw.len() - 1]) && is_ascii_char(lw[lw.len() - 1]));
    assert(!is_whitespace_char(f) && !is_whitespace_char(l));
}

/// The camelCase text of the first `i` words is the start of the camelCase
/// text of all of them.
proof fn lemma_camel_prefix(ws: Seq<Seq<char>>, i: int)
    requires
        0 < i <= ws.len(),
    ensures
        camel_join(ws.take(i)).len() <= camel_join(ws).len(),
        camel_join(ws).take(camel_join(ws.take(i)).len() as int) == camel_join(ws.take(i)),
    decreases ws.len(),
{
    if i == ws.len() {
        assert(ws.take(i) =~= ws);
        assert(camel_join(ws).take(camel_join(ws).len() as int) =~= camel_join(ws));
    } else {
        let init = ws.drop_last();
        lemma_camel_prefix(init, i);
        assert(init.take(i) =~= ws.take(i));
        let p = camel_join(ws.take(i));
        assert(camel_join(ws).take(p.len() as int) =~= camel_join(init).take(p.len() as int));
    }
}

proof fn lemma_ascii_concat(a: Seq<char>, b: Seq<char>)
    requires
        all_ascii(a),
        all_ascii(b),
    ensures
        all_ascii(a + b),
        lowercase_of(a + b) == lowercase_of(a) + lowercase_of(b),
{
    assert forall|i: int| 0 <= i < (a + b).len() implies is_ascii_char(#[trigger] (a + b)[i]) by {
        if i < a.len() {
            assert((a + b)[i] == a[i]);
        } else {
            assert((a + b)[i] == b[i - a.len()]);
        }
    }
    assert(lowercase_of(a + b) =~= lowercase_of(a) + lowercase_of(b));
}

proof fn lemma_lower_ascii(w: Seq<char>)
    requires
        all_ascii(w),
    ensures
        lowercase_of(w).len() == w.len(),
        all_ascii(lowercase_of(w)),
        lowercase_of(lowercase_of(w)) == lowercase_of(w),
        forall|j: int| 0 <= j < w.len() ==> #[trigger] lowercase_of(w)[j] == ascii_lower(w[j]),
{
    let l = lowercase_of(w);
    assert forall|j: int| 0 <= j < l.len() implies is_ascii_char(#[trigger] l[j]) && ascii_lower(l[j]) == l[j] by {
        assert(is_ascii_char(w[j]));
    }
    assert(lowercase_of(l) =~= l);
}

/// A word lowercased and then capitalized: its first letter in upper case and
/// the rest in lower case, as long as the word; lowercasing it again gives the
/// lowercased word.
proof fn lemma_capitalized_ascii(w: Seq<char>)
    requires
        all_ascii(w),
    ensures
        capitalized(lowercase_of(w)).len() == w.len(),
        all_ascii(capitalized(lowercase_of(w))),
        lowercase_of(capitalized(lowercase_of(w))) == lowercase_of(w),
        w.len() > 0 ==> capitalized(lowercase_of(w)) == seq![ascii_upper(ascii_lower(w[0]))] + lowercase_of(
            w.drop_first(),
        ),
{
    lemma_lower_ascii(w);
    let l = lowercase_of(w);
    if w.len() > 0 {
        assert(is_ascii_char(w[0]));
        let c = capitalized(l);
        assert(uppercase_of_char(l[0]) == seq![ascii_upper(l[0])]);
        let rest = w.drop_first();
        assert(all_ascii(rest)) by {
            assert forall|j: int| 0 <= j < rest.len() implies is_ascii_char(#[trigger] rest[j]) by {
                assert(rest[j] == w[j + 1]);
            }
        }
        assert(l.drop_first() =~= lowercase_of(rest));
        assert(c =~= seq![ascii_upper(ascii_lower(w[0]))] + lowercase_of(rest));
        assert forall|j: int| 0 <= j < c.len() implies is_ascii_char(#[trigger] c[j]) by {
            if j > 0 {
                assert(c[j] == l[j]);
            }
        }
        assert(lowercase_of(c) =~= l) by {
            assert forall|j: int| 0 <= j < c.len() implies #[trigger] lowercase_of(c)[j] == l[j] by {
                if j > 0 {
                    assert(c[j] == l[j]);
                }
            }
        }
    } else {
        assert(capitalized(l) =~= l);
    }
}

proof fn lemma_flatten_single(x: Seq<char>)
    ensures
        seq![x].flatten() == x,
{
    assert(seq![x].drop_first() =~= Seq::<Seq<char>>::empty());
    assert(Seq::<Seq<char>>::empty().flatten() =~= Seq::<char>::empty());
    assert(seq![x].flatten() =~= x + Seq::<char>::empty());
}

/// Whether every word is an ASCII string.
pub open spec fn all_ascii_words(ws: Seq<Seq<char>>) -> bool {
    forall|i: int| 0 <= i < ws.len() ==> all_ascii(#[trigger] ws[i])
}

proof fn lemma_camel_lowers_to_words(ws: Seq<Seq<char>>)
    requires
        all_ascii_words(ws),
    ensures
        all_ascii(camel_join(ws)),
        lowercase_of(camel_join(ws)) == lowered(ws).flatten(),
        camel_join(ws).len() == ws.flatten().len(),
    decreases ws.len(),
{
    if ws.len() == 0 {
        assert(lowered(ws) =~= Seq::<Seq<char>>::empty());
        assert(lowercase_of(Seq::<char>::empty()) =~= Seq::<char>::empty());
    } else if ws.len() == 1 {
        assert(all_ascii(ws[0]));
        lemma_lower_ascii(ws[0]);
        assert(lowered(ws) =~= seq![lowercase_of(ws[0])]);
        lemma_flatten_single(lowercase_of(ws[0]));
        assert(ws =~= seq![ws[0]]);
        lemma_flatten_single(ws[0]);
    } else {
        let init = ws.drop_last();
        let w = ws.last();
        assert(all_ascii_words(init)) by {
            assert forall|i: int| 0 <= i < init.len() implies all_ascii(#[trigger] init[i]) by {
                assert(init[i] == ws[i]);
            }
        }
        assert(all_ascii(ws[ws.len() - 1]));
        lemma_camel_lowers_to_words(init);
        lemma_capitalized_ascii(w);
        lemma_ascii_concat(camel_join(init), capitalized(lowercase_of(w)));
        assert(lowered(ws) =~= lowered(init).push(lowercase_of(w)));
        lowered(init).lemma_flatten_push(lowercase_of(w));
        assert(ws =~= init.push(w));
        init.lemma_flatten_push(w);
    }
}

/// camelCase joins the words with the first one entirely in lower case and
/// every later one capitalized: the text starts with the first word
/// lowercased; each later word sits, in order, with its first letter in upper
/// case and its other letters in lower case; and lowercasing the whole text
/// gives the lowercased words run together.
pub proof fn lemma_camel_case_shape(ws: Seq<Seq<char>>)
    requires
        all_ascii_words(ws),
    ensures
        ws.len() > 0 ==> camel_join(ws).take(lowercase_of(ws[0]).len() as int) == lowercase_of(ws[0]),
        forall|i: int|
            0 < i < ws.len() && ws[i].len() > 0 ==> {
                let start = (#[trigger] ws.take(i)).flatten().len() as int;
                camel_join(ws).subrange(start, start + ws[i].len()) == seq![ascii_upper(ascii_lower(ws[i][0]))]
                    + lowercase_of(ws[i].drop_first())
            },
        lowercase_of(camel_join(ws)) == lowered(ws).flatten(),
        camel_join(ws).len() == ws.flatten().len(),
{
    lemma_camel_lowers_to_words(ws);
    if ws.len() > 0 {
        lemma_camel_prefix(ws, 1);
        assert(ws.take(1) =~= seq![ws[0]]);
    }
    assert forall|i: int| 0 < i < ws.len() && ws[i].len() > 0 implies {
        let start = (#[trigger] ws.take(i)).flatten().len() as int;
        camel_join(ws).subrange(start, start + ws[i].len()) == seq![ascii_upper(ascii_lower(ws[i][0]))]
            + lowercase_of(ws[i].drop_first())
    } by {
        let pre = ws.take(i);
        let upto = ws.take(i + 1);
        assert(all_ascii_words(pre)) by {
            assert forall|k: int| 0 <= k < pre.len() implies all_ascii(#[trigger] pre[k]) by {
                assert(pre[k] == ws[k]);
            }
        }
        lemma_camel_lowers_to_words(pre);
        assert(upto.drop_last() =~= pre);
        assert(upto.last() == ws[i]);
        assert(all_ascii(ws[i]));
        lemma_capitalized_ascii(ws[i]);
        let cap = capitalized(lowercase_of(ws[i]));
        assert(camel_join(upto) == camel_join(pre) + cap);
        lemma_camel_prefix(ws, i + 1);
        let start = pre.flatten().len() as int;
        let cj = camel_join(ws);
        let t = cj.take(camel_join(upto).len() as int);
        assert(t == camel_join(pre) + cap);
        assert(camel_join(pre).len() == start);
        assert forall|k: int| 0 <= k < cap.len() implies #[trigger] cj.subrange(start, start + ws[i].len())[k]
            == cap[k] by {
            assert(cj.subrange(start, start + ws[i].len())[k] == cj[start + k]);
            assert(t[start + k] == cj[start + k]);
            assert((camel_join(pre) + cap)[start + k] == cap[k]);
        }
        assert(cj.subrange(start, start + ws[i].len()) =~= cap);
    }
}

/// The alphanumeric words of `text`, in order.
fn extract_words_chars(text: &[char]) -> (words: Vec<String>)
    ensures
        views(words@) == words_of(text@),
{
    let mut words: Vec<String> = Vec::new();
    let mut current: Vec<char> = Vec::new();
    let n = text.len();
    let mut i: usize = 0;
    while i < n
        invariant
            i <= n == text@.len(),
            word_scan(text@.take(i as int)) == (views(words@), current@),
        decreases n - i,
    {
        let c = text[i];
        assert(text@.take(i + 1).drop_last() =~= text@.take(i as int));
        if char_is_alphanumeric(c) {
            current.push(c);
        } else if current.len() > 0 {
            let w = string_from_chars(current.as_slice());
            let ghost old_words = words@;
            words.push(w);
            assert(views(words@) =~= views(old_words).push(w@));
            current = Vec::new();
        }
        i = i + 1;
    }
    assert(text@.take(n as int) =~= text@);
    if current.len() > 0 {
        let w = string_from_chars(current.as_slice());
        let ghost old_words = words@;
        words.push(w);
        assert(views(words@) =~= views(old_words).push(w@));
    }
    words
}

/// Extracts alphanumeric words from a transcript, stripping punctuation.
pub fn extract_words(text: &str) -> (words: Vec<String>)
    ensures
        views(words@) == words_of(text@),
{
    let cs = chars_of(text);
    extract_words_chars(cs.as_slice())
}

/// Appends the words, lowercased and separated by `sep`, to `out`.
fn push_lowered_joined(out: &mut Vec<char>, words: &Vec<String>, sep: char)
    ensures
        final(out)@ == old(out)@ + join_seq(lowered(views(words@)), seq![sep]),
{
    let ghost ws = lowered(views(words@));
    let ghost start = out@;
    let mut i: usize = 0;
    while i < words.len()
        invariant
            i <= words@.len(),
            ws == lowered(views(words@)),
            ws.len() == words@.len(),
            out@ == start + join_seq(ws.take(i as int), seq![sep]),
        decreases words.len() - i,
    {
        let lower = str_to_lowercase(words[i].as_str());
        let lc = chars_of(lower.as_str());
        assert(lc@ == ws[i as int]);
        assert(ws.take(i + 1).drop_last() =~= ws.take(i as int));
        if i > 0 {
            out.push(sep);
        }
        push_chars(out, lc.as_slice());
        assert(out@ =~= start + join_seq(ws.take(i + 1), seq![sep]));
        i = i + 1;
    }
    assert(ws.take(words@.len() as int) =~= ws);
}

/// Appends the camelCase identifier of the words to `out`.
fn push_camel(out: &mut Vec<char>, words: &Vec<String>)
    ensures
        final(out)@ == old(out)@ + camel_join(views(words@)),
{
    let ghost ws = views(words@);
    let ghost start = out@;
    let mut i: usize = 0;
    while i < words.len()
        invariant
            i <= words@.len(),
            ws == views(words@),
            ws.len() == words@.len(),
            out@ == start + camel_join(ws.take(i as int)),
        decreases words.len() - i,
    {
        let lower = str_to_lowercase(words[i].as_str());
        let lc = chars_of(lower.as_str());
        assert(lc@ == lowercase_of(ws[i as int]));
        assert(ws.take(i + 1).drop_last() =~= ws.take(i as int));
        if i == 0 {
            push_chars(out, lc.as_slice());
        } else if lc.len() > 0 {
            let up = char_to_uppercase(lc[0]);
            push_str(out, up.as_str());
            let rest = vec_from_range(lc.as_slice(), 1, lc.len());
            assert(rest@ =~= lc@.drop_first());
            push_chars(out, rest.as_slice());
        }
        assert(out@ =~= start + camel_join(ws.take(i + 1)));
        i = i + 1;
    }
    assert(ws.take(words@.len() as int) =~= ws);
}

/// Appends a trailing space to `r` unless it is not wanted or `r` already ends in
/// a space or newline.
fn add_trailing_space(r: &mut Vec<char>, trailing_space: bool)
    ensures
        final(r)@ == with_trailing_space(old(r)@, trailing_space),
{
    let n = r.len();
    let ends_ws = n > 0 && (r[n - 1] == ' ' || r[n - 1] == '\n');
    if trailing_space && !ends_ws {
        r.push(' ');
    }
}

/// Formats the transcribed text according to the desired `FormattingMode` and
/// optional trailing space.
pub fn format_transcription(text: &str, mode: FormattingMode, trailing_space: bool) -> (r: String)
    ensures
        r@ == formatted(text@, mode, trailing_space),
{
    let cs = chars_of(text);
    let trimmed = trim_chars(cs.as_slice());
    if trimmed.len() == 0 {
        return String::new();
    }
    match mode {
        FormattingMode::Standard => {
            let mut res = trimmed;
            add_trailing_space(&mut res, trailing_space);
            string_from_chars(res.as_slice())
        },
        FormattingMode::Raw => {
            let mut j = trimmed.len();
            assert(trimmed@.take(j as int) =~= trimmed@);
            while j > 0 && (trimmed[j - 1] == '.' || trimmed[j - 1] == '!' || trimmed[j - 1]
                == '?' || trimmed[j - 1] == ',')
                invariant
                    j <= trimmed@.len(),
                    trim_raw_punct(trimmed@) == trim_raw_punct(trimmed@.take(j as int)),
                decreases j,
            {
                assert(trimmed@.take(j as int).drop_last() =~= trimmed@.take(j - 1));
                j = j - 1;
            }
            let without = vec_from_range(trimmed.as_slice(), 0, j);
            assert(without@ =~= trimmed@.take(j as int));
            let mut res = trim_chars(without.as_slice());
            add_trailing_space(&mut res, trailing_space);
            string_from_chars(res.as_slice())
        },
        FormattingMode::SnakeCase => {
            let words = extract_words_chars(trimmed.as_slice());
            let mut out: Vec<char> = Vec::new();
            push_lowered_joined(&mut out, &words, '_');
            assert(out@ =~= join_seq(lowered(words_of(trimmed@)), seq!['_']));
            string_from_chars(out.as_slice())
        },
        FormattingMode::CamelCase => {
            let words = extract_words_chars(trimmed.as_slice());
            let mut out: Vec<char> = Vec::new();
            push_camel(&mut out, &words);
            assert(out@ =~= camel_join(words_of(trimmed@)));
            string_from_chars(out.as_slice())
        },
        FormattingMode::KebabCase => {
            let words = extract_words_chars(trimmed.as_slice());
            let mut out: Vec<char> = Vec::new();
            push_lowered_joined(&mut out, &words, '-');
            assert(out@ =~= join_seq(lowered(words_of(trimmed@)), seq!['-']));
            string_from_chars(out.as_slice())
        },
    }
}

} // verus!
