//! Mixed-script spacing normalization and paragraph realignment.
//!
//! Translated text is post-processed in two ways: a single space is inserted
//! at every boundary between a CJK character run and a Latin-alphanumeric
//! run (typographic convention for mixed-script text), and the translated
//! paragraphs are re-aligned with the paragraph boundaries of the source
//! text.

use vstd::prelude::*;
use vstd::string::StrSliceExecFns;
use crate::strutil::push_char;

verus! {

/// A CJK ideograph: the unified ideograph blocks, extension A, and the
/// compatibility ideographs.
pub open spec fn is_cjk(c: char) -> bool {
    (0x4E00 <= c as u32 && c as u32 <= 0x9FFF) || (0x3400 <= c as u32 && c as u32 <= 0x4DBF)
        || (0xF900 <= c as u32 && c as u32 <= 0xFAFF)
}

/// A Latin letter or a decimal digit, as found in runs of Western text.
pub open spec fn is_latin_alnum(c: char) -> bool {
    (0x30 <= c as u32 && c as u32 <= 0x39) || (0x41 <= c as u32 && c as u32 <= 0x5A) || (0x61
        <= c as u32 && c as u32 <= 0x7A)
}

/// A boundary between a CJK run and a Latin-alphanumeric run, in either
/// order. Only at such boundaries is a space inserted.
pub open spec fn script_boundary(a: char, b: char) -> bool {
    (is_cjk(a) && is_latin_alnum(b)) || (is_latin_alnum(a) && is_cjk(b))
}

/// The spacing-normalized form of a character sequence: every adjacent pair
/// that forms a script boundary gets a single space between it.
pub open spec fn spaced(s: Seq<char>) -> Seq<char>
    decreases s.len(),
{
    if s.len() <= 1 {
        s
    } else if script_boundary(s[0], s[1]) {
        seq![s[0], ' '] + spaced(s.drop_first())
    } else {
        seq![s[0]] + spaced(s.drop_first())
    }
}

/// No adjacent pair of the sequence forms a script boundary.
pub open spec fn no_script_boundary(s: Seq<char>) -> bool {
    forall|i: int| 0 <= i && i + 1 < s.len() ==> !script_boundary(#[trigger] s[i], s[i + 1])
}

/// The normalized form keeps the first character in place.
proof fn lemma_spaced_first(s: Seq<char>)
    requires
        s.len() > 0,
    ensures
        spaced(s).len() > 0,
        spaced(s)[0] == s[0],
{
    if s.len() <= 1 {
    } else if script_boundary(s[0], s[1]) {
        assert(spaced(s) == seq![s[0], ' '] + spaced(s.drop_first()));
    } else {
        assert(spaced(s) == seq![s[0]] + spaced(s.drop_first()));
    }
}

/// Normalization leaves no script boundary behind: every boundary of the
/// input now has a space between its two characters, and a space forms no
/// boundary with anything.
proof fn lemma_spaced_no_boundary(s: Seq<char>)
    ensures
        no_script_boundary(spaced(s)),
    decreases s.len(),
{
    if s.len() <= 1 {
    } else {
        let rest = s.drop_first();
        lemma_spaced_no_boundary(rest);
        lemma_spaced_first(rest);
        assert(rest[0] == s[1]);
        assert(!is_cjk(' ') && !is_latin_alnum(' '));
        if script_boundary(s[0], s[1]) {
            let t = seq![s[0], ' '] + spaced(rest);
            assert(spaced(s) == t);
            assert forall|i: int| 0 <= i && i + 1 < t.len() implies !script_boundary(
                #[trigger] t[i],
                t[i + 1],
            ) by {
                if i >= 2 {
                    assert(t[i] == spaced(rest)[i - 2]);
                    assert(t[i + 1] == spaced(rest)[i - 1]);
                }
            }
        } else {
            let t = seq![s[0]] + spaced(rest);
            assert(spaced(s) == t);
            assert forall|i: int| 0 <= i && i + 1 < t.len() implies !script_boundary(
                #[trigger] t[i],
                t[i + 1],
            ) by {
                if i >= 1 {
                    assert(t[i] == spaced(rest)[i - 1]);
                    assert(t[i + 1] == spaced(rest)[i]);
                }
            }
        }
    }
}

/// A sequence without script boundaries is already normalized.
proof fn lemma_spaced_identity(s: Seq<char>)
    requires
        no_script_boundary(s),
    ensures
        spaced(s) == s,
    decreases s.len(),
{
    if s.len() <= 1 {
    } else {
        let rest = s.drop_first();
        assert(!script_boundary(s[0], s[1]));
        assert forall|i: int| 0 <= i && i + 1 < rest.len() implies !script_boundary(
            #[trigger] rest[i],
            rest[i + 1],
        ) by {
            assert(rest[i] == s[i + 1]);
            assert(rest[i + 1] == s[i + 2]);
        }
        lemma_spaced_identity(rest);
        assert(spaced(s) == seq![s[0]] + rest);
        assert(seq![s[0]] + rest =~= s);
    }
}

/// Spacing normalization is idempotent: normalizing an already-normalized
/// sequence changes nothing.
pub proof fn lemma_spaced_idempotent(s: Seq<char>)
    ensures
        spaced(spaced(s)) == spaced(s),
{
    lemma_spaced_no_boundary(s);
    lemma_spaced_identity(spaced(s));
}

fn is_cjk_char(c: char) -> (r: bool)
    ensures
        r == is_cjk(c),
{
    let u = c as u32;
    (0x4E00 <= u && u <= 0x9FFF) || (0x3400 <= u && u <= 0x4DBF) || (0xF900 <= u && u <= 0xFAFF)
}

fn is_latin_alnum_char(c: char) -> (r: bool)
    ensures
        r == is_latin_alnum(c),
{
    let u = c as u32;
    (0x30 <= u && u <= 0x39) || (0x41 <= u && u <= 0x5A) || (0x61 <= u && u <= 0x7A)
}

/// Inserts a single space at every boundary between a CJK run and a
/// Latin-alphanumeric run.
pub fn normalize_spacing(s: &str) -> (r: String)
    ensures
        r@ == spaced(s@),
{
    let n = s.unicode_len();
    let mut out = String::new();
    let mut i: usize = 0;
    proof {
        assert(s@.skip(0) =~= s@);
        assert(out@ + spaced(s@) =~= spaced(s@));
    }
    while i < n
        invariant
            n == s@.len(),
            i <= n,
            out@ + spaced(s@.skip(i as int)) == spaced(s@),
        decreases n - i,
    {
        let ghost out0 = out@;
        let ghost u = s@.skip(i as int);
        let c = s.get_char(i);
        proof {
            assert(u.len() == n - i);
            assert(u[0] == s@[i as int]);
        }
        push_char(&mut out, c);
        if i + 1 < n {
            let d = s.get_char(i + 1);
            proof {
                assert(u[1] == s@[i as int + 1]);
                assert(u.drop_first() =~= s@.skip(i as int + 1));
            }
            if is_cjk_char(c) && is_latin_alnum_char(d) || is_latin_alnum_char(c) && is_cjk_char(
                d,
            ) {
                push_char(&mut out, ' ');
                proof {
                    assert(spaced(u) == seq![u[0], ' '] + spaced(u.drop_first()));
                    assert(out@ + spaced(s@.skip(i as int + 1)) =~= out0 + spaced(u));
                }
            } else {
                proof {
                    assert(spaced(u) == seq![u[0]] + spaced(u.drop_first()));
                    assert(out@ + spaced(s@.skip(i as int + 1)) =~= out0 + spaced(u));
                }
            }
        } else {
            proof {
                assert(u.len() == 1);
                assert(spaced(u) == u);
                assert(s@.skip(i as int + 1) =~= Seq::<char>::empty());
                assert(out@ + spaced(s@.skip(i as int + 1)) =~= out0 + spaced(u));
            }
        }
        i = i + 1;
    }
    proof {
        assert(s@.skip(n as int) =~= Seq::<char>::empty());
        assert(out@ + spaced(s@.skip(n as int)) =~= out@);
    }
    out
}

/// A whitespace character as far as trimming is concerned: the ASCII blank
/// characters that surround model output.
pub open spec fn is_space_char(c: char) -> bool {
    c == ' ' || c == '\t' || c == '\n' || c == '\r'
}

/// The sequence with its leading whitespace removed.
pub open spec fn trim_start_spec(s: Seq<char>) -> Seq<char>
    decreases s.len(),
{
    if s.len() > 0 && is_space_char(s[0]) {
        trim_start_spec(s.drop_first())
    } else {
        s
    }
}

/// The sequence with its trailing whitespace removed.
pub open spec fn trim_end_spec(s: Seq<char>) -> Seq<char>
    decreases s.len(),
{
    if s.len() > 0 && is_space_char(s[s.len() - 1]) {
        trim_end_spec(s.drop_last())
    } else {
        s
    }
}

/// The sequence with both leading and trailing whitespace removed.
pub open spec fn trimmed(s: Seq<char>) -> Seq<char> {
    trim_end_spec(trim_start_spec(s))
}

fn is_space_char_exec(c: char) -> (r: bool)
    ensures
        r == is_space_char(c),
{
    c == ' ' || c == '\t' || c == '\n' || c == '\r'
}

/// Removes the whitespace surrounding a string.
pub fn trim_text(s: &str) -> (r: String)
    ensures
        r@ == trimmed(s@),
{
    let n = s.unicode_len();
    let mut a: usize = 0;
    proof {
        assert(s@.skip(0) =~= s@);
    }
    while a < n && is_space_char_exec(s.get_char(a))
        invariant
            n == s@.len(),
            a <= n,
            trim_start_spec(s@) == trim_start_spec(s@.skip(a as int)),
        decreases n - a,
    {
        proof {
            assert(s@.skip(a as int)[0] == s@[a as int]);
            assert(s@.skip(a as int).drop_first() =~= s@.skip(a as int + 1));
        }
        a = a + 1;
    }
    proof {
        if a == n {
            assert(s@.skip(a as int) =~= Seq::<char>::empty());
        }
        assert(trim_start_spec(s@) == s@.skip(a as int));
    }
    let mut b: usize = n;
    while b > a && is_space_char_exec(s.get_char(b - 1))
        invariant
            n == s@.len(),
            a <= b <= n,
            trim_start_spec(s@) == s@.skip(a as int),
            trim_end_spec(s@.skip(a as int)) == trim_end_spec(s@.subrange(a as int, b as int)),
        decreases b,
    {
        proof {
            let u = s@.subrange(a as int, b as int);
            assert(u[u.len() - 1] == s@[b as int - 1]);
            assert(u.drop_last() =~= s@.subrange(a as int, b as int - 1));
        }
        b = b - 1;
    }
    proof {
        let u = s@.subrange(a as int, b as int);
        if b > a {
            assert(u[u.len() - 1] == s@[b as int - 1]);
        }
        assert(trim_end_spec(u) == u);
        assert(s@.skip(a as int) =~= s@.subrange(a as int, n as int));
    }
    let r = s.substring_char(a, b);
    r.to_owned()
}

/// The paragraphs of a text: the sequence split at every line break. A text
/// with no line break is a single paragraph; every line break starts a new
/// one.
pub open spec fn split_lines(s: Seq<char>) -> Seq<Seq<char>>
    decreases s.len(),
{
    if s.len() == 0 {
        seq![Seq::<char>::empty()]
    } else if s[0] == '\n' {
        seq![Seq::<char>::empty()] + split_lines(s.drop_first())
    } else {
        let rest = split_lines(s.drop_first());
        seq![seq![s[0]] + rest[0]] + rest.drop_first()
    }
}

/// There is always at least one paragraph.
pub proof fn lemma_split_lines_len(s: Seq<char>)
    ensures
        split_lines(s).len() >= 1,
    decreases s.len(),
{
    if s.len() == 0 {
    } else {
        lemma_split_lines_len(s.drop_first());
    }
}

/// A text without a line break is one single paragraph.
proof fn lemma_split_lines_whole(s: Seq<char>)
    requires
        forall|i: int| 0 <= i < s.len() ==> s[i] != '\n',
    ensures
        split_lines(s) == seq![s],
    decreases s.len(),
{
    if s.len() == 0 {
        assert(split_lines(s) =~~= seq![s]);
    } else {
        let rest = s.drop_first();
        lemma_split_lines_whole(rest);
        assert(split_lines(s) =~~= seq![s]);
    }
}

/// Splitting at the first line break: the text up to it is the first
/// paragraph, and the rest is split on its own.
proof fn lemma_split_lines_step(s: Seq<char>, j: int)
    requires
        0 <= j < s.len(),
        s[j] == '\n',
        forall|i: int| 0 <= i < j ==> s[i] != '\n',
    ensures
        split_lines(s) == seq![s.subrange(0, j)] + split_lines(s.skip(j + 1)),
    decreases j,
{
    if j == 0 {
        assert(s.drop_first() =~= s.skip(1));
        assert(split_lines(s) =~~= seq![s.subrange(0, 0)] + split_lines(s.skip(1)));
    } else {
        let rest = s.drop_first();
        assert(rest[j - 1] == s[j]);
        assert forall|i: int| 0 <= i < j - 1 implies rest[i] != '\n' by {
            assert(rest[i] == s[i + 1]);
        }
        lemma_split_lines_step(rest, j - 1);
        lemma_split_lines_len(rest.skip(j));
        assert(rest.subrange(0, j - 1) =~= s.subrange(1, j));
        assert(rest.skip(j) =~= s.skip(j + 1));
        assert(seq![s[0]] + s.subrange(1, j) =~= s.subrange(0, j));
        assert(split_lines(s) =~~= seq![s.subrange(0, j)] + split_lines(s.skip(j + 1)));
    }
}

/// Splits a text into its paragraphs, one per line.
pub fn split_paragraphs(s: &str) -> (r: Vec<String>)
    ensures
        r.deep_view() == split_lines(s@),
{
    let n = s.unicode_len();
    let mut lines: Vec<String> = Vec::new();
    let mut start: usize = 0;
    let mut i: usize = 0;
    proof {
        assert(s@.skip(0) =~= s@);
        assert(lines.deep_view() + split_lines(s@) =~~= split_lines(s@));
    }
    while i < n
        invariant
            n == s@.len(),
            start <= i <= n,
            forall|k: int| start <= k < i ==> s@[k] != '\n',
            lines.deep_view() + split_lines(s@.skip(start as int)) == split_lines(s@),
        decreases n - i,
    {
        if s.get_char(i) == '\n' {
            let ghost old_lines = lines.deep_view();
            let line = s.substring_char(start, i);
            lines.push(line.to_owned());
            proof {
                let u = s@.skip(start as int);
                let j = i as int - start as int;
                assert(u[j] == s@[i as int]);
                assert forall|k: int| 0 <= k < j implies u[k] != '\n' by {
                    assert(u[k] == s@[start as int + k]);
                }
                lemma_split_lines_step(u, j);
                assert(u.subrange(0, j) =~= s@.subrange(start as int, i as int));
                assert(u.skip(j + 1) =~= s@.skip(i as int + 1));
                assert(lines.deep_view() =~~= old_lines + seq![line@]);
                assert(lines.deep_view() + split_lines(s@.skip(i as int + 1)) =~~= split_lines(
                    s@,
                ));
            }
            start = i + 1;
        }
        i = i + 1;
    }
    let ghost old_lines = lines.deep_view();
    let line = s.substring_char(start, n);
    lines.push(line.to_owned());
    proof {
        lemma_split_lines_whole(s@.skip(start as int));
        assert(s@.skip(start as int) =~= s@.subrange(start as int, n as int));
        assert(lines.deep_view() =~~= old_lines + seq![line@]);
        assert(lines.deep_view() =~~= split_lines(s@));
    }
    lines
}

/// The realigned, spacing-normalized result of a translation. If the
/// translated text has as many paragraphs as the original, each translated
/// paragraph is normalized on its own; otherwise the whole translated text
/// becomes one normalized paragraph.
pub open spec fn normalized_result(orig: Seq<char>, trans: Seq<char>) -> Seq<Seq<char>> {
    if split_lines(orig).len() == split_lines(trans).len() {
        split_lines(trans).map_values(|p: Seq<char>| spaced(p))
    } else {
        seq![spaced(trans)]
    }
}

/// The realigned result has exactly as many paragraphs as the original when
/// the counts match, and exactly one paragraph when they do not.
pub proof fn lemma_normalized_result_count(orig: Seq<char>, trans: Seq<char>)
    ensures
        split_lines(orig).len() == split_lines(trans).len() ==> normalized_result(
            orig,
            trans,
        ).len() == split_lines(orig).len(),
        split_lines(orig).len() != split_lines(trans).len() ==> normalized_result(
            orig,
            trans,
        ).len() == 1,
{
}

/// Splits the translated text into paragraphs aligned with the original and
/// normalizes the spacing of each.
pub fn process_translation_result(original: &str, translated: &str) -> (r: Vec<String>)
    ensures
        r.deep_view() == normalized_result(original@, translated@),
{
    let original_paragraphs = split_paragraphs(original);
    let translated_paragraphs = split_paragraphs(translated);
    if original_paragraphs.len() == translated_paragraphs.len() {
        let m = translated_paragraphs.len();
        let mut out: Vec<String> = Vec::new();
        let mut i: usize = 0;
        while i < m
            invariant
                m == translated_paragraphs.deep_view().len(),
                m == translated_paragraphs@.len(),
                i <= m,
                out.deep_view().len() == i,
                forall|k: int| 0 <= k < i ==> out.deep_view()[k] == spaced(
                    #[trigger] translated_paragraphs.deep_view()[k],
                ),
            decreases m - i,
        {
            let p = normalize_spacing(translated_paragraphs[i].as_str());
            out.push(p);
            i = i + 1;
        }
        proof {
            assert(out.deep_view() =~~= normalized_result(original@, translated@));
        }
        out
    } else {
        let whole = normalize_spacing(translated);
        let mut out: Vec<String> = Vec::new();
        out.push(whole);
        proof {
            assert(out.deep_view() =~~= normalized_result(original@, translated@));
        }
        out
    }
}

} // verus!
