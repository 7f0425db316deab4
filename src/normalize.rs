//! Cleaning of captured output lines.
use vstd::prelude::*;

verus! {

/// The terminal escape character.
pub const ESC: char = '\u{1b}';

/// Offset, within `s`, of the first `m` that comes before any escape
/// character; `None` when an escape character or the end comes first.
pub open spec fn m_offset(s: Seq<char>) -> Option<nat>
    decreases s.len(),
{
    if s.len() == 0 {
        None
    } else if s[0] == 'm' {
        Some(0)
    } else if s[0] == ESC {
        None
    } else {
        match m_offset(s.drop_first()) {
            Some(k) => Some(k + 1),
            None => None,
        }
    }
}

/// Whether `s` opens with a styling code: escape, `[`, and an `m` later in
/// the same escape-delimited segment.
pub open spec fn starts_with_code(s: Seq<char>) -> bool {
    &&& s.len() >= 2
    &&& s[0] == ESC
    &&& s[1] == '['
    &&& m_offset(s.skip(2)) matches Some(k) && k < s.len() - 2
}

/// Length of the styling code that opens `s` (escape through `m`).
pub open spec fn code_len(s: Seq<char>) -> nat
    recommends
        starts_with_code(s),
{
    m_offset(s.skip(2))->0 + 3
}

/// `s` with every styling code removed; all other characters kept in order.
pub open spec fn stripped(s: Seq<char>) -> Seq<char>
    decreases s.len(),
{
    if s.len() == 0 {
        Seq::empty()
    } else if starts_with_code(s) {
        stripped(s.skip(code_len(s) as int))
    } else {
        seq![s[0]] + stripped(s.drop_first())
    }
}

/// Whether `s` holds no escape character.
pub open spec fn is_plain(s: Seq<char>) -> bool {
    forall|i: int| 0 <= i < s.len() ==> s[i] != ESC
}

/// The text that a captured stderr line becomes in the log.
pub open spec fn stderr_text(s: Seq<char>) -> Seq<char> {
    "Stderr: "@ + stripped(s)
}

/// A line with no escape character is left as it is.
pub proof fn lemma_plain_unchanged(s: Seq<char>)
    requires
        is_plain(s),
    ensures
        stripped(s) == s,
    decreases s.len(),
{
    if s.len() > 0 {
        assert(!starts_with_code(s));
        let t = s.drop_first();
        assert(is_plain(t)) by {
            assert forall|i: int| 0 <= i < t.len() implies t[i] != ESC by {
                assert(t[i] == s[i + 1]);
            }
        }
        lemma_plain_unchanged(t);
        assert(seq![s[0]] + t =~= s);
    }
}

/// Scanning from `a` up to an `m` at `j`, past no escape and no `m`, finds
/// the `m` at offset `j - a`.
proof fn lemma_m_found(v: Seq<char>, a: int, j: int)
    requires
        0 <= a <= j < v.len(),
        v[j] == 'm',
        forall|k: int| a <= k < j ==> v[k] != 'm' && v[k] != ESC,
    ensures
        m_offset(v.skip(a)) == Some((j - a) as nat),
    decreases j - a,
{
    if a < j {
        lemma_m_found(v, a + 1, j);
        assert(v.skip(a).drop_first() =~= v.skip(a + 1));
    }
}

/// Scanning from `a` up to an escape or the end, past no `m`, finds none.
proof fn lemma_m_missing(v: Seq<char>, a: int, j: int)
    requires
        0 <= a <= j <= v.len(),
        j == v.len() || v[j] == ESC,
        forall|k: int| a <= k < j ==> v[k] != 'm' && v[k] != ESC,
    ensures
        m_offset(v.skip(a)) is None,
    decreases j - a,
{
    if a < j {
        lemma_m_missing(v, a + 1, j);
        assert(v.skip(a).drop_first() =~= v.skip(a + 1));
    }
}

/// Removes terminal styling codes from a captured line: wherever an escape
/// character is followed by `[`, the characters through the next `m` of the
/// same segment go; everything else, multi-byte characters included, stays.
pub fn strip_ansi(line: &str) -> (r: String)
    ensures
        r@ == stripped(line@),
        is_plain(line@) ==> r@ == line@,
{
    let mut chars: Vec<char> = Vec::new();
    for c in it: line.chars()
        invariant
            chars@ == it.seq().take(it.index() as int),
    {
        chars.push(c);
    }
    let ghost v = chars@;
    assert(v =~= line@);
    let n = chars.len();
    let mut out = String::new();
    let mut i: usize = 0;
    while i < n
        invariant
            n == v.len(),
            chars@ == v,
            i <= n,
            out@ + stripped(v.skip(i as int)) == stripped(v),
        decreases n - i,
    {
        let mut done = false;
        if chars[i] == ESC && i + 1 < n && chars[i + 1] == '[' {
            let mut j: usize = i + 2;
            while j < n && chars[j] != 'm' && chars[j] != ESC
                invariant
                    n == v.len(),
                    chars@ == v,
                    i + 2 <= j <= n,
                    forall|k: int| i + 2 <= k < j ==> v[k] != 'm' && v[k] != ESC,
                decreases n - j,
            {
                j = j + 1;
            }
            if j < n && chars[j] == 'm' {
                proof {
                    let s = v.skip(i as int);
                    lemma_m_found(v, i + 2, j as int);
                    assert(s.skip(2) =~= v.skip(i + 2));
                    assert(starts_with_code(s));
                    assert(code_len(s) == j - i + 1);
                    assert(s.skip(code_len(s) as int) =~= v.skip(j + 1));
                }
                i = j + 1;
                done = true;
            } else {
                proof {
                    let s = v.skip(i as int);
                    lemma_m_missing(v, i + 2, j as int);
                    assert(s.skip(2) =~= v.skip(i + 2));
                }
            }
        }
        if !done {
            proof {
                let s = v.skip(i as int);
                assert(!starts_with_code(s));
                assert(s.drop_first() =~= v.skip(i + 1));
                assert(s[0] == v[i as int]);
            }
            out.push(chars[i]);
            proof {
                assert(out@ =~= (out@.drop_last()) + seq![v[i as int]]);
            }
            i = i + 1;
        }
    }
    proof {
        assert(v.skip(n as int) =~= Seq::<char>::empty());
        assert(out@ + Seq::<char>::empty() =~= out@);
        if is_plain(line@) {
            lemma_plain_unchanged(line@);
        }
    }
    out
}

/// The log text of a line captured from stderr: `Stderr: ` before the
/// cleaned line.
pub fn stderr_line(line: &str) -> (r: String)
    ensures
        r@ == stderr_text(line@),
{
    let cleaned = strip_ansi(line);
    let prefix = String::from_str("Stderr: ");
    prefix.concat(cleaned.as_str())
}

/// Relies on `String::push`, documented to append the given character to
/// the end of the string.
pub assume_specification[ String::push ](s: &mut String, ch: char)
    ensures
        final(s)@ == old(s)@.push(ch),
;

} // verus!
