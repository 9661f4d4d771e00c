//! Preview detection: how a file should be shown, decided from the
//! extension of its path, compared without regard to ASCII case.

use vstd::prelude::*;
use crate::errors::AppError;
use crate::types::{PreviewDetectResult, PreviewKind};

verus! {

pub open spec fn is_sep(c: char) -> bool {
    c == '/' || c == '\\'
}

/// Where the file name starts: right after the last path separator.
pub open spec fn file_name_start(s: Seq<char>) -> int
    decreases s.len(),
{
    if s.len() == 0 {
        0
    } else if is_sep(s.last()) {
        s.len() as int
    } else {
        file_name_start(s.drop_last())
    }
}

/// Where the extension starts: right after the last dot of the file name,
/// unless that dot begins the name (a hidden file has no extension).
pub open spec fn ext_start(s: Seq<char>, base: int) -> Option<int>
    decreases s.len(),
{
    if base < 0 || s.len() <= base + 1 {
        None
    } else if s.last() == '.' {
        Some(s.len() as int)
    } else {
        ext_start(s.drop_last(), base)
    }
}

/// The extension of a path, when it has one.
pub open spec fn ext_of(s: Seq<char>) -> Option<Seq<char>> {
    match ext_start(s, file_name_start(s)) {
        Some(d) => Some(s.subrange(d, s.len() as int)),
        None => None,
    }
}

/// ASCII lowercasing of one character; anything else is itself.
pub open spec fn lower_char(c: char) -> char {
    if c == 'A' {
        'a'
    } else if c == 'B' {
        'b'
    } else if c == 'C' {
        'c'
    } else if c == 'D' {
        'd'
    } else if c == 'E' {
        'e'
    } else if c == 'F' {
        'f'
    } else if c == 'G' {
        'g'
    } else if c == 'H' {
        'h'
    } else if c == 'I' {
        'i'
    } else if c == 'J' {
        'j'
    } else if c == 'K' {
        'k'
    } else if c == 'L' {
        'l'
    } else if c == 'M' {
        'm'
    } else if c == 'N' {
        'n'
    } else if c == 'O' {
        'o'
    } else if c == 'P' {
        'p'
    } else if c == 'Q' {
        'q'
    } else if c == 'R' {
        'r'
    } else if c == 'S' {
        's'
    } else if c == 'T' {
        't'
    } else if c == 'U' {
        'u'
    } else if c == 'V' {
        'v'
    } else if c == 'W' {
        'w'
    } else if c == 'X' {
        'x'
    } else if c == 'Y' {
        'y'
    } else if c == 'Z' {
        'z'
    } else {
        c
    }
}

/// ASCII lowercasing of a whole sequence.
pub open spec fn lower_of(s: Seq<char>) -> Seq<char> {
    Seq::new(s.len(), |i: int| lower_char(s[i]))
}

/// The extensions shown as images.
pub open spec fn is_image_ext(e: Seq<char>) -> bool {
    ||| lower_of(e) == "png"@
    ||| lower_of(e) == "jpg"@
    ||| lower_of(e) == "jpeg"@
    ||| lower_of(e) == "gif"@
    ||| lower_of(e) == "webp"@
    ||| lower_of(e) == "svg"@
    ||| lower_of(e) == "bmp"@
}

/// The extensions shown as rendered markdown.
pub open spec fn is_markdown_ext(e: Seq<char>) -> bool {
    ||| lower_of(e) == "md"@
    ||| lower_of(e) == "markdown"@
}

/// The preview kind of a path: by extension, falling back to plain text.
pub open spec fn preview_kind_of(s: Seq<char>) -> PreviewKind {
    match ext_of(s) {
        None => PreviewKind::Text,
        Some(e) => if is_image_ext(e) {
            PreviewKind::Image
        } else if is_markdown_ext(e) {
            PreviewKind::Markdown
        } else {
            PreviewKind::Text
        },
    }
}

/// Lowercases one character in ASCII.
fn lower_char_exec(c: char) -> (r: char)
    ensures
        r == lower_char(c),
{
    if c >= 'A' && c <= 'Z' {
        if c == 'A' {
            'a'
        } else if c == 'B' {
            'b'
        } else if c == 'C' {
            'c'
        } else if c == 'D' {
            'd'
        } else if c == 'E' {
            'e'
        } else if c == 'F' {
            'f'
        } else if c == 'G' {
            'g'
        } else if c == 'H' {
            'h'
        } else if c == 'I' {
            'i'
        } else if c == 'J' {
            'j'
        } else if c == 'K' {
            'k'
        } else if c == 'L' {
            'l'
        } else if c == 'M' {
            'm'
        } else if c == 'N' {
            'n'
        } else if c == 'O' {
            'o'
        } else if c == 'P' {
            'p'
        } else if c == 'Q' {
            'q'
        } else if c == 'R' {
            'r'
        } else if c == 'S' {
            's'
        } else if c == 'T' {
            't'
        } else if c == 'U' {
            'u'
        } else if c == 'V' {
            'v'
        } else if c == 'W' {
            'w'
        } else if c == 'X' {
            'x'
        } else if c == 'Y' {
            'y'
        } else {
            'z'
        }
    } else {
        c
    }
}

/// Whether the extension, lowercased, equals the given lowercase word.
fn ext_eq_folded(e: &str, lit: &str) -> (r: bool)
    ensures
        r == (lower_of(e@) == lit@),
{
    let ne = e.unicode_len();
    let nl = lit.unicode_len();
    if ne != nl {
        proof {
            assert(lower_of(e@).len() == e@.len());
        }
        return false;
    }
    let mut i: usize = 0;
    while i < ne
        invariant
            i <= ne,
            ne == e@.len(),
            ne == lit@.len(),
            forall|t: int| 0 <= t < i ==> lower_char(e@[t]) == lit@[t],
        decreases ne - i,
    {
        let c = lower_char_exec(e.get_char(i));
        if !(c == lit.get_char(i)) {
            proof {
                assert(lower_of(e@)[i as int] != lit@[i as int]);
            }
            return false;
        }
        i = i + 1;
    }
    proof {
        assert(lower_of(e@) =~= lit@);
    }
    true
}

/// The last separator seen decides where the file name starts.
proof fn lemma_file_name_start_skip(s: Seq<char>, i: int)
    requires
        0 <= i <= s.len(),
        forall|k: int| i <= k < s.len() ==> !is_sep(s[k]),
    ensures
        file_name_start(s) == file_name_start(s.take(i)),
    decreases s.len() - i,
{
    if i < s.len() {
        lemma_file_name_start_skip(s, i + 1);
        assert(s.take(i + 1).drop_last() =~= s.take(i));
        assert(s.take(i + 1).last() == s[i]);
        assert(file_name_start(s.take(i + 1)) == file_name_start(s.take(i)));
    } else {
        assert(s.take(i) =~= s);
    }
}

/// The last dot seen decides where the extension starts.
proof fn lemma_ext_start_skip(s: Seq<char>, base: int, i: int)
    requires
        0 <= i <= s.len(),
        base + 1 <= i,
        forall|k: int| i <= k < s.len() ==> s[k] != '.',
    ensures
        ext_start(s, base) == ext_start(s.take(i), base),
    decreases s.len() - i,
{
    if i < s.len() {
        lemma_ext_start_skip(s, base, i + 1);
        assert(s.take(i + 1).drop_last() =~= s.take(i));
        assert(s.take(i + 1).last() == s[i]);
        assert(ext_start(s.take(i + 1), base) == ext_start(s.take(i), base));
    } else {
        assert(s.take(i) =~= s);
    }
}

/// Decides how a file should be previewed from its path alone.
pub fn preview_detect(path: String) -> (r: Result<PreviewDetectResult, AppError>)
    ensures
        match r {
            Ok(p) => p.kind == preview_kind_of(path@),
            Err(_) => false,
        },
{
    let st = path.as_str();
    let n = st.unicode_len();
    // Find the start of the file name: scan back to the last separator.
    let mut base: usize = n;
    loop
        invariant
            base <= n,
            n == path@.len(),
            st@ == path@,
            forall|k: int| base <= k < n ==> !is_sep(path@[k]),
        ensures
            base <= n,
            n == path@.len(),
            st@ == path@,
            file_name_start(path@) == base as int,
        decreases base,
    {
        if base == 0 {
            proof {
                lemma_file_name_start_skip(path@, 0);
                assert(path@.take(0) =~= Seq::<char>::empty());
            }
            break;
        }
        let c = st.get_char(base - 1);
        if c == '/' || c == '\\' {
            proof {
                lemma_file_name_start_skip(path@, base as int);
                assert(path@.take(base as int).last() == path@[base - 1]);
                assert(file_name_start(path@.take(base as int)) == base as int);
            }
            break;
        }
        base = base - 1;
    }
    // Find the start of the extension: scan back to the last dot strictly
    // after the file name's first character.
    let mut j: usize = n;
    let mut ext_from: usize = 0;
    let mut has_ext = false;
    loop
        invariant_except_break
            !has_ext,
            forall|k: int| j <= k < n ==> path@[k] != '.',
        invariant
            base <= n,
            n == path@.len(),
            st@ == path@,
            file_name_start(path@) == base as int,
            j <= n,
        ensures
            base <= n,
            n == path@.len(),
            st@ == path@,
            file_name_start(path@) == base as int,
            has_ext ==> base + 1 <= ext_from <= n && ext_start(path@, base as int) == Some(
                ext_from as int,
            ),
            !has_ext ==> ext_start(path@, base as int) is None,
        decreases j,
    {
        if !(j > 0 && j - 1 > base) {
            proof {
                // Every dot lies at or before the name's first character.
                if path@.len() <= base as int + 1 {
                } else {
                    lemma_ext_start_skip(path@, base as int, base as int + 1);
                    assert(path@.take(base as int + 1).len() <= base as int + 1);
                }
            }
            break;
        }
        let c = st.get_char(j - 1);
        if c == '.' {
            proof {
                lemma_ext_start_skip(path@, base as int, j as int);
                assert(path@.take(j as int).last() == path@[j - 1]);
                assert(ext_start(path@.take(j as int), base as int) == Some(j as int));
            }
            ext_from = j;
            has_ext = true;
            break;
        }
        j = j - 1;
    }
    if !has_ext {
        return Ok(PreviewDetectResult { kind: PreviewKind::Text });
    }
    let ext = st.substring_char(ext_from, n);
    proof {
        assert(ext@ == path@.subrange(ext_from as int, n as int));
        assert(ext_of(path@) == Some(ext@));
    }
    let kind = if ext_eq_folded(ext, "png") || ext_eq_folded(ext, "jpg") || ext_eq_folded(
        ext,
        "jpeg",
    ) || ext_eq_folded(ext, "gif") || ext_eq_folded(ext, "webp") || ext_eq_folded(ext, "svg")
        || ext_eq_folded(ext, "bmp") {
        PreviewKind::Image
    } else if ext_eq_folded(ext, "md") || ext_eq_folded(ext, "markdown") {
        PreviewKind::Markdown
    } else {
        PreviewKind::Text
    };
    Ok(PreviewDetectResult { kind })
}

} // verus!
