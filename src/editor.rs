use vstd::prelude::*;

use crate::errors::ZapError;
use crate::template::{is_whitespace, unicode_white_space};

verus! {

/// The words of `s`: its maximal runs of characters that are not white space.
pub open spec fn words(s: Seq<char>) -> Seq<Seq<char>>
    decreases s.len(),
{
    if s.len() == 0 {
        seq![]
    } else {
        let prev = words(s.drop_last());
        let c = s.last();
        if unicode_white_space(c) {
            prev
        } else if s.len() >= 2 && !unicode_white_space(s[s.len() - 2]) {
            prev.update(prev.len() - 1, prev.last().push(c))
        } else {
            prev.push(seq![c])
        }
    }
}

pub open spec fn strings_view(v: Seq<String>) -> Seq<Seq<char>> {
    v.map_values(|s: String| s@)
}

/// Splits an editor command line into its words, as a shell would without quoting.
pub fn split_words(s: &str) -> (r: Vec<String>)
    ensures
        strings_view(r@) == words(s@),
{
    let n = s.unicode_len();
    let mut out: Vec<String> = Vec::new();
    let mut start: usize = 0;
    let mut in_word = false;
    let mut i: usize = 0;
    assert(s@.take(0) =~= Seq::<char>::empty());
    while i < n
        invariant
            start <= i <= n,
            n == s@.len(),
            in_word ==> start < i,
            in_word ==> !unicode_white_space(s@[i - 1]),
            !in_word ==> (i == 0 || unicode_white_space(s@[i - 1])),
            words(s@.take(i as int)) == if in_word {
                strings_view(out@).push(s@.subrange(start as int, i as int))
            } else {
                strings_view(out@)
            },
        decreases n - i,
    {
        let c = s.get_char(i);
        assert(s@.take(i + 1).drop_last() =~= s@.take(i as int));
        assert(s@.take(i + 1).last() == c);
        let ws = is_whitespace(c);
        if ws {
            if in_word {
                let ghost before = out@;
                let w = String::from_str(s.substring_char(start, i));
                out.push(w);
                assert(strings_view(out@) =~= strings_view(before).push(w@));
            }
            in_word = false;
        } else if in_word {
            assert(s@.subrange(start as int, i + 1) =~= s@.subrange(start as int, i as int).push(c));
            assert(s@.take(i + 1)[i - 1] == s@[i - 1]);
        } else {
            start = i;
            in_word = true;
            assert(s@.subrange(i as int, i + 1) =~= seq![c]);
        }
        i = i + 1;
    }
    assert(s@.take(n as int) =~= s@);
    if in_word {
        let ghost before = out@;
        let w = String::from_str(s.substring_char(start, n));
        out.push(w);
        assert(strings_view(out@) =~= strings_view(before).push(w@));
    }
    out
}

/// The program and the arguments of an editor command line such as `"code --wait"`.
pub fn editor_command(editor: &str) -> (r: Result<(String, Vec<String>), ZapError>)
    ensures
        words(editor@).len() == 0 ==> (r matches Err(ZapError::EditorCommandParseError(e))
            && e@ == editor@),
        words(editor@).len() > 0 ==> (r is Ok && r->Ok_0.0@ == words(editor@)[0] && strings_view(
            r->Ok_0.1@,
        ) == words(editor@).drop_first()),
{
    let mut parts = split_words(editor);
    if parts.len() == 0 {
        return Err(ZapError::EditorCommandParseError(String::from_str(editor)));
    }
    let ghost before = parts@;
    let program = parts.remove(0);
    assert(strings_view(parts@) =~= strings_view(before).drop_first());
    Ok((program, parts))
}

} // verus!
