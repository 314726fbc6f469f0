use vstd::prelude::*;

verus! {

/// Whether `c` has Unicode's White_Space property (PropList.txt), the characters that
/// std's `char::is_whitespace` accepts.
pub open spec fn unicode_white_space(c: char) -> bool {
    let u = c as u32;
    ||| 0x09 <= u <= 0x0D
    ||| u == 0x20
    ||| u == 0x85
    ||| u == 0xA0
    ||| u == 0x1680
    ||| 0x2000 <= u <= 0x200A
    ||| u == 0x2028
    ||| u == 0x2029
    ||| u == 0x202F
    ||| u == 0x205F
    ||| u == 0x3000
}

/// Whether `c` is white space.
pub fn is_whitespace(c: char) -> (r: bool)
    ensures
        r == unicode_white_space(c),
{
    let u = c as u32;
    (0x09 <= u && u <= 0x0D) || u == 0x20 || u == 0x85 || u == 0xA0 || u == 0x1680 || (0x2000
        <= u && u <= 0x200A) || u == 0x2028 || u == 0x2029 || u == 0x202F || u == 0x205F || u
        == 0x3000
}

/// `s` without its leading white space.
pub open spec fn trim_start(s: Seq<char>) -> Seq<char>
    decreases s.len(),
{
    if s.len() > 0 && unicode_white_space(s[0]) {
        trim_start(s.drop_first())
    } else {
        s
    }
}

/// `s` without its trailing white space.
pub open spec fn trim_end(s: Seq<char>) -> Seq<char>
    decreases s.len(),
{
    if s.len() > 0 && unicode_white_space(s.last()) {
        trim_end(s.drop_last())
    } else {
        s
    }
}

/// `s` without leading and trailing white space.
pub open spec fn trimmed(s: Seq<char>) -> Seq<char> {
    trim_end(trim_start(s))
}

/// The pieces of `s` between the separators `sep`; an empty `s` is one empty piece.
pub open spec fn split_on(s: Seq<char>, sep: char) -> Seq<Seq<char>>
    decreases s.len(),
{
    if s.len() == 0 {
        seq![Seq::<char>::empty()]
    } else {
        let prev = split_on(s.drop_last(), sep);
        if s.last() == sep {
            prev.push(Seq::<char>::empty())
        } else {
            prev.update(prev.len() - 1, prev.last().push(s.last()))
        }
    }
}

/// Whether `k` is the position of the first `=` of `p`.
pub open spec fn is_first_eq(p: Seq<char>, k: int) -> bool {
    &&& 0 <= k < p.len()
    &&& p[k] == '='
    &&& forall|j: int| 0 <= j < k ==> p[j] != '='
}

/// The trimmed key and value of `key=value`, split at the first `=`; `None` without `=`.
pub open spec fn pair_of(p: Seq<char>) -> Option<(Seq<char>, Seq<char>)> {
    if exists|k: int| is_first_eq(p, k) {
        let k = choose|k: int| is_first_eq(p, k);
        Some((trimmed(p.take(k)), trimmed(p.skip(k + 1))))
    } else {
        None
    }
}

/// The pairs of the pieces that hold a `=`, in order; the others are skipped.
pub open spec fn pairs_of(pieces: Seq<Seq<char>>) -> Seq<(Seq<char>, Seq<char>)>
    decreases pieces.len(),
{
    if pieces.len() == 0 {
        seq![]
    } else {
        let prev = pairs_of(pieces.drop_last());
        match pair_of(pieces.last()) {
            Some(kv) => prev.push(kv),
            None => prev,
        }
    }
}

/// The template context that a context string `key=value,key=value` describes.
pub open spec fn context_pairs(ctx: Seq<char>) -> Seq<(Seq<char>, Seq<char>)> {
    pairs_of(split_on(ctx, ','))
}

pub open spec fn pairs_view(v: Seq<(String, String)>) -> Seq<(Seq<char>, Seq<char>)> {
    v.map_values(|kv: (String, String)| (kv.0@, kv.1@))
}

proof fn lemma_split_nonempty(s: Seq<char>, sep: char)
    ensures
        split_on(s, sep).len() >= 1,
    decreases s.len(),
{
    if s.len() > 0 {
        lemma_split_nonempty(s.drop_last(), sep);
    }
}

/// The bounds of `s@[from..to]` without its leading and trailing white space.
fn trim_range(s: &str, from: usize, to: usize) -> (r: (usize, usize))
    requires
        from <= to <= s@.len(),
    ensures
        from <= r.0 <= r.1 <= to,
        s@.subrange(r.0 as int, r.1 as int) == trimmed(s@.subrange(from as int, to as int)),
{
    let mut a = from;
    while a < to && is_whitespace(s.get_char(a))
        invariant
            from <= a <= to <= s@.len(),
            trim_start(s@.subrange(from as int, to as int)) == trim_start(
                s@.subrange(a as int, to as int),
            ),
        decreases to - a,
    {
        assert(s@.subrange(a as int, to as int).drop_first() =~= s@.subrange(a + 1, to as int));
        a = a + 1;
    }
    assert(trim_start(s@.subrange(a as int, to as int)) == s@.subrange(a as int, to as int));
    let mut b = to;
    while b > a && is_whitespace(s.get_char(b - 1))
        invariant
            from <= a <= b <= to <= s@.len(),
            trim_end(s@.subrange(a as int, to as int)) == trim_end(s@.subrange(a as int, b as int)),
        decreases b - a,
    {
        assert(s@.subrange(a as int, b as int).drop_last() =~= s@.subrange(a as int, b - 1));
        b = b - 1;
    }
    (a, b)
}

/// The position of the first `=` in `s@[from..to]`, if any.
fn find_eq(s: &str, from: usize, to: usize) -> (r: Option<usize>)
    requires
        from <= to <= s@.len(),
    ensures
        r is Some ==> from <= r->Some_0 < to && is_first_eq(
            s@.subrange(from as int, to as int),
            r->Some_0 - from,
        ),
        r is None ==> forall|j: int| from <= j < to ==> s@[j] != '=',
{
    let mut i = from;
    while i < to
        invariant
            from <= i <= to <= s@.len(),
            forall|j: int| from <= j < i ==> s@[j] != '=',
        decreases to - i,
    {
        if s.get_char(i) == '=' {
            return Some(i);
        }
        i = i + 1;
    }
    None
}

/// The pair of the piece `s@[from..to]`, if it holds a `=`.
fn parse_pair(s: &str, from: usize, to: usize) -> (r: Option<(String, String)>)
    requires
        from <= to <= s@.len(),
    ensures
        match pair_of(s@.subrange(from as int, to as int)) {
            Some(kv) => r is Some && r->Some_0.0@ == kv.0 && r->Some_0.1@ == kv.1,
            None => r is None,
        },
{
    let ghost p = s@.subrange(from as int, to as int);
    match find_eq(s, from, to) {
        Some(k) => {
            let ghost kk = k - from;
            assert(is_first_eq(p, kk));
            assert forall|k2: int| is_first_eq(p, k2) implies k2 == kk by {
                if k2 < kk {
                    assert(p[k2] != '=');
                } else if k2 > kk {
                    assert(p[kk] != '=');
                }
            }
            assert(p.take(kk) =~= s@.subrange(from as int, k as int));
            assert(p.skip(kk + 1) =~= s@.subrange(k + 1, to as int));
            let (ka, kb) = trim_range(s, from, k);
            let (va, vb) = trim_range(s, k + 1, to);
            let key = String::from_str(s.substring_char(ka, kb));
            let value = String::from_str(s.substring_char(va, vb));
            Some((key, value))
        },
        None => {
            assert forall|k2: int| !is_first_eq(p, k2) by {
                if 0 <= k2 < p.len() {
                    assert(p[k2] == s@[from + k2]);
                }
            }
            None
        },
    }
}

/// Reads a template context `key=value,key=value`: split on `,`, then each piece at
/// its first `=`, with keys and values trimmed; pieces without `=` are skipped.
pub fn parse_context(ctx: &str) -> (r: Vec<(String, String)>)
    ensures
        pairs_view(r@) == context_pairs(ctx@),
{
    let n = ctx.unicode_len();
    let mut out: Vec<(String, String)> = Vec::new();
    let mut start: usize = 0;
    let mut i: usize = 0;
    let ghost mut done: Seq<Seq<char>> = seq![];
    assert(ctx@.take(0) =~= Seq::<char>::empty());
    assert(ctx@.subrange(0, 0) =~= Seq::<char>::empty());
    assert(done.push(Seq::<char>::empty()) =~= seq![Seq::<char>::empty()]);
    while i < n
        invariant
            start <= i <= n,
            n == ctx@.len(),
            split_on(ctx@.take(i as int), ',') == done.push(ctx@.subrange(start as int, i as int)),
            pairs_view(out@) == pairs_of(done),
        decreases n - i,
    {
        assert(ctx@.take(i + 1).drop_last() =~= ctx@.take(i as int));
        assert(ctx@.take(i + 1).last() == ctx@[i as int]);
        proof {
            lemma_split_nonempty(ctx@.take(i as int), ',');
        }
        if ctx.get_char(i) == ',' {
            let piece = parse_pair(ctx, start, i);
            let ghost p = ctx@.subrange(start as int, i as int);
            proof {
                assert(done.push(p).drop_last() =~= done);
            }
            match piece {
                Some(kv) => {
                    out.push(kv);
                    assert(pairs_view(out@) =~= pairs_of(done.push(p)));
                },
                None => {},
            }
            proof {
                done = done.push(p);
                assert(ctx@.subrange(i + 1, i + 1) =~= Seq::<char>::empty());
            }
            start = i + 1;
        } else {
            assert(ctx@.subrange(start as int, i + 1) =~= ctx@.subrange(
                start as int,
                i as int,
            ).push(ctx@[i as int]));
            assert(split_on(ctx@.take(i + 1), ',') =~= done.push(
                ctx@.subrange(start as int, i + 1),
            ));
        }
        i = i + 1;
    }
    assert(ctx@.take(n as int) =~= ctx@);
    let ghost p = ctx@.subrange(start as int, n as int);
    match parse_pair(ctx, start, n) {
        Some(kv) => out.push(kv),
        None => {},
    }
    proof {
        assert(done.push(p).drop_last() =~= done);
    }
    assert(pairs_view(out@) =~= pairs_of(done.push(p)));
    out
}

/// Whether a file extension marks a loadable plugin library.
pub fn is_plugin_extension(ext: &str) -> (r: bool)
    ensures
        r == (ext@ == seq!['s', 'o'] || ext@ == seq!['d', 'y', 'l', 'i', 'b'] || ext@ == seq![
            'd',
            'l',
            'l',
        ]),
{
    let n = ext.unicode_len();
    let r = if n == 2 {
        ext.get_char(0) == 's' && ext.get_char(1) == 'o'
    } else if n == 3 {
        ext.get_char(0) == 'd' && ext.get_char(1) == 'l' && ext.get_char(2) == 'l'
    } else if n == 5 {
        ext.get_char(0) == 'd' && ext.get_char(1) == 'y' && ext.get_char(2) == 'l' && ext.get_char(
            3,
        ) == 'i' && ext.get_char(4) == 'b'
    } else {
        false
    };
    assert(r ==> (ext@ =~= seq!['s', 'o'] || ext@ =~= seq!['d', 'y', 'l', 'i', 'b'] || ext@
        =~= seq!['d', 'l', 'l']));
    r
}

} // verus!
