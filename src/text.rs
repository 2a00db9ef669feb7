use vstd::prelude::*;

verus! {

/// Whether two strings hold the same characters.
pub fn str_eq(a: &str, b: &str) -> (r: bool)
    ensures
        r == (a@ == b@),
{
    let n = a.unicode_len();
    if n != b.unicode_len() {
        return false;
    }
    let mut i: usize = 0;
    while i < n
        invariant
            n == a@.len(),
            n == b@.len(),
            i <= n,
            forall|k: int| 0 <= k < i ==> a@[k] == b@[k],
        decreases n - i,
    {
        if a.get_char(i) != b.get_char(i) {
            return false;
        }
        i = i + 1;
    }
    proof {
        assert(a@ =~= b@);
    }
    true
}

/// The views of a sequence of strings.
pub open spec fn str_views(s: Seq<String>) -> Seq<Seq<char>> {
    s.map_values(|x: String| x@)
}

/// Whether two sequences of strings are equal element by element.
pub fn strings_eq(a: &Vec<String>, b: &Vec<String>) -> (r: bool)
    ensures
        r == (str_views(a@) == str_views(b@)),
{
    let n = a.len();
    if n != b.len() {
        proof {
            assert(str_views(a@).len() != str_views(b@).len());
        }
        return false;
    }
    let mut i: usize = 0;
    while i < n
        invariant
            n == a@.len(),
            n == b@.len(),
            i <= n,
            forall|k: int| 0 <= k < i ==> a@[k]@ == b@[k]@,
        decreases n - i,
    {
        if a[i] != b[i] {
            proof {
                assert(str_views(a@)[i as int] != str_views(b@)[i as int]);
            }
            return false;
        }
        i = i + 1;
    }
    proof {
        assert(str_views(a@) =~= str_views(b@));
    }
    true
}

/// A copy of the first `n` strings of `v`.
pub fn clone_prefix(v: &Vec<String>, n: usize) -> (r: Vec<String>)
    requires
        n <= v@.len(),
    ensures
        str_views(r@) == str_views(v@).subrange(0, n as int),
{
    let mut r: Vec<String> = Vec::new();
    let mut i: usize = 0;
    while i < n
        invariant
            n <= v@.len(),
            i <= n,
            str_views(r@) == str_views(v@).subrange(0, i as int),
        decreases n - i,
    {
        let ghost before = r@;
        r.push(v[i].clone());
        proof {
            assert(str_views(r@) =~= str_views(before).push(v@[i as int]@));
            assert(str_views(r@) =~= str_views(v@).subrange(0, i + 1));
        }
        i = i + 1;
    }
    r
}

/// The pieces of a text between its `\n` characters (one more piece than
/// there are `\n`).
pub open spec fn newline_pieces(s: Seq<char>) -> Seq<Seq<char>>
    decreases s.len(),
{
    if s.len() == 0 {
        seq![seq![]]
    } else {
        let p = newline_pieces(s.drop_last());
        if s.last() == '\n' {
            p.push(seq![])
        } else {
            p.update(p.len() - 1, p.last().push(s.last()))
        }
    }
}

/// A line that ended in `\n`, without a `\r` right before that `\n`.
pub open spec fn without_cr(l: Seq<char>) -> Seq<char> {
    if l.len() > 0 && l.last() == '\r' {
        l.drop_last()
    } else {
        l
    }
}

pub open spec fn without_cr_fn() -> spec_fn(Seq<char>) -> Seq<char> {
    |l: Seq<char>| without_cr(l)
}

/// The lines of a text as `str::lines` gives them: the text is split at each
/// `\n` or `\r\n`, which the lines leave out; the last line ending is
/// optional, so a text ending in one has no empty last line, and an empty
/// text has no lines; a `\r` not followed by `\n` stays in the line.
pub open spec fn lines_of(s: Seq<char>) -> Seq<Seq<char>> {
    let p = newline_pieces(s);
    let ended = p.drop_last().map_values(without_cr_fn());
    if p.last().len() == 0 {
        ended
    } else {
        ended.push(p.last())
    }
}

/// Relies on `str::lines`, whose lines are those of [`lines_of`].
#[verifier::external_body]
fn split_lines(s: &str) -> (r: Vec<String>)
    ensures
        str_views(r@) == lines_of(s@),
{
    s.lines().map(|l| l.to_string()).collect()
}

/// Lines joined with `\n` between them.
pub open spec fn join_lines(ls: Seq<Seq<char>>) -> Seq<char>
    decreases ls.len(),
{
    if ls.len() == 0 {
        seq![]
    } else if ls.len() == 1 {
        ls[0]
    } else {
        join_lines(ls.drop_last()) + seq!['\n'] + ls.last()
    }
}

/// A text with its first line replaced by `line`: the lines of the text, the
/// first one replaced, joined with `\n`; an empty text stays empty.
pub open spec fn with_first_line(content: Seq<char>, line: Seq<char>) -> Seq<char> {
    let ls = lines_of(content);
    if ls.len() == 0 {
        seq![]
    } else {
        join_lines(ls.update(0, line))
    }
}

/// Replaces the first line of a text.
pub fn replace_first_line(content: &str, line: &str) -> (r: String)
    ensures
        r@ == with_first_line(content@, line@),
{
    let lines = split_lines(content);
    let n = lines.len();
    if n == 0 {
        return String::new();
    }
    let ghost ls = lines_of(content@).update(0, line@);
    let mut r = String::from_str(line);
    let mut i: usize = 1;
    proof {
        assert(ls.subrange(0, 1).len() == 1);
    }
    while i < n
        invariant
            n == lines@.len(),
            1 <= i <= n,
            ls == lines_of(content@).update(0, line@),
            str_views(lines@) == lines_of(content@),
            r@ == join_lines(ls.subrange(0, i as int)),
        decreases n - i,
    {
        let ghost before = r@;
        r.append("\n");
        r.append(lines[i].as_str());
        proof {
            reveal_strlit("\n");
            assert(ls.subrange(0, i + 1).drop_last() =~= ls.subrange(0, i as int));
            assert(ls[i as int] == lines@[i as int]@);
            assert(r@ =~= before + seq!['\n'] + ls[i as int]);
        }
        i = i + 1;
    }
    proof {
        assert(ls.subrange(0, n as int) =~= ls);
    }
    r
}

} // verus!
