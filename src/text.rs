use vstd::prelude::*;
use vstd::string::*;

verus! {

/// A line without the carriage return that ended it, if any.
pub open spec fn strip_cr(line: Seq<char>) -> Seq<char> {
    if line.len() > 0 && line.last() == '\r' {
        line.drop_last()
    } else {
        line
    }
}

/// The lines of `s` after the partial line `cur`: a line ends at each `\n`
/// (a `\r` just before it is dropped), and the final line needs no ending.
pub open spec fn lines_from(s: Seq<char>, cur: Seq<char>) -> Seq<Seq<char>>
    decreases s.len(),
{
    if s.len() == 0 {
        if cur.len() == 0 {
            Seq::empty()
        } else {
            seq![cur]
        }
    } else if s[0] == '\n' {
        seq![strip_cr(cur)] + lines_from(s.drop_first(), Seq::empty())
    } else {
        lines_from(s.drop_first(), cur.push(s[0]))
    }
}

pub open spec fn lines_of(s: Seq<char>) -> Seq<Seq<char>> {
    lines_from(s, Seq::empty())
}

pub open spec fn strings_view(v: Seq<String>) -> Seq<Seq<char>> {
    v.map_values(|x: String| x@)
}

/// Splits text into lines, keeping empty lines between line endings.
pub fn split_lines(text: &str) -> (r: Vec<String>)
    ensures
        strings_view(r@) == lines_of(text@),
{
    let n = text.unicode_len();
    let mut out: Vec<String> = Vec::new();
    let mut start: usize = 0;
    let mut i: usize = 0;
    assert(text@.subrange(0, n as int) =~= text@);
    assert(text@.subrange(0, 0) =~= Seq::<char>::empty());
    assert(strings_view(out@) =~= Seq::<Seq<char>>::empty());
    assert(Seq::<Seq<char>>::empty() + lines_of(text@) =~= lines_of(text@));
    while i < n
        invariant
            n == text@.len(),
            start <= i <= n,
            strings_view(out@) + lines_from(text@.subrange(i as int, n as int),
                text@.subrange(start as int, i as int)) == lines_of(text@),
        decreases n - i,
    {
        let c = text.get_char(i);
        let ghost rest = text@.subrange(i as int, n as int);
        let ghost cur = text@.subrange(start as int, i as int);
        assert(rest.drop_first() =~= text@.subrange(i + 1, n as int));
        if c == '\n' {
            let mut end = i;
            if i > start && text.get_char(i - 1) == '\r' {
                end = i - 1;
            }
            let line = String::from_str(text.substring_char(start, end));
            assert(line@ =~= strip_cr(cur));
            let ghost prev = out@;
            out.push(line);
            start = i + 1;
            assert(text@.subrange(start as int, i + 1) =~= Seq::<char>::empty());
            assert(strings_view(out@) =~= strings_view(prev).push(line@));
            assert(strings_view(prev) + lines_from(rest, cur) =~= strings_view(out@)
                + lines_from(rest.drop_first(), Seq::empty()));
        } else {
            assert(cur.push(c) =~= text@.subrange(start as int, i + 1));
        }
        i = i + 1;
    }
    let ghost cur = text@.subrange(start as int, n as int);
    assert(text@.subrange(n as int, n as int) =~= Seq::<char>::empty());
    if start < n {
        let line = String::from_str(text.substring_char(start, n));
        let ghost prev = out@;
        out.push(line);
        assert(strings_view(out@) =~= strings_view(prev) + seq![cur]);
    } else {
        assert(strings_view(out@) + Seq::<Seq<char>>::empty() =~= strings_view(out@));
    }
    out
}

/// One rendered line of the translation output, as read from the page.
#[derive(Debug, Clone, PartialEq, Eq)]
pub enum Fragment {
    /// The node's description listed no children: it has no text child, a blank line.
    Unlisted,
    /// The node's child list is empty: a blank line.
    Blank,
    /// The node's first text child.
    Text(String),
}

/// The model of a fragment, with its text as characters.
pub enum FragmentV {
    Unlisted,
    Blank,
    Text(Seq<char>),
}

impl View for Fragment {
    type V = FragmentV;

    open spec fn view(&self) -> FragmentV {
        match self {
            Fragment::Unlisted => FragmentV::Unlisted,
            Fragment::Blank => FragmentV::Blank,
            Fragment::Text(s) => FragmentV::Text(s@),
        }
    }
}

/// What one fragment contributes to the result: a fragment without a text
/// child is a blank line and becomes a line break.
pub open spec fn fragment_text(f: FragmentV) -> Seq<char> {
    match f {
        FragmentV::Unlisted => "\n"@,
        FragmentV::Blank => "\n"@,
        FragmentV::Text(t) => t,
    }
}

/// The fragments' contributions, concatenated in document order.
pub open spec fn reconstruct(f: Seq<FragmentV>) -> Seq<char>
    decreases f.len(),
{
    if f.len() == 0 {
        Seq::empty()
    } else {
        reconstruct(f.drop_last()) + fragment_text(f.last())
    }
}

pub open spec fn fragments_view(v: Seq<Fragment>) -> Seq<FragmentV> {
    v.map_values(|x: Fragment| x@)
}

/// Rebuilds the translated text from its output fragments.
pub fn reconstruct_output(fragments: &Vec<Fragment>) -> (r: String)
    ensures
        r@ == reconstruct(fragments_view(fragments@)),
{
    let mut out = String::new();
    let mut i: usize = 0;
    while i < fragments.len()
        invariant
            i <= fragments@.len(),
            out@ == reconstruct(fragments_view(fragments@.subrange(0, i as int))),
        decreases fragments@.len() - i,
    {
        let ghost before = fragments_view(fragments@.subrange(0, i as int));
        assert(fragments_view(fragments@.subrange(0, i + 1)).drop_last() =~= before);
        assert(fragments_view(fragments@.subrange(0, i + 1)).last() == fragments@[i as int]@);
        match &fragments[i] {
            Fragment::Unlisted | Fragment::Blank => {
                out.append("\n");
            },
            Fragment::Text(t) => {
                out.append(t.as_str());
            },
        }
        i = i + 1;
    }
    assert(fragments@.subrange(0, fragments@.len() as int) =~= fragments@);
    out
}

} // verus!
