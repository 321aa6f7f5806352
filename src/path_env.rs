use vstd::prelude::*;
use crate::opt_view;
use crate::tokenizer::{is_blank, is_blank_char, push_char};

verus! {

/// The ordered directories of a search path.
#[derive(Debug)]
pub struct PathEnv {
    pub dirs: Vec<String>,
}

/// What one directory of the search path holds: the file names in it, or
/// `None` where it could not be listed.
#[derive(Debug)]
pub struct DirListing {
    pub dir: String,
    pub entries: Option<Vec<String>>,
}

/// The pieces of `s` between the separators `sep`, in order; there is one
/// more piece than there are separators.
pub open spec fn split_on(s: Seq<char>, sep: char) -> Seq<Seq<char>>
    decreases s.len(),
{
    if s.len() == 0 {
        seq![Seq::empty()]
    } else {
        let pieces = split_on(s.drop_last(), sep);
        if s.last() == sep {
            pieces.push(Seq::empty())
        } else {
            pieces.update(pieces.len() - 1, pieces.last().push(s.last()))
        }
    }
}

proof fn lemma_split_nonempty(s: Seq<char>, sep: char)
    ensures
        split_on(s, sep).len() >= 1,
    decreases s.len(),
{
    if s.len() > 0 {
        lemma_split_nonempty(s.drop_last(), sep);
    }
}

/// A bare name holds no `/`; any other name is a path of its own.
pub open spec fn is_bare_name(name: Seq<char>) -> bool {
    !name.contains('/')
}

/// `name` placed in the directory `dir`.
pub open spec fn join_path(dir: Seq<char>, name: Seq<char>) -> Seq<char> {
    if dir.len() == 0 || dir.last() == '/' {
        dir + name
    } else {
        dir + seq!['/'] + name
    }
}

pub open spec fn lists(l: DirListing, name: Seq<char>) -> bool {
    match l.entries {
        Some(v) => v.deep_view().contains(name),
        None => false,
    }
}

/// The first listing, from index `i` on, that holds `name`.
pub open spec fn first_listing(listings: Seq<DirListing>, name: Seq<char>, i: int) -> Option<int>
    decreases listings.len() - i,
{
    if i >= listings.len() || i < 0 {
        None
    } else if lists(listings[i], name) {
        Some(i)
    } else {
        first_listing(listings, name, i + 1)
    }
}

/// Where `name` resolves: itself where it is not bare, else the first
/// directory in order whose listing holds it; unlisted directories are
/// skipped.
pub open spec fn resolve(listings: Seq<DirListing>, name: Seq<char>) -> Option<Seq<char>> {
    if !is_bare_name(name) {
        Some(name)
    } else {
        match first_listing(listings, name, 0) {
            Some(i) => Some(join_path(listings[i].dir@, name)),
            None => None,
        }
    }
}

/// `s` without its leading white space.
pub open spec fn trim_start(s: Seq<char>) -> Seq<char>
    decreases s.len(),
{
    if s.len() > 0 && is_blank(s[0]) {
        trim_start(s.drop_first())
    } else {
        s
    }
}

/// `s` without its trailing white space.
pub open spec fn trim_end(s: Seq<char>) -> Seq<char>
    decreases s.len(),
{
    if s.len() > 0 && is_blank(s.last()) {
        trim_end(s.drop_last())
    } else {
        s
    }
}

/// `s` without white space at either end.
pub open spec fn trim(s: Seq<char>) -> Seq<char> {
    trim_end(trim_start(s))
}

fn chars_of(s: &str) -> (r: Vec<char>)
    ensures
        r@ == s@,
{
    let mut r: Vec<char> = Vec::new();
    for c in it: s.chars()
        invariant
            it.seq() == s@,
            r@ == s@.take(it.index() as int),
    {
        let ghost idx = it.index();
        r.push(c);
        assert(r@ =~= s@.take(idx + 1));
    }
    assert(s@.take(s@.len() as int) =~= s@);
    r
}

impl PathEnv {
    /// Splits a colon-separated search path, without white space at its
    /// ends, into its directories, empty ones included.
    pub fn from_str(s: &str) -> (r: PathEnv)
        ensures
            r.dirs.deep_view() == split_on(trim(s@), ':'),
    {
        let v = chars_of(s);
        let n = v.len();
        let mut lo: usize = 0;
        assert(v@.subrange(0, n as int) =~= v@);
        while lo < n && is_blank_char(v[lo])
            invariant
                lo <= n == v@.len(),
                trim_start(v@) == trim_start(v@.subrange(lo as int, n as int)),
            decreases n - lo,
        {
            assert(v@.subrange(lo as int, n as int).drop_first() =~= v@.subrange(lo + 1, n as int));
            lo = lo + 1;
        }
        let mut hi: usize = n;
        while hi > lo && is_blank_char(v[hi - 1])
            invariant
                lo <= hi <= n == v@.len(),
                trim_end(v@.subrange(lo as int, n as int)) == trim_end(
                    v@.subrange(lo as int, hi as int),
                ),
            decreases hi,
        {
            assert(v@.subrange(lo as int, hi as int).drop_last() =~= v@.subrange(
                lo as int,
                hi - 1,
            ));
            hi = hi - 1;
        }
        let ghost body = v@.subrange(lo as int, hi as int);
        assert(trim(s@) == body);
        let mut dirs: Vec<String> = Vec::new();
        let mut current = String::new();
        assert(v@.subrange(lo as int, lo as int) =~= Seq::<char>::empty());
        let mut i: usize = lo;
        while i < hi
            invariant
                lo <= i <= hi <= n == v@.len(),
                dirs.deep_view().push(current@) =~= split_on(
                    v@.subrange(lo as int, i as int),
                    ':',
                ),
            decreases hi - i,
        {
            let c = v[i];
            proof {
                let post = v@.subrange(lo as int, i + 1);
                assert(post.drop_last() =~= v@.subrange(lo as int, i as int));
                assert(post.last() == c);
                lemma_split_nonempty(v@.subrange(lo as int, i as int), ':');
            }
            let ghost before = dirs.deep_view();
            if c == ':' {
                dirs.push(current);
                current = String::new();
                assert(dirs.deep_view() =~= before.push(dirs@.last()@));
            } else {
                push_char(&mut current, c);
            }
            i = i + 1;
        }
        let ghost before = dirs.deep_view();
        dirs.push(current);
        assert(dirs.deep_view() =~= before.push(dirs@.last()@));
        PathEnv { dirs }
    }
}

fn has_slash(s: &str) -> (r: bool)
    ensures
        r == !is_bare_name(s@),
{
    for c in it: s.chars()
        invariant
            it.seq() == s@,
            forall|j: int| 0 <= j < it.index() ==> s@[j] != '/',
    {
        if c == '/' {
            return true;
        }
    }
    false
}

fn listed(entries: &Vec<String>, name: &String) -> (r: bool)
    ensures
        r == entries.deep_view().contains(name@),
{
    let mut i: usize = 0;
    while i < entries.len()
        invariant
            i <= entries.len(),
            forall|j: int| 0 <= j < i ==> entries@[j]@ != name@,
        decreases entries.len() - i,
    {
        if entries[i] == *name {
            assert(entries.deep_view()[i as int] == name@);
            return true;
        }
        i = i + 1;
    }
    assert forall|j: int| 0 <= j < entries.deep_view().len() implies entries.deep_view()[j]
        != name@ by {
        assert(entries.deep_view()[j] == entries@[j]@);
    }
    false
}

fn join_dir(dir: &String, name: &String) -> (r: String)
    ensures
        r@ == join_path(dir@, name@),
{
    let n = dir.as_str().unicode_len();
    let mut path = dir.clone();
    if n > 0 && dir.as_str().get_char(n - 1) != '/' {
        push_char(&mut path, '/');
    }
    path.append(name.as_str());
    path
}

/// Resolves an executable name against directory listings taken in
/// search-path order: the first directory that holds it wins.
pub fn resolve_in(listings: &Vec<DirListing>, name: &str) -> (r: Option<String>)
    ensures
        opt_view(r) == resolve(listings@, name@),
{
    let owned = String::from_str(name);
    if has_slash(name) {
        return Some(owned);
    }
    let mut i: usize = 0;
    while i < listings.len()
        invariant
            i <= listings.len(),
            owned@ == name@,
            is_bare_name(name@),
            first_listing(listings@, name@, 0) == first_listing(listings@, name@, i as int),
        decreases listings.len() - i,
    {
        let l = &listings[i];
        let found = match &l.entries {
            Some(entries) => listed(entries, &owned),
            None => false,
        };
        assert(found == lists(listings@[i as int], name@));
        if found {
            assert(lists(listings@[i as int], name@));
            assert(first_listing(listings@, name@, i as int) == Some(i as int));
            let path = join_dir(&l.dir, &owned);
            assert(path@ == join_path(listings@[i as int].dir@, name@));
            return Some(path);
        }
        i = i + 1;
    }
    None
}

} // verus!
