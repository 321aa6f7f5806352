use vstd::prelude::*;
use crate::opt_view;

verus! {

/// The stream that a redirection operator sends to a file.
#[derive(PartialEq, Eq, Structural, Clone, Copy, Debug)]
pub enum Stream {
    Stdout,
    Stderr,
}

/// The output files of one command line; `None` keeps the shell's own
/// stream.
#[derive(Debug)]
pub struct Redirections {
    pub stdout: Option<String>,
    pub stderr: Option<String>,
}

/// An operator with no file name after it.
#[derive(PartialEq, Eq, Structural, Clone, Copy, Debug)]
pub enum RedirectError {
    MissingRedirectionTarget,
}

/// `>` and `1>` redirect standard output, `2>` standard error.
pub open spec fn operator_stream(t: Seq<char>) -> Option<Stream> {
    if t == seq!['>'] || t == seq!['1', '>'] {
        Some(Stream::Stdout)
    } else if t == seq!['2', '>'] {
        Some(Stream::Stderr)
    } else {
        None
    }
}

/// The extraction after a prefix of the arguments: the arguments kept,
/// the targets met so far, and the operator waiting for its file name.
pub struct ExtractState {
    pub kept: Seq<Seq<char>>,
    pub stdout: Option<Seq<char>>,
    pub stderr: Option<Seq<char>>,
    pub pending: Option<Stream>,
}

pub open spec fn initial_extract() -> ExtractState {
    ExtractState { kept: Seq::empty(), stdout: None, stderr: None, pending: None }
}

/// One argument of the extraction. An operator takes the next argument,
/// whatever it is, as its file name; a later target of the same stream
/// replaces an earlier one.
pub open spec fn extract_step(st: ExtractState, t: Seq<char>) -> ExtractState {
    match st.pending {
        Some(Stream::Stdout) => ExtractState {
            kept: st.kept,
            stdout: Some(t),
            stderr: st.stderr,
            pending: None,
        },
        Some(Stream::Stderr) => ExtractState {
            kept: st.kept,
            stdout: st.stdout,
            stderr: Some(t),
            pending: None,
        },
        None => match operator_stream(t) {
            Some(k) => ExtractState {
                kept: st.kept,
                stdout: st.stdout,
                stderr: st.stderr,
                pending: Some(k),
            },
            None => ExtractState {
                kept: st.kept.push(t),
                stdout: st.stdout,
                stderr: st.stderr,
                pending: None,
            },
        },
    }
}

pub open spec fn extract_from(st: ExtractState, args: Seq<Seq<char>>) -> ExtractState
    decreases args.len(),
{
    if args.len() == 0 {
        st
    } else {
        extract_step(extract_from(st, args.drop_last()), args.last())
    }
}

/// The clean arguments and the two targets; `None` when an operator ends
/// the line.
pub open spec fn extract(
    args: Seq<Seq<char>>,
) -> Option<(Seq<Seq<char>>, Option<Seq<char>>, Option<Seq<char>>)> {
    let st = extract_from(initial_extract(), args);
    if st.pending is Some {
        None
    } else {
        Some((st.kept, st.stdout, st.stderr))
    }
}

fn operator_of(t: &String) -> (r: Option<Stream>)
    ensures
        r == operator_stream(t@),
{
    let s = t.as_str();
    let n = s.unicode_len();
    if n == 1 && s.get_char(0) == '>' {
        assert(t@ =~= seq!['>']);
        Some(Stream::Stdout)
    } else if n == 2 && s.get_char(1) == '>' && (s.get_char(0) == '1' || s.get_char(0) == '2') {
        if s.get_char(0) == '1' {
            assert(t@ =~= seq!['1', '>']);
            Some(Stream::Stdout)
        } else {
            assert(t@ =~= seq!['2', '>']);
            Some(Stream::Stderr)
        }
    } else {
        proof {
            if t@.len() == 1 {
                assert(t@ != seq!['1', '>']);
                assert(t@ != seq!['2', '>']);
            }
        }
        None
    }
}

/// Takes the redirection operators and their file names out of `args`.
pub fn extract_redirections(args: &Vec<String>) -> (r: Result<
    (Vec<String>, Redirections),
    RedirectError,
>)
    ensures
        r is Ok <==> extract(args.deep_view()) is Some,
        r matches Ok((kept, redir)) ==> extract(args.deep_view()) == Some(
            (kept.deep_view(), opt_view(redir.stdout), opt_view(redir.stderr)),
        ),
        r is Err ==> r->Err_0 == RedirectError::MissingRedirectionTarget,
{
    let mut kept: Vec<String> = Vec::new();
    let mut stdout: Option<String> = None;
    let mut stderr: Option<String> = None;
    let mut pending: Option<Stream> = None;
    let ghost all = args.deep_view();
    assert(kept.deep_view() =~= Seq::<Seq<char>>::empty());
    assert(all.take(0) =~= Seq::<Seq<char>>::empty());
    let mut i: usize = 0;
    while i < args.len()
        invariant
            i <= args.len(),
            all == args.deep_view(),
            (ExtractState {
                kept: kept.deep_view(),
                stdout: opt_view(stdout),
                stderr: opt_view(stderr),
                pending,
            }) == extract_from(initial_extract(), all.take(i as int)),
        decreases args.len() - i,
    {
        let ghost before = extract_from(initial_extract(), all.take(i as int));
        let ghost next = extract_step(before, all[i as int]);
        proof {
            assert(all.take(i + 1).drop_last() =~= all.take(i as int));
        }
        let t = &args[i];
        match pending {
            Some(Stream::Stdout) => {
                stdout = Some(t.clone());
                pending = None;
            },
            Some(Stream::Stderr) => {
                stderr = Some(t.clone());
                pending = None;
            },
            None => {
                let op = operator_of(t);
                if op.is_some() {
                    pending = op;
                } else {
                    let ghost old_kept = kept.deep_view();
                    kept.push(t.clone());
                    assert(kept.deep_view() =~= old_kept.push(t@));
                }
            },
        }
        i = i + 1;
        assert(kept.deep_view() =~= next.kept);
    }
    assert(all.take(args.len() as int) =~= all);
    if pending.is_some() {
        return Err(RedirectError::MissingRedirectionTarget);
    }
    Ok((kept, Redirections { stdout, stderr }))
}

} // verus!
