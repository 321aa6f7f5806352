use vstd::prelude::*;
use crate::command::{builtin_name, DispatchError, TypeTarget};
use crate::opt_view;
use crate::tokenizer::push_char;

verus! {

/// A line of text for the user, on standard output or on standard error.
#[derive(Debug)]
pub struct Report {
    pub text: String,
    pub to_stderr: bool,
}

/// The arguments joined by single spaces.
pub open spec fn join_spaced(args: Seq<Seq<char>>) -> Seq<char>
    decreases args.len(),
{
    if args.len() == 0 {
        Seq::empty()
    } else if args.len() == 1 {
        args[0]
    } else {
        join_spaced(args.drop_last()) + seq![' '] + args.last()
    }
}

/// The last component of a path: what follows its last `/`.
pub open spec fn last_component(p: Seq<char>) -> Seq<char>
    decreases p.len(),
{
    if p.len() == 0 {
        Seq::empty()
    } else if p.last() == '/' {
        Seq::empty()
    } else {
        last_component(p.drop_last()).push(p.last())
    }
}

/// What `type` prints of a target.
pub open spec fn type_text(t: TypeTarget) -> Seq<char> {
    match t {
        TypeTarget::Builtin(b) => builtin_name(b) + " is a shell builtin"@,
        TypeTarget::Local(p) => last_component(p@) + " is "@ + p@,
        TypeTarget::Unknown(n) => n@ + ": not found"@,
    }
}

/// Where `cd` goes: `~` and the empty argument stand for the home
/// directory, which may be unset.
pub open spec fn cd_target(arg: Seq<char>, home: Option<Seq<char>>) -> Option<Seq<char>> {
    if arg.len() == 0 || arg == seq!['~'] {
        home
    } else {
        Some(arg)
    }
}

/// The message for a line that gives no command; empty for an empty line.
pub open spec fn error_text(e: DispatchError) -> Seq<char> {
    match e {
        DispatchError::UnterminatedQuote => "syntax error: unterminated quote"@,
        DispatchError::MissingRedirectionTarget => "syntax error: no file name after redirection"@,
        DispatchError::CommandNotFound(n) => n@ + ": command not found"@,
        DispatchError::EmptyLine => Seq::empty(),
    }
}

/// What `echo` prints: its arguments joined by single spaces.
pub fn echo_line(args: &Vec<String>) -> (r: String)
    ensures
        r@ == join_spaced(args.deep_view()),
{
    let mut r = String::new();
    let mut i: usize = 0;
    while i < args.len()
        invariant
            i <= args.len(),
            r@ == join_spaced(args.deep_view().take(i as int)),
        decreases args.len() - i,
    {
        let ghost prefix = args.deep_view().take(i as int);
        let ghost next = args.deep_view().take(i + 1);
        assert(next.drop_last() =~= prefix);
        if i > 0 {
            push_char(&mut r, ' ');
        } else {
            assert(prefix =~= Seq::<Seq<char>>::empty());
        }
        r.append(args[i].as_str());
        i = i + 1;
    }
    assert(args.deep_view().take(args.len() as int) =~= args.deep_view());
    r
}

/// The last component of a path.
pub fn file_name(path: &str) -> (r: String)
    ensures
        r@ == last_component(path@),
{
    let mut r = String::new();
    assert(path@.take(0) =~= Seq::<char>::empty());
    for c in it: path.chars()
        invariant
            it.seq() == path@,
            r@ == last_component(path@.take(it.index() as int)),
    {
        let ghost idx = it.index();
        proof {
            let post = path@.take(idx + 1);
            assert(post.drop_last() =~= path@.take(idx as int));
            assert(post.last() == c);
        }
        if c == '/' {
            r = String::new();
        } else {
            push_char(&mut r, c);
        }
    }
    assert(path@.take(path@.len() as int) =~= path@);
    r
}

/// What `type` prints of a target; an unknown name goes to standard error.
pub fn type_report(t: &TypeTarget) -> (r: Report)
    ensures
        r.text@ == type_text(*t),
        r.to_stderr == (t is Unknown),
{
    match t {
        TypeTarget::Builtin(b) => Report { text: b.name().concat(" is a shell builtin"), to_stderr: false },
        TypeTarget::Local(p) => {
            let text = file_name(p.as_str()).concat(" is ").concat(p.as_str());
            Report { text, to_stderr: false }
        },
        TypeTarget::Unknown(n) => Report { text: n.clone().concat(": not found"), to_stderr: true },
    }
}

/// Where `cd` goes for its argument, given the home directory.
pub fn cd_destination(arg: &String, home: &Option<String>) -> (r: Option<String>)
    ensures
        opt_view(r) == cd_target(arg@, opt_view(*home)),
{
    let s = arg.as_str();
    let n = s.unicode_len();
    if n == 0 || (n == 1 && s.get_char(0) == '~') {
        proof {
            if n == 1 {
                assert(arg@ =~= seq!['~']);
            }
        }
        match home {
            Some(h) => Some(h.clone()),
            None => None,
        }
    } else {
        proof {
            if n == 1 {
                assert(arg@ != seq!['~']);
            }
        }
        Some(arg.clone())
    }
}

/// What `cd` prints when it cannot enter `path`.
pub fn cd_error_message(path: &str) -> (r: String)
    ensures
        r@ == "cd: "@ + path@ + ": No such file or directory"@,
{
    String::from_str("cd: ").concat(path).concat(": No such file or directory")
}

impl DispatchError {
    /// The message reported for this error.
    pub fn message(&self) -> (r: String)
        ensures
            r@ == error_text(*self),
    {
        match self {
            DispatchError::UnterminatedQuote => String::from_str("syntax error: unterminated quote"),
            DispatchError::MissingRedirectionTarget => String::from_str(
                "syntax error: no file name after redirection",
            ),
            DispatchError::CommandNotFound(n) => n.clone().concat(": command not found"),
            DispatchError::EmptyLine => String::new(),
        }
    }
}

} // verus!
