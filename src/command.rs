use vstd::prelude::*;
use crate::opt_view;
use crate::path_env::{resolve, resolve_in, DirListing};
use crate::redirect::{extract, extract_redirections, RedirectError, Redirections};
use crate::tokenizer::{parse_args, tokenize};

verus! {

/// The commands that the shell runs itself.
#[derive(PartialEq, Eq, Structural, Clone, Copy, Debug)]
pub enum Builtin {
    Exit,
    Echo,
    Type,
    Pwd,
    Cd,
}

/// What `type` found for a name.
#[derive(Debug)]
pub enum TypeTarget {
    Builtin(Builtin),
    /// An executable, by its resolved path.
    Local(String),
    Unknown(String),
}

/// One classified command line.
#[derive(Debug)]
pub enum Command {
    Exit(Vec<String>),
    Echo(Vec<String>),
    Type(TypeTarget),
    Pwd,
    /// The directory argument as given, empty when there is none.
    Cd(String),
    /// A program found on the search path, with its arguments.
    External { name: String, path: String, args: Vec<String> },
}

/// Why a line gives no command.
#[derive(Debug)]
pub enum DispatchError {
    UnterminatedQuote,
    MissingRedirectionTarget,
    /// The name is neither a builtin nor found on the search path.
    CommandNotFound(String),
    /// The line holds no command name.
    EmptyLine,
}

/// A command line ready to run: the command and where its output goes.
#[derive(Debug)]
pub struct Dispatched {
    pub command: Command,
    pub redirections: Redirections,
}

pub open spec fn builtin_name(b: Builtin) -> Seq<char> {
    match b {
        Builtin::Exit => seq!['e', 'x', 'i', 't'],
        Builtin::Echo => seq!['e', 'c', 'h', 'o'],
        Builtin::Type => seq!['t', 'y', 'p', 'e'],
        Builtin::Pwd => seq!['p', 'w', 'd'],
        Builtin::Cd => seq!['c', 'd'],
    }
}

/// The builtin that a command name selects, if any.
pub open spec fn builtin_named(name: Seq<char>) -> Option<Builtin> {
    if name == builtin_name(Builtin::Exit) {
        Some(Builtin::Exit)
    } else if name == builtin_name(Builtin::Echo) {
        Some(Builtin::Echo)
    } else if name == builtin_name(Builtin::Type) {
        Some(Builtin::Type)
    } else if name == builtin_name(Builtin::Pwd) {
        Some(Builtin::Pwd)
    } else if name == builtin_name(Builtin::Cd) {
        Some(Builtin::Cd)
    } else {
        None
    }
}

/// Whether a name is a builtin or found on the search path.
pub open spec fn is_known(listings: Seq<DirListing>, name: Seq<char>) -> bool {
    builtin_named(name) is Some || resolve(listings, name) is Some
}

pub open spec fn first_or_empty(args: Seq<Seq<char>>) -> Seq<char> {
    if args.len() > 0 {
        args[0]
    } else {
        Seq::empty()
    }
}

/// `t` is what `type` reports of `name`: a builtin first, then the search
/// path.
pub open spec fn type_target_of(listings: Seq<DirListing>, name: Seq<char>, t: TypeTarget) -> bool {
    match builtin_named(name) {
        Some(b) => t == TypeTarget::Builtin(b),
        None => match resolve(listings, name) {
            Some(p) => t matches TypeTarget::Local(q) && q@ == p,
            None => t matches TypeTarget::Unknown(n) && n@ == name,
        },
    }
}

/// `cmd` is the command that the clean, non-empty arguments `args` select.
pub open spec fn classifies(args: Seq<Seq<char>>, listings: Seq<DirListing>, cmd: Command) -> bool {
    let rest = args.drop_first();
    match builtin_named(args[0]) {
        Some(Builtin::Exit) => cmd matches Command::Exit(a) && a.deep_view() == rest,
        Some(Builtin::Echo) => cmd matches Command::Echo(a) && a.deep_view() == rest,
        Some(Builtin::Type) => cmd matches Command::Type(t) && type_target_of(
            listings,
            first_or_empty(rest),
            t,
        ),
        Some(Builtin::Pwd) => cmd is Pwd,
        Some(Builtin::Cd) => cmd matches Command::Cd(d) && d@ == first_or_empty(rest),
        None => cmd matches Command::External { name, path, args: a } && name@ == args[0]
            && resolve(listings, args[0]) == Some(path@) && a.deep_view() == rest,
    }
}

/// What a line gives: it is tokenized, its redirections are taken out, and
/// the first remaining argument selects the command.
pub open spec fn dispatches_to(
    line: Seq<char>,
    listings: Seq<DirListing>,
    r: Result<Dispatched, DispatchError>,
) -> bool {
    match tokenize(line) {
        None => r matches Err(DispatchError::UnterminatedQuote),
        Some(tokens) => match extract(tokens) {
            None => r matches Err(DispatchError::MissingRedirectionTarget),
            Some((clean, out, err)) => {
                if clean.len() == 0 {
                    r matches Err(DispatchError::EmptyLine)
                } else if !is_known(listings, clean[0]) {
                    r matches Err(DispatchError::CommandNotFound(n)) && n@ == clean[0]
                } else {
                    r matches Ok(d) && classifies(clean, listings, d.command) && opt_view(
                        d.redirections.stdout,
                    ) == out && opt_view(d.redirections.stderr) == err
                }
            },
        },
    }
}

impl Builtin {
    /// The name that selects this builtin.
    pub fn name(&self) -> (r: String)
        ensures
            r@ == builtin_name(*self),
    {
        match self {
            Builtin::Exit => {
                proof {
                    reveal_strlit("exit");
                }
                String::from_str("exit")
            },
            Builtin::Echo => {
                proof {
                    reveal_strlit("echo");
                }
                String::from_str("echo")
            },
            Builtin::Type => {
                proof {
                    reveal_strlit("type");
                }
                String::from_str("type")
            },
            Builtin::Pwd => {
                proof {
                    reveal_strlit("pwd");
                }
                String::from_str("pwd")
            },
            Builtin::Cd => {
                proof {
                    reveal_strlit("cd");
                }
                String::from_str("cd")
            },
        }
    }
}

/// The builtin that `name` selects, if any.
pub fn builtin_of(name: &String) -> (r: Option<Builtin>)
    ensures
        r == builtin_named(name@),
{
    if *name == Builtin::Exit.name() {
        Some(Builtin::Exit)
    } else if *name == Builtin::Echo.name() {
        Some(Builtin::Echo)
    } else if *name == Builtin::Type.name() {
        Some(Builtin::Type)
    } else if *name == Builtin::Pwd.name() {
        Some(Builtin::Pwd)
    } else if *name == Builtin::Cd.name() {
        Some(Builtin::Cd)
    } else {
        None
    }
}

/// Classifies a name as `type` reports it.
pub fn classify_type(listings: &Vec<DirListing>, name: &String) -> (r: TypeTarget)
    ensures
        type_target_of(listings@, name@, r),
{
    match builtin_of(name) {
        Some(b) => TypeTarget::Builtin(b),
        None => match resolve_in(listings, name.as_str()) {
            Some(p) => TypeTarget::Local(p),
            None => TypeTarget::Unknown(name.clone()),
        },
    }
}

/// The arguments after the first.
fn tail_of(args: &Vec<String>) -> (r: Vec<String>)
    requires
        args.len() > 0,
    ensures
        r.deep_view() == args.deep_view().drop_first(),
{
    let mut r: Vec<String> = Vec::new();
    let mut i: usize = 1;
    while i < args.len()
        invariant
            1 <= i <= args.len(),
            r.deep_view() == args.deep_view().subrange(1, i as int),
        decreases args.len() - i,
    {
        let ghost before = r.deep_view();
        r.push(args[i].clone());
        assert(r.deep_view() =~= before.push(args@[i as int]@));
        assert(args.deep_view().subrange(1, i + 1) =~= before.push(args@[i as int]@));
        i = i + 1;
    }
    assert(args.deep_view().subrange(1, args.len() as int) =~= args.deep_view().drop_first());
    r
}

/// The first argument after the command name, empty when there is none.
fn first_argument(rest: &Vec<String>) -> (r: String)
    ensures
        r@ == first_or_empty(rest.deep_view()),
{
    if rest.len() > 0 {
        rest[0].clone()
    } else {
        String::new()
    }
}

/// Tokenizes a line, takes its redirections out and classifies it against
/// the listings of the search path's directories.
pub fn dispatch(line: &str, listings: &Vec<DirListing>) -> (r: Result<Dispatched, DispatchError>)
    ensures
        dispatches_to(line@, listings@, r),
{
    let tokens = match parse_args(line) {
        Ok(t) => t,
        Err(_) => return Err(DispatchError::UnterminatedQuote),
    };
    let (clean, redirections) = match extract_redirections(&tokens) {
        Ok(x) => x,
        Err(RedirectError::MissingRedirectionTarget) => {
            return Err(DispatchError::MissingRedirectionTarget)
        },
    };
    if clean.len() == 0 {
        return Err(DispatchError::EmptyLine);
    }
    let name = &clean[0];
    let rest = tail_of(&clean);
    let command = match builtin_of(name) {
        Some(Builtin::Exit) => Command::Exit(rest),
        Some(Builtin::Echo) => Command::Echo(rest),
        Some(Builtin::Type) => Command::Type(classify_type(listings, &first_argument(&rest))),
        Some(Builtin::Pwd) => Command::Pwd,
        Some(Builtin::Cd) => Command::Cd(first_argument(&rest)),
        None => match resolve_in(listings, name.as_str()) {
            Some(path) => Command::External { name: name.clone(), path, args: rest },
            None => return Err(DispatchError::CommandNotFound(name.clone())),
        },
    };
    Ok(Dispatched { command, redirections })
}

} // verus!
