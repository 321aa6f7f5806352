use vstd::prelude::*;
use crate::command::{builtin_name, builtin_named, type_target_of, Builtin, TypeTarget};
use crate::path_env::{first_listing, is_bare_name, resolve, DirListing};
use crate::redirect::{
    extract, extract_from, extract_step, initial_extract, operator_stream, ExtractState, Stream,
};
use crate::report::{cd_target, last_component, type_text};
use crate::tokenizer::{
    initial_scan, scan, scan_from, step, tokenize, tokenized_as, QuoteMode, ScanState, TokenizeError,
};

verus! {

/// Scanning two pieces one after the other is scanning them joined.
pub proof fn lemma_scan_concat(st: ScanState, a: Seq<char>, b: Seq<char>)
    ensures
        scan_from(st, a + b) == scan_from(scan_from(st, a), b),
    decreases b.len(),
{
    if b.len() == 0 {
        assert(a + b =~= a);
    } else {
        lemma_scan_concat(st, a, b.drop_last());
        assert((a + b).drop_last() =~= a + b.drop_last());
        assert((a + b).last() == b.last());
    }
}

/// Inside quotes of kind `q`, text without `q` leaves the scan inside them.
proof fn lemma_stays_quoted(st: ScanState, q: char, rest: Seq<char>)
    requires
        q == '\'' ==> st.mode == QuoteMode::InSingleQuote,
        q == '"' ==> (st.mode == QuoteMode::InDoubleQuote || st.mode
            == QuoteMode::DoubleQuoteEscape),
        q == '\'' || q == '"',
        !rest.contains(q),
    ensures
        q == '\'' ==> scan_from(st, rest).mode == QuoteMode::InSingleQuote,
        q == '"' ==> (scan_from(st, rest).mode == QuoteMode::InDoubleQuote || scan_from(
            st,
            rest,
        ).mode == QuoteMode::DoubleQuoteEscape),
    decreases rest.len(),
{
    if rest.len() > 0 {
        let front = rest.drop_last();
        assert forall|c: char| front.contains(c) implies rest.contains(c) by {
            let j = choose|j: int| 0 <= j < front.len() && front[j] == c;
            assert(rest[j] == c);
        }
        lemma_stays_quoted(st, q, front);
        assert(rest[rest.len() - 1] == rest.last());
    }
}

/// A quote opened outside any quote and never closed makes the line fail,
/// whatever text without its closing mark follows it.
pub proof fn lemma_unclosed_quote_fails(prefix: Seq<char>, q: char, rest: Seq<char>)
    requires
        scan(prefix).mode == QuoteMode::Normal,
        q == '\'' || q == '"',
        !rest.contains(q),
    ensures
        tokenize(prefix + seq![q] + rest) is None,
{
    let st0 = initial_scan();
    lemma_scan_concat(st0, prefix + seq![q], rest);
    lemma_scan_concat(st0, prefix, seq![q]);
    let opened = scan_from(scan_from(st0, prefix), seq![q]);
    assert(seq![q].drop_last() =~= Seq::<char>::empty());
    assert(scan_from(scan(prefix), Seq::empty()) == scan(prefix));
    assert(opened == step(scan(prefix), q));
    lemma_stays_quoted(opened, q, rest);
}

/// Tokenizing depends on the text alone: two results for the same line are
/// the same arguments, or the same error.
pub proof fn lemma_tokenize_is_pure(
    line: Seq<char>,
    r1: Result<Vec<String>, TokenizeError>,
    r2: Result<Vec<String>, TokenizeError>,
)
    requires
        tokenized_as(line, r1),
        tokenized_as(line, r2),
    ensures
        r1 is Ok <==> r2 is Ok,
        r1 is Ok ==> r1->Ok_0.deep_view() == r2->Ok_0.deep_view(),
        r1 is Err ==> r1 == r2,
{
}

/// Arguments that hold no operator pass through the extraction unchanged.
proof fn lemma_plain_args_kept(args: Seq<Seq<char>>)
    requires
        forall|i: int| 0 <= i < args.len() ==> operator_stream(#[trigger] args[i]) is None,
    ensures
        extract_from(initial_extract(), args) == (ExtractState {
            kept: args,
            stdout: None,
            stderr: None,
            pending: None,
        }),
    decreases args.len(),
{
    if args.len() > 0 {
        lemma_plain_args_kept(args.drop_last());
        assert(args.drop_last().push(args.last()) =~= args);
        assert(operator_stream(args[args.len() - 1]) is None);
    } else {
        assert(args =~= Seq::<Seq<char>>::empty());
    }
}

/// Arguments without operators, followed by one operator and a file name,
/// give back those arguments and that file as the operator's target.
pub proof fn lemma_redirect_round_trip(args: Seq<Seq<char>>, op: Seq<char>, file: Seq<char>)
    requires
        forall|i: int| 0 <= i < args.len() ==> operator_stream(#[trigger] args[i]) is None,
        operator_stream(op) is Some,
    ensures
        extract(args + seq![op, file]) == Some(
            (
                args,
                if operator_stream(op) == Some(Stream::Stdout) {
                    Some(file)
                } else {
                    None
                },
                if operator_stream(op) == Some(Stream::Stderr) {
                    Some(file)
                } else {
                    None
                },
            ),
        ),
{
    lemma_plain_args_kept(args);
    let all = args + seq![op, file];
    assert(all.drop_last() =~= args.push(op));
    assert(all.drop_last().drop_last() =~= args);
    assert(all.last() == file);
    assert(all.drop_last().last() == op);
    let mid = extract_from(initial_extract(), all.drop_last());
    assert(mid == extract_step(extract_from(initial_extract(), args), op));
    assert(extract_from(initial_extract(), all) == extract_step(mid, file));
}

/// The last component of a bare name placed in a directory is that name.
proof fn lemma_last_component_of_join(dir: Seq<char>, name: Seq<char>)
    requires
        is_bare_name(name),
        dir.len() == 0 || dir.last() == '/',
    ensures
        last_component(dir + name) == name,
    decreases name.len(),
{
    if name.len() == 0 {
        assert(dir + name =~= dir);
        if dir.len() > 0 {
            assert(last_component(dir) == Seq::<char>::empty());
        }
    } else {
        let front = name.drop_last();
        assert(!front.contains('/')) by {
            if front.contains('/') {
                let j = choose|j: int| 0 <= j < front.len() && front[j] == '/';
                assert(name[j] == '/');
            }
        }
        lemma_last_component_of_join(dir, front);
        assert((dir + name).drop_last() =~= dir + front);
        assert(name[name.len() - 1] != '/');
        assert((dir + name).last() == name.last());
        assert(front.push(name.last()) =~= name);
    }
}

/// `type` of a bare name that is no builtin and is found on the search
/// path reports `<name> is <path>`, with the path it resolves to.
pub proof fn lemma_type_of_resolvable(listings: Seq<DirListing>, name: Seq<char>, t: TypeTarget)
    requires
        is_bare_name(name),
        builtin_named(name) is None,
        resolve(listings, name) is Some,
        type_target_of(listings, name, t),
    ensures
        type_text(t) == name + " is "@ + resolve(listings, name)->Some_0,
{
    let i = first_listing(listings, name, 0)->Some_0;
    let dir = listings[i].dir@;
    if dir.len() == 0 || dir.last() == '/' {
        lemma_last_component_of_join(dir, name);
    } else {
        lemma_last_component_of_join(dir + seq!['/'], name);
        assert(dir + seq!['/'] + name == (dir + seq!['/']) + name);
    }
}

/// `type` of a builtin's name reports `<name> is a shell builtin`.
pub proof fn lemma_type_of_builtin(listings: Seq<DirListing>, b: Builtin, t: TypeTarget)
    requires
        type_target_of(listings, builtin_name(b), t),
    ensures
        type_text(t) == builtin_name(b) + " is a shell builtin"@,
{
    assert(builtin_named(builtin_name(b)) == Some(b));
}

/// `cd` with no argument goes where `cd ~` goes: to the home directory.
pub proof fn lemma_bare_cd_is_home(home: Option<Seq<char>>)
    ensures
        cd_target(Seq::empty(), home) == cd_target(seq!['~'], home),
        cd_target(seq!['~'], home) == home,
{
}

} // verus!
