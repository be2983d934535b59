//! The argument resolver: turns a raw argument list into a validated
//! configuration.
//!
//! Positional arguments name the sources to print; the lone dash `-` is a
//! positional and stands for standard input, and when no positional is given
//! the file list defaults to that single dash. Two flags select the
//! numbering mode: `-n` / `--number` numbers every line, `-b` /
//! `--number-nonblank` numbers only non-blank lines. The two are mutually
//! exclusive; giving both is a usage error, as is any other argument that
//! starts with a dash.

use crate::line::line_views;
use vstd::prelude::*;
use vstd::string::StringExecFns;
use vstd::string::StrSliceExecFns;

verus! {

/// The validated configuration: the sources to print, in order, and the two
/// numbering flags. At most one flag is set when this comes out of
/// [`get_args`].
#[derive(Debug)]
pub struct Args {
    /// Sources to print, in the order given; `-` stands for standard input.
    pub files: Vec<String>,
    /// Number only the non-blank output lines, starting at 1.
    pub number_nonblank_lines: bool,
    /// Number every output line, starting at 1.
    pub number_lines: bool,
}

/// Why argument resolution failed. Either kind ends the run before any
/// source is touched.
#[derive(Debug)]
pub enum UsageError {
    /// Both numbering flags were given; they are mutually exclusive.
    ConflictingNumberFlags,
    /// An argument began with a dash but is none of the known flags.
    UnrecognizedFlag(String),
}

/// Whether an argument selects non-blank numbering.
pub open spec fn is_b_flag(a: Seq<char>) -> bool {
    a == "-b"@ || a == "--number-nonblank"@
}

/// Whether an argument selects all-lines numbering.
pub open spec fn is_n_flag(a: Seq<char>) -> bool {
    a == "-n"@ || a == "--number"@
}

/// Whether an argument has the shape of a flag: at least two characters,
/// the first a dash. The lone dash is not flag-like; it names standard
/// input.
pub open spec fn is_flag_like(a: Seq<char>) -> bool {
    a.len() >= 2 && a[0] == '-'
}

/// Whether an argument is a positional, that is, names a source.
pub open spec fn is_positional(a: Seq<char>) -> bool {
    !is_flag_like(a)
}

/// Whether an argument looks like a flag but is none the program knows.
pub open spec fn is_unknown_flag(a: Seq<char>) -> bool {
    is_flag_like(a) && !is_b_flag(a) && !is_n_flag(a)
}

/// Whether the argument list selects non-blank numbering somewhere.
pub open spec fn has_b_flag(av: Seq<Seq<char>>) -> bool {
    exists|i: int| 0 <= i < av.len() && is_b_flag(#[trigger] av[i])
}

/// Whether the argument list selects all-lines numbering somewhere.
pub open spec fn has_n_flag(av: Seq<Seq<char>>) -> bool {
    exists|i: int| 0 <= i < av.len() && is_n_flag(#[trigger] av[i])
}

/// Whether the argument list holds an argument no flag matches.
pub open spec fn has_unknown_flag(av: Seq<Seq<char>>) -> bool {
    exists|i: int| 0 <= i < av.len() && is_unknown_flag(#[trigger] av[i])
}

/// The positional arguments of the list, in order.
pub open spec fn positionals(av: Seq<Seq<char>>) -> Seq<Seq<char>>
    decreases av.len(),
{
    if av.len() == 0 {
        Seq::empty()
    } else if is_positional(av.last()) {
        positionals(av.drop_last()).push(av.last())
    } else {
        positionals(av.drop_last())
    }
}

/// The file list the configuration ends up with: the positionals as given,
/// or the single dash, standard input, when there are none.
pub open spec fn resolved_files(av: Seq<Seq<char>>) -> Seq<Seq<char>> {
    if positionals(av).len() == 0 {
        seq!["-"@]
    } else {
        positionals(av)
    }
}

/// Whether the argument list resolves at all: no unknown flag, and not both
/// numbering flags at once.
pub open spec fn resolves(av: Seq<Seq<char>>) -> bool {
    !has_unknown_flag(av) && !(has_b_flag(av) && has_n_flag(av))
}

/// Decides whether an argument has the shape of a flag.
fn arg_is_flag_like(a: &String) -> (r: bool)
    ensures
        r == is_flag_like(a@),
{
    let s = a.as_str();
    if s.unicode_len() < 2 {
        false
    } else {
        s.get_char(0) == '-'
    }
}

/// Resolves a raw argument list (the process arguments after the program
/// name) into a configuration.
///
/// The first argument that looks like a flag without being one is reported
/// as unrecognized; with none such, giving both numbering flags is reported
/// as a conflict; otherwise the configuration carries every positional in
/// order — or the single dash when there is none — and one flag at most.
pub fn get_args(argv: &Vec<String>) -> (r: Result<Args, UsageError>)
    ensures
        r is Ok <==> resolves(line_views(argv@)),
        r matches Ok(a) ==> {
            &&& line_views(a.files@) == resolved_files(line_views(argv@))
            &&& a.number_lines == has_n_flag(line_views(argv@))
            &&& a.number_nonblank_lines == has_b_flag(line_views(argv@))
        },
        has_unknown_flag(line_views(argv@)) ==> (r matches Err(UsageError::UnrecognizedFlag(f))
            && exists|i: int|
            {
                &&& 0 <= i < line_views(argv@).len()
                &&& is_unknown_flag(#[trigger] line_views(argv@)[i])
                &&& f@ == line_views(argv@)[i]
                &&& forall|j: int| 0 <= j < i ==> !is_unknown_flag(#[trigger] line_views(argv@)[j])
            }),
        !has_unknown_flag(line_views(argv@)) && has_b_flag(line_views(argv@)) && has_n_flag(
            line_views(argv@),
        ) ==> r matches Err(UsageError::ConflictingNumberFlags),
{
    let ghost av = line_views(argv@);
    let b_short = String::from_str("-b");
    let b_long = String::from_str("--number-nonblank");
    let n_short = String::from_str("-n");
    let n_long = String::from_str("--number");
    let mut files: Vec<String> = Vec::new();
    let mut number_nonblank = false;
    let mut number_all = false;
    let mut i: usize = 0;
    while i < argv.len()
        invariant
            av == line_views(argv@),
            b_short@ == "-b"@,
            b_long@ == "--number-nonblank"@,
            n_short@ == "-n"@,
            n_long@ == "--number"@,
            0 <= i <= av.len(),
            number_nonblank == has_b_flag(av.take(i as int)),
            number_all == has_n_flag(av.take(i as int)),
            line_views(files@) == positionals(av.take(i as int)),
            forall|j: int| 0 <= j < i ==> !is_unknown_flag(#[trigger] av[j]),
        decreases av.len() - i,
    {
        proof {
            reveal_strlit("-b");
            reveal_strlit("--number-nonblank");
            reveal_strlit("-n");
            reveal_strlit("--number");
            assert("-b"@.len() == 2 && "-b"@[0] == '-' && "-b"@[1] == 'b');
            assert("-n"@.len() == 2 && "-n"@[0] == '-' && "-n"@[1] == 'n');
            assert("--number"@.len() == 8 && "--number"@[0] == '-' && "--number"@[1] == '-');
            assert("--number-nonblank"@.len() == 17 && "--number-nonblank"@[0] == '-'
                && "--number-nonblank"@[1] == '-');
        }
        let a = &argv[i];
        assert(a@ == av[i as int]);
        assert(av.take(i + 1 as int).drop_last() =~= av.take(i as int));
        assert(av.take(i + 1 as int).last() == av[i as int]);
        if *a == b_short || *a == b_long {
            number_nonblank = true;
            assert(is_b_flag(av[i as int]));
            assert(!is_n_flag(av[i as int]));
            assert(!is_positional(av[i as int]));
        } else if *a == n_short || *a == n_long {
            number_all = true;
            assert(is_n_flag(av[i as int]));
            assert(!is_b_flag(av[i as int]));
            assert(!is_positional(av[i as int]));
        } else if arg_is_flag_like(a) {
            assert(is_unknown_flag(av[i as int]));
            return Err(UsageError::UnrecognizedFlag(a.clone()));
        } else {
            files.push(a.clone());
            assert(line_views(files@) =~= positionals(av.take(i as int)).push(a@));
        }
        proof {
            let pre = av.take(i as int);
            let ext = av.take(i + 1 as int);
            assert(forall|j: int| 0 <= j < pre.len() ==> pre[j] == #[trigger] ext[j]);
            if has_b_flag(pre) {
                let w = choose|w: int| 0 <= w < pre.len() && is_b_flag(#[trigger] pre[w]);
                assert(is_b_flag(ext[w]));
            }
            if has_n_flag(pre) {
                let w = choose|w: int| 0 <= w < pre.len() && is_n_flag(#[trigger] pre[w]);
                assert(is_n_flag(ext[w]));
            }
            if has_b_flag(ext) && !is_b_flag(av[i as int]) {
                let w = choose|w: int| 0 <= w < ext.len() && is_b_flag(#[trigger] ext[w]);
                assert(is_b_flag(pre[w]));
            }
            if has_n_flag(ext) && !is_n_flag(av[i as int]) {
                let w = choose|w: int| 0 <= w < ext.len() && is_n_flag(#[trigger] ext[w]);
                assert(is_n_flag(pre[w]));
            }
        }
        i += 1;
    }
    assert(av.take(av.len() as int) =~= av);
    if number_nonblank && number_all {
        return Err(UsageError::ConflictingNumberFlags);
    }
    if files.len() == 0 {
        files.push(String::from_str("-"));
        assert(line_views(files@) =~= seq!["-"@]);
    }
    Ok(Args { files, number_nonblank_lines: number_nonblank, number_lines: number_all })
}

impl UsageError {
    /// A human-readable description of the usage error, for the caller to
    /// report before exiting.
    pub fn message(&self) -> (r: String)
        ensures
            *self is ConflictingNumberFlags ==> r@ == "the options -b and -n cannot be used together"@,
            self matches UsageError::UnrecognizedFlag(f) ==> r@ == "unrecognized option: "@ + f@,
    {
        match self {
            UsageError::ConflictingNumberFlags => String::from_str(
                "the options -b and -n cannot be used together",
            ),
            UsageError::UnrecognizedFlag(f) => String::from_str("unrecognized option: ").concat(
                f.as_str(),
            ),
        }
    }
}

} // verus!
