//! The application's arguments.

use vstd::prelude::*;

use crate::error::joined;
use crate::text::{
    begins_with, chars_of, decimal, ends_with, is_digit, lemma_decimal_is_read_back,
    lemma_ends_of_a_sum, parse_unsigned, text_equal, unsigned_value,
};

verus! {

/// What the foreground should do.
#[derive(Clone, Copy, Debug, PartialEq, Eq, Structural)]
pub enum Mode {
    /// Spawn nothing.
    Foreground,
    /// Spawn one daemon and exchange one message.
    Daemonize,
    /// Spawn `count` daemons, one after the other or all at once.
    SpawnMany { count: usize, concurrent: bool },
    /// Keep two daemons alive and interleave messages to them.
    Interleaved,
}

/// The application's arguments.
#[derive(Debug, PartialEq, Eq)]
pub struct Args {
    pub mode: Mode,
    /// Where to write what was seen.
    pub outfile: Option<String>,
}

/// Why the arguments are refused.
#[derive(Debug, PartialEq, Eq)]
pub enum ArgError {
    /// `--spawn-many` is the last argument.
    MissingCount,
    /// The value of `--spawn-many` is not an integer.
    NotAnInteger(String),
    /// The value of `--spawn-many` is zero.
    ZeroCount,
    /// `--outfile` is the last argument.
    MissingOutfile,
    /// No such argument.
    Unknown(String),
}

/// An `ArgError` with its texts as sequences.
pub enum ArgFault {
    MissingCount,
    NotAnInteger(Seq<char>),
    ZeroCount,
    MissingOutfile,
    Unknown(Seq<char>),
}

impl View for ArgError {
    type V = ArgFault;

    open spec fn view(&self) -> ArgFault {
        match self {
            ArgError::MissingCount => ArgFault::MissingCount,
            ArgError::NotAnInteger(value) => ArgFault::NotAnInteger(value@),
            ArgError::ZeroCount => ArgFault::ZeroCount,
            ArgError::MissingOutfile => ArgFault::MissingOutfile,
            ArgError::Unknown(arg) => ArgFault::Unknown(arg@),
        }
    }
}

/// What the standard library's debug formatting makes of a text: the text in
/// double quotes, with what a reader could not see escaped.
pub uninterp spec fn debug_text_of(text: Seq<char>) -> Seq<char>;

/// The debug formatting of a text, by the standard library's `Debug` for `str`.
#[verifier::external_body]
pub(crate) fn debug_text(text: &str) -> (shown: String)
    ensures
        shown@ == debug_text_of(text@),
{
    format!("{:?}", text)
}

impl ArgError {
    /// What `message` returns.
    pub open spec fn text(&self) -> Seq<char> {
        match self {
            ArgError::MissingCount => "--spawn-many needs a value"@,
            ArgError::NotAnInteger(value) => "--spawn-many needs an integer, got "@ + debug_text_of(
                value@,
            ),
            ArgError::ZeroCount => "--spawn-many needs a positive count"@,
            ArgError::MissingOutfile => "--outfile needs a value"@,
            ArgError::Unknown(arg) => "unknown argument: "@ + arg@,
        }
    }

    /// The error as a sentence.
    pub fn message(&self) -> (text: String)
        ensures
            text@ == self.text(),
    {
        match self {
            ArgError::MissingCount => "--spawn-many needs a value".to_string(),
            ArgError::NotAnInteger(value) => joined(
                "--spawn-many needs an integer, got ",
                debug_text(value.as_str()).as_str(),
            ),
            ArgError::ZeroCount => "--spawn-many needs a positive count".to_string(),
            ArgError::MissingOutfile => "--outfile needs a value".to_string(),
            ArgError::Unknown(arg) => joined("unknown argument: ", arg.as_str()),
        }
    }
}

/// What the arguments have said so far.
pub struct Flags {
    /// The mode of the last mode flag, with no regard to `spawn_many`.
    pub mode: Mode,
    pub spawn_many: Option<usize>,
    pub concurrent: bool,
    pub outfile: Option<Seq<char>>,
}

/// What the arguments have said once `args` are read on top of `flags`.
pub open spec fn read_flags(args: Seq<Seq<char>>, flags: Flags) -> Result<Flags, ArgFault>
    decreases args.len(),
{
    if args.len() == 0 {
        Ok(flags)
    } else {
        let rest = args.subrange(1, args.len() as int);
        if args[0] == "--daemonize"@ {
            read_flags(rest, Flags { mode: Mode::Daemonize, ..flags })
        } else if args[0] == "--spawn-interleaved"@ {
            read_flags(rest, Flags { mode: Mode::Interleaved, ..flags })
        } else if args[0] == "--concurrent"@ {
            read_flags(rest, Flags { concurrent: true, ..flags })
        } else if args[0] == "--spawn-many"@ {
            if rest.len() == 0 {
                Err(ArgFault::MissingCount)
            } else {
                match unsigned_value(rest[0], usize::MAX as nat) {
                    None => Err(ArgFault::NotAnInteger(rest[0])),
                    Some(count) => if count == 0 {
                        Err(ArgFault::ZeroCount)
                    } else {
                        read_flags(
                            rest.subrange(1, rest.len() as int),
                            Flags { spawn_many: Some(count as usize), ..flags },
                        )
                    },
                }
            }
        } else if args[0] == "--outfile"@ {
            if rest.len() == 0 {
                Err(ArgFault::MissingOutfile)
            } else {
                read_flags(
                    rest.subrange(1, rest.len() as int),
                    Flags { outfile: Some(rest[0]), ..flags },
                )
            }
        } else {
            Err(ArgFault::Unknown(args[0]))
        }
    }
}

/// What no arguments say.
pub open spec fn no_flags() -> Flags {
    Flags { mode: Mode::Foreground, spawn_many: None, concurrent: false, outfile: None }
}

/// The mode that the flags select: `--spawn-many` wins over the others.
pub open spec fn selected_mode(flags: Flags) -> Mode {
    match flags.spawn_many {
        Some(count) => Mode::SpawnMany { count, concurrent: flags.concurrent },
        None => flags.mode,
    }
}

/// The arguments as sequences.
pub open spec fn texts(args: Seq<String>) -> Seq<Seq<char>> {
    args.map_values(|arg: String| arg@)
}

/// Parse the arguments, without the name of the program.
pub fn parse_args(args: &Vec<String>) -> (parsed: Result<Args, ArgError>)
    ensures
        match read_flags(texts(args@), no_flags()) {
            Ok(flags) => parsed matches Ok(parsed) && parsed.mode == selected_mode(flags)
                && match parsed.outfile {
                Some(path) => flags.outfile == Some(path@),
                None => flags.outfile is None,
            },
            Err(fault) => parsed matches Err(err) && err@ == fault,
        },
{
    let mut mode = Mode::Foreground;
    let mut spawn_many: Option<usize> = None;
    let mut concurrent = false;
    let mut outfile: Option<String> = None;
    let mut i: usize = 0;
    let ghost all = texts(args@);
    proof {
        assert(all.subrange(0, all.len() as int) =~= all);
    }
    while i < args.len()
        invariant
            i <= args@.len(),
            all == texts(args@),
            read_flags(
                all.subrange(i as int, all.len() as int),
                Flags {
                    mode,
                    spawn_many,
                    concurrent,
                    outfile: match outfile {
                        Some(path) => Some(path@),
                        None => None,
                    },
                },
            ) == read_flags(all, no_flags()),
        decreases args.len() - i,
    {
        let arg = args[i].as_str();
        let ghost here = all.subrange(i as int, all.len() as int);
        let ghost rest = here.subrange(1, here.len() as int);
        proof {
            assert(here[0] == arg@);
            assert(rest =~= all.subrange(i + 1, all.len() as int));
            if rest.len() > 0 {
                assert(rest[0] == args@[i + 1]@);
                assert(rest.subrange(1, rest.len() as int) =~= all.subrange(
                    i + 2,
                    all.len() as int,
                ));
            }
        }
        if text_equal(arg, "--daemonize") {
            mode = Mode::Daemonize;
            i += 1;
        } else if text_equal(arg, "--spawn-interleaved") {
            mode = Mode::Interleaved;
            i += 1;
        } else if text_equal(arg, "--concurrent") {
            concurrent = true;
            i += 1;
        } else if text_equal(arg, "--spawn-many") {
            if i + 1 >= args.len() {
                return Err(ArgError::MissingCount);
            }
            let value = args[i + 1].as_str();
            let digits = chars_of(value);
            match parse_unsigned(digits.as_slice(), usize::MAX as u64) {
                None => {
                    return Err(ArgError::NotAnInteger(value.to_string()));
                },
                Some(count) => {
                    if count == 0 {
                        return Err(ArgError::ZeroCount);
                    }
                    spawn_many = Some(count as usize);
                },
            }
            i += 2;
        } else if text_equal(arg, "--outfile") {
            if i + 1 >= args.len() {
                return Err(ArgError::MissingOutfile);
            }
            outfile = Some(args[i + 1].clone());
            i += 2;
        } else {
            return Err(ArgError::Unknown(arg.to_string()));
        }
    }
    proof {
        assert(all.subrange(i as int, all.len() as int) =~= Seq::empty());
    }
    match spawn_many {
        Some(count) => {
            mode = Mode::SpawnMany { count, concurrent };
        },
        None => {},
    }
    Ok(Args { mode, outfile })
}

proof fn lemma_flags_differ()
    ensures
        "--daemonize"@ != "--spawn-interleaved"@,
        "--daemonize"@ != "--concurrent"@,
        "--daemonize"@ != "--spawn-many"@,
        "--daemonize"@ != "--outfile"@,
        "--spawn-interleaved"@ != "--concurrent"@,
        "--spawn-interleaved"@ != "--spawn-many"@,
        "--spawn-interleaved"@ != "--outfile"@,
        "--concurrent"@ != "--spawn-many"@,
        "--concurrent"@ != "--outfile"@,
        "--spawn-many"@ != "--outfile"@,
{
    reveal_strlit("--daemonize");
    reveal_strlit("--spawn-interleaved");
    reveal_strlit("--concurrent");
    reveal_strlit("--spawn-many");
    reveal_strlit("--outfile");
    assert("--daemonize"@.len() == 11);
    assert("--spawn-interleaved"@.len() == 19);
    assert("--concurrent"@.len() == 12);
    assert("--spawn-many"@.len() == 12);
    assert("--outfile"@.len() == 9);
    assert("--concurrent"@[2] == 'c');
    assert("--spawn-many"@[2] == 's');
}

/// Each flag says what it says wherever it stands, whatever was said before it
/// and whatever follows it: it changes its own setting and no other.
pub proof fn law_each_flag_changes_its_own_setting(
    flags: Flags,
    rest: Seq<Seq<char>>,
    value: Seq<char>,
    count: u64,
)
    requires
        count <= usize::MAX,
    ensures
        read_flags(seq!["--daemonize"@] + rest, flags) == read_flags(
            rest,
            Flags { mode: Mode::Daemonize, ..flags },
        ),
        read_flags(seq!["--spawn-interleaved"@] + rest, flags) == read_flags(
            rest,
            Flags { mode: Mode::Interleaved, ..flags },
        ),
        read_flags(seq!["--concurrent"@] + rest, flags) == read_flags(
            rest,
            Flags { concurrent: true, ..flags },
        ),
        read_flags(seq!["--outfile"@, value] + rest, flags) == read_flags(
            rest,
            Flags { outfile: Some(value), ..flags },
        ),
        count > 0 ==> read_flags(seq!["--spawn-many"@, decimal(count as nat)] + rest, flags)
            == read_flags(rest, Flags { spawn_many: Some(count as usize), ..flags }),
        count == 0 ==> read_flags(seq!["--spawn-many"@, decimal(count as nat)] + rest, flags) == Err::<
            Flags,
            ArgFault,
        >(ArgFault::ZeroCount),
        read_flags(Seq::empty(), flags) == Ok::<Flags, ArgFault>(flags),
{
    lemma_flags_differ();
    let one = seq!["--daemonize"@] + rest;
    assert(one.subrange(1, one.len() as int) =~= rest);
    let one = seq!["--spawn-interleaved"@] + rest;
    assert(one.subrange(1, one.len() as int) =~= rest);
    let one = seq!["--concurrent"@] + rest;
    assert(one.subrange(1, one.len() as int) =~= rest);
    let two = seq!["--outfile"@, value] + rest;
    let tail = two.subrange(1, two.len() as int);
    assert(tail[0] == value);
    assert(tail.subrange(1, tail.len() as int) =~= rest);
    let two = seq!["--spawn-many"@, decimal(count as nat)] + rest;
    let tail = two.subrange(1, two.len() as int);
    assert(tail[0] == decimal(count as nat));
    assert(tail.subrange(1, tail.len() as int) =~= rest);
    lemma_decimal_is_read_back(count as nat, usize::MAX as nat);
}

/// What is no flag is refused by its own words, at the place where it stands; so
/// is a flag whose value is missing, and a count that is no number.
pub proof fn law_what_is_no_flag_is_refused(
    flags: Flags,
    arg: Seq<char>,
    rest: Seq<Seq<char>>,
    value: Seq<char>,
)
    ensures
        arg != "--daemonize"@ && arg != "--spawn-interleaved"@ && arg != "--concurrent"@ && arg
            != "--spawn-many"@ && arg != "--outfile"@ ==> read_flags(seq![arg] + rest, flags) == Err::<
            Flags,
            ArgFault,
        >(ArgFault::Unknown(arg)),
        read_flags(seq!["--outfile"@], flags) == Err::<Flags, ArgFault>(ArgFault::MissingOutfile),
        read_flags(seq!["--spawn-many"@], flags) == Err::<Flags, ArgFault>(ArgFault::MissingCount),
        value.len() == 0 || (value[0] != '+' && !('0' <= value[0] <= '9')) ==> read_flags(
            seq!["--spawn-many"@, value] + rest,
            flags,
        ) == Err::<Flags, ArgFault>(ArgFault::NotAnInteger(value)),
{
    lemma_flags_differ();
    let one = seq![arg] + rest;
    assert(one[0] == arg);
    assert(seq!["--outfile"@].subrange(1, 1) =~= Seq::empty());
    assert(seq!["--spawn-many"@].subrange(1, 1) =~= Seq::empty());
    let two = seq!["--spawn-many"@, value] + rest;
    assert(two[0] == "--spawn-many"@);
    let tail = two.subrange(1, two.len() as int);
    assert(tail[0] == value);
    if value.len() > 0 {
        assert(is_digit(value[0]) == ('0' <= value[0] <= '9'));
    }
}

/// A count selects many daemons whatever else was said, one after the other or
/// all at once as was asked; without one the mode is the one that was named last,
/// and the foreground where none was.
pub proof fn law_count_selects_many_daemons(flags: Flags, mode: Mode)
    ensures
        flags.spawn_many matches Some(count) ==> (selected_mode(flags) matches Mode::SpawnMany {
            count: c,
            concurrent,
        } && c == count && concurrent == flags.concurrent),
        flags.spawn_many is None ==> selected_mode(flags) == flags.mode,
        no_flags().mode == Mode::Foreground,
        no_flags().spawn_many is None,
        no_flags().outfile is None,
        !no_flags().concurrent,
{
}

/// The order of the arguments makes no difference to what is run: many daemons
/// are run all at once wherever `--concurrent` stands.
pub proof fn law_order_of_arguments_makes_no_difference(
    count: usize,
    path: Seq<char>,
    first: &Vec<String>,
    last: &Vec<String>,
    from_first: Result<Args, ArgError>,
    from_last: Result<Args, ArgError>,
)
    requires
        0 < count <= u64::MAX,
        texts(first@) == seq![
            "--concurrent"@,
            "--outfile"@,
            path,
            "--spawn-many"@,
            decimal(count as nat),
        ],
        texts(last@) == seq![
            "--spawn-many"@,
            decimal(count as nat),
            "--outfile"@,
            path,
            "--concurrent"@,
        ],
        call_ensures(parse_args, (first,), from_first),
        call_ensures(parse_args, (last,), from_last),
    ensures
        from_first matches Ok(args) && args.mode == (Mode::SpawnMany { count, concurrent: true })
            && args.outfile is Some && args.outfile->Some_0@ == path,
        from_last matches Ok(args) && args.mode == (Mode::SpawnMany { count, concurrent: true })
            && args.outfile is Some && args.outfile->Some_0@ == path,
{
    let f = no_flags();
    let n = decimal(count as nat);
    let c = count as u64;
    let none = Seq::<Seq<char>>::empty();
    let a1 = seq!["--outfile"@, path, "--spawn-many"@, n];
    let a2 = seq!["--spawn-many"@, n];
    assert(texts(first@) =~= seq!["--concurrent"@] + a1);
    assert(a1 =~= seq!["--outfile"@, path] + a2);
    assert(a2 =~= seq!["--spawn-many"@, n] + none);
    let f1 = Flags { concurrent: true, ..f };
    let f2 = Flags { outfile: Some(path), ..f1 };
    let f3 = Flags { spawn_many: Some(count), ..f2 };
    law_each_flag_changes_its_own_setting(f, a1, path, c);
    law_each_flag_changes_its_own_setting(f1, a2, path, c);
    law_each_flag_changes_its_own_setting(f2, none, path, c);
    law_each_flag_changes_its_own_setting(f3, none, path, c);
    let b1 = seq!["--outfile"@, path, "--concurrent"@];
    let b2 = seq!["--concurrent"@];
    assert(texts(last@) =~= seq!["--spawn-many"@, n] + b1);
    assert(b1 =~= seq!["--outfile"@, path] + b2);
    assert(b2 =~= seq!["--concurrent"@] + none);
    let g1 = Flags { spawn_many: Some(count), ..f };
    let g2 = Flags { outfile: Some(path), ..g1 };
    let g3 = Flags { concurrent: true, ..g2 };
    law_each_flag_changes_its_own_setting(f, b1, path, c);
    law_each_flag_changes_its_own_setting(g1, b2, path, c);
    law_each_flag_changes_its_own_setting(g2, none, path, c);
    law_each_flag_changes_its_own_setting(g3, none, path, c);
}

/// What is refused is shown to its reader: an argument that is unknown in its own
/// words, and a count that is no number as it was given.
pub proof fn law_refusal_shows_what_is_refused(err: &ArgError, text: String)
    requires
        call_ensures(ArgError::message, (err,), text),
    ensures
        err matches ArgError::Unknown(arg) ==> ends_with(text@, arg@),
        err matches ArgError::NotAnInteger(value) ==> ends_with(text@, debug_text_of(value@)),
        err is MissingCount || err is NotAnInteger || err is ZeroCount ==> begins_with(
            text@,
            "--spawn-many needs a"@,
        ),
        err is MissingOutfile ==> begins_with(text@, "--outfile needs a"@),
{
    reveal_strlit("--spawn-many needs a");
    reveal_strlit("--outfile needs a");
    match err {
        ArgError::Unknown(arg) => {
            lemma_ends_of_a_sum("unknown argument: "@, arg@);
        },
        ArgError::NotAnInteger(value) => {
            lemma_ends_of_a_sum("--spawn-many needs an integer, got "@, debug_text_of(value@));
            reveal_strlit("--spawn-many needs an integer, got ");
            assert(text@.subrange(0, 20) =~= "--spawn-many needs a"@);
        },
        ArgError::MissingCount => {
            reveal_strlit("--spawn-many needs a value");
            assert(text@.subrange(0, 20) =~= "--spawn-many needs a"@);
        },
        ArgError::ZeroCount => {
            reveal_strlit("--spawn-many needs a positive count");
            assert(text@.subrange(0, 20) =~= "--spawn-many needs a"@);
        },
        ArgError::MissingOutfile => {
            reveal_strlit("--outfile needs a value");
            assert(text@.subrange(0, 17) =~= "--outfile needs a"@);
        },
    }
}

/// Every list of arguments is parsed, or refused.
pub proof fn law_every_argument_list_is_parsed(args: &Vec<String>)
    ensures
        call_requires(parse_args, (args,)),
{
}

} // verus!
