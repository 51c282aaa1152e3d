//! The command line: which register to decode, how much to show, and the
//! value.
//!
//! After the program's name the arguments are `[-v] <value>`,
//! `[-v] midr <value>` or `[-v] smccc <value>`. Anything else is refused.

use vstd::prelude::*;
use vstd::string::StringExecFns;

verus! {

/// The register that a value is decoded as.
#[derive(Clone, Copy, Debug, PartialEq, Eq, Structural)]
pub enum Mode {
    /// An Exception Syndrome Register value.
    Esr,
    /// A Main ID Register value.
    Midr,
    /// An SMC Calling Convention function ID.
    Smccc,
}

/// What the command line asks for.
#[derive(Clone, Debug, PartialEq, Eq)]
pub struct Args {
    /// Whether long names are shown.
    pub verbose: bool,
    /// The register to decode.
    pub mode: Mode,
    /// The value, as it was typed.
    pub value: String,
}

/// The mathematical value of [`Args`].
pub ghost struct ArgsModel {
    pub verbose: bool,
    pub mode: Mode,
    pub value: Seq<char>,
}

impl View for Args {
    type V = ArgsModel;

    open spec fn view(&self) -> ArgsModel {
        ArgsModel { verbose: self.verbose, mode: self.mode, value: self.value@ }
    }
}

/// The exit code of a command line that was refused.
pub const USAGE_EXIT_CODE: i32 = 1;

/// The register that a word selects, if it is one of the words that do.
pub open spec fn mode_word(word: Seq<char>) -> Option<Mode> {
    if word == "midr"@ {
        Some(Mode::Midr)
    } else if word == "smccc"@ {
        Some(Mode::Smccc)
    } else {
        None
    }
}

/// What the arguments ask for, the program's name first, or `None` where
/// they have none of the accepted shapes.
///
/// With one argument after the name it is an ESR value. With two, the first
/// is `-v`, `midr` or `smccc`. With three, the first is `-v` and the second
/// `midr` or `smccc`.
pub open spec fn resolved(argv: Seq<Seq<char>>) -> Option<ArgsModel> {
    if argv.len() == 2 {
        Some(ArgsModel { verbose: false, mode: Mode::Esr, value: argv[1] })
    } else if argv.len() == 3 {
        if argv[1] == "-v"@ {
            Some(ArgsModel { verbose: true, mode: Mode::Esr, value: argv[2] })
        } else {
            match mode_word(argv[1]) {
                Some(mode) => Some(ArgsModel { verbose: false, mode, value: argv[2] }),
                None => None,
            }
        }
    } else if argv.len() == 4 && argv[1] == "-v"@ {
        match mode_word(argv[2]) {
            Some(mode) => Some(ArgsModel { verbose: true, mode, value: argv[3] }),
            None => None,
        }
    } else {
        None
    }
}

/// The words of the command line differ from one another.
pub proof fn lemma_words_differ()
    ensures
        "-v"@ != "midr"@,
        "-v"@ != "smccc"@,
        "midr"@ != "smccc"@,
{
    reveal_strlit("-v");
    reveal_strlit("midr");
    reveal_strlit("smccc");
    assert("midr"@.len() == 4);
    assert("smccc"@.len() == 5);
}

/// Each accepted shape gives the register and the verbosity that belong to
/// it, and the last argument as the value, whatever the program's name and
/// the value are.
pub proof fn lemma_accepted_shapes(program: Seq<char>, value: Seq<char>)
    ensures
        resolved(seq![program, value]) == Some(
            ArgsModel { verbose: false, mode: Mode::Esr, value },
        ),
        resolved(seq![program, "-v"@, value]) == Some(
            ArgsModel { verbose: true, mode: Mode::Esr, value },
        ),
        resolved(seq![program, "midr"@, value]) == Some(
            ArgsModel { verbose: false, mode: Mode::Midr, value },
        ),
        resolved(seq![program, "-v"@, "midr"@, value]) == Some(
            ArgsModel { verbose: true, mode: Mode::Midr, value },
        ),
        resolved(seq![program, "smccc"@, value]) == Some(
            ArgsModel { verbose: false, mode: Mode::Smccc, value },
        ),
        resolved(seq![program, "-v"@, "smccc"@, value]) == Some(
            ArgsModel { verbose: true, mode: Mode::Smccc, value },
        ),
{
    lemma_words_differ();
}

/// Whether the arguments, the program's name first, have one of the
/// accepted shapes.
pub open spec fn has_accepted_shape(argv: Seq<Seq<char>>) -> bool {
    ||| argv.len() == 2
    ||| argv.len() == 3 && (argv[1] == "-v"@ || argv[1] == "midr"@ || argv[1] == "smccc"@)
    ||| argv.len() == 4 && argv[1] == "-v"@ && (argv[2] == "midr"@ || argv[2] == "smccc"@)
}

/// Arguments are resolved exactly when they have an accepted shape: no
/// arguments at all, too many, or `-v` anywhere but in front are refused.
pub proof fn lemma_refused_shapes(argv: Seq<Seq<char>>)
    ensures
        resolved(argv) is Some <==> has_accepted_shape(argv),
        argv.len() < 2 || argv.len() > 4 ==> resolved(argv) is None,
        argv.len() == 4 && argv[1] != "-v"@ ==> resolved(argv) is None,
{
}

/// Whether the argument is the given word.
fn is_word(arg: &String, word: &str) -> (same: bool)
    ensures
        same == (arg@ == word@),
{
    let expected = word.to_owned();
    *arg == expected
}

/// The register that the argument selects, if it selects one.
fn mode_of(arg: &String) -> (mode: Option<Mode>)
    ensures
        mode == mode_word(arg@),
{
    if is_word(arg, "midr") {
        Some(Mode::Midr)
    } else if is_word(arg, "smccc") {
        Some(Mode::Smccc)
    } else {
        None
    }
}

/// Resolves the arguments of the process, the program's name first, into
/// what they ask for, or into the exit code 1 where they have none of the
/// accepted shapes.
pub fn parse_args(argv: &Vec<String>) -> (result: Result<Args, i32>)
    ensures
        match resolved(argv.deep_view()) {
            Some(args) => result is Ok && result->Ok_0@ == args,
            None => result == Err::<Args, i32>(USAGE_EXIT_CODE),
        },
{
    if argv.len() == 2 {
        Ok(Args { verbose: false, mode: Mode::Esr, value: argv[1].clone() })
    } else if argv.len() == 3 {
        if is_word(&argv[1], "-v") {
            Ok(Args { verbose: true, mode: Mode::Esr, value: argv[2].clone() })
        } else {
            match mode_of(&argv[1]) {
                Some(mode) => Ok(Args { verbose: false, mode, value: argv[2].clone() }),
                None => Err(USAGE_EXIT_CODE),
            }
        }
    } else if argv.len() == 4 && is_word(&argv[1], "-v") {
        match mode_of(&argv[2]) {
            Some(mode) => Ok(Args { verbose: true, mode, value: argv[3].clone() }),
            None => Err(USAGE_EXIT_CODE),
        }
    } else {
        Err(USAGE_EXIT_CODE)
    }
}

/// The lines that tell how the program is called: a heading, then one line
/// for each register, each with the program's name.
pub open spec fn usage_text(program: Seq<char>) -> Seq<Seq<char>> {
    seq![
        "Usage:"@,
        "  "@ + program + " [-v] <ESR value>"@,
        "  "@ + program + " [-v] midr <MIDR value>"@,
        "  "@ + program + " [-v] smccc <SMCCC function ID>"@,
    ]
}

/// One line of the usage text: the program's name, then the form.
fn usage_line(program: &str, form: &str) -> (line: String)
    ensures
        line@ == "  "@ + program@ + form@,
{
    let mut line = "  ".to_owned();
    line.append(program);
    line.append(form);
    line
}

/// The usage text for a command line that was refused.
pub fn usage_lines(program: &str) -> (lines: Vec<String>)
    ensures
        lines.deep_view() == usage_text(program@),
{
    let mut lines: Vec<String> = Vec::new();
    lines.push("Usage:".to_owned());
    lines.push(usage_line(program, " [-v] <ESR value>"));
    lines.push(usage_line(program, " [-v] midr <MIDR value>"));
    lines.push(usage_line(program, " [-v] smccc <SMCCC function ID>"));
    lines
}

} // verus!
