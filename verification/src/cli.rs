use vstd::prelude::*;
use vstd::string::StringExecFns;
use crate::error::AppError;
use crate::launcher::texts;

verus! {

/// What the command line asks of the manager.
#[derive(Debug, Clone, PartialEq, Eq)]
pub enum CliDispatch {
    ManagerEntry,
    ManagerHelp,
    ManagerVersion,
    Passthrough(Vec<String>),
}

pub enum DispatchView {
    ManagerEntry,
    ManagerHelp,
    ManagerVersion,
    Passthrough(Seq<Seq<char>>),
}

impl View for CliDispatch {
    type V = DispatchView;

    open spec fn view(&self) -> DispatchView {
        match self {
            CliDispatch::ManagerEntry => DispatchView::ManagerEntry,
            CliDispatch::ManagerHelp => DispatchView::ManagerHelp,
            CliDispatch::ManagerVersion => DispatchView::ManagerVersion,
            CliDispatch::Passthrough(v) => DispatchView::Passthrough(texts(v@)),
        }
    }
}

pub open spec fn extra_args_text() -> Seq<char> {
    "manager help/version does not accept extra args; use '+' to forward them to codex"@
}

pub open spec fn utf8_text() -> Seq<char> {
    "arguments must be valid UTF-8"@
}

/// An argument as the program received it: its text, or `None` when it is
/// not valid UTF-8.
pub open spec fn arg_views(args: Seq<Option<String>>) -> Seq<Option<Seq<char>>> {
    args.map_values(
        |a: Option<String>|
            match a {
                Some(s) => Some(s@),
                None => None,
            },
    )
}

pub open spec fn is_help(a: Option<Seq<char>>) -> bool {
    a == Some("help"@) || a == Some("--help"@) || a == Some("-h"@)
}

pub open spec fn is_version(a: Option<Seq<char>>) -> bool {
    a == Some("version"@) || a == Some("--version"@) || a == Some("-V"@)
}

/// All arguments as texts, or `None` if one is not valid UTF-8.
pub open spec fn all_texts(args: Seq<Option<Seq<char>>>) -> Option<Seq<Seq<char>>> {
    if forall|i: int| 0 <= i < args.len() ==> (#[trigger] args[i]) is Some {
        Some(args.map_values(|a: Option<Seq<char>>| a->0))
    } else {
        None
    }
}

pub open spec fn passthrough_of(args: Seq<Option<Seq<char>>>) -> Result<DispatchView, Seq<char>> {
    match all_texts(args) {
        Some(ts) => Ok(DispatchView::Passthrough(ts)),
        None => Err(utf8_text()),
    }
}

/// The dispatch for a full command line (program name first): nothing after
/// the program opens the manager; `+` forwards everything after it to codex;
/// a lone help or version word asks the manager for that, and any word after
/// it is refused; anything else goes to codex unchanged.
pub open spec fn classify(args: Seq<Option<Seq<char>>>) -> Result<DispatchView, Seq<char>> {
    let tail = if args.len() > 0 {
        args.drop_first()
    } else {
        args
    };
    if tail.len() == 0 {
        Ok(DispatchView::ManagerEntry)
    } else if tail[0] == Some("+"@) {
        passthrough_of(tail.drop_first())
    } else if is_help(tail[0]) {
        if tail.len() == 1 {
            Ok(DispatchView::ManagerHelp)
        } else {
            Err(extra_args_text())
        }
    } else if is_version(tail[0]) {
        if tail.len() == 1 {
            Ok(DispatchView::ManagerVersion)
        } else {
            Err(extra_args_text())
        }
    } else {
        passthrough_of(tail)
    }
}

fn classify_manager_command(dispatch: CliDispatch, arg_count: usize) -> (r: Result<
    CliDispatch,
    AppError,
>)
    ensures
        arg_count == 1 ==> r == Ok::<CliDispatch, AppError>(dispatch),
        arg_count != 1 ==> (r matches Err(e) && e is Message && e.text() == extra_args_text()),
{
    if arg_count == 1 {
        Ok(dispatch)
    } else {
        Err(
            AppError::validation(
                String::from_str(
                    "manager help/version does not accept extra args; use '+' to forward them to codex",
                ),
            ),
        )
    }
}

fn opt_is(a: &Option<String>, word: &str) -> (b: bool)
    ensures
        b == (arg_views(seq![*a])[0] == Some(word@)),
{
    match a {
        Some(s) => *s == String::from_str(word),
        None => false,
    }
}

fn is_help_token(a: &Option<String>) -> (b: bool)
    ensures
        b == is_help(arg_views(seq![*a])[0]),
{
    opt_is(a, "help") || opt_is(a, "--help") || opt_is(a, "-h")
}

fn is_version_token(a: &Option<String>) -> (b: bool)
    ensures
        b == is_version(arg_views(seq![*a])[0]),
{
    opt_is(a, "version") || opt_is(a, "--version") || opt_is(a, "-V")
}

/// The arguments from position `from` on, as texts.
fn strings_from(args: &Vec<Option<String>>, from: usize) -> (r: Result<Vec<String>, AppError>)
    requires
        from <= args@.len(),
    ensures
        passthrough_of(arg_views(args@).subrange(from as int, args@.len() as int)) == match r {
            Ok(v) => Ok(DispatchView::Passthrough(texts(v@))),
            Err(e) => Err(e.text()),
        },
        r matches Err(e) ==> e is Message,
{
    let ghost all = arg_views(args@);
    let ghost part = all.subrange(from as int, args@.len() as int);
    let mut out: Vec<String> = Vec::new();
    let mut i: usize = from;
    while i < args.len()
        invariant
            from <= i <= args@.len(),
            all == arg_views(args@),
            part == all.subrange(from as int, args@.len() as int),
            out@.len() == i - from,
            forall|j: int| 0 <= j < i - from ==> (#[trigger] part[j]) is Some && part[j]->0
                == out@[j]@,
        decreases args@.len() - i,
    {
        match &args[i] {
            Some(s) => {
                out.push(s.clone());
            },
            None => {
                assert(part[i - from] is None);
                return Err(AppError::validation(String::from_str("arguments must be valid UTF-8")));
            },
        }
        i = i + 1;
    }
    assert(texts(out@) =~= part.map_values(|a: Option<Seq<char>>| a->0));
    Ok(out)
}

/// Decides what a command line (program name first) asks for.
pub fn classify_args(args: Vec<Option<String>>) -> (r: Result<CliDispatch, AppError>)
    ensures
        classify(arg_views(args@)) == match r {
            Ok(d) => Ok(d@),
            Err(e) => Err(e.text()),
        },
        r matches Err(e) ==> e is Message,
{
    let ghost all = arg_views(args@);
    if args.len() <= 1 {
        return Ok(CliDispatch::ManagerEntry);
    }
    let ghost tail = all.drop_first();
    assert(tail[0] == all[1]);
    assert(arg_views(seq![args[1]])[0] == all[1]);
    if opt_is(&args[1], "+") {
        let r = strings_from(&args, 2);
        assert(all.subrange(2, args@.len() as int) =~= tail.drop_first());
        return match r {
            Ok(v) => Ok(CliDispatch::Passthrough(v)),
            Err(e) => Err(e),
        };
    }
    if is_help_token(&args[1]) {
        return classify_manager_command(CliDispatch::ManagerHelp, args.len() - 1);
    }
    if is_version_token(&args[1]) {
        return classify_manager_command(CliDispatch::ManagerVersion, args.len() - 1);
    }
    let r = strings_from(&args, 1);
    assert(all.subrange(1, args@.len() as int) =~= tail);
    match r {
        Ok(v) => Ok(CliDispatch::Passthrough(v)),
        Err(e) => Err(e),
    }
}

} // verus!
