//! Choosing the front end from the command line.

use vstd::prelude::*;

verus! {

/// The toolkits a front end exists for.
#[derive(Clone, Copy, Debug, PartialEq, Eq, Structural)]
pub enum Framework {
    Iced,
    Egui,
    Slint,
}

/// Why no front end was chosen.
#[derive(Clone, Copy, Debug, PartialEq, Eq, Structural)]
pub enum SelectError {
    /// The command line holds no argument after the program's name.
    WrongNumberOfArguments,
    /// The argument names no known toolkit.
    NotSupported,
}

/// The toolkit that a name stands for, if any. Names are matched exactly.
pub open spec fn framework_named(name: Seq<char>) -> Option<Framework> {
    if name == "iced"@ {
        Some(Framework::Iced)
    } else if name == "egui"@ {
        Some(Framework::Egui)
    } else if name == "slint"@ {
        Some(Framework::Slint)
    } else {
        None
    }
}

/// What a whole command line, program name first, selects: the first argument
/// decides, later ones are ignored.
pub open spec fn selection(args: Seq<String>) -> Result<Framework, SelectError> {
    if args.len() < 2 {
        Err(SelectError::WrongNumberOfArguments)
    } else {
        match framework_named(args[1]@) {
            Some(framework) => Ok(framework),
            None => Err(SelectError::NotSupported),
        }
    }
}

/// The toolkit that `name` stands for, `None` for any other string.
pub fn parse_framework(name: &String) -> (framework: Option<Framework>)
    ensures
        framework == framework_named(name@),
{
    let iced: String = "iced".to_owned();
    let egui: String = "egui".to_owned();
    let slint: String = "slint".to_owned();
    if *name == iced {
        Some(Framework::Iced)
    } else if *name == egui {
        Some(Framework::Egui)
    } else if *name == slint {
        Some(Framework::Slint)
    } else {
        None
    }
}

/// Chooses the front end for a command line, program name first.
pub fn select(args: &Vec<String>) -> (choice: Result<Framework, SelectError>)
    ensures
        choice == selection(args@),
{
    if args.len() < 2 {
        Err(SelectError::WrongNumberOfArguments)
    } else {
        match parse_framework(&args[1]) {
            Some(framework) => Ok(framework),
            None => Err(SelectError::NotSupported),
        }
    }
}

/// The three names are told apart, each selecting its own toolkit, and no
/// name of another length than theirs selects any.
pub proof fn names_are_distinct()
    ensures
        framework_named("iced"@) == Some(Framework::Iced),
        framework_named("egui"@) == Some(Framework::Egui),
        framework_named("slint"@) == Some(Framework::Slint),
        forall|name: Seq<char>|
            name.len() != 4 && name.len() != 5 ==> #[trigger] framework_named(name) == None::<Framework>,
{
    reveal_strlit("iced");
    reveal_strlit("egui");
    reveal_strlit("slint");
    assert("egui"@[0] != "iced"@[0]);
}

} // verus!
