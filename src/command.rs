use vstd::prelude::*;

verus! {

/// The commands the front-end can invoke by name.
#[derive(Clone, Copy, Debug, PartialEq, Eq, Structural)]
pub enum Command {
    MinimizeWindow,
    MaximizeWindow,
    CloseWindow,
    IsMaximized,
    CreateNewWindow,
}

/// The name under which the front-end invokes `c`.
pub open spec fn command_name(c: Command) -> Seq<char> {
    match c {
        Command::MinimizeWindow => "minimize_window"@,
        Command::MaximizeWindow => "maximize_window"@,
        Command::CloseWindow => "close_window"@,
        Command::IsMaximized => "is_maximized"@,
        Command::CreateNewWindow => "create_new_window"@,
    }
}

/// The command registered under `name`, if any: exactly the five names above
/// reach a handler, and every other name is unknown.
pub open spec fn command_named(name: Seq<char>) -> Option<Command> {
    if name == "minimize_window"@ {
        Some(Command::MinimizeWindow)
    } else if name == "maximize_window"@ {
        Some(Command::MaximizeWindow)
    } else if name == "close_window"@ {
        Some(Command::CloseWindow)
    } else if name == "is_maximized"@ {
        Some(Command::IsMaximized)
    } else if name == "create_new_window"@ {
        Some(Command::CreateNewWindow)
    } else {
        None
    }
}

fn same_text(a: &str, b: &str) -> (r: bool)
    ensures
        r == (a@ == b@),
{
    String::from_str(a) == String::from_str(b)
}

impl Command {
    /// The name under which the front-end invokes this command.
    pub fn name(&self) -> (r: &'static str)
        ensures
            r@ == command_name(*self),
    {
        match self {
            Command::MinimizeWindow => "minimize_window",
            Command::MaximizeWindow => "maximize_window",
            Command::CloseWindow => "close_window",
            Command::IsMaximized => "is_maximized",
            Command::CreateNewWindow => "create_new_window",
        }
    }

    /// Looks a command up by the name the front-end invoked.
    pub fn from_name(name: &str) -> (r: Option<Command>)
        ensures
            r == command_named(name@),
    {
        if same_text(name, "minimize_window") {
            Some(Command::MinimizeWindow)
        } else if same_text(name, "maximize_window") {
            Some(Command::MaximizeWindow)
        } else if same_text(name, "close_window") {
            Some(Command::CloseWindow)
        } else if same_text(name, "is_maximized") {
            Some(Command::IsMaximized)
        } else if same_text(name, "create_new_window") {
            Some(Command::CreateNewWindow)
        } else {
            None
        }
    }
}

/// Each command's own name leads back to it, so all five are reachable and no
/// two share a name.
pub proof fn lemma_command_names_round_trip(c: Command)
    ensures
        command_named(command_name(c)) == Some(c),
{
    reveal_strlit("minimize_window");
    reveal_strlit("maximize_window");
    reveal_strlit("close_window");
    reveal_strlit("is_maximized");
    reveal_strlit("create_new_window");
    assert("minimize_window"@[1] != "maximize_window"@[1]);
    assert("close_window"@[0] != "is_maximized"@[0]);
    assert("minimize_window"@.len() != "close_window"@.len());
    assert("minimize_window"@.len() != "create_new_window"@.len());
    assert("close_window"@.len() != "create_new_window"@.len());
}

/// A name reaches a handler exactly when it is the name of one of the commands;
/// any other name is unknown.
pub proof fn lemma_only_command_names_registered(name: Seq<char>)
    ensures
        command_named(name) is Some <==> exists|c: Command| command_name(c) == name,
{
    if command_named(name) is Some {
        assert(command_name(command_named(name)->Some_0) == name);
    } else {
        assert forall|c: Command| command_name(c) != name by {
            lemma_command_names_round_trip(c);
        }
    }
}

} // verus!
