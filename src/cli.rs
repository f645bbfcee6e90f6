//! The commands the program accepts.
use vstd::prelude::*;

verus! {

/// The parsed command line.
pub struct Cli {
    pub command: Option<Cmd>,
}

/// The top-level commands.
pub enum Cmd {
    Serve,
    User(User),
}

/// The user administration command.
pub struct User {
    pub command: UserCmd,
}

/// The user administration subcommands.
pub enum UserCmd {
    List,
    Create { name: String, admin: bool },
    Tokens { name: String },
    NewToken { name: String, title: String },
    DeleteToken { name: String, token: String },
}

} // verus!
