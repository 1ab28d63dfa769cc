//! The command set the bot registers, as static metadata: declared once at
//! startup, registered with one community, immutable for the process
//! lifetime.

use vstd::prelude::*;
use vstd::string::*;

verus! {

/// The type of one command parameter, as the platform types it.
#[derive(Clone, Copy, PartialEq, Eq, Structural, Debug)]
pub enum ParamKind {
    Integer,
    Text,
    Boolean,
    UserRef,
}

/// One declared parameter of a command.
pub struct ParamDescriptor {
    pub name: String,
    pub kind: ParamKind,
    pub required: bool,
}

/// One command as it is registered: its name, its declared parameters, and
/// the invocation styles it answers to.
pub struct CommandDescriptor {
    pub name: String,
    pub params: Vec<ParamDescriptor>,
    /// Answers slash-style invocation.
    pub slash: bool,
    /// Answers prefix-style invocation.
    pub prefix: bool,
}

/// The full command set: `ping` with no parameter, `roll` with an optional
/// integer side count, `thread` with a required name and an optional privacy
/// flag, and `age` with an optional user reference. Every command is
/// registered for both invocation styles.
pub fn command_set() -> (cs: Vec<CommandDescriptor>)
    ensures
        cs@.len() == 4,
        forall|i: int| 0 <= i < cs@.len() ==> #[trigger] cs@[i].slash && cs@[i].prefix,
        cs@[0].name@ == "ping"@,
        cs@[0].params@.len() == 0,
        cs@[1].name@ == "roll"@,
        cs@[1].params@.len() == 1,
        cs@[1].params@[0].name@ == "sides"@,
        cs@[1].params@[0].kind == ParamKind::Integer,
        !cs@[1].params@[0].required,
        cs@[2].name@ == "thread"@,
        cs@[2].params@.len() == 2,
        cs@[2].params@[0].name@ == "name"@,
        cs@[2].params@[0].kind == ParamKind::Text,
        cs@[2].params@[0].required,
        cs@[2].params@[1].name@ == "private"@,
        cs@[2].params@[1].kind == ParamKind::Boolean,
        !cs@[2].params@[1].required,
        cs@[3].name@ == "age"@,
        cs@[3].params@.len() == 1,
        cs@[3].params@[0].name@ == "user"@,
        cs@[3].params@[0].kind == ParamKind::UserRef,
        !cs@[3].params@[0].required,
{
    let ping = CommandDescriptor {
        name: String::from_str("ping"),
        params: Vec::new(),
        slash: true,
        prefix: true,
    };
    let roll = CommandDescriptor {
        name: String::from_str("roll"),
        slash: true,
        prefix: true,
        params: vec![
            ParamDescriptor {
                name: String::from_str("sides"),
                kind: ParamKind::Integer,
                required: false,
            },
        ],
    };
    let thread = CommandDescriptor {
        name: String::from_str("thread"),
        slash: true,
        prefix: true,
        params: vec![
            ParamDescriptor {
                name: String::from_str("name"),
                kind: ParamKind::Text,
                required: true,
            },
            ParamDescriptor {
                name: String::from_str("private"),
                kind: ParamKind::Boolean,
                required: false,
            },
        ],
    };
    let age = CommandDescriptor {
        name: String::from_str("age"),
        slash: true,
        prefix: true,
        params: vec![
            ParamDescriptor {
                name: String::from_str("user"),
                kind: ParamKind::UserRef,
                required: false,
            },
        ],
    };
    let cs = vec![ping, roll, thread, age];
    cs
}

} // verus!
