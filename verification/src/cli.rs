//! The command line client: turns its arguments into a `Command` for the
//! daemon.

use vstd::prelude::*;
use crate::beacon::Command;

verus! {

/// The command line arguments, the program's name first.
pub struct BeaconCli {
    pub args: Vec<String>,
}

/// The text form of a `bool` that `str::parse` accepts.
pub open spec fn parsed_bool(s: Seq<char>) -> Option<bool> {
    if s == "true"@ {
        Some(true)
    } else if s == "false"@ {
        Some(false)
    } else {
        None
    }
}

/// The arguments on which `get_command` answers: a command word and the
/// arguments it takes.
pub open spec fn valid_cli_args(args: Seq<String>) -> bool {
    &&& args.len() >= 3
    &&& {
        let word = args[1]@;
        if word == "create"@ || word == "delete"@ || word == "unsubscribe"@ {
            true
        } else if word == "broadcast"@ {
            args.len() >= 4 && parsed_bool(args[3]@) is Some
        } else if word == "subscribe"@ {
            args.len() >= 4
        } else {
            false
        }
    }
}

/// The command that the arguments `args` ask for.
pub open spec fn cli_command(args: Seq<String>, c: Command) -> bool {
    let word = args[1]@;
    if word == "create"@ {
        c matches Command::Create(name) && name@ == args[2]@
    } else if word == "delete"@ {
        c matches Command::Delete(name) && name@ == args[2]@
    } else if word == "broadcast"@ {
        c matches Command::Broadcast(name, state) && name@ == args[2]@ && parsed_bool(args[3]@)
            == Some(state)
    } else if word == "subscribe"@ {
        c matches Command::Subscribe { name, pubkey } && name@ == args[2]@ && pubkey@ == args[3]@
    } else {
        c matches Command::Unsubscribe(name) && name@ == args[2]@
    }
}

proof fn reveal_command_words()
    ensures
        "broadcast"@ != "create"@,
        "broadcast"@ != "delete"@,
        "broadcast"@ != "unsubscribe"@,
        "subscribe"@ != "create"@,
        "subscribe"@ != "delete"@,
        "subscribe"@ != "unsubscribe"@,
        "subscribe"@ != "broadcast"@,
        "unsubscribe"@ != "create"@,
        "unsubscribe"@ != "delete"@,
        "delete"@ != "create"@,
        "true"@ != "false"@,
{
    reveal_strlit("create");
    reveal_strlit("delete");
    reveal_strlit("broadcast");
    reveal_strlit("subscribe");
    reveal_strlit("unsubscribe");
    reveal_strlit("true");
    reveal_strlit("false");
    assert("broadcast"@[0] != "create"@[0]);
    assert("broadcast"@[0] != "delete"@[0]);
    assert("broadcast"@[0] != "unsubscribe"@[0]);
    assert("subscribe"@[0] != "create"@[0]);
    assert("subscribe"@[0] != "delete"@[0]);
    assert("subscribe"@[0] != "unsubscribe"@[0]);
    assert("subscribe"@[0] != "broadcast"@[0]);
    assert("unsubscribe"@[0] != "create"@[0]);
    assert("unsubscribe"@[0] != "delete"@[0]);
    assert("delete"@[0] != "create"@[0]);
    assert("true"@[0] != "false"@[0]);
}

/// The client answers on exactly these arguments: at least a command word
/// and a name, where the word is `create`, `delete` or `unsubscribe`; or
/// `broadcast` with a fourth argument `true` or `false`; or `subscribe` with
/// a fourth argument.
pub proof fn lemma_cli_accepted_arguments(args: Seq<String>)
    ensures
        valid_cli_args(args) <==> (args.len() >= 3 && ({
            let word = args[1]@;
            ||| word == "create"@
            ||| word == "delete"@
            ||| word == "unsubscribe"@
            ||| word == "broadcast"@ && args.len() >= 4 && (args[3]@ == "true"@ || args[3]@ == "false"@)
            ||| word == "subscribe"@ && args.len() >= 4
        })),
{
    reveal_command_words();
}

/// Each command word gives its own command, carrying the name (and the state
/// or key) from the arguments that follow it.
pub proof fn lemma_cli_command_by_word(args: Seq<String>, c: Command)
    requires
        args.len() >= 3,
        cli_command(args, c),
    ensures
        args[1]@ == "create"@ ==> (c matches Command::Create(name) && name@ == args[2]@),
        args[1]@ == "delete"@ ==> (c matches Command::Delete(name) && name@ == args[2]@),
        args[1]@ == "unsubscribe"@ ==> (c matches Command::Unsubscribe(name) && name@ == args[2]@),
        args[1]@ == "broadcast"@ && args.len() >= 4 ==> (c matches Command::Broadcast(name, state)
            && name@ == args[2]@ && (args[3]@ == "true"@ ==> state) && (args[3]@ == "false"@
            ==> !state)),
        args[1]@ == "subscribe"@ && args.len() >= 4 ==> (c matches Command::Subscribe { name, pubkey }
            && name@ == args[2]@ && pubkey@ == args[3]@),
{
    reveal_command_words();
}

fn parse_bool(s: &String) -> (r: Option<bool>)
    ensures
        r == parsed_bool(s@),
{
    if *s == "true".to_owned() {
        Some(true)
    } else if *s == "false".to_owned() {
        Some(false)
    } else {
        None
    }
}

impl BeaconCli {
    /// Whether `get_command` answers on these arguments.
    pub fn accepts_args(&self) -> (r: bool)
        ensures
            r == valid_cli_args(self.args@),
            r == (self.args@.len() >= 3 && ({
            let word = self.args@[1]@;
            ||| word == "create"@
            ||| word == "delete"@
            ||| word == "unsubscribe"@
            ||| word == "broadcast"@ && self.args@.len() >= 4 && (self.args@[3]@ == "true"@ || self.args@[3]@ == "false"@)
            ||| word == "subscribe"@ && self.args@.len() >= 4
        })),
    {
        proof {
            lemma_cli_accepted_arguments(self.args@);
        }
        if self.args.len() < 3 {
            return false;
        }
        let word = &self.args[1];
        if *word == "create".to_owned() || *word == "delete".to_owned() || *word
            == "unsubscribe".to_owned() {
            true
        } else if *word == "broadcast".to_owned() {
            self.args.len() >= 4 && parse_bool(&self.args[3]).is_some()
        } else if *word == "subscribe".to_owned() {
            self.args.len() >= 4
        } else {
            false
        }
    }

    /// The command that the arguments ask for.
    pub fn get_command(&mut self) -> (c: Command)
        requires
            valid_cli_args(old(self).args@),
        ensures
            cli_command(old(self).args@, c),
            final(self).args@ == old(self).args@,
            old(self).args@[1]@ == "create"@ ==> (c matches Command::Create(name) && name@ == old(
                self,
            ).args@[2]@),
            old(self).args@[1]@ == "delete"@ ==> (c matches Command::Delete(name) && name@ == old(
                self,
            ).args@[2]@),
            old(self).args@[1]@ == "unsubscribe"@ ==> (c matches Command::Unsubscribe(name) && name@
                == old(self).args@[2]@),
            old(self).args@[1]@ == "broadcast"@ ==> (c matches Command::Broadcast(name, state) && name@
                == old(self).args@[2]@ && state == (old(self).args@[3]@ == "true"@)),
            old(self).args@[1]@ == "subscribe"@ ==> (c matches Command::Subscribe { name, pubkey }
                && name@ == old(self).args@[2]@ && pubkey@ == old(self).args@[3]@),
    {
        proof {
            lemma_cli_accepted_arguments(old(self).args@);
            reveal_command_words();
        }
        let word = self.args[1].clone();
        if word == "create".to_owned() {
            self.create()
        } else if word == "delete".to_owned() {
            self.delete()
        } else if word == "broadcast".to_owned() {
            self.broadcast()
        } else if word == "subscribe".to_owned() {
            self.subscribe()
        } else {
            self.unsubscribe()
        }
    }

    fn create(&mut self) -> (c: Command)
        requires
            old(self).args.len() >= 3,
        ensures
            c matches Command::Create(name) && name@ == old(self).args@[2]@,
            final(self).args@ == old(self).args@,
    {
        Command::Create(self.args[2].clone())
    }

    fn delete(&mut self) -> (c: Command)
        requires
            old(self).args.len() >= 3,
        ensures
            c matches Command::Delete(name) && name@ == old(self).args@[2]@,
            final(self).args@ == old(self).args@,
    {
        Command::Delete(self.args[2].clone())
    }

    fn broadcast(&mut self) -> (c: Command)
        requires
            old(self).args.len() >= 4,
            parsed_bool(old(self).args@[3]@) is Some,
        ensures
            c matches Command::Broadcast(name, state) && name@ == old(self).args@[2]@ && parsed_bool(
                old(self).args@[3]@,
            ) == Some(state),
            final(self).args@ == old(self).args@,
    {
        let state = match parse_bool(&self.args[3]) {
            Some(state) => state,
            None => vstd::pervasive::unreached(),
        };
        Command::Broadcast(self.args[2].clone(), state)
    }

    fn subscribe(&mut self) -> (c: Command)
        requires
            old(self).args.len() >= 4,
        ensures
            c matches Command::Subscribe { name, pubkey } && name@ == old(self).args@[2]@ && pubkey@
                == old(self).args@[3]@,
            final(self).args@ == old(self).args@,
    {
        Command::Subscribe { name: self.args[2].clone(), pubkey: self.args[3].clone() }
    }

    fn unsubscribe(&mut self) -> (c: Command)
        requires
            old(self).args.len() >= 3,
        ensures
            c matches Command::Unsubscribe(name) && name@ == old(self).args@[2]@,
            final(self).args@ == old(self).args@,
    {
        Command::Unsubscribe(self.args[2].clone())
    }
}

} // verus!
