use vstd::prelude::*;

verus! {

/// The utility names a command may start with.
pub open spec fn allow_list() -> Seq<Seq<char>> {
    seq![
        "cansniffer"@, "candump"@, "cansend"@, "cangen"@, "cansequence"@, "canplayer"@,
        "canlogserver"@, "bcmserver"@, "socketcand"@, "cannelloni"@, "cangw"@,
        "canbusload"@, "can-calc-bit-timing"@, "canfdtest"@, "isotpdump"@, "isotpperf"@,
        "isotprecv"@, "isotpsend"@, "isotpsniffer"@, "isotpserver"@, "isotptun"@,
        "j1939acd"@, "j1939cat"@, "j1939spy"@, "j1939sr"@, "testj1939"@, "asc2log"@,
        "log2asc"@, "log2long"@, "slcan_attach"@, "slcand"@, "slcanpty"@, "whoami"@,
    ]
}

/// A token names a known utility.
pub open spec fn allowed(token: Seq<char>) -> bool {
    allow_list().contains(token)
}

/// The tokens of a command, as character sequences.
pub open spec fn tokens(cmd: Seq<String>) -> Seq<Seq<char>> {
    cmd.map_values(|s: String| s@)
}

/// A command may run: it has a first token and that token is a known utility.
pub open spec fn command_accepted(cmd: Seq<Seq<char>>) -> bool {
    cmd.len() > 0 && allowed(cmd[0])
}

/// Why a command was refused.
#[derive(Debug, Clone, PartialEq, Eq)]
pub enum InvalidCommand {
    /// The command has no tokens at all.
    Empty,
    /// The first token is not a known utility.
    NotAllowed { token: String },
}

/// The error that `validate` gives for a command that it refuses.
pub open spec fn rejection(cmd: Seq<String>, e: InvalidCommand) -> bool {
    if cmd.len() == 0 {
        e == InvalidCommand::Empty
    } else {
        e matches InvalidCommand::NotAllowed { token } && token@ == cmd[0]@
    }
}

impl InvalidCommand {
    /// The line shown to the operator: the offending token after a fixed prefix.
    pub fn message(&self) -> (r: String)
        ensures
            self matches InvalidCommand::NotAllowed { token } ==> r@ == "Invalid command: "@
                + token@,
            self is Empty ==> r@ == "Invalid command: no command given"@,
    {
        match self {
            InvalidCommand::Empty => String::from_str("Invalid command: no command given"),
            InvalidCommand::NotAllowed { token } => {
                String::from_str("Invalid command: ").concat(token.as_str())
            },
        }
    }
}

/// The known utility names, in a fixed order.
pub fn known_commands() -> (r: Vec<String>)
    ensures
        tokens(r@) == allow_list(),
{
    let mut v: Vec<String> = Vec::new();
    v.push(String::from_str("cansniffer"));
    v.push(String::from_str("candump"));
    v.push(String::from_str("cansend"));
    v.push(String::from_str("cangen"));
    v.push(String::from_str("cansequence"));
    v.push(String::from_str("canplayer"));
    v.push(String::from_str("canlogserver"));
    v.push(String::from_str("bcmserver"));
    v.push(String::from_str("socketcand"));
    v.push(String::from_str("cannelloni"));
    v.push(String::from_str("cangw"));
    v.push(String::from_str("canbusload"));
    v.push(String::from_str("can-calc-bit-timing"));
    v.push(String::from_str("canfdtest"));
    v.push(String::from_str("isotpdump"));
    v.push(String::from_str("isotpperf"));
    v.push(String::from_str("isotprecv"));
    v.push(String::from_str("isotpsend"));
    v.push(String::from_str("isotpsniffer"));
    v.push(String::from_str("isotpserver"));
    v.push(String::from_str("isotptun"));
    v.push(String::from_str("j1939acd"));
    v.push(String::from_str("j1939cat"));
    v.push(String::from_str("j1939spy"));
    v.push(String::from_str("j1939sr"));
    v.push(String::from_str("testj1939"));
    v.push(String::from_str("asc2log"));
    v.push(String::from_str("log2asc"));
    v.push(String::from_str("log2long"));
    v.push(String::from_str("slcan_attach"));
    v.push(String::from_str("slcand"));
    v.push(String::from_str("slcanpty"));
    v.push(String::from_str("whoami"));
    assert(tokens(v@) =~= allow_list());
    v
}

/// Exact membership of a token in the allow-list.
pub fn is_allowed(token: &String) -> (r: bool)
    ensures
        r == allowed(token@),
{
    let list = known_commands();
    let mut i: usize = 0;
    while i < list.len()
        invariant
            tokens(list@) == allow_list(),
            0 <= i <= list.len(),
            forall|j: int| 0 <= j < i ==> list@[j]@ != token@,
        decreases list.len() - i,
    {
        if list[i] == *token {
            assert(allow_list()[i as int] == token@);
            return true;
        }
        i += 1;
    }
    assert(!allow_list().contains(token@)) by {
        if allow_list().contains(token@) {
            let j = choose|j: int| 0 <= j < allow_list().len() && allow_list()[j] == token@;
            assert(list@[j]@ == token@);
        }
    }
    false
}

/// Gate a command before any engine call: it must have a first token, and that
/// token must be a known utility. The remaining tokens are not looked at.
pub fn validate(cmd: &Vec<String>) -> (r: Result<(), InvalidCommand>)
    ensures
        r is Ok <==> command_accepted(tokens(cmd@)),
        r matches Err(e) ==> rejection(cmd@, e),
{
    if cmd.len() == 0 {
        return Err(InvalidCommand::Empty);
    }
    let first = &cmd[0];
    if is_allowed(first) {
        Ok(())
    } else {
        Err(InvalidCommand::NotAllowed { token: first.clone() })
    }
}

/// Whether a command may run is decided by its first token alone: two commands
/// with the same first token are both accepted or both refused, whatever
/// arguments follow.
pub proof fn lemma_arguments_do_not_matter(head: Seq<char>, args1: Seq<Seq<char>>, args2: Seq<Seq<char>>)
    ensures
        command_accepted(seq![head] + args1) == command_accepted(seq![head] + args2),
        command_accepted(seq![head] + args1) == allowed(head),
{
    assert((seq![head] + args1)[0] == head);
    assert((seq![head] + args2)[0] == head);
}

} // verus!
