use vstd::prelude::*;

use crate::text::same_text;

verus! {

/// The commands this bot knows how to answer.
#[derive(Clone, Copy, Debug, PartialEq, Eq, Structural)]
pub enum CommandKind {
    Ping,
    Help,
    About,
    Avatar,
    ServerInfo,
}

/// The registry: the command that a configured name stands for, if any.
pub open spec fn kind_of(name: Seq<char>) -> Option<CommandKind> {
    if name == "ping"@ {
        Some(CommandKind::Ping)
    } else if name == "help"@ {
        Some(CommandKind::Help)
    } else if name == "about"@ {
        Some(CommandKind::About)
    } else if name == "avatar"@ {
        Some(CommandKind::Avatar)
    } else if name == "server_info"@ {
        Some(CommandKind::ServerInfo)
    } else {
        None
    }
}


/// The registry's name of each command.
pub open spec fn name_of(k: CommandKind) -> Seq<char> {
    match k {
        CommandKind::Ping => "ping"@,
        CommandKind::Help => "help"@,
        CommandKind::About => "about"@,
        CommandKind::Avatar => "avatar"@,
        CommandKind::ServerInfo => "server_info"@,
    }
}

/// The commands that a sequence of configured names enables: one for each known
/// name, in the order of the names; unknown names give nothing.
pub open spec fn resolved(names: Seq<Seq<char>>) -> Seq<CommandKind>
    decreases names.len(),
{
    if names.len() == 0 {
        Seq::empty()
    } else {
        let rest = resolved(names.drop_last());
        match kind_of(names.last()) {
            Some(k) => rest.push(k),
            None => rest,
        }
    }
}

/// The views of a vector of names.
pub open spec fn names_view(names: Seq<String>) -> Seq<Seq<char>> {
    names.map_values(|s: String| s@)
}

impl CommandKind {
    /// The name under which the command is registered.
    pub fn name(&self) -> (r: &'static str)
        ensures
            r@ == name_of(*self),
    {
        match self {
            CommandKind::Ping => "ping",
            CommandKind::Help => "help",
            CommandKind::About => "about",
            CommandKind::Avatar => "avatar",
            CommandKind::ServerInfo => "server_info",
        }
    }
}

/// Looks a configured name up in the registry.
pub fn command_from_name(name: &str) -> (r: Option<CommandKind>)
    ensures
        r == kind_of(name@),
{
    if same_text(name, "ping") {
        Some(CommandKind::Ping)
    } else if same_text(name, "help") {
        Some(CommandKind::Help)
    } else if same_text(name, "about") {
        Some(CommandKind::About)
    } else if same_text(name, "avatar") {
        Some(CommandKind::Avatar)
    } else if same_text(name, "server_info") {
        Some(CommandKind::ServerInfo)
    } else {
        None
    }
}

/// Resolves configured names to the commands to register, dropping unknown names.
pub fn resolve(names: &Vec<String>) -> (r: Vec<CommandKind>)
    ensures
        r@ == resolved(names_view(names@)),
{
    let mut r: Vec<CommandKind> = Vec::new();
    let mut i: usize = 0;
    while i < names.len()
        invariant
            i <= names@.len(),
            r@ == resolved(names_view(names@.subrange(0, i as int))),
        decreases names@.len() - i,
    {
        let found = command_from_name(names[i].as_str());
        proof {
            let pre = names_view(names@.subrange(0, i as int + 1));
            assert(pre.drop_last() =~= names_view(names@.subrange(0, i as int)));
            assert(pre.last() == names@[i as int]@);
        }
        match found {
            Some(k) => r.push(k),
            None => {},
        }
        i = i + 1;
    }
    assert(names@.subrange(0, names@.len() as int) =~= names@);
    r
}

/// Whether one of `names` is the registry's name of `k`.
pub open spec fn named_in(names: Seq<Seq<char>>, k: CommandKind) -> bool {
    exists|i: int| 0 <= i < names.len() && kind_of(#[trigger] names[i]) == Some(k)
}

/// Every resolved command is the registry's entry for one of the configured names.
pub proof fn lemma_resolved_only_known(names: Seq<Seq<char>>)
    ensures
        forall|j: int| 0 <= j < resolved(names).len() ==> named_in(names, #[trigger] resolved(names)[j]),
    decreases names.len(),
{
    if names.len() > 0 {
        let rest = names.drop_last();
        lemma_resolved_only_known(rest);
        assert forall|j: int| 0 <= j < resolved(names).len() implies named_in(
            names,
            #[trigger] resolved(names)[j],
        ) by {
            if j < resolved(rest).len() {
                assert(named_in(rest, resolved(rest)[j]));
                let i = choose|i: int| 0 <= i < rest.len() && kind_of(#[trigger] rest[i]) == Some(resolved(rest)[j]);
                assert(names[i] == rest[i]);
            } else {
                assert(names[names.len() - 1] == names.last());
            }
        }
    }
}

/// Resolving two runs of names one after the other gives the commands of the first
/// run followed by those of the second: the relative order of names is kept, and an
/// unknown name adds nothing and removes nothing.
pub proof fn lemma_resolved_concat(a: Seq<Seq<char>>, b: Seq<Seq<char>>)
    ensures
        resolved(a + b) == resolved(a) + resolved(b),
    decreases b.len(),
{
    if b.len() == 0 {
        assert(a + b =~= a);
        assert(resolved(a) + resolved(b) =~= resolved(a));
    } else {
        lemma_resolved_concat(a, b.drop_last());
        assert((a + b).drop_last() =~= a + b.drop_last());
        assert((a + b).last() == b.last());
        assert(resolved(a + b) =~= resolved(a) + resolved(b));
    }
}

/// A single name resolves to its registry entry if it has one, and to nothing otherwise.
pub proof fn lemma_resolved_single(name: Seq<char>)
    ensures
        resolved(seq![name]) == match kind_of(name) {
            Some(k) => seq![k],
            None => Seq::<CommandKind>::empty(),
        },
{
    let one = seq![name];
    assert(one.drop_last() =~= Seq::<Seq<char>>::empty());
    assert(one.last() == name);
    assert(resolved(Seq::<Seq<char>>::empty()) == Seq::<CommandKind>::empty());
    assert(resolved(one) =~= match kind_of(name) {
        Some(k) => seq![k],
        None => Seq::<CommandKind>::empty(),
    });
}

} // verus!
