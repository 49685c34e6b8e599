//! Command definitions and the name-keyed command registry.

use vstd::prelude::*;

verus! {

/// One entry of a command's declared parameter schema.
pub struct ParamSpec {
    pub name: String,
    pub description: String,
    pub required: bool,
}

/// An immutable description of one remote-invocable command.
///
/// `H` is the handler value and `E` the optional error-handler value; both
/// are opaque to the dispatcher, which only stores and hands them out.
pub struct CommandDef<H, E> {
    pub name: String,
    pub description: String,
    pub parameters: Vec<ParamSpec>,
    pub default_enabled: Option<bool>,
    pub handler: H,
    pub error_handler: Option<E>,
}

/// The startup-time failure of registry construction: two command
/// definitions shared this name.
pub struct DuplicateNameError {
    pub name: String,
}

/// No two definitions in the sequence share a name.
pub open spec fn dup_free<H, E>(defs: Seq<CommandDef<H, E>>) -> bool {
    forall|i: int, j: int| 0 <= i < j < defs.len() ==> defs[i].name@ != defs[j].name@
}

/// Some definition in the sequence bears this name.
pub open spec fn contains_name<H, E>(defs: Seq<CommandDef<H, E>>, name: Seq<char>) -> bool {
    exists|i: int| 0 <= i < defs.len() && defs[i].name@ == name
}

/// A name-keyed mapping from command name to command definition, built once
/// at startup and read-only afterwards.
pub struct Registry<H, E> {
    pub commands: Vec<CommandDef<H, E>>,
}

impl<H, E> Registry<H, E> {
    /// The registry's names are unique.
    pub open spec fn wf(self) -> bool {
        dup_free(self.commands@)
    }

    /// Builds the registry from a list of command definitions. Construction
    /// succeeds exactly when no two definitions share a name, and then holds
    /// exactly the given definitions in their given order; otherwise it fails
    /// with an error naming an offending command, and no registry exists.
    pub fn build(defs: Vec<CommandDef<H, E>>) -> (r: Result<Registry<H, E>, DuplicateNameError>)
        ensures
            r is Ok <==> dup_free(defs@),
            r matches Ok(reg) ==> reg.commands@ == defs@ && reg.wf(),
            r matches Err(e) ==> exists|i: int, j: int|
                0 <= i < j < defs@.len() && #[trigger] defs@[i].name@ == #[trigger] defs@[j].name@
                    && e.name@ == defs@[j].name@ && dup_free(defs@.take(j)),
    {
        let n = defs.len();
        let mut j: usize = 0;
        while j < n
            invariant
                n == defs@.len(),
                0 <= j <= n,
                dup_free(defs@.take(j as int)),
            decreases n - j,
        {
            let mut i: usize = 0;
            while i < j
                invariant
                    n == defs@.len(),
                    0 <= i <= j < n,
                    dup_free(defs@.take(j as int)),
                    forall|k: int| 0 <= k < i ==> defs@[k].name@ != defs@[j as int].name@,
                decreases j - i,
            {
                if defs[i].name == defs[j].name {
                    proof {
                        let jj = j as int;
                        assert(0 <= i < jj < defs@.len() && defs@[i as int].name@
                            == defs@[jj].name@ && dup_free(defs@.take(jj)));
                    }
                    return Err(DuplicateNameError { name: defs[j].name.clone() });
                }
                i += 1;
            }
            proof {
                let taken = defs@.take(j as int + 1);
                assert forall|a: int, b: int| 0 <= a < b < taken.len() implies #[trigger] taken[a].name@
                    != #[trigger] taken[b].name@ by {
                    if b < j {
                        assert(defs@.take(j as int)[a].name@ != defs@.take(j as int)[b].name@);
                    } else {
                        assert(taken[a].name@ == defs@[a].name@);
                        assert(taken[b].name@ == defs@[j as int].name@);
                    }
                }
            }
            j += 1;
        }
        proof {
            assert(defs@.take(n as int) =~= defs@);
        }
        Ok(Registry { commands: defs })
    }

    /// The number of registered commands.
    pub fn len(&self) -> (r: usize)
        ensures
            r == self.commands@.len(),
    {
        self.commands.len()
    }

    /// The definition at a given position.
    pub fn get(&self, i: usize) -> (r: &CommandDef<H, E>)
        requires
            i < self.commands@.len(),
        ensures
            *r == self.commands@[i as int],
    {
        &self.commands[i]
    }

    /// Looks the invoked command name up: the position of the first
    /// definition bearing the name, or `None` when no definition bears it.
    pub fn lookup(&self, name: &String) -> (r: Option<usize>)
        ensures
            match r {
                Some(i) => i < self.commands@.len() && self.commands@[i as int].name@ == name@
                    && (forall|k: int| 0 <= k < i ==> self.commands@[k].name@ != name@),
                None => !contains_name(self.commands@, name@),
            },
    {
        let mut i: usize = 0;
        while i < self.commands.len()
            invariant
                0 <= i <= self.commands@.len(),
                forall|k: int| 0 <= k < i ==> self.commands@[k].name@ != name@,
            decreases self.commands@.len() - i,
        {
            if self.commands[i].name == *name {
                return Some(i);
            }
            i += 1;
        }
        None
    }
}

/// The startup configuration handed to the dispatcher: transport
/// identifiers, extra topic patterns, target scopes (group identifiers the
/// commands are declared in), and the command definitions themselves.
pub struct CommandClientOptions<H, E> {
    pub amqp_url: String,
    pub amqp_exchange: String,
    pub amqp_queue: String,
    pub amqp_routing_keys_extra: Vec<String>,
    pub guild_ids: Vec<u64>,
    pub commands: Vec<CommandDef<H, E>>,
}

} // verus!
