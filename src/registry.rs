use vstd::prelude::*;

verus! {

/// One registered command: its platform name and its handler.
pub struct CommandEntry<H> {
    pub name: String,
    pub handler: H,
}

/// The command registry: handlers keyed by name, each name at most once.
/// Built at startup and only read afterwards.
pub struct CommandList<H> {
    commands: Vec<CommandEntry<H>>,
}

impl<H> CommandList<H> {
    #[verifier::type_invariant]
    spec fn inv(self) -> bool {
        forall|i: int, j: int|
            0 <= i < self.commands@.len() && 0 <= j < self.commands@.len() && i != j
                ==> self.commands@[i].name@ != self.commands@[j].name@
    }

    /// The registered names, in the order they were added.
    pub closed spec fn names(&self) -> Seq<Seq<char>> {
        self.commands@.map_values(|e: CommandEntry<H>| e.name@)
    }

    /// The registered handlers, in the order of `names`.
    pub closed spec fn handlers(&self) -> Seq<H> {
        self.commands@.map_values(|e: CommandEntry<H>| e.handler)
    }

    /// Whether `name` is registered.
    pub open spec fn has(&self, name: Seq<char>) -> bool {
        exists|i: int| 0 <= i < self.names().len() && self.names()[i] == name
    }

    /// The names are unique and each has its handler.
    pub open spec fn wf(&self) -> bool {
        &&& self.names().len() == self.handlers().len()
        &&& forall|i: int, j: int|
            0 <= i < self.names().len() && 0 <= j < self.names().len() && i != j
                ==> self.names()[i] != self.names()[j]
    }

    /// An empty registry.
    pub fn new() -> (r: CommandList<H>)
        ensures
            r.wf(),
            r.names().len() == 0,
    {
        let r = CommandList { commands: Vec::new() };
        proof {
            assert(r.names() =~= Seq::<Seq<char>>::empty());
            assert(r.handlers() =~= Seq::<H>::empty());
        }
        r
    }

    /// Adds `handler` under `name`. A name that is already registered is
    /// refused: the registry is left unchanged and `false` is returned.
    pub fn add(&mut self, name: String, handler: H) -> (r: bool)
        ensures
            old(self).wf(),
            final(self).wf(),
            r == !old(self).has(name@),
            r ==> final(self).names() == old(self).names().push(name@),
            r ==> final(self).handlers() == old(self).handlers().push(handler),
            !r ==> final(self).names() == old(self).names(),
            !r ==> final(self).handlers() == old(self).handlers(),
    {
        proof {
            use_type_invariant(&*self);
        }
        if self.position(&name).is_some() {
            return false;
        }
        let ghost old_names = self.names();
        let ghost old_handlers = self.handlers();
        let ghost old_cmds = self.commands@;
        let mut commands: Vec<CommandEntry<H>> = Vec::new();
        std::mem::swap(&mut commands, &mut self.commands);
        commands.push(CommandEntry { name, handler });
        proof {
            assert forall|k: int| 0 <= k < old_cmds.len() implies old_cmds[k].name@ != name@ by {
                assert(old_names[k] == old_cmds[k].name@);
            }
            assert(commands@ == old_cmds.push(CommandEntry { name, handler }));
        }
        self.commands = commands;
        proof {
            assert(self.names() =~= old_names.push(name@));
            assert(self.handlers() =~= old_handlers.push(handler));
        }
        true
    }

    /// The index under which `name` is registered, if it is.
    fn position(&self, name: &String) -> (r: Option<usize>)
        ensures
            r is Some <==> self.has(name@),
            r matches Some(i) ==> i < self.names().len() && self.names()[i as int] == name@,
    {
        let mut i: usize = 0;
        while i < self.commands.len()
            invariant
                i <= self.commands@.len(),
                self.names().len() == self.commands@.len(),
                forall|j: int| 0 <= j < i ==> self.names()[j] != name@,
            decreases self.commands@.len() - i,
        {
            proof {
                assert(self.names()[i as int] == self.commands@[i as int].name@);
            }
            if self.commands[i].name == *name {
                return Some(i);
            }
            i = i + 1;
        }
        None
    }

    /// The handler registered under `name`, matched exactly and with case.
    pub fn lookup(&self, name: &str) -> (r: Option<&H>)
        ensures
            self.wf(),
            r is Some <==> self.has(name@),
            r matches Some(h) ==> forall|i: int|
                0 <= i < self.names().len() && self.names()[i] == name@ ==> *h == self.handlers()[i],
    {
        proof {
            use_type_invariant(self);
        }
        let key = String::from_str(name);
        match self.position(&key) {
            Some(i) => Some(&self.commands[i].handler),
            None => None,
        }
    }

    /// The number of registered commands.
    pub fn len(&self) -> (r: usize)
        ensures
            r == self.names().len(),
    {
        self.commands.len()
    }

    /// The name at index `i`, in the order of registration.
    pub fn name_at(&self, i: usize) -> (r: &String)
        requires
            i < self.names().len(),
        ensures
            r@ == self.names()[i as int],
    {
        &self.commands[i].name
    }

    /// The handler at index `i`, in the order of registration.
    pub fn handler_at(&self, i: usize) -> (r: &H)
        requires
            i < self.names().len(),
        ensures
            *r == self.handlers()[i as int],
    {
        &self.commands[i].handler
    }
}

/// A registered name is found, and at one index only: a lookup of it
/// returns the handler that was added under it.
pub proof fn lemma_registered_found<H>(list: CommandList<H>, i: int)
    requires
        list.wf(),
        0 <= i < list.names().len(),
    ensures
        list.has(list.names()[i]),
        forall|j: int|
            0 <= j < list.names().len() && list.names()[j] == list.names()[i] ==> j == i,
{
}

} // verus!
