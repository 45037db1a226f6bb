//! The command registry: handlers by name, where a later registration under a
//! name takes the place of an earlier one.

use vstd::prelude::*;

verus! {

/// The commands that a list of registrations makes: each name with the
/// handler that was registered under it last.
pub open spec fn commands_of<H>(entries: Seq<(Seq<char>, H)>) -> Map<Seq<char>, H>
    decreases entries.len(),
{
    if entries.len() == 0 {
        Map::empty()
    } else {
        commands_of(entries.drop_last()).insert(entries.last().0, entries.last().1)
    }
}

/// Handlers by command name, in the order in which they were registered.
pub struct Registry<H> {
    entries: Vec<(String, H)>,
}

/// A registration that the strict mode turned down: the name was taken.
#[derive(Debug)]
pub struct DuplicateCommand {
    /// The name that was registered before.
    pub name: String,
}

impl<H> View for Registry<H> {
    type V = Seq<(Seq<char>, H)>;

    closed spec fn view(&self) -> Seq<(Seq<char>, H)> {
        named(self.entries@)
    }
}

/// Registrations with each name as a sequence of characters.
pub open spec fn named<H>(entries: Seq<(String, H)>) -> Seq<(Seq<char>, H)> {
    entries.map_values(|e: (String, H)| (e.0@, e.1))
}

/// The handler of the last registration under `name` is the one that
/// [`commands_of`] holds.
proof fn last_match_is_command<H>(entries: Seq<(Seq<char>, H)>, name: Seq<char>, at: int)
    requires
        0 <= at < entries.len(),
        entries[at].0 == name,
        forall|k: int| at < k < entries.len() ==> entries[k].0 != name,
    ensures
        commands_of(entries).contains_key(name),
        commands_of(entries)[name] == entries[at].1,
    decreases entries.len(),
{
    if at < entries.len() - 1 {
        last_match_is_command(entries.drop_last(), name, at);
    }
}

/// A name under which nothing was registered is no command.
proof fn no_match_is_no_command<H>(entries: Seq<(Seq<char>, H)>, name: Seq<char>)
    requires
        forall|k: int| 0 <= k < entries.len() ==> entries[k].0 != name,
    ensures
        !commands_of(entries).contains_key(name),
    decreases entries.len(),
{
    if entries.len() > 0 {
        no_match_is_no_command(entries.drop_last(), name);
    }
}

/// The names of a list of registrations, in order.
pub open spec fn names_of<H>(entries: Seq<(Seq<char>, H)>) -> Seq<Seq<char>> {
    entries.map_values(|e: (Seq<char>, H)| e.0)
}

/// A name is a command exactly if something was registered under it.
pub proof fn command_names<H>(entries: Seq<(Seq<char>, H)>, name: Seq<char>)
    ensures
        commands_of(entries).contains_key(name) <==> names_of(entries).contains(name),
    decreases entries.len(),
{
    if entries.len() > 0 {
        command_names(entries.drop_last(), name);
        let shorter = entries.drop_last();
        if names_of(shorter).contains(name) {
            let k = choose|k: int| 0 <= k < shorter.len() && names_of(shorter)[k] == name;
            assert(names_of(entries)[k] == name);
        }
        if names_of(entries).contains(name) && entries.last().0 != name {
            let k = choose|k: int| 0 <= k < entries.len() && names_of(entries)[k] == name;
            assert(names_of(shorter)[k] == name);
        }
        if entries.last().0 == name {
            assert(names_of(entries)[entries.len() - 1] == name);
        }
    }
}

/// Registering one more entry is putting its handler under its name.
pub proof fn commands_of_push<H>(entries: Seq<(Seq<char>, H)>, name: Seq<char>, handler: H)
    ensures
        commands_of(entries.push((name, handler))) == commands_of(entries).insert(name, handler),
{
    let longer = entries.push((name, handler));
    assert(longer.drop_last() =~= entries);
}

/// Of two registrations under one name the later one is the command, also
/// where others were made between them.
pub proof fn later_registration_wins<H>(
    before: Seq<(Seq<char>, H)>,
    between: Seq<(Seq<char>, H)>,
    name: Seq<char>,
    earlier: H,
    later: H,
)
    ensures
        commands_of(before.push((name, earlier)) + between.push((name, later))).contains_key(name),
        commands_of(before.push((name, earlier)) + between.push((name, later)))[name] == later,
{
    let entries = before.push((name, earlier)) + between;
    assert(entries.push((name, later)) =~= before.push((name, earlier)) + between.push(
        (name, later),
    ));
    commands_of_push(entries, name, later);
}

impl<H> Registry<H> {
    /// The commands of the registry: each name with the handler registered
    /// under it last.
    pub open spec fn commands(self) -> Map<Seq<char>, H> {
        commands_of(self@)
    }

    /// A registry without commands.
    pub fn new() -> (r: Self)
        ensures
            r@ == Seq::<(Seq<char>, H)>::empty(),
    {
        Registry { entries: Vec::new() }
    }

    /// The number of registrations.
    pub fn len(&self) -> (n: usize)
        ensures
            n == self@.len(),
    {
        self.entries.len()
    }

    /// Registers `handler` under `name`. A handler registered under that name
    /// before is no longer reached.
    pub fn register(&mut self, name: String, handler: H)
        ensures
            final(self)@ == old(self)@.push((name@, handler)),
            final(self).commands() == old(self).commands().insert(name@, handler),
    {
        self.entries.push((name, handler));
        assert(self@ =~= old(self)@.push((name@, handler)));
        proof {
            commands_of_push(old(self)@, name@, handler);
        }
    }

    /// Registers the entries of `batch`, first to last.
    pub fn register_all(&mut self, batch: Vec<(String, H)>)
        ensures
            final(self)@ == old(self)@ + named(batch@),
    {
        let ghost start = self@;
        let ghost items = batch@;
        for entry in it: batch
            invariant
                it.seq() == items,
                self@ == start + named(items).take(it.index() as int),
        {
            let (name, handler) = entry;
            self.register(name, handler);
        }
    }

    /// A registry of the entries of `batch`, first to last.
    pub fn from_entries(batch: Vec<(String, H)>) -> (r: Self)
        ensures
            r@ == named(batch@),
    {
        let mut r = Registry::new();
        r.register_all(batch);
        r
    }

    /// A registry of the entries of `batch`, first to last, unless two of them
    /// have the same name: then the name that came twice first.
    pub fn strict_from_entries(batch: Vec<(String, H)>) -> (r: Result<Self, DuplicateCommand>)
        ensures
            match r {
                Ok(registry) => registry@ == named(batch@) && names_of(
                    named(batch@),
                ).no_duplicates(),
                Err(e) => !names_of(named(batch@)).no_duplicates() && names_of(
                    named(batch@),
                ).contains(e.name@),
            },
    {
        let mut registry = Registry::new();
        let ghost items = named(batch@);
        let ghost given = batch@;
        for entry in it: batch
            invariant
                it.seq() == given,
                items == named(given),
                registry@ == items.take(it.index() as int),
                names_of(items.take(it.index() as int)).no_duplicates(),
        {
            let ghost at = it.index() as int;
            let ghost before = items.take(at);
            let (name, handler) = entry;
            proof {
                command_names(before, name@);
            }
            match registry.register_strict(name, handler) {
                Ok(_) => {
                    let ghost names = names_of(items.take(at + 1));
                    assert forall|i: int, j: int|
                        0 <= i < at + 1 && 0 <= j < at + 1 && i != j implies #[trigger] names[i]
                        != #[trigger] names[j] by {
                        if i < at && j < at {
                            assert(names_of(before)[i] != names_of(before)[j]);
                        } else if i == at {
                            assert(names_of(before)[j] == items[j].0);
                        } else {
                            assert(names_of(before)[i] == items[i].0);
                        }
                    }
                },
                Err(e) => {
                    let ghost k = choose|k: int|
                        0 <= k < before.len() && names_of(before)[k] == items[at].0;
                    assert(names_of(items)[k] == names_of(items)[at]);
                    return Err(e);
                },
            }
        }
        Ok(registry)
    }

    /// Whether `name` is a command.
    pub fn contains(&self, name: &str) -> (found: bool)
        ensures
            found == self.commands().contains_key(name@),
    {
        self.lookup(name).is_some()
    }

    /// Registers `handler` under `name` unless the name is taken, and says so
    /// where it is: the registry is then left as it was.
    pub fn register_strict(&mut self, name: String, handler: H) -> (r: Result<(), DuplicateCommand>)
        ensures
            old(self).commands().contains_key(name@) <==> r is Err,
            r is Ok ==> final(self)@ == old(self)@.push((name@, handler)),
            r is Ok ==> final(self).commands() == old(self).commands().insert(name@, handler),
            r matches Err(e) ==> e.name == name && final(self)@ == old(self)@,
    {
        if self.contains(name.as_str()) {
            Err(DuplicateCommand { name })
        } else {
            self.register(name, handler);
            Ok(())
        }
    }

    /// The handler registered last under `name`, if `name` is a command.
    pub fn lookup(&self, name: &str) -> (found: Option<&H>)
        ensures
            match found {
                Some(handler) => self.commands().contains_key(name@) && self.commands()[name@]
                    == *handler,
                None => !self.commands().contains_key(name@),
            },
    {
        let wanted = String::from_str(name);
        let mut at: usize = self.entries.len();
        while at > 0
            invariant
                at <= self.entries.len(),
                wanted@ == name@,
                forall|k: int| at <= k < self.entries.len() ==> self@[k].0 != name@,
            decreases at,
        {
            at -= 1;
            if self.entries[at].0 == wanted {
                proof {
                    last_match_is_command(self@, name@, at as int);
                }
                return Some(&self.entries[at].1);
            }
        }
        proof {
            no_match_is_no_command(self@, name@);
        }
        None
    }
}

} // verus!
