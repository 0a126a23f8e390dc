use vstd::prelude::*;
use crate::schema::{command_names, command_specs, conforms, has_duplicate_parameter, CommandSpec};

verus! {

/// The platform refused a command schema.
#[derive(Clone, Copy, Debug, PartialEq, Eq, Structural)]
pub enum RegistrationError {
    /// Two parameters of one command share a name.
    DuplicateParameter,
}

/// The index of the first schema of `reg` named `name` at or after `start`.
pub open spec fn find_command(reg: Seq<CommandSpec>, name: Seq<char>, start: int) -> Option<int>
    decreases reg.len() - start,
{
    if start < 0 || start >= reg.len() {
        None
    } else if reg[start].name@ == name {
        Some(start)
    } else {
        find_command(reg, name, start + 1)
    }
}

proof fn lemma_find_command_in_range(reg: Seq<CommandSpec>, name: Seq<char>, start: int)
    ensures
        find_command(reg, name, start) matches Some(i) ==> (0 <= start <= i < reg.len() && reg[i].name@
            == name),
    decreases reg.len() - start,
{
    if 0 <= start < reg.len() && reg[start].name@ != name {
        lemma_find_command_in_range(reg, name, start + 1);
    }
}

/// `reg` with `c` in place of the schema of the same name, or with `c`
/// appended where there is none.
pub open spec fn upsert(reg: Seq<CommandSpec>, c: CommandSpec) -> Seq<CommandSpec> {
    match find_command(reg, c.name@, 0) {
        Some(i) => reg.update(i, c),
        None => reg.push(c),
    }
}

/// `reg` after registering each of `specs` in turn.
pub open spec fn register_all(reg: Seq<CommandSpec>, specs: Seq<CommandSpec>) -> Seq<CommandSpec>
    decreases specs.len(),
{
    if specs.len() == 0 {
        reg
    } else {
        register_all(upsert(reg, specs[0]), specs.drop_first())
    }
}

/// The command schemas published to the platform, one per name.
pub struct CommandRegistry {
    commands: Vec<CommandSpec>,
}

impl CommandRegistry {
    pub closed spec fn view(&self) -> Seq<CommandSpec> {
        self.commands@
    }

    pub fn new() -> (r: CommandRegistry)
        ensures
            r@ == Seq::<CommandSpec>::empty(),
    {
        CommandRegistry { commands: Vec::new() }
    }

    /// The number of registered commands.
    pub fn len(&self) -> (r: usize)
        ensures
            r == self@.len(),
    {
        self.commands.len()
    }

    /// The registered schemas, in registration order.
    pub fn commands(&self) -> (r: &Vec<CommandSpec>)
        ensures
            r@ == self@,
    {
        &self.commands
    }

    fn find(&self, name: &String) -> (r: Option<usize>)
        ensures
            match r {
                Some(i) => find_command(self@, name@, 0) == Some(i as int),
                None => find_command(self@, name@, 0) is None,
            },
    {
        let mut i: usize = 0;
        while i < self.commands.len()
            invariant
                i <= self.commands@.len(),
                find_command(self.commands@, name@, 0) == find_command(self.commands@, name@, i as int),
            decreases self.commands@.len() - i,
        {
            if self.commands[i].name.eq(name) {
                return Some(i);
            }
            i = i + 1;
        }
        None
    }

    fn upsert(&mut self, c: CommandSpec)
        ensures
            final(self)@ == upsert(old(self)@, c),
    {
        match self.find(&c.name) {
            Some(i) => {
                proof {
                    lemma_find_command_in_range(old(self)@, c.name@, 0);
                }
                self.commands.remove(i);
                self.commands.insert(i, c);
                proof {
                    assert(self.commands@ =~= old(self)@.update(i as int, c));
                }
            },
            None => {
                self.commands.push(c);
            },
        }
    }

    /// Registers `specs` in order; a schema replaces the registered one of
    /// the same name. Fails, changing nothing, where a schema declares two
    /// parameters of one name. On success returns the registered names.
    pub fn register(&mut self, specs: Vec<CommandSpec>) -> (r: Result<Vec<String>, RegistrationError>)
        ensures
            r is Err <==> exists|k: int| 0 <= k < specs@.len() && has_duplicate_parameter(#[trigger] specs@[k]),
            r is Err ==> r == Err::<Vec<String>, RegistrationError>(RegistrationError::DuplicateParameter)
                && final(self)@ == old(self)@,
            r matches Ok(names) ==> {
                &&& final(self)@ == register_all(old(self)@, specs@)
                &&& names@.len() == specs@.len()
                &&& forall|k: int| 0 <= k < names@.len() ==> (#[trigger] names@[k])@ == specs@[k].name@
            },
    {
        let mut k: usize = 0;
        while k < specs.len()
            invariant
                k <= specs@.len(),
                forall|j: int| 0 <= j < k ==> !has_duplicate_parameter(#[trigger] specs@[j]),
            decreases specs@.len() - k,
        {
            if has_duplicate(&specs[k]) {
                return Err(RegistrationError::DuplicateParameter);
            }
            k = k + 1;
        }
        let ghost all = specs@;
        let mut rest = specs;
        let mut names: Vec<String> = Vec::new();
        while rest.len() > 0
            invariant
                all.len() == names@.len() + rest@.len(),
                rest@ == all.subrange(names@.len() as int, all.len() as int),
                forall|j: int| 0 <= j < names@.len() ==> (#[trigger] names@[j])@ == all[j].name@,
                register_all(old(self)@, all) == register_all(self@, rest@),
            decreases rest@.len(),
        {
            let ghost prev = rest@;
            let c = rest.remove(0);
            names.push(c.name.clone());
            self.upsert(c);
            proof {
                assert(rest@ =~= all.subrange(names@.len() as int, all.len() as int));
                assert(prev.drop_first() =~= rest@);
            }
        }
        Ok(names)
    }
}

fn has_duplicate(c: &CommandSpec) -> (r: bool)
    ensures
        r == has_duplicate_parameter(*c),
{
    let ps = &c.parameters;
    assert(ps@ == c.parameters@);
    let mut b: usize = 0;
    while b < ps.len()
        invariant
            b <= ps@.len(),
            ps@ == c.parameters@,
            forall|x: int, y: int| 0 <= x < y < b ==> ps@[x].name@ != ps@[y].name@,
        decreases ps@.len() - b,
    {
        let mut a: usize = 0;
        while a < b
            invariant
                a <= b < ps@.len(),
                ps@ == c.parameters@,
                forall|x: int, y: int| 0 <= x < y < b ==> ps@[x].name@ != ps@[y].name@,
                forall|x: int| 0 <= x < a ==> ps@[x].name@ != ps@[b as int].name@,
            decreases b - a,
        {
            if ps[a].name.eq(&ps[b].name) {
                assert(ps@[a as int].name@ == ps@[b as int].name@);
                return true;
            }
            a = a + 1;
        }
        b = b + 1;
    }
    false
}

/// Registers the schemas of all supported commands. None of them declares
/// a parameter twice, so this always succeeds.
pub fn register_commands(registry: &mut CommandRegistry) -> (r: Result<Vec<String>, RegistrationError>)
    ensures
        r matches Ok(names) && names@.len() == command_names().len() && forall|k: int|
            0 <= k < names@.len() ==> (#[trigger] names@[k])@ == command_names()[k],
        exists|specs: Seq<CommandSpec>|
            specs.len() == command_names().len() && (forall|k: int| 0 <= k < specs.len()
                ==> (#[trigger] specs[k]).name@ == command_names()[k] && conforms(specs[k]))
                && final(registry)@ == register_all(old(registry)@, specs),
{
    let specs = command_specs();
    let ghost s = specs@;
    proof {
        assert forall|k: int| 0 <= k < s.len() implies !has_duplicate_parameter(#[trigger] s[k]) by {
            assert(conforms(s[k]));
        }
    }
    registry.register(specs)
}

} // verus!
