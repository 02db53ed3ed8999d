//! Scopes, bindings and overloaded functions.
//!
//! A [`Func`] maps declared arities to implementations. A [`Scope`] is the
//! binding table of one environment, and an [`Env`] is a scope together with
//! the environment that encloses it.
use super::errors::{ErrType, Failure};
use super::types::{Val, Value};
use std::collections::HashMap;
use vstd::prelude::*;
use vstd::string::StringSliceAdditionalSpecFns;

verus! {

broadcast use vstd::std_specs::hash::group_hash_axioms;

/// How many arguments an implementation accepts.
#[derive(Clone, Copy, Debug, Eq, Hash, PartialEq, Structural)]
pub enum Arity {
    /// None at all.
    NoArgs,
    /// Exactly this many.
    SomeArgs(u8),
    /// Any number.
    VarArgs,
}

/// The implementation that a table of arities offers for a call of the given
/// arity: the entry declared for exactly that arity, else the variadic entry,
/// else none.
pub open spec fn resolve<I>(table: Map<Arity, I>, arity: Arity) -> Option<I> {
    if table.contains_key(arity) {
        Some(table[arity])
    } else if table.contains_key(Arity::VarArgs) {
        Some(table[Arity::VarArgs])
    } else {
        None
    }
}

/// The key under which an arity is stored.
spec fn slot_of(arity: Arity) -> u16 {
    match arity {
        Arity::NoArgs => 0,
        Arity::SomeArgs(n) => (n + 1) as u16,
        Arity::VarArgs => 257,
    }
}

/// The key under which an arity is stored.
fn slot(arity: Arity) -> (k: u16)
    ensures
        k == slot_of(arity),
{
    match arity {
        Arity::NoArgs => 0,
        Arity::SomeArgs(n) => n as u16 + 1,
        Arity::VarArgs => 257,
    }
}

/// An overloaded function: at most one implementation for each arity.
#[derive(Debug)]
pub struct Func<I>(HashMap<u16, I>);

impl<I> View for Func<I> {
    type V = Map<Arity, I>;

    closed spec fn view(&self) -> Map<Arity, I> {
        Map::new(|a: Arity| self.0@.contains_key(slot_of(a)), |a: Arity| self.0@[slot_of(a)])
    }
}

impl<I> Func<I> {
    /// The implementation for a call of the given arity: the one registered
    /// for exactly that arity, else the variadic one, else none.
    pub fn lookup(&self, arity: Arity) -> (r: Option<&I>)
        ensures
            match r {
                Some(f) => resolve(self@, arity) == Some(*f),
                None => resolve(self@, arity) is None,
            },
    {
        match self.0.get(&slot(arity)) {
            Some(f) => Some(f),
            None => self.0.get(&slot(Arity::VarArgs)),
        }
    }

    /// A function with one implementation.
    pub fn new(arity: Arity, f: I) -> (r: Self)
        ensures
            r@ == Map::<Arity, I>::empty().insert(arity, f),
    {
        let mut m = HashMap::new();
        m.insert(slot(arity), f);
        Func(m)
    }

    /// Registers `f` for `arity`, in place of what was registered for it
    /// before; the other arities keep their implementations.
    pub fn add_arity(&mut self, arity: Arity, f: I)
        ensures
            final(self)@ == old(self)@.insert(arity, f),
    {
        self.0.insert(slot(arity), f);
    }
}

/// What a name is bound to, as a mathematical object: a plain value, or the
/// arity table of a function.
pub enum Binding<I> {
    Val(Value),
    Func(Map<Arity, I>),
}

/// What a name is bound to: a plain value or an overloaded function.
#[derive(Debug)]
pub enum Entry<I> {
    Val(Val),
    Func(Func<I>),
}

impl<I> View for Entry<I> {
    type V = Binding<I>;

    open spec fn view(&self) -> Binding<I> {
        match self {
            Entry::Val(v) => Binding::Val(v@),
            Entry::Func(f) => Binding::Func(f@),
        }
    }
}

impl<I> Entry<I> {
    /// The plain value, where this is one.
    pub fn unwrap_val(&self) -> (r: Option<&Val>)
        ensures
            match r {
                Some(v) => *self == Entry::<I>::Val(*v),
                None => self is Func,
            },
    {
        match self {
            Entry::Val(v) => Some(v),
            Entry::Func(_) => None,
        }
    }

    /// The function, where this is one.
    pub fn unwrap_func(&self) -> (r: Option<&Func<I>>)
        ensures
            match r {
                Some(f) => *self == Entry::Func(*f),
                None => self is Val,
            },
    {
        match self {
            Entry::Func(f) => Some(f),
            Entry::Val(_) => None,
        }
    }
}

/// Whether a table lets a function be registered under `name`: it does unless
/// it binds `name` to a plain value.
pub open spec fn takes_function<I>(table: Map<Seq<char>, Binding<I>>, name: Seq<char>) -> bool {
    !(table.contains_key(name) && table[name] is Val)
}

/// The table after `f` is registered for `arity` under `name`: a function
/// already bound to `name` gains or replaces that arity, and a name that was
/// free is bound to a function of that one arity.
pub open spec fn with_function<I>(
    table: Map<Seq<char>, Binding<I>>,
    name: Seq<char>,
    arity: Arity,
    f: I,
) -> Map<Seq<char>, Binding<I>> {
    if table.contains_key(name) && table[name] is Func {
        table.insert(name, Binding::Func(table[name]->Func_0.insert(arity, f)))
    } else {
        table.insert(name, Binding::Func(Map::<Arity, I>::empty().insert(arity, f)))
    }
}

/// Whether the two strings hold the same characters.
#[verifier::loop_isolation(false)]
fn same_text(a: &str, b: &str) -> (r: bool)
    ensures
        r == (a@ == b@),
{
    let x = a.as_bytes();
    let y = b.as_bytes();
    proof {
        vstd::utf8::encode_utf8_decode_utf8(a@);
        vstd::utf8::encode_utf8_decode_utf8(b@);
    }
    if x.len() != y.len() {
        return false;
    }
    let mut i: usize = 0;
    while i < x.len()
        invariant
            i <= x.len(),
            x.len() == y.len(),
            forall|j: int| 0 <= j < i ==> x@[j] == y@[j],
        decreases x.len() - i,
    {
        if x[i] != y[i] {
            return false;
        }
        i += 1;
    }
    assert(x@ =~= y@);
    true
}

/// Whether entry `i` of the table is the one for `name`.
spec fn binds_at<I>(entries: Seq<(&str, Entry<I>)>, name: Seq<char>, i: int) -> bool {
    0 <= i < entries.len() && entries[i].0@ == name
}

/// The binding table of one environment: each name is bound at most once.
pub struct Scope<'a, I>(Vec<(&'a str, Entry<I>)>);

impl<'a, I> View for Scope<'a, I> {
    type V = Map<Seq<char>, Binding<I>>;

    closed spec fn view(&self) -> Map<Seq<char>, Binding<I>> {
        table_of(self.0@)
    }
}

/// The bindings that a sequence of entries holds.
spec fn table_of<I>(entries: Seq<(&str, Entry<I>)>) -> Map<Seq<char>, Binding<I>> {
    Map::new(
        |name: Seq<char>| exists|i: int| binds_at(entries, name, i),
        |name: Seq<char>| entries[choose|i: int| binds_at(entries, name, i)].1@,
    )
}

/// Whether no name occurs twice among the entries.
spec fn unique<I>(entries: Seq<(&str, Entry<I>)>) -> bool {
    forall|i: int, j: int|
        #![trigger entries[i], entries[j]]
        0 <= i < j < entries.len() ==> entries[i].0@ != entries[j].0@
}

/// With unique names, the entry at a position is what the table holds for
/// its name.
proof fn lemma_entry_in_table<I>(entries: Seq<(&str, Entry<I>)>, i: int)
    requires
        unique(entries),
        0 <= i < entries.len(),
    ensures
        table_of(entries).contains_key(entries[i].0@),
        table_of(entries)[entries[i].0@] == entries[i].1@,
{
    let name = entries[i].0@;
    assert(binds_at(entries, name, i));
    let c = choose|c: int| binds_at(entries, name, c);
    assert(c == i);
}

/// Appending an entry for a name that is not bound yet binds that name and
/// changes nothing else.
proof fn lemma_push_entry<I>(entries: Seq<(&str, Entry<I>)>, name: &str, entry: Entry<I>)
    requires
        unique(entries),
        forall|i: int| !binds_at(entries, name@, i),
    ensures
        unique(entries.push((name, entry))),
        table_of(entries.push((name, entry))) == table_of(entries).insert(name@, entry@),
{
    let after = entries.push((name, entry));
    assert(unique(after)) by {
        assert forall|i: int, j: int|
            #![trigger after[i], after[j]]
            0 <= i < j < after.len() implies after[i].0@ != after[j].0@ by {
            if j < entries.len() {
                assert(entries[i].0@ != entries[j].0@);
            } else {
                assert(!binds_at(entries, name@, i));
            }
        }
    }
    let last = entries.len() as int;
    assert forall|n: Seq<char>| #[trigger]
        table_of(after).contains_key(n) <==> table_of(entries).insert(name@, entry@).contains_key(
            n,
        ) by {
        if table_of(after).contains_key(n) {
            let c = choose|c: int| binds_at(after, n, c);
            if c < last {
                assert(binds_at(entries, n, c));
            }
        }
        if n == name@ {
            assert(binds_at(after, n, last));
        } else if table_of(entries).contains_key(n) {
            let c = choose|c: int| binds_at(entries, n, c);
            assert(binds_at(after, n, c));
        }
    }
    assert forall|n: Seq<char>| #[trigger]
        table_of(after).contains_key(n) implies table_of(after)[n] == table_of(entries).insert(
        name@,
        entry@,
    )[n] by {
        let c = choose|c: int| binds_at(after, n, c);
        lemma_entry_in_table(after, c);
        if c < last {
            lemma_entry_in_table(entries, c);
        }
    }
    assert(table_of(after) =~= table_of(entries).insert(name@, entry@));
}

/// Putting another entry for the same name at a position rebinds that name
/// and changes nothing else.
proof fn lemma_replace_entry<I>(
    entries: Seq<(&str, Entry<I>)>,
    i: int,
    name: &str,
    entry: Entry<I>,
)
    requires
        unique(entries),
        binds_at(entries, name@, i),
    ensures
        unique(entries.update(i, (name, entry))),
        table_of(entries.update(i, (name, entry))) == table_of(entries).insert(name@, entry@),
{
    let after = entries.update(i, (name, entry));
    assert(unique(after)) by {
        assert forall|a: int, b: int|
            #![trigger after[a], after[b]]
            0 <= a < b < after.len() implies after[a].0@ != after[b].0@ by {
            assert(entries[a].0@ != entries[b].0@);
        }
    }
    assert forall|n: Seq<char>| #[trigger]
        table_of(after).contains_key(n) <==> table_of(entries).insert(name@, entry@).contains_key(
            n,
        ) by {
        if table_of(after).contains_key(n) {
            let c = choose|c: int| binds_at(after, n, c);
            assert(binds_at(entries, n, c));
        }
        if n == name@ {
            assert(binds_at(after, n, i));
        } else if table_of(entries).contains_key(n) {
            let c = choose|c: int| binds_at(entries, n, c);
            assert(binds_at(after, n, c));
        }
    }
    assert forall|n: Seq<char>| #[trigger]
        table_of(after).contains_key(n) implies table_of(after)[n] == table_of(entries).insert(
        name@,
        entry@,
    )[n] by {
        let c = choose|c: int| binds_at(after, n, c);
        lemma_entry_in_table(after, c);
        lemma_entry_in_table(entries, c);
    }
    assert(table_of(after) =~= table_of(entries).insert(name@, entry@));
}

impl<'a, I> Scope<'a, I> {
    /// No name has two entries.
    #[verifier::type_invariant]
    spec fn names_unique(&self) -> bool {
        unique(self.0@)
    }

    /// A table that binds nothing.
    pub fn new() -> (r: Self)
        ensures
            r@ == Map::<Seq<char>, Binding<I>>::empty(),
    {
        Scope(Vec::new())
    }

    /// Where in the table `name` is bound.
    fn position(&self, name: &str) -> (r: Option<usize>)
        ensures
            match r {
                Some(i) => binds_at(self.0@, name@, i as int),
                None => forall|i: int| !binds_at(self.0@, name@, i),
            },
    {
        let mut i: usize = 0;
        while i < self.0.len()
            invariant
                i <= self.0.len(),
                forall|j: int| 0 <= j < i ==> !binds_at(self.0@, name@, j),
            decreases self.0.len() - i,
        {
            if same_text(self.0[i].0, name) {
                return Some(i);
            }
            i += 1;
        }
        None
    }

    /// The binding of `name` in this table.
    pub fn get(&self, name: &str) -> (r: Option<&Entry<I>>)
        ensures
            match r {
                Some(e) => self@.contains_key(name@) && self@[name@] == e@,
                None => !self@.contains_key(name@),
            },
    {
        proof {
            use_type_invariant(self);
        }
        match self.position(name) {
            Some(i) => {
                proof {
                    lemma_entry_in_table(self.0@, i as int);
                }
                Some(&self.0[i].1)
            },
            None => None,
        }
    }

    /// Binds `name` to `entry`, in place of what it was bound to before.
    pub fn insert(&mut self, name: &'a str, entry: Entry<I>)
        ensures
            final(self)@ == old(self)@.insert(name@, entry@),
    {
        proof {
            use_type_invariant(&*self);
        }
        let found = self.position(name);
        let mut entries = Vec::new();
        std::mem::swap(&mut entries, &mut self.0);
        match found {
            Some(i) => {
                proof {
                    lemma_replace_entry(entries@, i as int, name, entry);
                }
                entries.set(i, (name, entry));
            },
            None => {
                proof {
                    lemma_push_entry(entries@, name, entry);
                }
                entries.push((name, entry));
            },
        }
        self.0 = entries;
    }

    /// Registers `f` for `arity` under `name`, unless `name` is bound to a
    /// plain value. Says whether it did.
    pub fn insert_function(&mut self, name: &'a str, arity: Arity, f: I) -> (done: bool)
        ensures
            done == takes_function(old(self)@, name@),
            done ==> final(self)@ == with_function(old(self)@, name@, arity, f),
            !done ==> *final(self) == *old(self),
    {
        proof {
            use_type_invariant(&*self);
        }
        match self.position(name) {
            Some(i) => {
                proof {
                    lemma_entry_in_table(self.0@, i as int);
                }
                if let Entry::Val(_) = &self.0[i].1 {
                    return false;
                }
                let mut entries = Vec::new();
                std::mem::swap(&mut entries, &mut self.0);
                let ghost before = entries@;
                match &mut entries[i].1 {
                    Entry::Func(existing) => {
                        existing.add_arity(arity, f);
                    },
                    Entry::Val(_) => {},
                }
                proof {
                    let (same, changed) = entries@[i as int];
                    assert(entries@ =~= before.update(i as int, (same, changed)));
                    lemma_replace_entry(before, i as int, same, changed);
                }
                self.0 = entries;
                true
            },
            None => {
                self.insert(name, Entry::Func(Func::new(arity, f)));
                true
            },
        }
    }
}

/// One scope of a chain: its own bindings, and the environment that encloses
/// it, if any.
pub struct Env<'a, I> {
    scope: Scope<'a, I>,
    parent: Option<&'a Env<'a, I>>,
}

impl<'a, I> Env<'a, I> {
    /// The bindings of this environment's own table.
    pub closed spec fn local(&self) -> Map<Seq<char>, Binding<I>> {
        self.scope@
    }

    /// The enclosing environment; a root environment has none.
    pub closed spec fn outer(&self) -> Option<&'a Env<'a, I>> {
        self.parent
    }

    /// What `name` resolves to from this environment: the binding of the
    /// nearest scope of the chain that binds it, and a lookup failure where
    /// the chain ends without one.
    pub open spec fn binding_of(&self, name: Seq<char>) -> Result<Binding<I>, Failure>
        decreases self,
    {
        if self.local().contains_key(name) {
            Ok(self.local()[name])
        } else {
            match self.outer() {
                Some(p) => p.binding_of(name),
                None => Err(Failure::Lookup { name }),
            }
        }
    }

    /// Whether some scope of the chain binds `name`.
    pub open spec fn binds(&self, name: Seq<char>) -> bool
        decreases self,
    {
        self.local().contains_key(name) || match self.outer() {
            Some(p) => p.binds(name),
            None => false,
        }
    }

    /// The implementation that a call of `name` with the given arity reaches
    /// from this environment, or the failure that the call ends in.
    pub open spec fn implementation_of(&self, name: Seq<char>, arity: Arity) -> Result<I, Failure> {
        match self.binding_of(name) {
            Err(e) => Err(e),
            Ok(Binding::Val(_)) => Err(Failure::NotAFunction { name }),
            Ok(Binding::Func(table)) => match resolve(table, arity) {
                Some(f) => Ok(f),
                None => Err(Failure::ArityMismatch { name }),
            },
        }
    }

    /// Binds `name` to the plain value `v` in this environment's own table,
    /// in place of whatever it was bound to there.
    pub fn register(&mut self, name: &'a str, v: Val)
        ensures
            final(self).local() == old(self).local().insert(name@, Binding::Val(v@)),
            final(self).outer() == old(self).outer(),
    {
        self.scope.insert(name, Entry::Val(v));
    }

    /// Registers `f` for `arity` under `name` in this environment's own
    /// table. A name that is bound there to a plain value is refused, and the
    /// environment stays as it was.
    pub fn register_func(&mut self, name: &'a str, arity: Arity, f: I) -> (r: Option<ErrType<'a>>)
        ensures
            final(self).outer() == old(self).outer(),
            match r {
                None => takes_function(old(self).local(), name@) && final(self).local()
                    == with_function(old(self).local(), name@, arity, f),
                Some(e) => !takes_function(old(self).local(), name@) && e@ == (
                Failure::NotAFunction { name: name@ }) && *final(self) == *old(self),
            },
    {
        if self.scope.insert_function(name, arity, f) {
            None
        } else {
            Some(ErrType::not_a_function(name))
        }
    }

    /// Resolves `name`: in this environment's own table first, then outward
    /// through the enclosing environments.
    pub fn lookup(&'a self, name: &'a str) -> (r: Result<&'a Entry<I>, ErrType<'a>>)
        ensures
            match r {
                Ok(e) => self.binding_of(name@) == Ok::<Binding<I>, Failure>(e@),
                Err(e) => self.binding_of(name@) == Err::<Binding<I>, Failure>(e@),
            },
        decreases self,
    {
        match self.scope.get(name) {
            Some(e) => Ok(e),
            None => match self.parent {
                Some(p) => p.lookup(name),
                None => Err(ErrType::lookup(name)),
            },
        }
    }

    /// Resolves `name` to a function and that function to the implementation
    /// for a call of the given arity.
    pub fn lookup_func(&'a self, name: &'a str, arity: Arity) -> (r: Result<&'a I, ErrType<'a>>)
        ensures
            match r {
                Ok(f) => self.implementation_of(name@, arity) == Ok::<I, Failure>(*f),
                Err(e) => self.implementation_of(name@, arity) == Err::<I, Failure>(e@),
            },
    {
        match self.lookup(name) {
            Err(e) => Err(e),
            Ok(entry) => match entry.unwrap_func() {
                None => Err(ErrType::not_a_function(name)),
                Some(func) => match func.lookup(arity) {
                    Some(f) => Ok(f),
                    None => Err(ErrType::arity_mismatch(name)),
                },
            },
        }
    }

    /// An environment that binds nothing itself, enclosed by `parent`.
    pub fn new(parent: Option<&'a Env<'a, I>>) -> (r: Env<'a, I>)
        ensures
            r.local() == Map::<Seq<char>, Binding<I>>::empty(),
            r.outer() == parent,
    {
        Env { scope: Scope::new(), parent }
    }
}

/// A name that a child environment does not bind itself, and that its parent
/// binds, resolves from the child to the parent's binding.
pub proof fn inherited_binding<'a, I>(child: Env<'a, I>, parent: &'a Env<'a, I>, name: Seq<char>)
    requires
        child.outer() == Some(parent),
        !child.local().contains_key(name),
        parent.local().contains_key(name),
    ensures
        child.binding_of(name) == Ok::<Binding<I>, Failure>(parent.local()[name]),
        child.binding_of(name) == parent.binding_of(name),
{
}

/// A name that both a child environment and its parent bind resolves from
/// the child to the child's binding, and from the parent to the parent's own:
/// what the child binds does not reach the parent.
pub proof fn shadowed_binding<'a, I>(child: Env<'a, I>, parent: &'a Env<'a, I>, name: Seq<char>)
    requires
        child.outer() == Some(parent),
        child.local().contains_key(name),
        parent.local().contains_key(name),
    ensures
        child.binding_of(name) == Ok::<Binding<I>, Failure>(child.local()[name]),
        parent.binding_of(name) == Ok::<Binding<I>, Failure>(parent.local()[name]),
{
}

/// A name resolves exactly where some scope of the chain binds it. Where
/// none does, in a root environment or at any depth below one, the lookup
/// fails with the lookup failure for that name.
pub proof fn unbound_name_fails<'a, I>(env: Env<'a, I>, name: Seq<char>)
    ensures
        env.binds(name) <==> env.binding_of(name) is Ok,
        !env.binds(name) ==> env.binding_of(name) == Err::<Binding<I>, Failure>(
            Failure::Lookup { name },
        ),
    decreases env,
{
    if !env.local().contains_key(name) {
        match env.outer() {
            Some(p) => unbound_name_fails(*p, name),
            None => {},
        }
    }
}

/// Registering two implementations under a fresh name, for two different
/// arities, is accepted both times and keeps both: each arity then resolves
/// to its own implementation.
pub proof fn arities_accumulate<I>(
    table: Map<Seq<char>, Binding<I>>,
    name: Seq<char>,
    first: Arity,
    f: I,
    second: Arity,
    g: I,
)
    requires
        !table.contains_key(name),
        first != second,
    ensures
        takes_function(table, name),
        takes_function(with_function(table, name, first, f), name),
        ({
            let after = with_function(with_function(table, name, first, f), name, second, g);
            &&& after.contains_key(name)
            &&& after[name] matches Binding::Func(arities)
            &&& resolve(arities, first) == Some(f)
            &&& resolve(arities, second) == Some(g)
        }),
{
}

/// A name that an environment binds to a plain value takes no function, and
/// goes on resolving to that value.
pub proof fn value_refuses_function<'a, I>(env: Env<'a, I>, name: Seq<char>, v: Value)
    requires
        env.local().contains_key(name),
        env.local()[name] == Binding::<I>::Val(v),
    ensures
        !takes_function(env.local(), name),
        env.binding_of(name) == Ok::<Binding<I>, Failure>(Binding::Val(v)),
{
}

/// An arity without an entry of its own resolves to the variadic entry where
/// the table has one, and to nothing where it has none.
pub proof fn variadic_fallback<I>(table: Map<Arity, I>, arity: Arity)
    requires
        !table.contains_key(arity),
    ensures
        table.contains_key(Arity::VarArgs) ==> resolve(table, arity) == Some(table[Arity::VarArgs]),
        !table.contains_key(Arity::VarArgs) ==> resolve(table, arity) is None,
{
}

/// After a name is bound to one value and then to another in the same
/// environment, it resolves to the second value, whatever the environment
/// held before.
pub proof fn rebinding_wins<'a, I>(
    before: Env<'a, I>,
    after: Env<'a, I>,
    name: Seq<char>,
    v1: Value,
    v2: Value,
)
    requires
        after.local() == before.local().insert(name, Binding::Val(v1)).insert(
            name,
            Binding::Val(v2),
        ),
    ensures
        after.binding_of(name) == Ok::<Binding<I>, Failure>(Binding::Val(v2)),
        after.local() == before.local().insert(name, Binding::Val(v2)),
{
}

} // verus!
