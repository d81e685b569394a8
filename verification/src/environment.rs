//! The scopes of a running program: each maps names to values and may lie
//! inside another. A scope is known by its number; a function value holds
//! the number of the scope it was defined in, so a scope lives as long as
//! the environment does.

use vstd::prelude::*;
use vstd::string::*;
use crate::runtime::runtime_error::{RuntimeError, RuntimeErrorView};
use crate::runtime::runtime_type::{RuntimeType, RuntimeTypeView};

verus! {

/// A name and its value.
struct Binding<'a> {
    name: String,
    value: RuntimeType<'a>,
}

/// One scope: the scope it lies in, and its bindings in the order in which
/// the names were first defined.
struct Scope<'a> {
    enclosing: Option<usize>,
    bindings: Vec<Binding<'a>>,
}

/// All the scopes of a program; the first is the global one.
pub struct Environment<'a> {
    scopes: Vec<Scope<'a>>,
}

/// The mathematical value of one scope: the scope it lies in, and its names
/// with their values, in the order in which they were first defined.
pub struct ScopeView {
    pub enclosing: Option<nat>,
    pub names: Seq<Seq<char>>,
    pub values: Seq<RuntimeTypeView>,
}

/// The first position from `from` on at which `key` stands.
pub open spec fn position(names: Seq<Seq<char>>, key: Seq<char>, from: int) -> Option<int>
    decreases names.len() - from,
{
    if from < 0 || from >= names.len() {
        None
    } else if names[from] == key {
        Some(from)
    } else {
        position(names, key, from + 1)
    }
}

/// The scope once `key` is defined in it as `value`.
pub open spec fn defined(scope: ScopeView, key: Seq<char>, value: RuntimeTypeView) -> ScopeView {
    match position(scope.names, key, 0) {
        Some(k) => ScopeView {
            enclosing: scope.enclosing,
            names: scope.names,
            values: scope.values.update(k, value),
        },
        None => ScopeView {
            enclosing: scope.enclosing,
            names: scope.names.push(key),
            values: scope.values.push(value),
        },
    }
}

/// The nearest scope that binds `key`, from `scope` outwards.
pub open spec fn resolve(scopes: Seq<ScopeView>, scope: int, key: Seq<char>) -> Option<int>
    decreases scope,
{
    if scope < 0 || scope >= scopes.len() {
        None
    } else if position(scopes[scope].names, key, 0) is Some {
        Some(scope)
    } else {
        match scopes[scope].enclosing {
            Some(outer) => if outer < scope {
                resolve(scopes, outer as int, key)
            } else {
                None
            },
            None => None,
        }
    }
}

/// The value of `key` as seen from `scope`.
pub open spec fn lookup(scopes: Seq<ScopeView>, scope: int, key: Seq<char>) -> Option<
    RuntimeTypeView,
> {
    match resolve(scopes, scope, key) {
        Some(s) => Some(scopes[s].values[position(scopes[s].names, key, 0)->0]),
        None => None,
    }
}

/// The scopes once `key` is defined in `scope`; a `scope` that does not
/// exist leaves them as they are.
pub open spec fn define(scopes: Seq<ScopeView>, scope: int, key: Seq<char>, value: RuntimeTypeView)
    -> Seq<ScopeView> {
    if 0 <= scope < scopes.len() {
        scopes.update(scope, defined(scopes[scope], key, value))
    } else {
        scopes
    }
}

/// The scopes once the nearest binding of `key` has the new value; `None`
/// where no scope from `scope` outwards binds `key`.
pub open spec fn assign(scopes: Seq<ScopeView>, scope: int, key: Seq<char>, value: RuntimeTypeView)
    -> Option<Seq<ScopeView>> {
    match resolve(scopes, scope, key) {
        Some(s) => Some(define(scopes, s, key, value)),
        None => None,
    }
}

/// The scopes with a new, empty one inside `enclosing`; inside none, where
/// `enclosing` does not exist.
pub open spec fn nested(scopes: Seq<ScopeView>, enclosing: nat) -> Seq<ScopeView> {
    scopes.push(
        ScopeView {
            enclosing: if enclosing < scopes.len() {
                Some(enclosing)
            } else {
                None
            },
            names: seq![],
            values: seq![],
        },
    )
}

/// What holds of every environment: each scope has a value for each name.
pub open spec fn valid(scopes: Seq<ScopeView>) -> bool {
    forall|t: int|
        0 <= t < scopes.len() ==> (#[trigger] scopes[t]).names.len() == scopes[t].values.len()
}

/// Whether the two environments hold the same scopes up to and with `top`.
pub open spec fn agree(a: Seq<ScopeView>, b: Seq<ScopeView>, top: int) -> bool {
    &&& top < a.len()
    &&& top < b.len()
    &&& forall|t: int| 0 <= t <= top ==> a[t] == b[t]
}

/// Whether the two environments have the same names in the same scopes, and
/// each scope inside the same one.
pub open spec fn same_names(a: Seq<ScopeView>, b: Seq<ScopeView>) -> bool {
    &&& a.len() == b.len()
    &&& forall|t: int|
        0 <= t < a.len() ==> (#[trigger] a[t]).names == b[t].names && a[t].enclosing
            == b[t].enclosing
}

/// Which scope binds a name depends on the names and on the nesting alone.
pub proof fn lemma_resolve_names(a: Seq<ScopeView>, b: Seq<ScopeView>, scope: int, key: Seq<char>)
    requires
        same_names(a, b),
    ensures
        resolve(a, scope, key) == resolve(b, scope, key),
    decreases scope,
{
    if 0 <= scope < a.len() && position(a[scope].names, key, 0) is None {
        match a[scope].enclosing {
            Some(outer) => {
                if outer < scope {
                    lemma_resolve_names(a, b, outer as int, key);
                }
            },
            None => {},
        }
    }
}

/// What is seen from a scope depends on that scope and on those before it
/// alone.
pub proof fn lemma_lookup_agree(a: Seq<ScopeView>, b: Seq<ScopeView>, scope: int, key: Seq<char>)
    requires
        agree(a, b, scope),
    ensures
        resolve(a, scope, key) == resolve(b, scope, key),
        lookup(a, scope, key) == lookup(b, scope, key),
    decreases scope,
{
    if 0 <= scope && position(a[scope].names, key, 0) is None {
        match a[scope].enclosing {
            Some(outer) => {
                if outer < scope {
                    lemma_lookup_agree(a, b, outer as int, key);
                }
            },
            None => {},
        }
    }
}

/// The scope that binds a name from `scope` outwards is `scope` or one
/// before it, and binds the name.
pub proof fn lemma_resolve_bounds(scopes: Seq<ScopeView>, scope: int, key: Seq<char>)
    ensures
        resolve(scopes, scope, key) matches Some(s) ==> 0 <= s <= scope && s < scopes.len()
            && position(scopes[s].names, key, 0) is Some,
    decreases scope,
{
    if 0 <= scope < scopes.len() && position(scopes[scope].names, key, 0) is None {
        match scopes[scope].enclosing {
            Some(outer) => {
                if outer < scope {
                    lemma_resolve_bounds(scopes, outer as int, key);
                }
            },
            None => {},
        }
    }
}

/// A definition keeps the scopes valid.
pub proof fn lemma_define_valid(
    scopes: Seq<ScopeView>,
    scope: int,
    key: Seq<char>,
    value: RuntimeTypeView,
)
    requires
        valid(scopes),
    ensures
        valid(define(scopes, scope, key, value)),
{
    let after = define(scopes, scope, key, value);
    assert forall|t: int| 0 <= t < after.len() implies (#[trigger] after[t]).names.len()
        == after[t].values.len() by {
        lemma_position(scopes[t].names, key, 0);
    }
}

/// An assignment keeps the scopes valid.
pub proof fn lemma_assign_valid(
    scopes: Seq<ScopeView>,
    scope: int,
    key: Seq<char>,
    value: RuntimeTypeView,
)
    requires
        valid(scopes),
    ensures
        assign(scopes, scope, key, value) matches Some(after) ==> valid(after),
{
    match resolve(scopes, scope, key) {
        Some(s) => {
            lemma_define_valid(scopes, s, key, value);
        },
        None => {},
    }
}

/// A new scope keeps the scopes valid.
pub proof fn lemma_nested_valid(scopes: Seq<ScopeView>, enclosing: nat)
    requires
        valid(scopes),
    ensures
        valid(nested(scopes, enclosing)),
{
    let after = nested(scopes, enclosing);
    assert forall|t: int| 0 <= t < after.len() implies (#[trigger] after[t]).names.len()
        == after[t].values.len() by {
        if t < scopes.len() {
        }
    }
}

/// Whether `b` holds every scope of `a`, each inside the same scope as in
/// `a` and with the names of `a` first.
pub open spec fn extends(a: Seq<ScopeView>, b: Seq<ScopeView>) -> bool {
    &&& a.len() <= b.len()
    &&& forall|t: int|
        0 <= t < a.len() ==> (#[trigger] b[t]).enclosing == a[t].enclosing
            && a[t].names.is_prefix_of(b[t].names)
}

/// Extending twice is extending.
pub proof fn lemma_extends_transitive(a: Seq<ScopeView>, b: Seq<ScopeView>, c: Seq<ScopeView>)
    requires
        extends(a, b),
        extends(b, c),
    ensures
        extends(a, c),
{
    assert forall|t: int| 0 <= t < a.len() implies (#[trigger] c[t]).enclosing == a[t].enclosing
        && a[t].names.is_prefix_of(c[t].names) by {}
}

/// A definition extends the scopes.
pub proof fn lemma_define_extends(
    scopes: Seq<ScopeView>,
    scope: int,
    key: Seq<char>,
    value: RuntimeTypeView,
)
    ensures
        extends(scopes, define(scopes, scope, key, value)),
{
    let after = define(scopes, scope, key, value);
    assert forall|t: int| 0 <= t < scopes.len() implies (#[trigger] after[t]).enclosing
        == scopes[t].enclosing && scopes[t].names.is_prefix_of(after[t].names) by {}
}

/// An assignment extends the scopes.
pub proof fn lemma_assign_extends(
    scopes: Seq<ScopeView>,
    scope: int,
    key: Seq<char>,
    value: RuntimeTypeView,
)
    ensures
        assign(scopes, scope, key, value) matches Some(after) ==> extends(scopes, after),
{
    match resolve(scopes, scope, key) {
        Some(s) => {
            lemma_define_extends(scopes, s, key, value);
        },
        None => {},
    }
}

/// A new scope extends the scopes.
pub proof fn lemma_nested_extends(scopes: Seq<ScopeView>, enclosing: nat)
    ensures
        extends(scopes, nested(scopes, enclosing)),
{
    let after = nested(scopes, enclosing);
    assert forall|t: int| 0 <= t < scopes.len() implies (#[trigger] after[t]).enclosing
        == scopes[t].enclosing && scopes[t].names.is_prefix_of(after[t].names) by {}
}

/// A key that stands among the names stands at the same position among
/// names that go on behind them.
pub proof fn lemma_position_prefix(
    names: Seq<Seq<char>>,
    longer: Seq<Seq<char>>,
    key: Seq<char>,
    from: int,
)
    requires
        0 <= from,
        names.is_prefix_of(longer),
        position(names, key, from) is Some,
    ensures
        position(longer, key, from) == position(names, key, from),
    decreases names.len() - from,
{
    if from < names.len() && names[from] != key {
        lemma_position_prefix(names, longer, key, from + 1);
    }
}

/// What is bound stays bound: where a scope sees a name, it sees that name
/// in every extension of the scopes.
pub proof fn law_bindings_persist(
    a: Seq<ScopeView>,
    b: Seq<ScopeView>,
    scope: int,
    key: Seq<char>,
)
    requires
        extends(a, b),
        resolve(a, scope, key) is Some,
    ensures
        resolve(b, scope, key) is Some,
    decreases scope,
{
    if 0 <= scope < a.len() {
        if position(a[scope].names, key, 0) is Some {
            lemma_position_prefix(a[scope].names, b[scope].names, key, 0);
        } else if position(b[scope].names, key, 0) is None {
            match a[scope].enclosing {
                Some(outer) => {
                    if outer < scope {
                        law_bindings_persist(a, b, outer as int, key);
                    }
                },
                None => {},
            }
        }
    }
}

/// A position that is found lies among the names and holds the key.
pub proof fn lemma_position(names: Seq<Seq<char>>, key: Seq<char>, from: int)
    requires
        0 <= from,
    ensures
        position(names, key, from) matches Some(k) ==> from <= k < names.len() && names[k] == key,
    decreases names.len() - from,
{
    if from < names.len() && names[from] != key {
        lemma_position(names, key, from + 1);
    }
}

/// A name that is defined in a scope is seen from that scope with the value
/// of the definition.
pub proof fn law_define_then_get(
    scopes: Seq<ScopeView>,
    scope: int,
    key: Seq<char>,
    value: RuntimeTypeView,
)
    requires
        valid(scopes),
        0 <= scope < scopes.len(),
    ensures
        lookup(define(scopes, scope, key, value), scope, key) == Some(value),
{
    let names = scopes[scope].names;
    lemma_position(names, key, 0);
    if position(names, key, 0) is None {
        lemma_position_pushed(names, key, 0);
    }
}

/// A key that is not among the names stands last once it is pushed.
pub proof fn lemma_position_pushed(names: Seq<Seq<char>>, key: Seq<char>, from: int)
    requires
        0 <= from <= names.len(),
        position(names, key, from) is None,
    ensures
        position(names.push(key), key, from) == Some(names.len() as int),
    decreases names.len() - from,
{
    if from < names.len() {
        lemma_position_pushed(names, key, from + 1);
    }
}

/// After an assignment the name has the assigned value, seen from the scope
/// of the assignment.
pub proof fn law_assign_then_get(
    scopes: Seq<ScopeView>,
    scope: int,
    key: Seq<char>,
    value: RuntimeTypeView,
)
    requires
        valid(scopes),
    ensures
        assign(scopes, scope, key, value) matches Some(after) ==> lookup(after, scope, key)
            == Some(value),
{
    lemma_resolve_bounds(scopes, scope, key);
    match resolve(scopes, scope, key) {
        Some(s) => {
            let after = define(scopes, s, key, value);
            lemma_position(scopes[s].names, key, 0);
            lemma_resolve_names(scopes, after, scope, key);
        },
        None => {},
    }
}

impl<'a> Scope<'a> {
    /// The mathematical value of the scope.
    closed spec fn model(self) -> ScopeView {
        ScopeView {
            enclosing: match self.enclosing {
                Some(e) => Some(e as nat),
                None => None,
            },
            names: Seq::new(self.bindings@.len(), |i: int| self.bindings@[i].name@),
            values: Seq::new(self.bindings@.len(), |i: int| self.bindings@[i].value@),
        }
    }

    /// The position of `key` among the names.
    fn find(&self, key: &String) -> (r: Option<usize>)
        ensures
            match r {
                Some(k) => position(self.model().names, key@, 0) == Some(k as int) && k
                    < self.bindings@.len(),
                None => position(self.model().names, key@, 0) is None,
            },
    {
        let mut i: usize = 0;
        while i < self.bindings.len()
            invariant
                i <= self.bindings@.len(),
                position(self.model().names, key@, i as int) == position(
                    self.model().names,
                    key@,
                    0,
                ),
            decreases self.bindings@.len() - i,
        {
            if self.bindings[i].name == *key {
                return Some(i);
            }
            i += 1;
        }
        None
    }
}

impl<'a> View for Environment<'a> {
    type V = Seq<ScopeView>;

    closed spec fn view(&self) -> Seq<ScopeView> {
        Seq::new(self.scopes@.len(), |i: int| self.scopes@[i].model())
    }
}

impl<'a> Environment<'a> {
    /// An environment with the global scope alone, which has the number 0.
    pub fn global() -> (r: Self)
        ensures
            r@ == seq![ScopeView { enclosing: None, names: seq![], values: seq![] }],
    {
        let mut scopes: Vec<Scope<'a>> = Vec::new();
        scopes.push(Scope { enclosing: None, bindings: Vec::new() });
        let r = Environment { scopes };
        assert(r@ =~= seq![ScopeView { enclosing: None, names: seq![], values: seq![] }]) by {
            assert(r.scopes@[0].model().names =~= seq![]);
            assert(r.scopes@[0].model().values =~= seq![]);
        }
        r
    }

    /// Opens a new scope inside `enclosing` and gives its number.
    pub fn local(&mut self, enclosing: usize) -> (r: usize)
        ensures
            final(self)@ == nested(old(self)@, enclosing as nat),
            r == old(self)@.len(),
    {
        let outer = if enclosing < self.scopes.len() {
            Some(enclosing)
        } else {
            None
        };
        let number = self.scopes.len();
        let scope = Scope { enclosing: outer, bindings: Vec::new() };
        assert(scope.model().names =~= seq![]);
        assert(scope.model().values =~= seq![]);
        self.scopes.push(scope);
        number
    }

    /// Binds `key` to `value` in `scope`, whether or not it is bound there.
    pub fn define(&mut self, scope: usize, key: String, value: RuntimeType<'a>)
        ensures
            final(self)@ == define(old(self)@, scope as int, key@, value@),
    {
        if scope >= self.scopes.len() {
            return ;
        }
        let ghost before = self.scopes@[scope as int].model();
        match self.scopes[scope].find(&key) {
            Some(k) => {
                self.scopes[scope].bindings[k].value = value;
                proof {
                    let after = self.scopes@[scope as int].model();
                    assert(after.names =~= before.names);
                    assert(after.values =~= before.values.update(k as int, value@));
                }
            },
            None => {
                self.scopes[scope].bindings.push(Binding { name: key, value });
                proof {
                    let after = self.scopes@[scope as int].model();
                    assert(after.names =~= before.names.push(key@));
                    assert(after.values =~= before.values.push(value@));
                }
            },
        }
    }

    /// The nearest scope that binds `key`, from `scope` outwards.
    fn owner(&self, scope: usize, key: &String) -> (r: Option<(usize, usize)>)
        ensures
            match r {
                Some((s, k)) => resolve(self@, scope as int, key@) == Some(s as int) && s
                    < self.scopes@.len() && position(self@[s as int].names, key@, 0) == Some(
                    k as int,
                ) && k < self.scopes@[s as int].bindings@.len(),
                None => resolve(self@, scope as int, key@) is None,
            },
    {
        let mut current: usize = scope;
        loop
            invariant
                resolve(self@, current as int, key@) == resolve(self@, scope as int, key@),
            decreases current,
        {
            if current >= self.scopes.len() {
                return None;
            }
            match self.scopes[current].find(key) {
                Some(k) => {
                    return Some((current, k));
                },
                None => {},
            }
            match self.scopes[current].enclosing {
                Some(outer) => {
                    if outer < current {
                        current = outer;
                    } else {
                        return None;
                    }
                },
                None => {
                    return None;
                },
            }
        }
    }

    /// Gives the nearest binding of `key`, from `scope` outwards, the new
    /// value. It never makes a binding: where there is none, it fails and
    /// changes nothing.
    pub fn assign(&mut self, scope: usize, key: String, value: RuntimeType<'a>) -> (r: Result<
        (),
        RuntimeError<'a>,
    >)
        ensures
            match assign(old(self)@, scope as int, key@, value@) {
                Some(scopes) => r is Ok && final(self)@ == scopes,
                None => r matches Err(e) && e@ == RuntimeErrorView::UndefinedIdentifier(key@)
                    && final(self)@ == old(self)@,
            },
    {
        match self.owner(scope, &key) {
            Some((s, _k)) => {
                self.define(s, key, value);
                Ok(())
            },
            None => Err(RuntimeError::UndefinedIdentifier(key)),
        }
    }

    /// The value of `key` as seen from `scope`.
    pub fn get(&self, scope: usize, key: &String) -> (r: Option<RuntimeType<'a>>)
        ensures
            match r {
                Some(v) => lookup(self@, scope as int, key@) == Some(v@),
                None => lookup(self@, scope as int, key@) is None,
            },
    {
        match self.owner(scope, key) {
            Some((s, k)) => Some(self.scopes[s].bindings[k].value.clone()),
            None => None,
        }
    }

    /// Every environment is valid.
    pub proof fn lemma_valid(&self)
        ensures
            valid(self@),
    {
    }

    /// The number of scopes.
    pub fn len(&self) -> (r: usize)
        ensures
            r == self@.len(),
    {
        self.scopes.len()
    }
}

} // verus!
