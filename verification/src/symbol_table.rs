//! The chain of scopes.

use vstd::prelude::*;
use crate::types::{bindings, bindings_at, distinct_names, find_entry, set_entry, Type, Value};

verus! {

/// The chain of scopes of a running program: a stack of frames, the root
/// scope first and the innermost scope last. A frame is a map from name
/// to value, held as a list of named values so that every lookup and
/// update is proved: the first entry of a name is the one that counts,
/// and in a well-formed chain no frame holds a name twice.
#[derive(Debug)]
pub struct SymbolTable {
    pub scopes: Vec<Vec<(String, Type)>>,
}

/// The value that `key` resolves to: the binding of the innermost scope
/// that has one, undefined if no scope has one.
pub open spec fn lookup(scopes: Seq<Map<Seq<char>, Value>>, key: Seq<char>) -> Value
    decreases scopes.len(),
{
    if scopes.len() == 0 {
        Value::Undefined
    } else if scopes.last().dom().contains(key) {
        scopes.last()[key]
    } else {
        lookup(scopes.drop_last(), key)
    }
}

/// The binding of `key` in the innermost scope, if it has one.
pub open spec fn local(scopes: Seq<Map<Seq<char>, Value>>, key: Seq<char>) -> Option<Value> {
    if scopes.len() > 0 && scopes.last().dom().contains(key) {
        Some(scopes.last()[key])
    } else {
        None
    }
}

/// The scopes after binding `key` to `value`: only the innermost scope
/// changes (a chain without a scope gets one).
pub open spec fn assign(scopes: Seq<Map<Seq<char>, Value>>, key: Seq<char>, value: Value) -> Seq<
    Map<Seq<char>, Value>,
> {
    if scopes.len() == 0 {
        seq![Map::empty().insert(key, value)]
    } else {
        scopes.update(scopes.len() - 1, scopes.last().insert(key, value))
    }
}

/// Follows field names from a value, starting at name `i`, and stops
/// before the first field that is undefined.
pub open spec fn resolve(current: Value, names: Seq<Seq<char>>, i: nat) -> Value
    decreases names.len() - i,
{
    if i >= names.len() {
        current
    } else if current.attr(names[i as int]) is Undefined {
        current
    } else {
        resolve(current.attr(names[i as int]), names, i + 1)
    }
}

impl View for SymbolTable {
    type V = Seq<Map<Seq<char>, Value>>;

    open spec fn view(&self) -> Seq<Map<Seq<char>, Value>> {
        Seq::new(self.scopes@.len(), |i: int| bindings(self.scopes@[i]@))
    }
}

/// Chains of scopes that can be handed out in a box.
pub trait BoxClone {
    /// A reference to the chain, in a box.
    fn clone_box(&self) -> Box<&SymbolTable>;
}

impl BoxClone for SymbolTable {
    fn clone_box(&self) -> (r: Box<&SymbolTable>)
        ensures
            **r == *self,
    {
        Box::new(self)
    }
}

impl SymbolTable {
    /// Whether no frame of the chain holds a name twice. `new` gives such
    /// a chain, and binding, entering and leaving keep it so.
    pub open spec fn well_formed(&self) -> bool {
        forall|i: int| 0 <= i < self.scopes@.len() ==> distinct_names(#[trigger] self.scopes@[i]@)
    }

    /// A chain that holds one empty scope, the root.
    pub fn new() -> (r: SymbolTable)
        ensures
            r@ == seq![Map::<Seq<char>, Value>::empty()],
            r.well_formed(),
    {
        let mut scopes: Vec<Vec<(String, Type)>> = Vec::new();
        let root: Vec<(String, Type)> = Vec::new();
        assert(bindings(root@) =~= Map::<Seq<char>, Value>::empty()) by {
            assert forall|k: Seq<char>| !(#[trigger] bindings(root@).dom().contains(k)) by {
                bindings_at(root@, k);
            }
        }
        scopes.push(root);
        let r = SymbolTable { scopes: scopes };
        assert(r@ =~= seq![Map::<Seq<char>, Value>::empty()]);
        r
    }

    /// The number of scopes in the chain.
    pub fn depth(&self) -> (r: usize)
        ensures
            r == self@.len(),
    {
        self.scopes.len()
    }

    /// A copy of the value that `key` resolves to, looking from the
    /// innermost scope outward; undefined if no scope binds it.
    pub fn clone_item(&self, key: &String) -> (r: Type)
        ensures
            r@ == lookup(self@, key@),
    {
        let mut i: usize = self.scopes.len();
        assert(self@.subrange(0, i as int) =~= self@);
        while i > 0
            invariant
                i <= self.scopes.len(),
                lookup(self@, key@) == lookup(self@.subrange(0, i as int), key@),
            decreases i,
        {
            let ghost upto = self@.subrange(0, i as int);
            assert(upto.last() == bindings(self.scopes@[i - 1]@));
            assert(upto.drop_last() =~= self@.subrange(0, i - 1));
            proof {
                bindings_at(self.scopes@[i - 1]@, key@);
            }
            match find_entry(&self.scopes[i - 1], key.as_str()) {
                Some(j) => {
                    return self.scopes[i - 1][j].1.clone();
                },
                None => {},
            }
            i -= 1;
        }
        Type::Undefined
    }

    /// A copy of the binding of `key` in the innermost scope, if it has
    /// one.
    pub fn get_local(&self, key: &str) -> (r: Option<Type>)
        ensures
            match r {
                Some(v) => local(self@, key@) == Some(v@),
                None => local(self@, key@) is None,
            },
    {
        let n = self.scopes.len();
        if n == 0 {
            return None;
        }
        proof {
            bindings_at(self.scopes@[n - 1]@, key@);
        }
        match find_entry(&self.scopes[n - 1], key) {
            Some(j) => Some(self.scopes[n - 1][j].1.clone()),
            None => None,
        }
    }

    /// Resolves a dotted name in the innermost scope: the value of the
    /// first name, then field after field as long as the field is defined.
    /// Undefined if the innermost scope does not bind the first name.
    pub fn var_lookup(&self, dotted_name: &Vec<String>) -> (r: Type)
        requires
            dotted_name@.len() > 0,
        ensures
            r@ == (match local(self@, dotted_name@[0]@) {
                Some(v) => resolve(v, crate::nodes::texts(dotted_name@), 1),
                None => Value::Undefined,
            }),
    {
        match self.get_local(dotted_name[0].as_str()) {
            Some(item) => {
                let mut current_type = item;
                let ghost names = crate::nodes::texts(dotted_name@);
                let ghost first = current_type@;
                let mut i: usize = 1;
                while i < dotted_name.len()
                    invariant
                        1 <= i <= dotted_name.len(),
                        names == crate::nodes::texts(dotted_name@),
                        local(self@, dotted_name@[0]@) == Some(first),
                        resolve(first, names, 1) == resolve(current_type@, names, i as nat),
                    decreases dotted_name.len() - i,
                {
                    assert(names[i as int] == dotted_name@[i as int]@);
                    let temp = current_type.getattr(&dotted_name[i]);
                    if let Type::Undefined = temp {
                        return current_type;
                    }
                    current_type = temp;
                    i += 1;
                }
                current_type
            },
            None => Type::Undefined,
        }
    }

    /// Binds `key` to `value` in the innermost scope, whatever the outer
    /// scopes hold.
    pub fn insert(&mut self, key: String, value: Type)
        ensures
            final(self)@ == assign(old(self)@, key@, value@),
            old(self).well_formed() ==> final(self).well_formed(),
    {
        let mut frame: Vec<(String, Type)> = match self.scopes.pop() {
            Some(f) => f,
            None => {
                let empty: Vec<(String, Type)> = Vec::new();
                assert(bindings(empty@) =~= Map::<Seq<char>, Value>::empty()) by {
                    assert forall|k: Seq<char>| !(#[trigger] bindings(empty@).dom().contains(k)) by {
                        bindings_at(empty@, k);
                    }
                }
                empty
            },
        };
        set_entry(&mut frame, key, value);
        self.scopes.push(frame);
        assert(self@ =~= assign(old(self)@, key@, value@));
        assert(old(self).well_formed() ==> self.well_formed()) by {
            if old(self).well_formed() {
                assert forall|i: int| 0 <= i < self.scopes@.len() implies distinct_names(
                    #[trigger] self.scopes@[i]@,
                ) by {
                    if i < self.scopes@.len() - 1 {
                        assert(self.scopes@[i] == old(self).scopes@[i]);
                    }
                }
            }
        }
    }

    /// Enters a new innermost scope with the given bindings.
    pub fn push_scope(&mut self, frame: Vec<(String, Type)>)
        ensures
            final(self)@ == old(self)@.push(bindings(frame@)),
            old(self).well_formed() && distinct_names(frame@) ==> final(self).well_formed(),
    {
        self.scopes.push(frame);
        assert(old(self).well_formed() && distinct_names(frame@) ==> self.well_formed()) by {
            if old(self).well_formed() && distinct_names(frame@) {
                assert forall|i: int| 0 <= i < self.scopes@.len() implies distinct_names(
                    #[trigger] self.scopes@[i]@,
                ) by {
                    if i < self.scopes@.len() - 1 {
                        assert(self.scopes@[i] == old(self).scopes@[i]);
                    }
                }
            }
        }
        assert(self@ =~= old(self)@.push(bindings(frame@)));
    }

    /// Leaves the innermost scope; a chain without a scope stays as it
    /// is.
    pub fn pop_scope(&mut self)
        ensures
            final(self)@ == (if old(self)@.len() > 0 { old(self)@.drop_last() } else { old(self)@ }),
            old(self).well_formed() ==> final(self).well_formed(),
    {
        let _ = self.scopes.pop();
        assert(old(self).well_formed() ==> self.well_formed()) by {
            if old(self).well_formed() {
                assert forall|i: int| 0 <= i < self.scopes@.len() implies distinct_names(
                    #[trigger] self.scopes@[i]@,
                ) by {
                    assert(self.scopes@[i] == old(self).scopes@[i]);
                }
            }
        }
        assert(self@ =~= (if old(self)@.len() > 0 { old(self)@.drop_last() } else { old(self)@ }));
    }
}

} // verus!
