//! What the generated members do on an instance of the record: the constructor,
//! the builder transitions and the accessors, over field values.
use vstd::prelude::*;
use crate::record::FieldDescriptor;
use crate::template::{field_indices, is_optional, lemma_field_indices, GeneratedArtifact, Transition};

verus! {

/// The value held in one field.
#[derive(PartialEq, Debug)]
pub enum Value {
    Text(String),
    Integer(u64),
    Boolean(bool),
    /// An optional field with no value.
    Empty,
    /// An optional field holding a value.
    Present(Box<Value>),
}

/// An instance of the record: one value per field, in declared order.
#[derive(PartialEq, Debug)]
pub struct Instance {
    pub slots: Vec<Value>,
}

/// What a transition stores for the argument `v`.
pub open spec fn stored(t: Transition, v: Value) -> Value {
    if t.optional {
        Value::Present(Box::new(v))
    } else {
        v
    }
}

impl<'a> GeneratedArtifact<'a> {
    /// The fields after transition `t` with argument `v`.
    pub open spec fn after_transition(self, slots: Seq<Value>, t: int, v: Value) -> Seq<Value> {
        let tr = self.declaration.transitions@[t];
        slots.update(tr.field as int, stored(tr, v))
    }

    /// Runs the generated constructor on `args`, its parameters in order. Returns `None`
    /// when their number differs from the constructor's.
    pub fn construct(&self, args: Vec<Value>) -> (r: Option<Instance>)
        requires
            self.wf(),
        ensures
            r is Some <==> args@.len() == self.declaration.constructor_params@.len(),
            r matches Some(inst) ==> {
                &&& inst.slots@.len() == self.fields@.len()
                &&& forall|k: int|
                    0 <= k < args@.len() ==> inst.slots@[#[trigger] self.declaration.constructor_params@[k] as int]
                        == args@[k]
                &&& forall|j: int|
                    0 <= j < self.fields@.len() && is_optional(#[trigger] self.fields@[j])
                        ==> inst.slots@[j] == Value::Empty
            },
    {
        let params = &self.declaration.constructor_params;
        if args.len() != params.len() {
            return None;
        }
        let n = self.fields.len();
        let mut slots: Vec<Value> = Vec::new();
        let mut i: usize = 0;
        while i < n
            invariant
                i <= n,
                n == self.fields@.len(),
                slots@.len() == i,
                forall|j: int| 0 <= j < i ==> slots@[j] == Value::Empty,
            decreases n - i,
        {
            slots.push(Value::Empty);
            i = i + 1;
        }
        let ghost all_args = args@;
        let mut rest = args;
        let mut k: usize = 0;
        while k < params.len()
            invariant
                self.wf(),
                n == self.fields@.len(),
                params@ == field_indices(self.fields@, false),
                all_args.len() == params@.len(),
                k <= params@.len(),
                rest@ == all_args.subrange(k as int, all_args.len() as int),
                slots@.len() == self.fields@.len(),
                forall|k2: int|
                    0 <= k2 < k ==> slots@[#[trigger] params@[k2] as int] == all_args[k2],
                forall|j: int|
                    0 <= j < self.fields@.len() && is_optional(#[trigger] self.fields@[j])
                        ==> slots@[j] == Value::Empty,
            decreases params@.len() - k,
        {
            proof {
                lemma_field_indices(self.fields@, false);
            }
            let v = rest.remove(0);
            let f = params[k];
            slots.set(f, v);
            k = k + 1;
            assert(rest@ =~= all_args.subrange(k as int, all_args.len() as int));
        }
        Some(Instance { slots })
    }

    /// Runs transition `t` with argument `value`: the instance comes back with that
    /// transition's field overwritten.
    pub fn apply(&self, inst: Instance, t: usize, value: Value) -> (r: Instance)
        requires
            self.wf(),
            t < self.declaration.transitions@.len(),
            inst.slots@.len() == self.fields@.len(),
        ensures
            r.slots@ == self.after_transition(inst.slots@, t as int, value),
    {
        let tr = &self.declaration.transitions[t];
        let stored_value = if tr.optional {
            Value::Present(Box::new(value))
        } else {
            value
        };
        let mut slots = inst.slots;
        slots.set(tr.field, stored_value);
        Instance { slots }
    }

    /// Runs accessor `a`: the value stored in its field, borrowed from the instance.
    pub fn read<'b>(&self, inst: &'b Instance, a: usize) -> (r: &'b Value)
        requires
            self.wf(),
            a < self.accessors@.len(),
            inst.slots@.len() == self.fields@.len(),
        ensures
            *r == inst.slots@[self.accessors@[a as int].field as int],
    {
        &inst.slots[self.accessors[a].field]
    }

    /// The position of the transition named `name`.
    pub fn transition_named(&self, name: &String) -> (r: Option<usize>)
        ensures
            r matches Some(t) ==> t < self.declaration.transitions@.len()
                && self.declaration.transitions@[t as int].name@ == name@,
            r is None ==> forall|t: int|
                0 <= t < self.declaration.transitions@.len()
                    ==> (#[trigger] self.declaration.transitions@[t]).name@ != name@,
    {
        let trs = &self.declaration.transitions;
        let mut t: usize = 0;
        while t < trs.len()
            invariant
                trs == &self.declaration.transitions,
                t <= trs@.len(),
                forall|u: int| 0 <= u < t ==> (#[trigger] trs@[u]).name@ != name@,
            decreases trs@.len() - t,
        {
            if trs[t].name.eq(name) {
                return Some(t);
            }
            t = t + 1;
        }
        None
    }

    /// The position of the accessor named `name`.
    pub fn accessor_named(&self, name: &String) -> (r: Option<usize>)
        ensures
            r matches Some(a) ==> a < self.accessors@.len() && self.accessors@[a as int].name@ == name@,
            r is None ==> forall|a: int|
                0 <= a < self.accessors@.len() ==> (#[trigger] self.accessors@[a]).name@ != name@,
    {
        let mut a: usize = 0;
        while a < self.accessors.len()
            invariant
                a <= self.accessors@.len(),
                forall|u: int| 0 <= u < a ==> (#[trigger] self.accessors@[u]).name@ != name@,
            decreases self.accessors@.len() - a,
        {
            if self.accessors[a].name.eq(name) {
                return Some(a);
            }
            a = a + 1;
        }
        None
    }
}

} // verus!
