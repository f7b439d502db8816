//! Assembly of the generated members of one record: accessors, the builder
//! capability's declaration, and its realization for the record.
use vstd::prelude::*;
use crate::naming::{camel_to_snake, snake_of};
use crate::record::{FieldDescriptor, Generics, RecordData, RecordDescriptor};
use crate::shape::{get_lifetime, get_option_type, lifetime_of, optional_inner, TypeShape};
use crate::text::{chars_of, string_of};

verus! {

/// Why no code is generated for a declaration.
#[derive(Clone, Copy, PartialEq, Eq, Debug)]
pub enum DeriveError {
    /// The declaration is not a struct.
    NotAStruct,
    /// A field has no name.
    UnnamedField,
}

/// How an accessor hands out its field.
#[derive(Clone, Copy, PartialEq, Eq, Debug)]
pub enum AccessorKind {
    /// A reference to the stored value, valid for the borrow of the instance.
    Owned,
    /// The stored reference itself, copied.
    Borrowed,
}

/// A read method: its name, the index of the field it reads, and how.
pub struct Accessor {
    pub name: String,
    pub field: usize,
    pub kind: AccessorKind,
}

/// A builder transition `name(self, value: param_ty) -> Self` that sets field `field`,
/// to `Some(value)` when `optional`, else to `value`.
pub struct Transition<'a> {
    pub name: String,
    pub field: usize,
    pub param_ty: &'a TypeShape,
    pub optional: bool,
}

/// The builder capability: `new` takes the fields `constructor_params` in that order;
/// the transitions follow.
pub struct Declaration<'a> {
    pub name: String,
    pub generics: &'a Generics,
    pub constructor_params: Vec<usize>,
    pub transitions: Vec<Transition<'a>>,
}

/// The capability's implementation for the record: `new` sets the fields in
/// `empty_fields` to the empty state and the others from its parameters.
pub struct Realization<'a> {
    pub generics: &'a Generics,
    pub empty_fields: Vec<usize>,
}

/// Everything generated for one record.
pub struct GeneratedArtifact<'a> {
    pub record_name: &'a String,
    pub fields: &'a Vec<FieldDescriptor>,
    pub accessors: Vec<Accessor>,
    pub declaration: Declaration<'a>,
    pub realization: Realization<'a>,
}

pub open spec fn is_optional(f: FieldDescriptor) -> bool {
    optional_inner(f.ty) is Some
}

/// The indices of the optional (or of the required) fields, in declared order.
pub open spec fn field_indices(fields: Seq<FieldDescriptor>, optional: bool) -> Seq<usize>
    decreases fields.len(),
{
    if fields.len() == 0 {
        Seq::empty()
    } else {
        let prev = field_indices(fields.drop_last(), optional);
        if is_optional(fields.last()) == optional {
            prev.push((fields.len() - 1) as usize)
        } else {
            prev
        }
    }
}

pub open spec fn all_named(fields: Seq<FieldDescriptor>) -> bool {
    forall|i: int| 0 <= i < fields.len() ==> (#[trigger] fields[i]).ident is Some
}

pub open spec fn name_of(f: FieldDescriptor) -> Seq<char> {
    match f.ident {
        Some(n) => n@,
        None => Seq::empty(),
    }
}

pub open spec fn builder_suffix() -> Seq<char> {
    seq!['B', 'u', 'i', 'l', 'd', 'e', 'r']
}

pub open spec fn transition_prefix() -> Seq<char> {
    seq!['w', 'i', 't', 'h', '_']
}

pub open spec fn accessor_kind(f: FieldDescriptor) -> AccessorKind {
    if lifetime_of(f.ty) is Some {
        AccessorKind::Borrowed
    } else {
        AccessorKind::Owned
    }
}

/// The accessor of field `i`.
pub open spec fn accessor_ok(a: Accessor, fields: Seq<FieldDescriptor>, i: int) -> bool {
    &&& a.field == i
    &&& a.name@ == snake_of(name_of(fields[i]))
    &&& a.kind == accessor_kind(fields[i])
}

/// The transition of field `f`, optional or required.
pub open spec fn transition_ok(
    t: Transition,
    fields: Seq<FieldDescriptor>,
    f: usize,
    optional: bool,
) -> bool {
    &&& t.field == f
    &&& t.optional == optional
    &&& t.name@ == transition_prefix() + snake_of(name_of(fields[f as int]))
    &&& *t.param_ty == if optional {
        optional_inner(fields[f as int].ty)->Some_0
    } else {
        fields[f as int].ty
    }
}

/// When generation fails, and with which error.
pub open spec fn derive_outcome(rec: RecordDescriptor) -> Result<(), DeriveError> {
    match rec.data {
        RecordData::Struct { fields } => if all_named(fields@) {
            Ok(())
        } else {
            Err(DeriveError::UnnamedField)
        },
        _ => Err(DeriveError::NotAStruct),
    }
}

impl<'a> GeneratedArtifact<'a> {
    /// This artifact is exactly what `rec` generates.
    pub open spec fn generated_from(self, rec: RecordDescriptor) -> bool {
        match rec.data {
            RecordData::Struct { fields } => {
                let opt = field_indices(fields@, true);
                let req = field_indices(fields@, false);
                let tr = self.declaration.transitions@;
                &&& *self.record_name == rec.ident
                &&& *self.fields == fields
                &&& self.accessors@.len() == fields@.len()
                &&& forall|i: int|
                    0 <= i < fields@.len() ==> accessor_ok(#[trigger] self.accessors@[i], fields@, i)
                &&& self.declaration.name@ == rec.ident@ + builder_suffix()
                &&& *self.declaration.generics == rec.generics
                &&& *self.realization.generics == rec.generics
                &&& self.declaration.constructor_params@ == req
                &&& self.realization.empty_fields@ == opt
                &&& tr.len() == opt.len() + req.len()
                &&& forall|k: int| 0 <= k < opt.len() ==> transition_ok(#[trigger] tr[k], fields@, opt[k], true)
                &&& forall|k: int|
                    0 <= k < req.len() ==> transition_ok(#[trigger] tr[opt.len() + k], fields@, req[k], false)
            },
            _ => false,
        }
    }
}

impl<'a> GeneratedArtifact<'a> {
    /// The indices the artifact holds are in range, and the constructor's parameters
    /// and the fields it leaves empty are the required and the optional fields.
    pub open spec fn wf(self) -> bool {
        &&& self.declaration.constructor_params@ == field_indices(self.fields@, false)
        &&& self.realization.empty_fields@ == field_indices(self.fields@, true)
        &&& forall|i: int|
            0 <= i < self.accessors@.len() ==> (#[trigger] self.accessors@[i]).field < self.fields@.len()
        &&& forall|k: int|
            0 <= k < self.declaration.transitions@.len()
                ==> (#[trigger] self.declaration.transitions@[k]).field < self.fields@.len()
    }
}

/// The optional (or required) field indices are in range, increasing, of fields of that
/// class, and every field of that class is among them.
pub proof fn lemma_field_indices(fields: Seq<FieldDescriptor>, optional: bool)
    requires
        fields.len() <= usize::MAX,
    ensures
        forall|k: int|
            0 <= k < field_indices(fields, optional).len() ==> {
                let j = #[trigger] field_indices(fields, optional)[k];
                j < fields.len() && is_optional(fields[j as int]) == optional
            },
        forall|k1: int, k2: int|
            0 <= k1 < k2 < field_indices(fields, optional).len() ==> field_indices(fields, optional)[k1]
                < field_indices(fields, optional)[k2],
        forall|j: int|
            0 <= j < fields.len() && is_optional(#[trigger] fields[j]) == optional ==> exists|k: int|
                0 <= k < field_indices(fields, optional).len() && field_indices(fields, optional)[k] == j,
    decreases fields.len(),
{
    if fields.len() > 0 {
        let prev = fields.drop_last();
        lemma_field_indices(prev, optional);
        let fi = field_indices(fields, optional);
        let pi = field_indices(prev, optional);
        assert forall|j: int| 0 <= j < fields.len() && is_optional(#[trigger] fields[j]) == optional implies exists|k: int|
            0 <= k < fi.len() && fi[k] == j by {
            if j < fields.len() - 1 {
                assert(prev[j] == fields[j]);
                let k = choose|k: int| 0 <= k < pi.len() && pi[k] == j;
                assert(fi[k] == j);
            } else {
                assert(fields.last() == fields[j]);
                assert(fi[fi.len() - 1] == j);
            }
        }
    }
}

proof fn lemma_field_indices_step(fields: Seq<FieldDescriptor>, i: int, optional: bool)
    requires
        0 <= i < fields.len(),
    ensures
        field_indices(fields.subrange(0, i + 1), optional) == if is_optional(fields[i]) == optional {
            field_indices(fields.subrange(0, i), optional).push(i as usize)
        } else {
            field_indices(fields.subrange(0, i), optional)
        },
{
    assert(fields.subrange(0, i + 1).drop_last() =~= fields.subrange(0, i));
}

fn builder_name(name: &String) -> (r: String)
    ensures
        r@ == name@ + builder_suffix(),
{
    let mut v = chars_of(name.as_str());
    v.push('B');
    v.push('u');
    v.push('i');
    v.push('l');
    v.push('d');
    v.push('e');
    v.push('r');
    assert(v@ =~= name@ + builder_suffix());
    string_of(&v)
}

fn transition_name(field: &String) -> (r: String)
    ensures
        r@ == transition_prefix() + snake_of(field@),
{
    let snake = camel_to_snake(field);
    let mut v = vec!['w', 'i', 't', 'h', '_'];
    let mut rest = chars_of(snake.as_str());
    v.append(&mut rest);
    assert(v@ =~= transition_prefix() + snake_of(field@));
    string_of(&v)
}

fn check_named(fields: &Vec<FieldDescriptor>) -> (r: bool)
    ensures
        r == all_named(fields@),
{
    let mut i: usize = 0;
    while i < fields.len()
        invariant
            i <= fields.len(),
            forall|k: int| 0 <= k < i ==> (#[trigger] fields@[k]).ident is Some,
        decreases fields.len() - i,
    {
        if fields[i].ident.is_none() {
            return false;
        }
        i = i + 1;
    }
    true
}

/// Generates the accessors, the builder capability and its realization for a record.
/// Fails, with nothing generated, on a declaration that is not a struct and on a
/// struct with an unnamed field.
pub fn impl_structbuilder<'a>(ast: &'a RecordDescriptor) -> (r: Result<GeneratedArtifact<'a>, DeriveError>)
    ensures
        r is Ok <==> derive_outcome(*ast) is Ok,
        r matches Err(e) ==> derive_outcome(*ast) == Err::<(), DeriveError>(e),
        r matches Ok(a) ==> a.generated_from(*ast) && a.wf(),
{
    let fields = match &ast.data {
        RecordData::Struct { fields } => fields,
        _ => return Err(DeriveError::NotAStruct),
    };
    if !check_named(fields) {
        return Err(DeriveError::UnnamedField);
    }
    let mut accessors: Vec<Accessor> = Vec::new();
    let mut opt: Vec<usize> = Vec::new();
    let mut req: Vec<usize> = Vec::new();
    let mut opt_tr: Vec<Transition<'a>> = Vec::new();
    let mut req_tr: Vec<Transition<'a>> = Vec::new();
    let mut i: usize = 0;
    while i < fields.len()
        invariant
            ast.data == (RecordData::Struct { fields: *fields }),
            all_named(fields@),
            i <= fields.len(),
            accessors@.len() == i,
            forall|k: int| 0 <= k < i ==> accessor_ok(#[trigger] accessors@[k], fields@, k),
            opt@ == field_indices(fields@.subrange(0, i as int), true),
            req@ == field_indices(fields@.subrange(0, i as int), false),
            opt_tr@.len() == opt@.len(),
            req_tr@.len() == req@.len(),
            forall|k: int| 0 <= k < opt@.len() ==> transition_ok(#[trigger] opt_tr@[k], fields@, opt@[k], true),
            forall|k: int| 0 <= k < req@.len() ==> transition_ok(#[trigger] req_tr@[k], fields@, req@[k], false),
        decreases fields.len() - i,
    {
        let f = &fields[i];
        assert(f.ident is Some);
        let ident = f.ident.as_ref().unwrap();
        let kind = match get_lifetime(&f.ty) {
            Some(_) => AccessorKind::Borrowed,
            None => AccessorKind::Owned,
        };
        accessors.push(Accessor { name: camel_to_snake(ident), field: i, kind });
        proof {
            lemma_field_indices_step(fields@, i as int, true);
            lemma_field_indices_step(fields@, i as int, false);
        }
        match get_option_type(&f.ty) {
            Some(inner) => {
                opt.push(i);
                opt_tr.push(Transition { name: transition_name(ident), field: i, param_ty: inner, optional: true });
            },
            None => {
                req.push(i);
                req_tr.push(Transition { name: transition_name(ident), field: i, param_ty: &f.ty, optional: false });
            },
        }
        i = i + 1;
    }
    assert(fields@.subrange(0, i as int) =~= fields@);
    let ghost opt_tr0 = opt_tr@;
    let ghost req_tr0 = req_tr@;
    let mut transitions = opt_tr;
    transitions.append(&mut req_tr);
    assert(transitions@ == opt_tr0 + req_tr0);
    let declaration = Declaration {
        name: builder_name(&ast.ident),
        generics: &ast.generics,
        constructor_params: req,
        transitions,
    };
    let realization = Realization { generics: &ast.generics, empty_fields: opt };
    proof {
        lemma_field_indices(fields@, true);
        lemma_field_indices(fields@, false);
    }
    Ok(GeneratedArtifact { record_name: &ast.ident, fields, accessors, declaration, realization })
}

} // verus!
