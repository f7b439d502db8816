//! Structural model of a declared field type, and the two classifications read from it.
use vstd::prelude::*;

verus! {

/// A declared type, queried only by its syntactic form. `text` is its source form,
/// carried unchanged for whoever renders the generated code.
pub struct TypeShape {
    pub text: String,
    pub form: TypeForm,
}

pub enum TypeForm {
    /// A path such as `std::option::Option<T>`, as its segments.
    Path { segments: Vec<PathSegment> },
    /// A reference, with its named scope annotation if one is written.
    Reference { lifetime: Option<String> },
    /// Any other form (tuple, array, slice, pointer, ...).
    Other,
}

pub struct PathSegment {
    pub ident: String,
    pub arguments: PathArguments,
}

pub enum PathArguments {
    /// No arguments, as in `Vec`.
    Bare,
    AngleBracketed { args: Vec<GenericArgument> },
    Parenthesized,
}

pub enum GenericArgument {
    Type(TypeShape),
    Lifetime(String),
    Const(String),
    Other,
}

pub open spec fn option_name() -> Seq<char> {
    seq!['O', 'p', 't', 'i', 'o', 'n']
}

/// The argument of an optional wrapper: a path whose last segment is literally `Option`,
/// with exactly one argument, which is a type.
pub open spec fn optional_inner(t: TypeShape) -> Option<TypeShape> {
    match t.form {
        TypeForm::Path { segments } => {
            if segments.len() == 0 {
                None
            } else {
                let last = segments@.last();
                if last.ident@ != option_name() {
                    None
                } else {
                    match last.arguments {
                        PathArguments::AngleBracketed { args } => {
                            if args.len() == 1 {
                                match args@[0] {
                                    GenericArgument::Type(inner) => Some(inner),
                                    _ => None,
                                }
                            } else {
                                None
                            }
                        },
                        _ => None,
                    }
                }
            }
        },
        _ => None,
    }
}

/// The named scope annotation of a reference type, if it has one.
pub open spec fn lifetime_of(t: TypeShape) -> Option<String> {
    match t.form {
        TypeForm::Reference { lifetime } => lifetime,
        _ => None,
    }
}

fn is_option_name(s: &String) -> (r: bool)
    ensures
        r == (s@ == option_name()),
{
    let expected = "Option".to_owned();
    proof {
        reveal_strlit("Option");
        assert(expected@ =~= option_name());
    }
    *s == expected
}

/// Classifies a field type by optionality: the wrapped type of an `Option` with one
/// type argument, or `None` when the field is required.
pub fn get_option_type(ty: &TypeShape) -> (r: Option<&TypeShape>)
    ensures
        r matches Some(inner) ==> optional_inner(*ty) == Some(*inner),
        r is None ==> optional_inner(*ty) is None,
{
    match &ty.form {
        TypeForm::Path { segments } => {
            if segments.len() == 0 {
                return None;
            }
            let last = &segments[segments.len() - 1];
            if !is_option_name(&last.ident) {
                return None;
            }
            match &last.arguments {
                PathArguments::AngleBracketed { args } => {
                    if args.len() != 1 {
                        return None;
                    }
                    match &args[0] {
                        GenericArgument::Type(inner) => Some(inner),
                        _ => None,
                    }
                },
                _ => None,
            }
        },
        _ => None,
    }
}

/// Classifies a field type by ownership: the scope annotation of a reference that
/// names one, or `None` when the field is owned.
pub fn get_lifetime(ty: &TypeShape) -> (r: Option<&String>)
    ensures
        r matches Some(l) ==> lifetime_of(*ty) == Some(*l),
        r is None ==> lifetime_of(*ty) is None,
{
    match &ty.form {
        TypeForm::Reference { lifetime } => lifetime.as_ref(),
        _ => None,
    }
}

} // verus!
