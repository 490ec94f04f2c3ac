//! The input model: type shapes, attribute entries, fields, and records.
//!
//! A declared type is kept only as far as the generator inspects it: whether
//! it is a one-segment path applied to exactly one type argument (a wrapper),
//! and otherwise its source text, carried through for output splicing.

use vstd::prelude::*;
use vstd::string::StringExecFns;

verus! {

/// The syntactic shape of a field's declared type.
///
/// The generator needs exactly one query on a type: "is this `W<Inner>` for a
/// given wrapper name `W`, and if so, what is `Inner`?" Anything deeper is
/// never inspected, so the inner argument and every other shape are carried
/// as their source text.
pub enum TypeExpr {
    /// A one-segment path applied to exactly one type argument,
    /// such as an optional or sequence container around an element type.
    Wrapper { name: String, inner: String },
    /// Any other syntactic form, carried as its source text.
    Other { text: String },
}

impl TypeExpr {
    /// The inner type argument, if this type is `wrapper<inner>`.
    pub open spec fn spec_wrapper_arg(self, wrapper: Seq<char>) -> Option<Seq<char>> {
        match self {
            TypeExpr::Wrapper { name, inner } => if name@ == wrapper {
                Some(inner@)
            } else {
                None
            },
            TypeExpr::Other { .. } => None,
        }
    }

    /// The source text of this type.
    pub open spec fn spec_text(self) -> Seq<char> {
        match self {
            TypeExpr::Wrapper { name, inner } => name@ + "<"@ + inner@ + ">"@,
            TypeExpr::Other { text } => text@,
        }
    }

    /// Whether this type has the shape `wrapper<inner>` for the given wrapper name.
    pub fn wrapper_arg<'a>(&'a self, wrapper: &str) -> (r: Option<&'a String>)
        ensures
            match r {
                Some(arg) => {
                    &&& *self matches TypeExpr::Wrapper { name, inner } && name@ == wrapper@
                        && *arg == inner
                    &&& self.spec_wrapper_arg(wrapper@) == Some(arg@)
                },
                None => self.spec_wrapper_arg(wrapper@) is None,
            },
    {
        match self {
            TypeExpr::Wrapper { name, inner } => {
                if crate::text_eq(name, wrapper) {
                    Some(inner)
                } else {
                    None
                }
            },
            TypeExpr::Other { .. } => None,
        }
    }

    /// Renders the source text of this type.
    pub fn text(&self) -> (r: String)
        ensures
            r@ == self.spec_text(),
    {
        match self {
            TypeExpr::Wrapper { name, inner } => {
                let mut out = name.clone();
                out.append("<");
                out.append(inner.as_str());
                out.append(">");
                out
            },
            TypeExpr::Other { text } => text.clone(),
        }
    }
}

impl Clone for TypeExpr {
    fn clone(&self) -> (r: Self)
        ensures
            r == *self,
    {
        match self {
            TypeExpr::Wrapper { name, inner } => TypeExpr::Wrapper {
                name: name.clone(),
                inner: inner.clone(),
            },
            TypeExpr::Other { text } => TypeExpr::Other { text: text.clone() },
        }
    }
}

/// The parsed argument of one attribute entry on a field.
pub enum AttrArg {
    /// `key = "value"`, with a string-literal value.
    StrAssign { key: String, value: String },
    /// `key = <something other than a string literal>`.
    NonStrAssign { key: String },
    /// Any argument shape that is not a single `key = value` pair.
    Unstructured,
}

/// One attribute entry on a field: the tool path it is addressed to,
/// and its argument.
pub struct RawAttribute {
    pub tool: String,
    pub arg: AttrArg,
}

/// One field of a record: its name, the shape of its declared type, and its
/// raw attribute entries, in source order.
pub struct FieldSchema {
    pub name: String,
    pub declared_type: TypeExpr,
    pub raw_attributes: Vec<RawAttribute>,
}

/// The body of a record definition. Only a flat list of named fields is
/// supported; the other shapes are recorded so that they can be rejected.
pub enum RecordBody {
    /// A flat list of named fields, in declaration order.
    Named { fields: Vec<FieldSchema> },
    /// A record with positional (tuple-style) fields.
    Positional,
    /// A record with no fields at all.
    Unit,
    /// A variant (union-style) definition.
    Variants,
}

/// A record definition: the input of one generation pass.
pub struct RecordDef {
    pub name: String,
    pub body: RecordBody,
}

/// The diagnostic for an input that is not a flat named-field record.
pub struct UnsupportedShape;

/// The schema extractor: the ordered field list of a flat named-field
/// record, in declaration order, or a failure for any other shape.
pub fn extract<'a>(def: &'a RecordDef) -> (r: Result<&'a Vec<FieldSchema>, UnsupportedShape>)
    ensures
        match r {
            Ok(fields) => def.body is Named && fields@ == def.body->Named_fields@,
            Err(_) => !(def.body is Named),
        },
{
    match &def.body {
        RecordBody::Named { fields } => Ok(fields),
        _ => Err(UnsupportedShape),
    }
}

} // verus!
