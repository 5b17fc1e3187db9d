//! The schema grammar: classifies one raw schema document — the
//! field-by-field shape in which a manifest carries a type definition
//! — into the [`Schema`] model. The decisions live here, verified; the
//! caller only has to hand the document over as plain values. A
//! document outside the supported subset is a fatal input error.

use vstd::prelude::*;
use vstd::string::{StrSliceExecFns, StringExecFns};
use crate::schema::{Error, Schema};

verus! {

/// One raw schema document: every field the supported subset reads,
/// each optional, exactly as an ABI producer writes them.
pub struct RawSchema {
    /// The `title` field: the name under which the definition is
    /// declared.
    pub title: Option<String>,
    /// The `type` field: `integer`, `string`, `boolean`, `number`,
    /// `array` or `object`.
    pub instance_type: Option<String>,
    /// The `items` field of an array schema.
    pub items: Option<Box<RawSchema>>,
    /// The `properties` field of an object schema, in document order.
    pub properties: Vec<(String, RawSchema)>,
    /// The `required` field of an object schema: the names of the
    /// properties that must be present; all others become optional.
    pub required: Vec<String>,
    /// The `enum` field: the literal variants of a tagged union, in
    /// declared order.
    pub enum_values: Option<Vec<String>>,
    /// The `$ref` field: a reference to another definition.
    pub reference: Option<String>,
}

/// The title a reference names: the conventional definitions prefix is
/// stripped, anything else refers by name directly.
pub open spec fn spec_ref_target(s: Seq<char>) -> Seq<char> {
    if s.len() >= 14 && s.subrange(0, 14) == "#/definitions/"@ {
        s.subrange(14, s.len() as int)
    } else {
        s
    }
}

/// Whether the raw document lies inside the supported subset. A `$ref`
/// wins over everything else, then `enum`, then `type`; a reference to
/// an empty name, an array without `items`, an unknown `type`, or a
/// document with none of the three is malformed.
pub open spec fn raw_classifiable(raw: RawSchema) -> bool
    decreases raw,
{
    if raw.reference is Some {
        spec_ref_target(raw.reference->0@).len() > 0
    } else if raw.enum_values is Some {
        true
    } else if raw.instance_type is Some {
        let t = raw.instance_type->0@;
        if t == "integer"@ || t == "string"@ || t == "boolean"@ || t == "number"@ {
            true
        } else if t == "array"@ {
            raw.items is Some && raw_classifiable(*raw.items->0)
        } else if t == "object"@ {
            forall|k: int|
                0 <= k < raw.properties@.len() ==> raw_classifiable(
                    (#[trigger] raw.properties@[k]).1,
                )
        } else {
            false
        }
    } else {
        false
    }
}

/// How a classified schema relates to the raw document: every name is
/// pinned character for character, every child in its place. An object
/// property named among `required` keeps its schema; any other is
/// wrapped as optional.
pub open spec fn classified_as(raw: RawSchema, s: Schema) -> bool
    decreases raw,
{
    if raw.reference is Some {
        s matches Schema::Reference { target } && target@ == spec_ref_target(raw.reference->0@)
    } else if raw.enum_values is Some {
        s matches Schema::Union { title, variants } && option_view(title) == option_view(raw.title)
            && crate::expand::names_view(variants@) == crate::expand::names_view(
            raw.enum_values->0@,
        )
    } else if raw.instance_type is Some {
        let t = raw.instance_type->0@;
        if t == "integer"@ {
            s == Schema::Integer
        } else if t == "string"@ {
            s == Schema::Text
        } else if t == "boolean"@ {
            s == Schema::Boolean
        } else if t == "number"@ {
            s == Schema::Float
        } else if t == "array"@ {
            raw.items is Some && (s matches Schema::Array { title, elem } && option_view(title)
                == option_view(raw.title) && classified_as(*raw.items->0, *elem))
        } else if t == "object"@ {
            s matches Schema::Object { title, fields } && option_view(title) == option_view(
                raw.title,
            ) && fields@.len() == raw.properties@.len() && forall|k: int|
                0 <= k < raw.properties@.len() ==> {
                    let (pname, praw) = #[trigger] raw.properties@[k];
                    let (fname, fschema) = fields@[k];
                    fname@ == pname@ && if crate::expand::names_view(raw.required@).contains(
                        pname@,
                    ) {
                        classified_as(praw, fschema)
                    } else {
                        fschema matches Schema::Optional { elem } && classified_as(praw, *elem)
                    }
                }
        } else {
            false
        }
    } else {
        false
    }
}

/// The view of an optional name.
pub open spec fn option_view(o: Option<String>) -> Option<Seq<char>> {
    match o {
        None => None,
        Some(s) => Some(s@),
    }
}

/// The six type names are pairwise distinguishable where the grammar
/// needs it.
proof fn lemma_type_names_distinct()
    ensures
        "integer"@ != "array"@ && "string"@ != "array"@ && "boolean"@ != "array"@ && "number"@
            != "array"@,
        "integer"@ != "object"@ && "string"@ != "object"@ && "boolean"@ != "object"@ && "number"@
            != "object"@ && "array"@ != "object"@,
{
    reveal_strlit("integer");
    reveal_strlit("string");
    reveal_strlit("boolean");
    reveal_strlit("number");
    reveal_strlit("array");
    reveal_strlit("object");
    assert("integer"@.len() == 7);
    assert("string"@.len() == 6);
    assert("boolean"@.len() == 7);
    assert("number"@.len() == 6);
    assert("array"@.len() == 5);
    assert("object"@.len() == 6);
    assert("string"@[0] == 's');
    assert("number"@[0] == 'n');
    assert("object"@[0] == 'o');
}

/// Whether two strings hold the same characters.
fn str_eq(a: &str, b: &str) -> (r: bool)
    ensures
        r == (a@ == b@),
{
    let sa = String::from_str(a);
    let sb = String::from_str(b);
    sa == sb
}

/// Whether `names` holds `t`.
fn contains_name(names: &Vec<String>, t: &String) -> (r: bool)
    ensures
        r == crate::expand::names_view(names@).contains(t@),
{
    let mut i: usize = 0;
    while i < names.len()
        invariant
            i <= names.len(),
            forall|j: int| 0 <= j < i ==> crate::expand::names_view(names@)[j] != t@,
        decreases names.len() - i,
    {
        let name_i = &names[i];
        if *name_i == *t {
            proof {
                assert(crate::expand::names_view(names@)[i as int] == t@);
                assert(crate::expand::names_view(names@).contains(t@));
            }
            return true;
        }
        i = i + 1;
    }
    false
}

/// The title a reference names, as [`spec_ref_target`] says.
fn ref_target(r: &String) -> (t: String)
    ensures
        t@ == spec_ref_target(r@),
{
    let n = r.as_str().unicode_len();
    if n >= 14 {
        let prefix = r.as_str().substring_char(0, 14);
        if str_eq(prefix, "#/definitions/") {
            let rest = r.as_str().substring_char(14, n);
            return String::from_str(rest);
        }
    }
    r.clone()
}

/// Classifies one raw schema document, exactly on the documents
/// [`raw_classifiable`] admits, into a schema related to it as
/// [`classified_as`] says; everything else is a malformed schema.
pub fn classify(raw: &RawSchema) -> (r: Result<Schema, Error>)
    ensures
        r is Ok <==> raw_classifiable(*raw),
        r matches Ok(s) ==> classified_as(*raw, s),
        r matches Err(e) ==> e@ == crate::schema::ErrorV::MalformedSchema,
    decreases raw,
{
    proof {
        lemma_type_names_distinct();
    }
    if let Some(reference) = &raw.reference {
        let target = ref_target(reference);
        if target.as_str().unicode_len() == 0 {
            return Err(Error::MalformedSchema);
        }
        return Ok(Schema::Reference { target });
    }
    if let Some(enum_values) = &raw.enum_values {
        return Ok(
            Schema::Union {
                title: clone_title(&raw.title),
                variants: crate::expand::clone_names(enum_values),
            },
        );
    }
    let t = match &raw.instance_type {
        None => {
            return Err(Error::MalformedSchema);
        },
        Some(t) => t,
    };
    if str_eq(t.as_str(), "integer") {
        Ok(Schema::Integer)
    } else if str_eq(t.as_str(), "string") {
        Ok(Schema::Text)
    } else if str_eq(t.as_str(), "boolean") {
        Ok(Schema::Boolean)
    } else if str_eq(t.as_str(), "number") {
        Ok(Schema::Float)
    } else if str_eq(t.as_str(), "array") {
        let items = match &raw.items {
            None => {
                return Err(Error::MalformedSchema);
            },
            Some(items) => items,
        };
        let elem = match classify(items) {
            Ok(elem) => elem,
            Err(e) => {
                return Err(e);
            },
        };
        Ok(Schema::Array { title: clone_title(&raw.title), elem: Box::new(elem) })
    } else if str_eq(t.as_str(), "object") {
        let mut fields: Vec<(String, Schema)> = Vec::new();
        let mut i: usize = 0;
        while i < raw.properties.len()
            invariant
                i <= raw.properties.len(),
                raw.reference is None,
                raw.enum_values is None,
                raw.instance_type is Some && raw.instance_type->0@ == "object"@,
                fields@.len() == i,
                forall|k: int|
                    0 <= k < i ==> raw_classifiable((#[trigger] raw.properties@[k]).1),
                forall|k: int|
                    0 <= k < i ==> {
                        let (pname, praw) = #[trigger] raw.properties@[k];
                        let (fname, fschema) = fields@[k];
                        fname@ == pname@ && if crate::expand::names_view(raw.required@).contains(
                            pname@,
                        ) {
                            classified_as(praw, fschema)
                        } else {
                            fschema matches Schema::Optional { elem } && classified_as(
                                praw,
                                *elem,
                            )
                        }
                    },
            decreases raw.properties.len() - i,
        {
            proof {
                lemma_type_names_distinct();
            }
            let prop = &raw.properties[i];
            let fschema = match classify(&prop.1) {
                Ok(fschema) => fschema,
                Err(e) => {
                    return Err(e);
                },
            };
            if contains_name(&raw.required, &prop.0) {
                fields.push((prop.0.clone(), fschema));
            } else {
                fields.push((prop.0.clone(), Schema::Optional { elem: Box::new(fschema) }));
            }
            i = i + 1;
        }
        Ok(Schema::Object { title: clone_title(&raw.title), fields })
    } else {
        Err(Error::MalformedSchema)
    }
}

/// Clones an optional title.
fn clone_title(o: &Option<String>) -> (r: Option<String>)
    ensures
        option_view(r) == option_view(*o),
{
    match o {
        None => None,
        Some(s) => Some(s.clone()),
    }
}

} // verus!
