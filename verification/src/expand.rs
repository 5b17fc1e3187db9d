//! The schema expander: translates one schema definition into concrete
//! type declarations and a reusable type name. Expansion is recursive,
//! registers a title before descending into the definition's children
//! so that self-references resolve against the in-progress entry, and
//! re-expanding an already-emitted title is a no-op that returns the
//! previously used name.

use vstd::prelude::*;
use vstd::string::StringExecFns;
use crate::schema::{Error, ErrorV, Schema};

verus! {

/// One generated type declaration, kept as a typed node rather than
/// raw text so that the whole output can be serialized once at the
/// end.
pub enum Decl {
    /// `pub type name = target;`
    Alias { name: String, target: String },
    /// `pub struct name { fields }`
    Record { name: String, fields: Vec<(String, String)> },
    /// `pub enum name { variants }`, variant order as declared.
    Variants { name: String, variants: Vec<String> },
}

/// The mathematical shape of a [`Decl`].
#[verifier::ext_equal]
pub ghost enum DeclV {
    Alias { name: Seq<char>, target: Seq<char> },
    Record { name: Seq<char>, fields: Seq<(Seq<char>, Seq<char>)> },
    Variants { name: Seq<char>, variants: Seq<Seq<char>> },
}

/// The name a declaration declares.
pub open spec fn decl_name(d: DeclV) -> Seq<char> {
    match d {
        DeclV::Alias { name, .. } => name,
        DeclV::Record { name, .. } => name,
        DeclV::Variants { name, .. } => name,
    }
}

/// The views of a sequence of names.
pub open spec fn names_view(s: Seq<String>) -> Seq<Seq<char>> {
    s.map_values(|x: String| x@)
}

/// The views of a sequence of (name, type) pairs.
pub open spec fn pairs_view(s: Seq<(String, String)>) -> Seq<(Seq<char>, Seq<char>)> {
    s.map_values(|p: (String, String)| (p.0@, p.1@))
}

impl View for Decl {
    type V = DeclV;

    open spec fn view(&self) -> DeclV {
        match self {
            Decl::Alias { name, target } => DeclV::Alias { name: name@, target: target@ },
            Decl::Record { name, fields } => DeclV::Record {
                name: name@,
                fields: pairs_view(fields@),
            },
            Decl::Variants { name, variants } => DeclV::Variants {
                name: name@,
                variants: names_view(variants@),
            },
        }
    }
}

/// The expander's state: the declarations emitted so far, in
/// first-expansion order, and the titles already taken, including
/// those whose expansion is still in progress.
#[verifier::ext_equal]
pub ghost struct ExpStateV {
    pub decls: Seq<DeclV>,
    pub known: Seq<Seq<char>>,
}

/// What expanding one schema does to the state: either a new state and
/// the generated type's name, or the input error that stopped it.
pub open spec fn spec_expand(s: Schema, st: ExpStateV) -> Result<(ExpStateV, Seq<char>), ErrorV>
    decreases s, 0int,
{
    match s {
        Schema::Integer => Ok((st, "i64"@)),
        Schema::Text => Ok((st, "String"@)),
        Schema::Boolean => Ok((st, "bool"@)),
        Schema::Float => Ok((st, "f64"@)),
        Schema::Reference { target } => if st.known.contains(target@) {
            Ok((st, target@))
        } else {
            Err(ErrorV::UnresolvedReference { target: target@ })
        },
        Schema::Optional { elem } => match spec_expand(*elem, st) {
            Ok((st1, n)) => Ok((st1, "Option<"@ + n + ">"@)),
            Err(e) => Err(e),
        },
        Schema::Array { title: None, elem } => match spec_expand(*elem, st) {
            Ok((st1, n)) => Ok((st1, "Vec<"@ + n + ">"@)),
            Err(e) => Err(e),
        },
        Schema::Array { title: Some(t), elem } => if st.known.contains(t@) {
            Ok((st, t@))
        } else {
            let st1 = ExpStateV { decls: st.decls, known: st.known.push(t@) };
            match spec_expand(*elem, st1) {
                Ok((st2, n)) => Ok(
                    (
                        ExpStateV {
                            decls: st2.decls.push(
                                DeclV::Alias { name: t@, target: "Vec<"@ + n + ">"@ },
                            ),
                            known: st2.known,
                        },
                        t@,
                    ),
                ),
                Err(e) => Err(e),
            }
        },
        Schema::Object { title: None, .. } => Err(ErrorV::MissingTypeName),
        Schema::Object { title: Some(t), fields } => if st.known.contains(t@) {
            Ok((st, t@))
        } else {
            let st1 = ExpStateV { decls: st.decls, known: st.known.push(t@) };
            match spec_expand_fields(fields@, st1) {
                Ok((st2, pairs)) => Ok(
                    (
                        ExpStateV {
                            decls: st2.decls.push(DeclV::Record { name: t@, fields: pairs }),
                            known: st2.known,
                        },
                        t@,
                    ),
                ),
                Err(e) => Err(e),
            }
        },
        Schema::Union { title: None, .. } => Err(ErrorV::MissingTypeName),
        Schema::Union { title: Some(t), variants } => if st.known.contains(t@) {
            Ok((st, t@))
        } else {
            Ok(
                (
                    ExpStateV {
                        decls: st.decls.push(
                            DeclV::Variants { name: t@, variants: names_view(variants@) },
                        ),
                        known: st.known.push(t@),
                    },
                    t@,
                ),
            )
        },
    }
}

/// What expanding an object's field list does: the state after all
/// field schemas are expanded, and the (field name, field type name)
/// pairs in field order.
pub open spec fn spec_expand_fields(fields: Seq<(String, Schema)>, st: ExpStateV) -> Result<
    (ExpStateV, Seq<(Seq<char>, Seq<char>)>),
    ErrorV,
>
    decreases fields, 0int,
{
    if fields.len() == 0 {
        Ok((st, Seq::empty()))
    } else {
        match spec_expand(fields[0].1, st) {
            Ok((st1, n)) => match spec_expand_fields(fields.drop_first(), st1) {
                Ok((st2, rest)) => Ok(
                    (st2, Seq::empty().push((fields[0].0@, n)) + rest),
                ),
                Err(e) => Err(e),
            },
            Err(e) => Err(e),
        }
    }
}

/// The schema expander. Declarations accumulate across calls, so one
/// expander instance serves a whole manifest.
pub struct Expander {
    pub decls: Vec<Decl>,
    pub known: Vec<String>,
}

impl View for Expander {
    type V = ExpStateV;

    open spec fn view(&self) -> ExpStateV {
        ExpStateV {
            decls: self.decls@.map_values(|d: Decl| d@),
            known: names_view(self.known@),
        }
    }
}

impl Expander {
    /// A fresh expander with nothing emitted yet.
    pub fn new() -> (r: Expander)
        ensures
            r@ == (ExpStateV { decls: Seq::<DeclV>::empty(), known: Seq::<Seq<char>>::empty() }),
    {
        let r = Expander { decls: Vec::new(), known: Vec::new() };
        proof {
            assert(r@ =~= ExpStateV {
                decls: Seq::<DeclV>::empty(),
                known: Seq::<Seq<char>>::empty(),
            });
        }
        r
    }

    /// Whether `t` is already a taken title.
    fn knows(&self, t: &String) -> (r: bool)
        ensures
            r == self@.known.contains(t@),
    {
        let mut i: usize = 0;
        while i < self.known.len()
            invariant
                i <= self.known.len(),
                forall|j: int| 0 <= j < i ==> self@.known[j] != t@,
            decreases self.known.len() - i,
        {
            let known_i = &self.known[i];
            if *known_i == *t {
                proof {
                    assert(self@.known[i as int] == t@);
                    assert(self@.known.contains(t@));
                }
                return true;
            }
            i = i + 1;
        }
        false
    }

    /// Records `t` as taken.
    fn mark_known(&mut self, t: String)
        ensures
            final(self)@ == (ExpStateV {
                decls: old(self)@.decls,
                known: old(self)@.known.push(t@),
            }),
    {
        self.known.push(t);
        proof {
            assert(self@.known =~= old(self)@.known.push(t@));
            assert(self@.decls =~= old(self)@.decls);
        }
    }

    /// Appends a finished declaration.
    fn push_decl(&mut self, d: Decl)
        ensures
            final(self)@ == (ExpStateV {
                decls: old(self)@.decls.push(d@),
                known: old(self)@.known,
            }),
    {
        self.decls.push(d);
        proof {
            assert(self@.decls =~= old(self)@.decls.push(d@));
            assert(self@.known =~= old(self)@.known);
        }
    }

    /// Expands one schema definition into declarations, appended to
    /// this expander, and returns the generated type's name, exactly
    /// as [`spec_expand`] says. On an error the declarations emitted
    /// so far are abandoned by the caller together with the whole
    /// output.
    pub fn expand(&mut self, s: &Schema) -> (r: Result<String, Error>)
        ensures
            match spec_expand(*s, old(self)@) {
                Ok((stv, name)) => r matches Ok(n) && n@ == name && final(self)@ == stv,
                Err(ev) => r matches Err(e) && e@ == ev,
            },
        decreases s, 0int,
    {
        match s {
            Schema::Integer => Ok(String::from_str("i64")),
            Schema::Text => Ok(String::from_str("String")),
            Schema::Boolean => Ok(String::from_str("bool")),
            Schema::Float => Ok(String::from_str("f64")),
            Schema::Reference { target } => if self.knows(target) {
                Ok(target.clone())
            } else {
                Err(Error::UnresolvedReference { target: target.clone() })
            },
            Schema::Optional { elem } => {
                let n = self.expand(elem)?;
                Ok(String::from_str("Option<").concat(n.as_str()).concat(">"))
            },
            Schema::Array { title, elem } => match title {
                None => {
                    let n = self.expand(elem)?;
                    Ok(String::from_str("Vec<").concat(n.as_str()).concat(">"))
                },
                Some(t) => {
                    if self.knows(t) {
                        Ok(t.clone())
                    } else {
                        self.mark_known(t.clone());
                        let n = self.expand(elem)?;
                        let target = String::from_str("Vec<").concat(n.as_str()).concat(">");
                        self.push_decl(Decl::Alias { name: t.clone(), target });
                        Ok(t.clone())
                    }
                },
            },
            Schema::Object { title, fields } => match title {
                None => Err(Error::MissingTypeName),
                Some(t) => {
                    if self.knows(t) {
                        Ok(t.clone())
                    } else {
                        self.mark_known(t.clone());
                        proof {
                            assert(fields@.skip(0) =~= fields@);
                        }
                        let pairs = self.expand_fields(fields, 0)?;
                        self.push_decl(Decl::Record { name: t.clone(), fields: pairs });
                        Ok(t.clone())
                    }
                },
            },
            Schema::Union { title, variants } => match title {
                None => Err(Error::MissingTypeName),
                Some(t) => {
                    if self.knows(t) {
                        Ok(t.clone())
                    } else {
                        self.mark_known(t.clone());
                        self.push_decl(
                            Decl::Variants { name: t.clone(), variants: clone_names(variants) },
                        );
                        Ok(t.clone())
                    }
                },
            },
        }
    }

    /// Expands the field schemas of an object from position `i` on and
    /// returns the rendered (field name, field type name) pairs.
    fn expand_fields(&mut self, fields: &Vec<(String, Schema)>, i: usize) -> (r: Result<
        Vec<(String, String)>,
        Error,
    >)
        requires
            i <= fields.len(),
        ensures
            match spec_expand_fields(fields@.skip(i as int), old(self)@) {
                Ok((stv, pairs)) => r matches Ok(v) && pairs_view(v@) == pairs && final(self)@
                    == stv,
                Err(ev) => r matches Err(e) && e@ == ev,
            },
        decreases fields, fields.len() - i,
    {
        let ghost rem = fields@.skip(i as int);
        if i == fields.len() {
            let r = Vec::new();
            proof {
                assert(rem.len() == 0);
                assert(pairs_view(r@) =~= Seq::<(Seq<char>, Seq<char>)>::empty());
            }
            Ok(r)
        } else {
            proof {
                assert(rem[0] == fields@[i as int]);
                assert(rem.drop_first() =~= fields@.skip(i as int + 1));
            }
            let n = self.expand(&fields[i].1)?;
            let rest = self.expand_fields(fields, i + 1)?;
            let mut out: Vec<(String, String)> = Vec::new();
            out.push((fields[i].0.clone(), n));
            let ghost head = out@;
            let mut rest = rest;
            let ghost restv = rest@;
            out.append(&mut rest);
            proof {
                assert(out@ =~= head + restv);
                assert(pairs_view(head) =~= Seq::empty().push((fields@[i as int].0@, n@)));
                assert(pairs_view(out@) =~= pairs_view(head) + pairs_view(restv));
            }
            Ok(out)
        }
    }
}

/// Clones a list of names.
pub(crate) fn clone_names(v: &Vec<String>) -> (r: Vec<String>)
    ensures
        names_view(r@) == names_view(v@),
{
    let mut r: Vec<String> = Vec::new();
    let mut i: usize = 0;
    while i < v.len()
        invariant
            i <= v.len(),
            r@.len() == i,
            forall|j: int| 0 <= j < i ==> r@[j]@ == v@[j]@,
        decreases v.len() - i,
    {
        r.push(v[i].clone());
        i = i + 1;
    }
    proof {
        assert(names_view(r@) =~= names_view(v@));
    }
    r
}

} // verus!
