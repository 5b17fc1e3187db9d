//! The properties the generator guarantees, stated and proved once and
//! for all: idempotent type expansion, referential integrity,
//! calling-convention correctness, the zero-argument special case, and
//! the stability of generated type names. Determinism needs no lemma of
//! its own: the compilation functions promise that their output equals
//! a spec-level function of the manifest alone, so two runs on one
//! manifest agree byte for byte.

use vstd::prelude::*;
use crate::emit::{
    spec_args_expr, spec_budget_param, spec_context_param, spec_full_params, spec_transfer_param,
};
use crate::expand::{decl_name, spec_expand, spec_expand_fields, DeclV, ExpStateV};
use crate::generator::{spec_build, spec_compile, spec_synth_all};
use crate::methods::{spec_param_name, spec_params, spec_synthesize, StubV};
use crate::registry::spec_lookup;
use crate::schema::{ErrorV, Manifest, MethodEntry, Schema, TypeEntry};

verus! {

/// The title under which a schema would be declared, where it has one.
pub open spec fn spec_schema_title(s: Schema) -> Option<String> {
    match s {
        Schema::Array { title, .. } => title,
        Schema::Object { title, .. } => title,
        Schema::Union { title, .. } => title,
        _ => None,
    }
}

/// No two emitted declarations share a name.
pub open spec fn distinct_decls(decls: Seq<DeclV>) -> bool {
    forall|i: int, j: int|
        0 <= i < j < decls.len() ==> decl_name(decls[i]) != decl_name(decls[j])
}

/// Every emitted declaration's name is a taken title.
pub open spec fn decls_known(st: ExpStateV) -> bool {
    forall|i: int|
        0 <= i < st.decls.len() ==> st.known.contains(decl_name(#[trigger] st.decls[i]))
}

/// A well-formed expander state: declaration names are pairwise
/// distinct, and each one is a taken title.
pub open spec fn wf_state(st: ExpStateV) -> bool {
    distinct_decls(st.decls) && decls_known(st)
}

/// Pushing onto a sequence keeps everything it contains, and makes it
/// contain the pushed element.
proof fn lemma_push_keeps(s: Seq<Seq<char>>, x: Seq<char>)
    ensures
        forall|y: Seq<char>| s.contains(y) ==> s.push(x).contains(y),
        s.push(x).contains(x),
{
    assert forall|y: Seq<char>| s.contains(y) implies s.push(x).contains(y) by {
        let i = choose|i: int| 0 <= i < s.len() && s[i] == y;
        assert(s.push(x)[i] == y);
    }
    assert(s.push(x)[s.len() as int] == x);
}

/// What a successful expansion does to a well-formed state: the state
/// stays well-formed, nothing already emitted or taken is lost, and
/// every newly emitted declaration's name is a title that was not taken
/// before the call.
pub proof fn lemma_expand_wf(s: Schema, st: ExpStateV)
    requires
        wf_state(st),
    ensures
        spec_expand(s, st) matches Ok((st2, n)) ==> wf_state(st2) && st.decls.len()
            <= st2.decls.len() && (forall|k: int|
            0 <= k < st.decls.len() ==> st2.decls[k] == st.decls[k]) && (forall|x: Seq<char>|
            st.known.contains(x) ==> st2.known.contains(x)) && (forall|k: int|
            st.decls.len() <= k < st2.decls.len() ==> !st.known.contains(
                decl_name(#[trigger] st2.decls[k]),
            )),
    decreases s, 1int,
{
    match s {
        Schema::Optional { elem } => {
            lemma_expand_wf(*elem, st);
        },
        Schema::Array { title: None, elem } => {
            lemma_expand_wf(*elem, st);
        },
        Schema::Array { title: Some(t), elem } => {
            if !st.known.contains(t@) {
                let st1 = ExpStateV { decls: st.decls, known: st.known.push(t@) };
                lemma_push_keeps(st.known, t@);
                lemma_expand_wf(*elem, st1);
                if let Ok((st2, n)) = spec_expand(*elem, st1) {
                    let d = DeclV::Alias { name: t@, target: "Vec<"@ + n + ">"@ };
                    let st3 = ExpStateV { decls: st2.decls.push(d), known: st2.known };
                    assert(st2.known.contains(t@));
                    assert(st3.decls[st2.decls.len() as int] == d);
                    assert forall|i: int, j: int|
                        0 <= i < j < st3.decls.len() implies decl_name(st3.decls[i]) != decl_name(
                        st3.decls[j],
                    ) by {
                        if j < st2.decls.len() {
                        } else {
                            assert(decl_name(st3.decls[j]) == t@);
                            if i >= st.decls.len() {
                                assert(!st1.known.contains(decl_name(st2.decls[i])));
                                assert(st1.known.contains(t@));
                            }
                        }
                    }
                }
            }
        },
        Schema::Object { title: None, .. } => {
        },
        Schema::Object { title: Some(t), fields } => {
            if !st.known.contains(t@) {
                let st1 = ExpStateV { decls: st.decls, known: st.known.push(t@) };
                lemma_push_keeps(st.known, t@);
                lemma_expand_fields_wf(fields@, st1);
                if let Ok((st2, pairs)) = spec_expand_fields(fields@, st1) {
                    let d = DeclV::Record { name: t@, fields: pairs };
                    let st3 = ExpStateV { decls: st2.decls.push(d), known: st2.known };
                    assert(st2.known.contains(t@));
                    assert(st3.decls[st2.decls.len() as int] == d);
                    assert forall|i: int, j: int|
                        0 <= i < j < st3.decls.len() implies decl_name(st3.decls[i]) != decl_name(
                        st3.decls[j],
                    ) by {
                        if j < st2.decls.len() {
                        } else {
                            assert(decl_name(st3.decls[j]) == t@);
                            if i >= st.decls.len() {
                                assert(!st1.known.contains(decl_name(st2.decls[i])));
                                assert(st1.known.contains(t@));
                            }
                        }
                    }
                }
            }
        },
        Schema::Union { title: None, .. } => {
        },
        Schema::Union { title: Some(t), variants } => {
            if !st.known.contains(t@) {
                lemma_push_keeps(st.known, t@);
                let d = DeclV::Variants {
                    name: t@,
                    variants: crate::expand::names_view(variants@),
                };
                let st3 = ExpStateV { decls: st.decls.push(d), known: st.known.push(t@) };
                assert(st3.decls[st.decls.len() as int] == d);
            }
        },
        _ => {
        },
    }
}

/// [`lemma_expand_wf`], for the field list of an object schema.
pub proof fn lemma_expand_fields_wf(fields: Seq<(String, Schema)>, st: ExpStateV)
    requires
        wf_state(st),
    ensures
        spec_expand_fields(fields, st) matches Ok((st2, ps)) ==> wf_state(st2) && st.decls.len()
            <= st2.decls.len() && (forall|k: int|
            0 <= k < st.decls.len() ==> st2.decls[k] == st.decls[k]) && (forall|x: Seq<char>|
            st.known.contains(x) ==> st2.known.contains(x)) && (forall|k: int|
            st.decls.len() <= k < st2.decls.len() ==> !st.known.contains(
                decl_name(#[trigger] st2.decls[k]),
            )),
    decreases fields, 1int,
{
    if fields.len() == 0 {
    } else {
        lemma_expand_wf(fields[0].1, st);
        if let Ok((st1, n)) = spec_expand(fields[0].1, st) {
            lemma_expand_fields_wf(fields.drop_first(), st1);
        }
    }
}

/// Idempotent expansion, first half: re-expanding a schema whose title
/// is already taken changes nothing and returns the previously used
/// name, rather than emitting a duplicate declaration or failing.
pub proof fn lemma_expansion_idempotent(s: Schema, st: ExpStateV)
    requires
        spec_schema_title(s) matches Some(t) && st.known.contains(t@),
    ensures
        spec_expand(s, st) == Ok::<_, ErrorV>((st, spec_schema_title(s)->Some_0@)),
{
}

/// Idempotent expansion, second half: the first successful expansion
/// of a schema under a fresh title emits a declaration under exactly
/// that title — by [`lemma_expand_wf`] there can never be a second
/// one — and returns the title as the type name.
pub proof fn lemma_titled_expansion_declares(s: Schema, st: ExpStateV)
    requires
        wf_state(st),
        spec_schema_title(s) matches Some(t) && !st.known.contains(t@),
    ensures
        spec_expand(s, st) matches Ok((st2, n)) ==> {
            let t = spec_schema_title(s)->Some_0;
            n == t@ && st2.decls.len() > st.decls.len() && decl_name(
                st2.decls.last(),
            ) == t@ && distinct_decls(st2.decls)
        },
{
    lemma_expand_wf(s, st);
    match s {
        Schema::Array { title: Some(t), elem } => {
            let st1 = ExpStateV { decls: st.decls, known: st.known.push(t@) };
            lemma_push_keeps(st.known, t@);
            lemma_expand_wf(*elem, st1);
            if let Ok((se, n)) = spec_expand(*elem, st1) {
                let d = DeclV::Alias { name: t@, target: "Vec<"@ + n + ">"@ };
                assert(spec_expand(s, st) == Ok::<_, ErrorV>(
                    (ExpStateV { decls: se.decls.push(d), known: se.known }, t@),
                ));
                assert(se.decls.push(d).last() == d);
            }
        },
        Schema::Object { title: Some(t), fields } => {
            let st1 = ExpStateV { decls: st.decls, known: st.known.push(t@) };
            lemma_push_keeps(st.known, t@);
            lemma_expand_fields_wf(fields@, st1);
            if let Ok((se, ps)) = spec_expand_fields(fields@, st1) {
                let d = DeclV::Record { name: t@, fields: ps };
                assert(spec_expand(s, st) == Ok::<_, ErrorV>(
                    (ExpStateV { decls: se.decls.push(d), known: se.known }, t@),
                ));
                assert(se.decls.push(d).last() == d);
            }
        },
        Schema::Union { title: Some(t), variants } => {
            let d = DeclV::Variants { name: t@, variants: crate::expand::names_view(variants@) };
            assert(st.decls.push(d).last() == d);
        },
        _ => {
        },
    }
}

/// Whether the type catalogue declares `id`.
pub open spec fn catalogue_has_id(types: Seq<TypeEntry>, id: u32) -> bool {
    exists|k: int| 0 <= k < types.len() && types[k].id == id
}

/// Appending an entry leaves every earlier resolution unchanged and
/// resolves the new id where it was not taken.
proof fn lemma_lookup_push(reg: Seq<(u32, Seq<char>)>, p: (u32, Seq<char>), id: u32)
    ensures
        spec_lookup(reg.push(p), id) == (if spec_lookup(reg, id) is Some {
            spec_lookup(reg, id)
        } else if p.0 == id {
            Some(p.1)
        } else {
            None
        }),
    decreases reg.len(),
{
    if reg.len() == 0 {
        assert(reg.push(p)[0] == p);
        assert(reg.push(p).drop_first() =~= Seq::<(u32, Seq<char>)>::empty());
    } else {
        assert(reg.push(p).drop_first() =~= reg.drop_first().push(p));
        lemma_lookup_push(reg.drop_first(), p, id);
    }
}

/// After a successful catalogue build, every id the registry resolves
/// was resolvable before or is declared by the catalogue.
proof fn lemma_build_cover(types: Seq<TypeEntry>, st: ExpStateV, reg: Seq<(u32, Seq<char>)>)
    ensures
        spec_build(types, st, reg) matches Ok((st2, reg2)) ==> forall|id: u32|
            #[trigger] spec_lookup(reg2, id) is Some ==> spec_lookup(reg, id) is Some
                || catalogue_has_id(types, id),
    decreases types.len(),
{
    if types.len() == 0 {
    } else if spec_lookup(reg, types[0].id) is Some {
    } else {
        match spec_expand(types[0].schema, st) {
            Err(_) => {},
            Ok((st1, n)) => {
                let p = (types[0].id, n);
                lemma_build_cover(types.drop_first(), st1, reg.push(p));
                if let Ok((st2, reg2)) = spec_build(types.drop_first(), st1, reg.push(p)) {
                    assert forall|id: u32| #[trigger] spec_lookup(reg2, id) is Some implies
                        spec_lookup(reg, id) is Some || catalogue_has_id(types, id) by {
                        lemma_lookup_push(reg, p, id);
                        if spec_lookup(reg.push(p), id) is Some {
                            if spec_lookup(reg, id) is None {
                                assert(types[0].id == id);
                            }
                        } else {
                            let k = choose|k: int|
                                0 <= k < types.drop_first().len() && types.drop_first()[k].id
                                    == id;
                            assert(types[k + 1].id == id);
                        }
                    }
                }
            },
        }
    }
}

/// A successful parameter synthesis resolves every argument id and
/// names each parameter by its position.
pub proof fn lemma_params_ok(args: Seq<u32>, idx: u64, reg: Seq<(u32, Seq<char>)>)
    requires
        idx + args.len() <= u64::MAX,
    ensures
        spec_params(args, idx, reg) matches Ok(ps) ==> ps.len() == args.len() && forall|j: int|
            0 <= j < args.len() ==> spec_lookup(reg, #[trigger] args[j]) is Some && ps[j] == (
            spec_param_name((idx + j) as u64),
            spec_lookup(reg, args[j])->Some_0,
            ),
    decreases args.len(),
{
    if args.len() == 0 {
    } else {
        match spec_lookup(reg, args[0]) {
            None => {},
            Some(n) => {
                lemma_params_ok(args.drop_first(), (idx + 1) as u64, reg);
                if let Ok(rest) = spec_params(args.drop_first(), (idx + 1) as u64, reg) {
                    let ps = Seq::empty().push((spec_param_name(idx), n)) + rest;
                    assert forall|j: int| 0 <= j < args.len() implies spec_lookup(
                        reg,
                        #[trigger] args[j],
                    ) is Some && ps[j] == (
                        spec_param_name((idx + j) as u64),
                        spec_lookup(reg, args[j])->Some_0,
                    ) by {
                        if j == 0 {
                            assert(ps[0] == (spec_param_name(idx), n));
                        } else {
                            assert(args.drop_first()[j - 1] == args[j]);
                            assert(ps[j] == rest[j - 1]);
                        }
                    }
                }
            },
        }
    }
}

/// The first argument id the registry does not know decides the error.
proof fn lemma_params_first_missing(
    args: Seq<u32>,
    idx: u64,
    reg: Seq<(u32, Seq<char>)>,
    j: int,
)
    requires
        0 <= j < args.len(),
        spec_lookup(reg, args[j]) is None,
        forall|j2: int| 0 <= j2 < j ==> spec_lookup(reg, #[trigger] args[j2]) is Some,
    ensures
        spec_params(args, idx, reg) == Err::<Seq<(Seq<char>, Seq<char>)>, ErrorV>(
            ErrorV::UnknownTypeId { id: args[j] },
        ),
    decreases j,
{
    if j == 0 {
    } else {
        assert(spec_lookup(reg, args[0]) is Some);
        assert forall|j2: int| 0 <= j2 < j - 1 implies spec_lookup(
            reg,
            #[trigger] args.drop_first()[j2],
        ) is Some by {
            assert(args.drop_first()[j2] == args[j2 + 1]);
        }
        assert(args.drop_first()[j - 1] == args[j]);
        lemma_params_first_missing(args.drop_first(), (idx + 1) as u64, reg, j - 1);
    }
}

/// A successful synthesis of every method synthesizes each one.
proof fn lemma_synth_all_ok(ms: Seq<MethodEntry>, reg: Seq<(u32, Seq<char>)>)
    ensures
        spec_synth_all(ms, reg) matches Ok(stubs) ==> stubs.len() == ms.len() && forall|i: int|
            0 <= i < ms.len() ==> spec_synthesize(#[trigger] ms[i], reg) == Ok::<StubV, ErrorV>(
                stubs[i],
            ),
    decreases ms.len(),
{
    if ms.len() == 0 {
    } else {
        match spec_synthesize(ms[0], reg) {
            Err(_) => {},
            Ok(stub) => {
                lemma_synth_all_ok(ms.drop_first(), reg);
                if let Ok(rest) = spec_synth_all(ms.drop_first(), reg) {
                    let stubs = Seq::empty().push(stub) + rest;
                    assert forall|i: int| 0 <= i < ms.len() implies spec_synthesize(
                        #[trigger] ms[i],
                        reg,
                    ) == Ok::<StubV, ErrorV>(stubs[i]) by {
                        if i == 0 {
                            assert(stubs[0] == stub);
                        } else {
                            assert(ms.drop_first()[i - 1] == ms[i]);
                            assert(stubs[i] == rest[i - 1]);
                        }
                    }
                }
            },
        }
    }
}

/// The catalogue build pass keeps the expander state well-formed, so
/// a successful build emits no two declarations under one name.
pub proof fn lemma_build_unique_declarations(
    types: Seq<TypeEntry>,
    st: ExpStateV,
    reg: Seq<(u32, Seq<char>)>,
)
    requires
        wf_state(st),
    ensures
        spec_build(types, st, reg) matches Ok((st2, reg2)) ==> wf_state(st2),
    decreases types.len(),
{
    if types.len() == 0 {
    } else if spec_lookup(reg, types[0].id) is Some {
    } else {
        match spec_expand(types[0].schema, st) {
            Err(_) => {},
            Ok((st1, n)) => {
                lemma_expand_wf(types[0].schema, st);
                lemma_build_unique_declarations(
                    types.drop_first(),
                    st1,
                    reg.push((types[0].id, n)),
                );
            },
        }
    }
}

/// Idempotent expansion at the manifest level: however often a title
/// recurs across the catalogue, by reference or by repetition, the
/// compiled unit declares it exactly once.
pub proof fn lemma_compile_unique_declarations(m: Manifest)
    ensures
        spec_build(
            m.types@,
            ExpStateV { decls: Seq::empty(), known: Seq::empty() },
            Seq::empty(),
        ) matches Ok((st, reg)) ==> distinct_decls(st.decls),
{
    let st0 = ExpStateV { decls: Seq::empty(), known: Seq::empty() };
    lemma_build_unique_declarations(m.types@, st0, Seq::empty());
}

/// Referential integrity: a compilation only succeeds when every
/// argument id of every method, and every method's declared result id,
/// is present in the type catalogue; contrapositively, a manifest with
/// a method referencing an absent type id never produces output.
pub proof fn lemma_referential_integrity(m: Manifest)
    requires
        forall|i: int| 0 <= i < m.methods@.len() ==> (#[trigger] m.methods@[i]).args@.len()
            <= u64::MAX,
    ensures
        spec_compile(m) is Ok ==> forall|i: int, j: int|
            0 <= i < m.methods@.len() && 0 <= j < (#[trigger] m.methods@[i]).args@.len()
                ==> catalogue_has_id(m.types@, #[trigger] m.methods@[i].args@[j]),
        spec_compile(m) is Ok ==> forall|i: int|
            0 <= i < m.methods@.len() ==> (#[trigger] m.methods@[i]).result is Some
                && catalogue_has_id(m.types@, m.methods@[i].result->0),
{
    let st0 = ExpStateV { decls: Seq::empty(), known: Seq::empty() };
    let reg0 = Seq::<(u32, Seq<char>)>::empty();
    if spec_compile(m) is Ok {
        let (st, reg) = spec_build(m.types@, st0, reg0)->Ok_0;
        lemma_build_cover(m.types@, st0, reg0);
        lemma_synth_all_ok(m.methods@, reg);
        let stubs = spec_synth_all(m.methods@, reg)->Ok_0;
        assert forall|i: int, j: int|
            0 <= i < m.methods@.len() && 0 <= j < (#[trigger] m.methods@[i]).args@.len()
                implies catalogue_has_id(m.types@, #[trigger] m.methods@[i].args@[j]) by {
            assert(spec_synthesize(m.methods@[i], reg) == Ok::<StubV, ErrorV>(stubs[i]));
            lemma_params_ok(m.methods@[i].args@, 0, reg);
            assert(spec_lookup(reg, m.methods@[i].args@[j]) is Some);
        }
        assert forall|i: int| 0 <= i < m.methods@.len() implies (
        #[trigger] m.methods@[i]).result is Some && catalogue_has_id(
            m.types@,
            m.methods@[i].result->0,
        ) by {
            assert(spec_synthesize(m.methods@[i], reg) == Ok::<StubV, ErrorV>(stubs[i]));
            assert(spec_lookup(reg, m.methods@[i].result->0) is Some);
        }
    }
}

/// The argument-side of referential integrity at the synthesizer, with
/// the exact error: the first argument whose type id is absent from
/// the registry stops the method's synthesis with that id.
pub proof fn lemma_unknown_type_id(m: MethodEntry, reg: Seq<(u32, Seq<char>)>, j: int)
    requires
        0 <= j < m.args@.len(),
        spec_lookup(reg, m.args@[j]) is None,
        forall|j2: int| 0 <= j2 < j ==> spec_lookup(reg, #[trigger] m.args@[j2]) is Some,
    ensures
        spec_synthesize(m, reg) == Err::<StubV, ErrorV>(ErrorV::UnknownTypeId { id: m.args@[j] }),
{
    lemma_params_first_missing(m.args@, 0, reg, j);
}

/// Calling-convention correctness: every stub takes the context handle
/// first; a query stub adds nothing before the method-specific
/// arguments, and in particular carries no execution-budget or
/// value-transfer parameter anywhere; a transaction stub carries
/// exactly one of each, in that order, between the context handle and
/// the method-specific arguments.
pub proof fn lemma_calling_convention(m: MethodEntry, reg: Seq<(u32, Seq<char>)>)
    requires
        m.args@.len() <= u64::MAX,
    ensures
        spec_synthesize(m, reg) matches Ok(stub) ==> spec_full_params(stub)[0]
            == spec_context_param(),
        m.is_view ==> (spec_synthesize(m, reg) matches Ok(stub) ==> spec_full_params(stub)
            == Seq::empty().push(spec_context_param()) + stub.params),
        m.is_view ==> (spec_synthesize(m, reg) matches Ok(stub) ==> forall|k: int|
            0 <= k < spec_full_params(stub).len() ==> spec_full_params(stub)[k]
                != spec_budget_param() && spec_full_params(stub)[k] != spec_transfer_param()),
        !m.is_view ==> (spec_synthesize(m, reg) matches Ok(stub) ==> spec_full_params(stub).len()
            == 3 + stub.params.len() && spec_full_params(stub)[1] == spec_budget_param()
            && spec_full_params(stub)[2] == spec_transfer_param() && spec_full_params(stub).skip(3)
            =~= stub.params),
{
    reveal_strlit("worker");
    reveal_strlit("gas");
    reveal_strlit("deposit");
    reveal_strlit("arg");
    if let Ok(stub) = spec_synthesize(m, reg) {
        lemma_params_ok(m.args@, 0, reg);
        if m.is_view {
            assert(spec_full_params(stub)[0] == spec_context_param());
            assert forall|k: int| 0 <= k < spec_full_params(stub).len() implies spec_full_params(
                stub,
            )[k] != spec_budget_param() && spec_full_params(stub)[k] != spec_transfer_param() by {
                if k == 0 {
                    assert("worker"@.len() != "gas"@.len());
                    assert("worker"@[0] != 'd');
                } else {
                    assert(spec_full_params(stub)[k] == stub.params[k - 1]);
                    let a = m.args@[k - 1];
                    assert(spec_lookup(reg, a) is Some);
                    assert(stub.params[k - 1].0 == spec_param_name((k - 1) as u64));
                    assert(spec_param_name((k - 1) as u64)[0] == 'a');
                    assert("gas"@[0] == 'g');
                    assert("deposit"@[0] == 'd');
                }
            }
        } else {
            assert(spec_full_params(stub).skip(3) =~= stub.params);
        }
    }
}

/// The zero-argument special case: a method with no arguments forwards
/// the explicit empty marker, never an empty collection literal.
pub proof fn lemma_zero_argument_marker(stub: StubV)
    ensures
        stub.params.len() == 0 ==> spec_args_expr(stub.params) == "()"@,
        stub.params.len() == 0 ==> spec_args_expr(stub.params) != "[]"@,
{
    reveal_strlit("()");
    reveal_strlit("[]");
    assert("()"@[0] == '(' && "[]"@[0] == '[');
}

/// Name stability: within one run, every reference to one type id
/// resolves to one name, wherever it stands; across runs, stability is
/// already determinism, since the whole output is a function of the
/// manifest.
pub proof fn lemma_name_stability(
    m1: MethodEntry,
    m2: MethodEntry,
    reg: Seq<(u32, Seq<char>)>,
    i: int,
    j: int,
)
    requires
        m1.args@.len() <= u64::MAX,
        m2.args@.len() <= u64::MAX,
        spec_synthesize(m1, reg) is Ok,
        spec_synthesize(m2, reg) is Ok,
        0 <= i < m1.args@.len(),
        0 <= j < m2.args@.len(),
        m1.args@[i] == m2.args@[j],
    ensures
        (spec_synthesize(m1, reg)->Ok_0).params[i].1 == (spec_synthesize(m2, reg)->Ok_0).params[
            j
        ].1,
{
    lemma_params_ok(m1.args@, 0, reg);
    lemma_params_ok(m2.args@, 0, reg);
}

} // verus!
