//! The emitter: serializes the generated declarations, the client
//! container, and the method stubs into one source unit. Every piece
//! of text is a function of the typed nodes alone, so the whole output
//! is reproducible byte for byte.

use vstd::prelude::*;
use vstd::string::StringExecFns;
use crate::expand::{pairs_view, Decl, DeclV};
use crate::methods::{CallKind, MethodStub, StubV};

verus! {

/// Renders `, name: type` for each parameter, in order.
pub open spec fn spec_param_list(ps: Seq<(Seq<char>, Seq<char>)>) -> Seq<char>
    decreases ps.len(),
{
    if ps.len() == 0 {
        Seq::empty()
    } else {
        ", "@ + ps[0].0 + ": "@ + ps[0].1 + spec_param_list(ps.drop_first())
    }
}

/// Renders `, name` for each parameter, in order.
pub open spec fn spec_more_names(ps: Seq<(Seq<char>, Seq<char>)>) -> Seq<char>
    decreases ps.len(),
{
    if ps.len() == 0 {
        Seq::empty()
    } else {
        ", "@ + ps[0].0 + spec_more_names(ps.drop_first())
    }
}

/// The expression through which a stub forwards its arguments. A
/// method with no arguments forwards the explicit empty marker `()`
/// rather than an empty collection literal, whose element type the
/// generated call site could not infer.
pub open spec fn spec_args_expr(ps: Seq<(Seq<char>, Seq<char>)>) -> Seq<char> {
    if ps.len() == 0 {
        "()"@
    } else {
        "["@ + ps[0].0 + spec_more_names(ps.drop_first()) + "]"@
    }
}

/// The context-handle parameter every stub takes first.
pub open spec fn spec_context_param() -> (Seq<char>, Seq<char>) {
    ("worker"@, "&workspaces::Worker<impl workspaces::Network>"@)
}

/// The execution-budget parameter of a transaction stub.
pub open spec fn spec_budget_param() -> (Seq<char>, Seq<char>) {
    ("gas"@, "near_primitives::types::Gas"@)
}

/// The value-transfer parameter of a transaction stub.
pub open spec fn spec_transfer_param() -> (Seq<char>, Seq<char>) {
    ("deposit"@, "near_primitives::types::Balance"@)
}

/// The full parameter list of a stub, after the implicit receiver: the
/// context handle first; for a transaction additionally the
/// execution-budget and value-transfer parameters, in that order,
/// before the method-specific arguments; then the method-specific
/// arguments.
pub open spec fn spec_full_params(stub: StubV) -> Seq<(Seq<char>, Seq<char>)> {
    if stub.call_kind == CallKind::Query {
        Seq::empty().push(spec_context_param()) + stub.params
    } else {
        Seq::empty().push(spec_context_param()).push(spec_budget_param()).push(
            spec_transfer_param(),
        ) + stub.params
    }
}

/// Renders one field of a record declaration.
pub open spec fn spec_emit_fields(fs: Seq<(Seq<char>, Seq<char>)>) -> Seq<char>
    decreases fs.len(),
{
    if fs.len() == 0 {
        Seq::empty()
    } else {
        "    pub "@ + fs[0].0 + ": "@ + fs[0].1 + ",\n"@ + spec_emit_fields(fs.drop_first())
    }
}

/// Renders the variants of a union declaration, in declared order.
pub open spec fn spec_emit_variants(vs: Seq<Seq<char>>) -> Seq<char>
    decreases vs.len(),
{
    if vs.len() == 0 {
        Seq::empty()
    } else {
        "    "@ + vs[0] + ",\n"@ + spec_emit_variants(vs.drop_first())
    }
}

/// Renders one type declaration.
pub open spec fn spec_emit_decl(d: DeclV) -> Seq<char> {
    match d {
        DeclV::Alias { name, target } => "pub type "@ + name + " = "@ + target + ";\n"@,
        DeclV::Record { name, fields } => "pub struct "@ + name + " {\n"@ + spec_emit_fields(
            fields,
        ) + "}\n"@,
        DeclV::Variants { name, variants } => "pub enum "@ + name + " {\n"@ + spec_emit_variants(
            variants,
        ) + "}\n"@,
    }
}

/// Renders all type declarations, in first-expansion order.
pub open spec fn spec_emit_decls(ds: Seq<DeclV>) -> Seq<char>
    decreases ds.len(),
{
    if ds.len() == 0 {
        Seq::empty()
    } else {
        spec_emit_decl(ds[0]) + spec_emit_decls(ds.drop_first())
    }
}

/// The client container declaration.
pub open spec fn spec_container() -> Seq<char> {
    "pub struct ExtContract {\n    pub contract: workspaces::Contract,\n}\n"@
}

/// How the stub dispatches its call: a read goes through the view
/// endpoint; a mutation carries the budget and transfer values into a
/// transaction.
pub open spec fn spec_dispatch(kind: CallKind) -> Seq<char> {
    if kind == CallKind::Query {
        ".view().await?;"@
    } else {
        ".gas(gas).deposit(deposit).transact().await?;"@
    }
}

/// Renders one method stub.
pub open spec fn spec_emit_stub(stub: StubV) -> Seq<char> {
    "    pub async fn "@ + stub.name + "(&self"@ + spec_param_list(spec_full_params(stub))
        + ") -> anyhow::Result<"@ + stub.return_type
        + "> {\n        let result = self.contract.call(worker, \""@ + stub.name
        + "\").args_json("@ + spec_args_expr(stub.params) + ")?"@ + spec_dispatch(stub.call_kind)
        + "\n        result.json::<"@ + stub.return_type + ">()\n    }\n"@
}

/// Renders all method stubs, one per manifest method, in manifest
/// order.
pub open spec fn spec_emit_stubs(ss: Seq<StubV>) -> Seq<char>
    decreases ss.len(),
{
    if ss.len() == 0 {
        Seq::empty()
    } else {
        spec_emit_stub(ss[0]) + spec_emit_stubs(ss.drop_first())
    }
}

/// Renders `, name: type` for each parameter, as [`spec_param_list`]
/// says.
pub fn param_list(ps: &Vec<(String, String)>) -> (s: String)
    ensures
        s@ == spec_param_list(pairs_view(ps@)),
{
    let ghost pv = pairs_view(ps@);
    let mut out = String::new();
    let mut i: usize = 0;
    proof {
        assert(pv.skip(0) =~= pv);
        assert(out@ + spec_param_list(pv) =~= spec_param_list(pv));
    }
    while i < ps.len()
        invariant
            i <= ps.len(),
            pv == pairs_view(ps@),
            out@ + spec_param_list(pv.skip(i as int)) == spec_param_list(pv),
        decreases ps.len() - i,
    {
        let ghost before = out@;
        proof {
            assert(pv.skip(i as int)[0] == pv[i as int]);
            assert(pv.skip(i as int).drop_first() =~= pv.skip(i as int + 1));
        }
        out.append(", ");
        out.append(ps[i].0.as_str());
        out.append(": ");
        out.append(ps[i].1.as_str());
        proof {
            assert(out@ + spec_param_list(pv.skip(i as int + 1)) =~= before + spec_param_list(
                pv.skip(i as int),
            ));
        }
        i = i + 1;
    }
    proof {
        assert(pv.skip(ps.len() as int).len() == 0);
        assert(out@ + spec_param_list(pv.skip(ps.len() as int)) =~= out@);
    }
    out
}

/// Renders the argument-forwarding expression, as [`spec_args_expr`]
/// says.
pub fn args_expr(ps: &Vec<(String, String)>) -> (s: String)
    ensures
        s@ == spec_args_expr(pairs_view(ps@)),
{
    let ghost pv = pairs_view(ps@);
    if ps.len() == 0 {
        return String::from_str("()");
    }
    let mut out = String::from_str("[");
    out.append(ps[0].0.as_str());
    let mut i: usize = 1;
    proof {
        assert(out@ + spec_more_names(pv.skip(1)) + "]"@ =~= "["@ + pv[0].0 + spec_more_names(
            pv.drop_first(),
        ) + "]"@);
    }
    while i < ps.len()
        invariant
            1 <= i <= ps.len(),
            pv == pairs_view(ps@),
            pv.len() == ps.len(),
            out@ + spec_more_names(pv.skip(i as int)) + "]"@ == spec_args_expr(pv),
        decreases ps.len() - i,
    {
        let ghost before = out@;
        proof {
            assert(pv.skip(i as int)[0] == pv[i as int]);
            assert(pv.skip(i as int).drop_first() =~= pv.skip(i as int + 1));
        }
        out.append(", ");
        out.append(ps[i].0.as_str());
        proof {
            assert(out@ + spec_more_names(pv.skip(i as int + 1)) =~= before + spec_more_names(
                pv.skip(i as int),
            ));
        }
        i = i + 1;
    }
    proof {
        assert(pv.skip(ps.len() as int).len() == 0);
        assert(out@ + spec_more_names(pv.skip(ps.len() as int)) =~= out@);
    }
    out.concat("]")
}

/// Builds the full parameter list of a stub, as [`spec_full_params`]
/// says.
pub fn full_params(stub: &MethodStub) -> (r: Vec<(String, String)>)
    ensures
        pairs_view(r@) == spec_full_params(stub@),
{
    let mut v: Vec<(String, String)> = Vec::new();
    v.push(
        (
            String::from_str("worker"),
            String::from_str("&workspaces::Worker<impl workspaces::Network>"),
        ),
    );
    match stub.call_kind {
        CallKind::Query => {
        },
        CallKind::Transaction => {
            v.push((String::from_str("gas"), String::from_str("near_primitives::types::Gas")));
            v.push(
                (
                    String::from_str("deposit"),
                    String::from_str("near_primitives::types::Balance"),
                ),
            );
        },
    }
    let mut i: usize = 0;
    let ghost prefix = pairs_view(v@);
    while i < stub.params.len()
        invariant
            i <= stub.params.len(),
            pairs_view(v@) == prefix + pairs_view(stub.params@).take(i as int),
        decreases stub.params.len() - i,
    {
        let ghost before = pairs_view(v@);
        v.push((stub.params[i].0.clone(), stub.params[i].1.clone()));
        proof {
            let p = (stub.params@[i as int].0@, stub.params@[i as int].1@);
            assert(pairs_view(v@) =~= before.push(p));
            assert(pairs_view(stub.params@)[i as int] == p);
            assert(pairs_view(stub.params@).take(i as int + 1) =~= pairs_view(
                stub.params@,
            ).take(i as int).push(p));
            assert(before.push(p) =~= prefix + pairs_view(stub.params@).take(i as int + 1));
        }
        i = i + 1;
    }
    proof {
        assert(pairs_view(stub.params@).take(stub.params.len() as int) =~= pairs_view(
            stub.params@,
        ));
        assert(pairs_view(v@) =~= spec_full_params(stub@));
    }
    v
}

/// Renders one type declaration, as [`spec_emit_decl`] says.
pub fn emit_decl(d: &Decl) -> (s: String)
    ensures
        s@ == spec_emit_decl(d@),
{
    match d {
        Decl::Alias { name, target } => {
            let mut out = String::from_str("pub type ");
            out.append(name.as_str());
            out.append(" = ");
            out.append(target.as_str());
            out.append(";\n");
            proof {
                assert(out@ =~= spec_emit_decl(d@));
            }
            out
        },
        Decl::Record { name, fields } => {
            let ghost fv = pairs_view(fields@);
            let mut out = String::from_str("pub struct ");
            out.append(name.as_str());
            out.append(" {\n");
            let ghost head = out@;
            let mut i: usize = 0;
            proof {
                assert(fv.skip(0) =~= fv);
            }
            while i < fields.len()
                invariant
                    i <= fields.len(),
                    fv == pairs_view(fields@),
                    out@ + spec_emit_fields(fv.skip(i as int)) == head + spec_emit_fields(fv),
                decreases fields.len() - i,
            {
                let ghost before = out@;
                proof {
                    assert(fv.skip(i as int)[0] == fv[i as int]);
                    assert(fv.skip(i as int).drop_first() =~= fv.skip(i as int + 1));
                }
                out.append("    pub ");
                out.append(fields[i].0.as_str());
                out.append(": ");
                out.append(fields[i].1.as_str());
                out.append(",\n");
                proof {
                    assert(out@ + spec_emit_fields(fv.skip(i as int + 1)) =~= before
                        + spec_emit_fields(fv.skip(i as int)));
                }
                i = i + 1;
            }
            proof {
                assert(fv.skip(fields.len() as int).len() == 0);
                assert(out@ + spec_emit_fields(fv.skip(fields.len() as int)) =~= out@);
            }
            out.append("}\n");
            proof {
                assert(out@ =~= spec_emit_decl(d@));
            }
            out
        },
        Decl::Variants { name, variants } => {
            let ghost vv = crate::expand::names_view(variants@);
            let mut out = String::from_str("pub enum ");
            out.append(name.as_str());
            out.append(" {\n");
            let ghost head = out@;
            let mut i: usize = 0;
            proof {
                assert(vv.skip(0) =~= vv);
            }
            while i < variants.len()
                invariant
                    i <= variants.len(),
                    vv == crate::expand::names_view(variants@),
                    out@ + spec_emit_variants(vv.skip(i as int)) == head + spec_emit_variants(vv),
                decreases variants.len() - i,
            {
                let ghost before = out@;
                proof {
                    assert(vv.skip(i as int)[0] == vv[i as int]);
                    assert(vv.skip(i as int).drop_first() =~= vv.skip(i as int + 1));
                }
                out.append("    ");
                out.append(variants[i].as_str());
                out.append(",\n");
                proof {
                    assert(out@ + spec_emit_variants(vv.skip(i as int + 1)) =~= before
                        + spec_emit_variants(vv.skip(i as int)));
                }
                i = i + 1;
            }
            proof {
                assert(vv.skip(variants.len() as int).len() == 0);
                assert(out@ + spec_emit_variants(vv.skip(variants.len() as int)) =~= out@);
            }
            out.append("}\n");
            proof {
                assert(out@ =~= spec_emit_decl(d@));
            }
            out
        },
    }
}

/// Renders all declarations in order, as [`spec_emit_decls`] says.
pub fn emit_decls(ds: &Vec<Decl>) -> (s: String)
    ensures
        s@ == spec_emit_decls(ds@.map_values(|d: Decl| d@)),
{
    let ghost dv = ds@.map_values(|d: Decl| d@);
    let mut out = String::new();
    let mut i: usize = 0;
    proof {
        assert(dv.skip(0) =~= dv);
        assert(out@ + spec_emit_decls(dv) =~= spec_emit_decls(dv));
    }
    while i < ds.len()
        invariant
            i <= ds.len(),
            dv == ds@.map_values(|d: Decl| d@),
            out@ + spec_emit_decls(dv.skip(i as int)) == spec_emit_decls(dv),
        decreases ds.len() - i,
    {
        let ghost before = out@;
        proof {
            assert(dv.skip(i as int)[0] == dv[i as int]);
            assert(dv.skip(i as int).drop_first() =~= dv.skip(i as int + 1));
        }
        let piece = emit_decl(&ds[i]);
        out.append(piece.as_str());
        proof {
            assert(out@ + spec_emit_decls(dv.skip(i as int + 1)) =~= before + spec_emit_decls(
                dv.skip(i as int),
            ));
        }
        i = i + 1;
    }
    proof {
        assert(dv.skip(ds.len() as int).len() == 0);
        assert(out@ + spec_emit_decls(dv.skip(ds.len() as int)) =~= out@);
    }
    out
}

/// The client container declaration, as [`spec_container`] says.
pub fn container_decl() -> (s: String)
    ensures
        s@ == spec_container(),
{
    String::from_str("pub struct ExtContract {\n    pub contract: workspaces::Contract,\n}\n")
}

/// Renders one method stub, as [`spec_emit_stub`] says.
pub fn emit_stub(stub: &MethodStub) -> (s: String)
    ensures
        s@ == spec_emit_stub(stub@),
{
    let fps = full_params(stub);
    let params = param_list(&fps);
    let args = args_expr(&stub.params);
    let mut out = String::from_str("    pub async fn ");
    out.append(stub.name.as_str());
    out.append("(&self");
    out.append(params.as_str());
    out.append(") -> anyhow::Result<");
    out.append(stub.return_type.as_str());
    out.append("> {\n        let result = self.contract.call(worker, \"");
    out.append(stub.name.as_str());
    out.append("\").args_json(");
    out.append(args.as_str());
    out.append(")?");
    match stub.call_kind {
        CallKind::Query => out.append(".view().await?;"),
        CallKind::Transaction => out.append(".gas(gas).deposit(deposit).transact().await?;"),
    }
    out.append("\n        result.json::<");
    out.append(stub.return_type.as_str());
    out.append(">()\n    }\n");
    proof {
        assert(out@ =~= spec_emit_stub(stub@));
    }
    out
}

/// Renders all method stubs in manifest order, as [`spec_emit_stubs`]
/// says.
pub fn emit_stubs(ss: &Vec<MethodStub>) -> (s: String)
    ensures
        s@ == spec_emit_stubs(ss@.map_values(|m: MethodStub| m@)),
{
    let ghost sv = ss@.map_values(|m: MethodStub| m@);
    let mut out = String::new();
    let mut i: usize = 0;
    proof {
        assert(sv.skip(0) =~= sv);
        assert(out@ + spec_emit_stubs(sv) =~= spec_emit_stubs(sv));
    }
    while i < ss.len()
        invariant
            i <= ss.len(),
            sv == ss@.map_values(|m: MethodStub| m@),
            out@ + spec_emit_stubs(sv.skip(i as int)) == spec_emit_stubs(sv),
        decreases ss.len() - i,
    {
        let ghost before = out@;
        proof {
            assert(sv.skip(i as int)[0] == sv[i as int]);
            assert(sv.skip(i as int).drop_first() =~= sv.skip(i as int + 1));
        }
        let piece = emit_stub(&ss[i]);
        out.append(piece.as_str());
        proof {
            assert(out@ + spec_emit_stubs(sv.skip(i as int + 1)) =~= before + spec_emit_stubs(
                sv.skip(i as int),
            ));
        }
        i = i + 1;
    }
    proof {
        assert(sv.skip(ss.len() as int).len() == 0);
        assert(out@ + spec_emit_stubs(sv.skip(ss.len() as int)) =~= out@);
    }
    out
}

} // verus!
