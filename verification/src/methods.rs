//! The method synthesizer: resolves every argument's type id and the
//! result type id of a method through the type registry and produces a
//! callable stub descriptor. Parameter names are synthetic and
//! positional, `arg0`, `arg1`, ..., because the manifest carries no
//! argument names; the numbering is fixed, so two runs on the same
//! manifest synthesize identical stubs.

use vstd::prelude::*;
use vstd::string::StringExecFns;
use crate::registry::{spec_lookup, TypeRegistry};
use crate::schema::{Error, ErrorV, MethodEntry};
use crate::spec_decimal;

verus! {

/// How a generated stub calls the remote service.
#[derive(PartialEq, Eq, Structural, Clone, Copy, Debug)]
pub enum CallKind {
    /// A read-only invocation: no execution budget, no value transfer.
    Query,
    /// A state-mutating invocation: the caller must supply an
    /// execution-budget value and a value-transfer amount at call
    /// time, since neither is derivable from the manifest.
    Transaction,
}

/// One synthesized stub: the method's name, its resolved
/// method-specific parameters in order, its resolved result type name,
/// and its calling convention.
pub struct MethodStub {
    pub name: String,
    pub params: Vec<(String, String)>,
    pub return_type: String,
    pub call_kind: CallKind,
}

/// The mathematical shape of a [`MethodStub`].
#[verifier::ext_equal]
pub ghost struct StubV {
    pub name: Seq<char>,
    pub params: Seq<(Seq<char>, Seq<char>)>,
    pub return_type: Seq<char>,
    pub call_kind: CallKind,
}

impl View for MethodStub {
    type V = StubV;

    open spec fn view(&self) -> StubV {
        StubV {
            name: self.name@,
            params: crate::expand::pairs_view(self.params@),
            return_type: self.return_type@,
            call_kind: self.call_kind,
        }
    }
}

/// The synthetic name of the parameter at position `idx`.
pub open spec fn spec_param_name(idx: u64) -> Seq<char> {
    "arg"@ + spec_decimal(idx)
}

/// Resolves a method's argument ids, numbering parameters from `idx`
/// on. The first id the registry does not know stops synthesis.
pub open spec fn spec_params(args: Seq<u32>, idx: u64, reg: Seq<(u32, Seq<char>)>) -> Result<
    Seq<(Seq<char>, Seq<char>)>,
    ErrorV,
>
    decreases args.len(),
{
    if args.len() == 0 {
        Ok(Seq::empty())
    } else {
        match spec_lookup(reg, args[0]) {
            None => Err(ErrorV::UnknownTypeId { id: args[0] }),
            Some(n) => match spec_params(args.drop_first(), (idx + 1) as u64, reg) {
                Ok(rest) => Ok(Seq::empty().push((spec_param_name(idx), n)) + rest),
                Err(e) => Err(e),
            },
        }
    }
}

/// What synthesizing one method yields: a stub descriptor, or the
/// error that stops the whole compilation. Arguments are resolved
/// first; a method without a declared result type, or whose result id
/// the registry does not know, is fatal.
pub open spec fn spec_synthesize(m: MethodEntry, reg: Seq<(u32, Seq<char>)>) -> Result<
    StubV,
    ErrorV,
> {
    match spec_params(m.args@, 0, reg) {
        Err(e) => Err(e),
        Ok(params) => match m.result {
            None => Err(ErrorV::UnresolvedReturnType),
            Some(rid) => match spec_lookup(reg, rid) {
                None => Err(ErrorV::UnresolvedReturnType),
                Some(rt) => Ok(
                    StubV {
                        name: m.name@,
                        params,
                        return_type: rt,
                        call_kind: if m.is_view {
                            CallKind::Query
                        } else {
                            CallKind::Transaction
                        },
                    },
                ),
            },
        },
    }
}

/// Resolves the argument list of a method into named, typed
/// parameters, exactly as [`spec_params`] says.
pub fn synth_params(args: &Vec<u32>, reg: &TypeRegistry) -> (r: Result<
    Vec<(String, String)>,
    Error,
>)
    ensures
        match spec_params(args@, 0, reg@) {
            Ok(params) => r matches Ok(v) && crate::expand::pairs_view(v@) == params,
            Err(ev) => r matches Err(e) && e@ == ev,
        },
{
    let mut out: Vec<(String, String)> = Vec::new();
    let mut i: usize = 0;
    proof {
        assert(args@.skip(0) =~= args@);
        assert(crate::expand::pairs_view(out@) =~= Seq::<(Seq<char>, Seq<char>)>::empty());
        assert(crate::expand::pairs_view(out@) + Seq::<(Seq<char>, Seq<char>)>::empty()
            =~= crate::expand::pairs_view(out@));
    }
    while i < args.len()
        invariant
            i <= args.len(),
            i <= u64::MAX,
            spec_params(args@, 0, reg@) == match spec_params(
                args@.skip(i as int),
                i as u64,
                reg@,
            ) {
                Ok(rest) => Ok::<_, ErrorV>(crate::expand::pairs_view(out@) + rest),
                Err(e) => Err::<Seq<(Seq<char>, Seq<char>)>, _>(e),
            },
        decreases args.len() - i,
    {
        let ghost rem = args@.skip(i as int);
        proof {
            assert(rem[0] == args@[i as int]);
            assert(rem.drop_first() =~= args@.skip(i as int + 1));
        }
        let ty = match reg.resolve(args[i]) {
            Ok(ty) => ty,
            Err(e) => {
                return Err(e);
            },
        };
        let pname = String::from_str("arg").concat(crate::decimal_string(i as u64).as_str());
        let ghost before = crate::expand::pairs_view(out@);
        out.push((pname, ty));
        proof {
            let p = (spec_param_name(i as u64), reg.spec_resolve(args@[i as int]));
            assert(crate::expand::pairs_view(out@) =~= before.push(p));
            if let Ok(rest) = spec_params(args@.skip(i as int + 1), (i + 1) as u64, reg@) {
                assert(before + (Seq::empty().push(p) + rest) =~= before.push(p) + rest);
            }
        }
        i = i + 1;
    }
    proof {
        assert(args@.skip(args.len() as int).len() == 0);
        assert(crate::expand::pairs_view(out@) + Seq::<(Seq<char>, Seq<char>)>::empty()
            =~= crate::expand::pairs_view(out@));
    }
    Ok(out)
}

/// Synthesizes the stub descriptor for one method, exactly as
/// [`spec_synthesize`] says.
pub fn synthesize(m: &MethodEntry, reg: &TypeRegistry) -> (r: Result<MethodStub, Error>)
    ensures
        match spec_synthesize(*m, reg@) {
            Ok(stub) => r matches Ok(s) && s@ == stub,
            Err(ev) => r matches Err(e) && e@ == ev,
        },
{
    let params = synth_params(&m.args, reg)?;
    let rid = match m.result {
        None => {
            return Err(Error::UnresolvedReturnType);
        },
        Some(rid) => rid,
    };
    let return_type = match reg.resolve(rid) {
        Ok(rt) => rt,
        Err(_) => {
            return Err(Error::UnresolvedReturnType);
        },
    };
    Ok(
        MethodStub {
            name: m.name.clone(),
            params,
            return_type,
            call_kind: if m.is_view {
                CallKind::Query
            } else {
                CallKind::Transaction
            },
        },
    )
}

} // verus!
