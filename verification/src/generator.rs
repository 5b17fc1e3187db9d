//! The compilation pipeline and its public configuration surface: the
//! catalogue build pass that populates the type registry, the
//! per-manifest compilation into one generated source unit, and the
//! `Generator` builder API for trait-style client generation.

use vstd::prelude::*;
use vstd::string::StringExecFns;
use crate::emit::{
    container_decl, emit_decls, emit_stubs, param_list, spec_container, spec_emit_decls,
    spec_emit_stubs, spec_param_list,
};
use crate::expand::{ExpStateV, Expander};
use crate::methods::{spec_params, spec_synthesize, synth_params, synthesize, MethodStub, StubV};
use crate::registry::{spec_lookup, TypeRegistry};
use crate::schema::{Error, ErrorV, Manifest, MethodEntry, TypeEntry};

verus! {

/// What the catalogue build pass yields: the expander state holding
/// every declaration, and the registry mapping each type id to the
/// name the expander produced for it. A catalogue entry whose id was
/// seen before is a structural violation of the manifest, not a silent
/// overwrite.
pub open spec fn spec_build(
    types: Seq<TypeEntry>,
    st: ExpStateV,
    reg: Seq<(u32, Seq<char>)>,
) -> Result<(ExpStateV, Seq<(u32, Seq<char>)>), ErrorV>
    decreases types.len(),
{
    if types.len() == 0 {
        Ok((st, reg))
    } else if spec_lookup(reg, types[0].id) is Some {
        Err(ErrorV::MalformedManifest)
    } else {
        match crate::expand::spec_expand(types[0].schema, st) {
            Err(e) => Err(e),
            Ok((st1, n)) => spec_build(types.drop_first(), st1, reg.push((types[0].id, n))),
        }
    }
}

/// What synthesizing every method yields: one stub per method, in
/// manifest order, or the first error.
pub open spec fn spec_synth_all(ms: Seq<MethodEntry>, reg: Seq<(u32, Seq<char>)>) -> Result<
    Seq<StubV>,
    ErrorV,
>
    decreases ms.len(),
{
    if ms.len() == 0 {
        Ok(Seq::empty())
    } else {
        match spec_synthesize(ms[0], reg) {
            Err(e) => Err(e),
            Ok(stub) => match spec_synth_all(ms.drop_first(), reg) {
                Err(e) => Err(e),
                Ok(rest) => Ok(Seq::empty().push(stub) + rest),
            },
        }
    }
}

/// The whole compilation of one manifest: expanded type declarations
/// in first-expansion order, then the client container, then one stub
/// per method. A function of the manifest alone: two runs on the same
/// manifest yield byte-identical output, and a failed run yields no
/// output at all.
pub open spec fn spec_compile(m: Manifest) -> Result<Seq<char>, ErrorV> {
    match spec_build(
        m.types@,
        ExpStateV { decls: Seq::empty(), known: Seq::empty() },
        Seq::empty(),
    ) {
        Err(e) => Err(e),
        Ok((st, reg)) => match spec_synth_all(m.methods@, reg) {
            Err(e) => Err(e),
            Ok(stubs) => Ok(
                spec_emit_decls(st.decls) + spec_container() + "impl ExtContract {\n"@
                    + spec_emit_stubs(stubs) + "}\n"@,
            ),
        },
    }
}

/// Expands the whole type catalogue and populates the registry,
/// exactly as [`spec_build`] says.
pub fn build_catalogue(types: &Vec<TypeEntry>, exp: &mut Expander, reg: &mut TypeRegistry) -> (r:
    Result<(), Error>)
    ensures
        match spec_build(types@, old(exp)@, old(reg)@) {
            Ok((st, rg)) => r is Ok && final(exp)@ == st && final(reg)@ == rg,
            Err(ev) => r matches Err(e) && e@ == ev,
        },
{
    let mut i: usize = 0;
    proof {
        assert(types@.skip(0) =~= types@);
    }
    while i < types.len()
        invariant
            i <= types.len(),
            spec_build(types@, old(exp)@, old(reg)@) == spec_build(
                types@.skip(i as int),
                exp@,
                reg@,
            ),
        decreases types.len() - i,
    {
        proof {
            assert(types@.skip(i as int)[0] == types@[i as int]);
            assert(types@.skip(i as int).drop_first() =~= types@.skip(i as int + 1));
        }
        let entry = &types[i];
        if reg.contains(entry.id) {
            return Err(Error::MalformedManifest);
        }
        let name = match exp.expand(&entry.schema) {
            Ok(name) => name,
            Err(e) => {
                return Err(e);
            },
        };
        reg.register(entry.id, name);
        i = i + 1;
    }
    proof {
        assert(types@.skip(types.len() as int).len() == 0);
    }
    Ok(())
}

/// Synthesizes one stub per manifest method, exactly as
/// [`spec_synth_all`] says.
pub fn synth_all(ms: &Vec<MethodEntry>, reg: &TypeRegistry) -> (r: Result<Vec<MethodStub>, Error>)
    ensures
        match spec_synth_all(ms@, reg@) {
            Ok(stubs) => r matches Ok(v) && v@.map_values(|s: MethodStub| s@) == stubs,
            Err(ev) => r matches Err(e) && e@ == ev,
        },
{
    let mut out: Vec<MethodStub> = Vec::new();
    let mut i: usize = 0;
    proof {
        assert(ms@.skip(0) =~= ms@);
        assert(out@.map_values(|s: MethodStub| s@) + Seq::<StubV>::empty() =~= out@.map_values(
            |s: MethodStub| s@,
        ));
    }
    while i < ms.len()
        invariant
            i <= ms.len(),
            spec_synth_all(ms@, reg@) == match spec_synth_all(ms@.skip(i as int), reg@) {
                Ok(rest) => Ok::<_, ErrorV>(out@.map_values(|s: MethodStub| s@) + rest),
                Err(e) => Err::<Seq<StubV>, _>(e),
            },
        decreases ms.len() - i,
    {
        proof {
            assert(ms@.skip(i as int)[0] == ms@[i as int]);
            assert(ms@.skip(i as int).drop_first() =~= ms@.skip(i as int + 1));
        }
        let stub = match synthesize(&ms[i], reg) {
            Ok(stub) => stub,
            Err(e) => {
                return Err(e);
            },
        };
        let ghost before = out@.map_values(|s: MethodStub| s@);
        let ghost stubv = stub@;
        out.push(stub);
        proof {
            assert(out@.map_values(|s: MethodStub| s@) =~= before.push(stubv));
            if let Ok(rest) = spec_synth_all(ms@.skip(i as int + 1), reg@) {
                assert(before + (Seq::empty().push(stubv) + rest) =~= before.push(stubv) + rest);
            }
        }
        i = i + 1;
    }
    proof {
        assert(ms@.skip(ms.len() as int).len() == 0);
        assert(out@.map_values(|s: MethodStub| s@) + Seq::<StubV>::empty() =~= out@.map_values(
            |s: MethodStub| s@,
        ));
    }
    Ok(out)
}

/// Configuration options for ABI code generation. The output directory
/// only concerns the caller that writes the generated unit to disk;
/// the compilation itself is a pure function of the manifest.
pub struct Config {
    pub out_dir: Option<String>,
}

impl Config {
    /// Compiles one manifest into one generated source unit, exactly
    /// as [`spec_compile`] says: every type declaration in
    /// first-expansion order, the client container, and one method
    /// stub per manifest method. Either the whole unit is produced or
    /// an error is returned and no output exists at all.
    pub fn compile_manifest(&self, m: &Manifest) -> (r: Result<String, Error>)
        ensures
            match spec_compile(*m) {
                Ok(text) => r matches Ok(s) && s@ == text,
                Err(ev) => r matches Err(e) && e@ == ev,
            },
    {
        let mut exp = Expander::new();
        let mut reg = TypeRegistry::new();
        proof {
            assert(exp@ =~= ExpStateV { decls: Seq::empty(), known: Seq::empty() });
            assert(reg@ =~= Seq::<(u32, Seq<char>)>::empty());
        }
        match build_catalogue(&m.types, &mut exp, &mut reg) {
            Ok(()) => {
            },
            Err(e) => {
                return Err(e);
            },
        }
        let stubs = match synth_all(&m.methods, &reg) {
            Ok(stubs) => stubs,
            Err(e) => {
                return Err(e);
            },
        };
        let mut out = emit_decls(&exp.decls);
        let container = container_decl();
        out.append(container.as_str());
        out.append("impl ExtContract {\n");
        let body = emit_stubs(&stubs);
        out.append(body.as_str());
        out.append("}\n");
        proof {
            assert(out@ =~= spec_compile(*m)->Ok_0);
        }
        Ok(out)
    }
}

impl Default for Config {
    /// By default the caller's environment decides where output goes.
    fn default() -> (r: Config)
        ensures
            r.out_dir is None,
    {
        Config { out_dir: None }
    }
}

/// One line of a trait-style client: the method's signature alone,
/// with the same synthetic positional parameters as a stub and the
/// result type resolved through the registry where the method declares
/// one.
pub open spec fn spec_trait_method(m: MethodEntry, reg: Seq<(u32, Seq<char>)>) -> Result<
    Seq<char>,
    ErrorV,
> {
    match spec_params(m.args@, 0, reg) {
        Err(e) => Err(e),
        Ok(ps) => match m.result {
            None => Ok("    fn "@ + m.name@ + "(&self"@ + spec_param_list(ps) + ");\n"@),
            Some(rid) => match spec_lookup(reg, rid) {
                None => Err(ErrorV::UnresolvedReturnType),
                Some(rt) => Ok(
                    "    fn "@ + m.name@ + "(&self"@ + spec_param_list(ps) + ") -> "@ + rt
                        + ";\n"@,
                ),
            },
        },
    }
}

/// All trait method lines, in manifest order, or the first error.
pub open spec fn spec_trait_methods(ms: Seq<MethodEntry>, reg: Seq<(u32, Seq<char>)>) -> Result<
    Seq<char>,
    ErrorV,
>
    decreases ms.len(),
{
    if ms.len() == 0 {
        Ok(Seq::empty())
    } else {
        match spec_trait_method(ms[0], reg) {
            Err(e) => Err(e),
            Ok(line) => match spec_trait_methods(ms.drop_first(), reg) {
                Err(e) => Err(e),
                Ok(rest) => Ok(line + rest),
            },
        }
    }
}

/// What [`Generator::generate`] produces for a manifest: the expanded
/// type declarations, then one externally callable trait named after
/// the contract, with one method signature per manifest method.
pub open spec fn spec_generate(contract_name: Seq<char>, m: Manifest) -> Result<Seq<char>, ErrorV> {
    match spec_build(
        m.types@,
        ExpStateV { decls: Seq::empty(), known: Seq::empty() },
        Seq::empty(),
    ) {
        Err(e) => Err(e),
        Ok((st, reg)) => match spec_trait_methods(m.methods@, reg) {
            Err(e) => Err(e),
            Ok(body) => Ok(
                spec_emit_decls(st.decls) + "#[near_sdk::ext_contract]\npub trait "@
                    + contract_name + " {\n"@ + body + "}\n"@,
            ),
        },
    }
}

/// Renders one trait method line, as [`spec_trait_method`] says.
fn trait_method(m: &MethodEntry, reg: &TypeRegistry) -> (r: Result<String, Error>)
    ensures
        match spec_trait_method(*m, reg@) {
            Ok(line) => r matches Ok(s) && s@ == line,
            Err(ev) => r matches Err(e) && e@ == ev,
        },
{
    let ps = synth_params(&m.args, reg)?;
    let rendered = param_list(&ps);
    let mut out = String::from_str("    fn ");
    out.append(m.name.as_str());
    out.append("(&self");
    out.append(rendered.as_str());
    match m.result {
        None => {
            out.append(");\n");
        },
        Some(rid) => {
            let rt = match reg.resolve(rid) {
                Ok(rt) => rt,
                Err(_) => {
                    return Err(Error::UnresolvedReturnType);
                },
            };
            out.append(") -> ");
            out.append(rt.as_str());
            out.append(";\n");
        },
    }
    proof {
        assert(out@ =~= spec_trait_method(*m, reg@)->Ok_0);
    }
    Ok(out)
}

/// A configurable generator for trait-style clients: the contract's
/// name becomes the generated trait's name. The schema-helper module
/// path and the manifest file's path only concern the caller that
/// locates and reads the input; generation itself consumes the parsed
/// manifest.
pub struct Generator {
    /// The name of the contract the manifest describes, used verbatim
    /// as the generated trait's name.
    pub contract_name: String,
    /// The module path through which generated code reaches schema
    /// helper types, kept for callers that post-process the output.
    pub schemafy_path: String,
    /// The manifest file this generator is meant for, kept for the
    /// caller that reads it.
    pub input_file: String,
}

impl Generator {
    /// Get a builder for the Generator.
    pub fn builder() -> (r: GeneratorBuilder)
        ensures
            r.inner.contract_name@ == Seq::<char>::empty(),
            r.inner.schemafy_path@ == "::schemafy_core::"@,
            r.inner.input_file@ == "schema.json"@,
    {
        GeneratorBuilder::default()
    }

    /// Generates the trait-style client for one manifest, exactly as
    /// [`spec_generate`] says.
    pub fn generate(&self, m: &Manifest) -> (r: Result<String, Error>)
        ensures
            match spec_generate(self.contract_name@, *m) {
                Ok(text) => r matches Ok(s) && s@ == text,
                Err(ev) => r matches Err(e) && e@ == ev,
            },
    {
        let mut exp = Expander::new();
        let mut reg = TypeRegistry::new();
        proof {
            assert(exp@ =~= ExpStateV { decls: Seq::empty(), known: Seq::empty() });
            assert(reg@ =~= Seq::<(u32, Seq<char>)>::empty());
        }
        match build_catalogue(&m.types, &mut exp, &mut reg) {
            Ok(()) => {
            },
            Err(e) => {
                return Err(e);
            },
        }
        let mut body = String::new();
        let mut i: usize = 0;
        proof {
            assert(m.methods@.skip(0) =~= m.methods@);
            assert(body@ + Seq::<char>::empty() =~= body@);
        }
        while i < m.methods.len()
            invariant
                i <= m.methods.len(),
                spec_build(
                    m.types@,
                    ExpStateV { decls: Seq::empty(), known: Seq::empty() },
                    Seq::empty(),
                ) == Ok::<(ExpStateV, Seq<(u32, Seq<char>)>), ErrorV>((exp@, reg@)),
                spec_trait_methods(m.methods@, reg@) == match spec_trait_methods(
                    m.methods@.skip(i as int),
                    reg@,
                ) {
                    Ok(rest) => Ok::<_, ErrorV>(body@ + rest),
                    Err(e) => Err::<Seq<char>, _>(e),
                },
            decreases m.methods.len() - i,
        {
            proof {
                assert(m.methods@.skip(i as int)[0] == m.methods@[i as int]);
                assert(m.methods@.skip(i as int).drop_first() =~= m.methods@.skip(i as int + 1));
            }
            let ghost before = body@;
            let line = match trait_method(&m.methods[i], &reg) {
                Ok(line) => line,
                Err(e) => {
                    return Err(e);
                },
            };
            body.append(line.as_str());
            proof {
                if let Ok(rest) = spec_trait_methods(m.methods@.skip(i as int + 1), reg@) {
                    assert(before + (line@ + rest) =~= body@ + rest);
                }
            }
            i = i + 1;
        }
        proof {
            assert(m.methods@.skip(m.methods.len() as int).len() == 0);
            assert(body@ + Seq::<char>::empty() =~= body@);
        }
        let mut out = emit_decls(&exp.decls);
        out.append("#[near_sdk::ext_contract]\npub trait ");
        out.append(self.contract_name.as_str());
        out.append(" {\n");
        out.append(body.as_str());
        out.append("}\n");
        proof {
            assert(out@ =~= spec_generate(self.contract_name@, *m)->Ok_0);
        }
        Ok(out)
    }
}

/// A builder for [`Generator`], starting from the usual defaults.
pub struct GeneratorBuilder {
    pub inner: Generator,
}

impl Default for GeneratorBuilder {
    /// The default options: no contract name yet, the conventional
    /// schema-helper path, and the conventional manifest file name.
    fn default() -> (r: Self)
        ensures
            r.inner.contract_name@ == Seq::<char>::empty(),
            r.inner.schemafy_path@ == "::schemafy_core::"@,
            r.inner.input_file@ == "schema.json"@,
    {
        GeneratorBuilder {
            inner: Generator {
                contract_name: String::new(),
                schemafy_path: String::from_str("::schemafy_core::"),
                input_file: String::from_str("schema.json"),
            },
        }
    }
}

impl GeneratorBuilder {
    /// Sets the contract name, taking ownership of it.
    pub fn with_contract_name(self, contract_name: String) -> (r: Self)
        ensures
            r.inner.contract_name == contract_name,
            r.inner.schemafy_path == self.inner.schemafy_path,
            r.inner.input_file == self.inner.input_file,
    {
        let mut this = self;
        this.inner.contract_name = contract_name;
        this
    }

    /// Sets the contract name from a borrowed string.
    pub fn with_contract_name_str(self, contract_name: &str) -> (r: Self)
        ensures
            r.inner.contract_name@ == contract_name@,
            r.inner.schemafy_path == self.inner.schemafy_path,
            r.inner.input_file == self.inner.input_file,
    {
        let mut this = self;
        this.inner.contract_name = String::from_str(contract_name);
        this
    }

    /// Sets the manifest file the generator is meant for.
    pub fn with_input_file(self, input_file: &str) -> (r: Self)
        ensures
            r.inner.input_file@ == input_file@,
            r.inner.contract_name == self.inner.contract_name,
            r.inner.schemafy_path == self.inner.schemafy_path,
    {
        let mut this = self;
        this.inner.input_file = String::from_str(input_file);
        this
    }

    /// Sets the module path to the schema helper types.
    pub fn with_schemafy_path(self, schemafy_path: &str) -> (r: Self)
        ensures
            r.inner.schemafy_path@ == schemafy_path@,
            r.inner.contract_name == self.inner.contract_name,
            r.inner.input_file == self.inner.input_file,
    {
        let mut this = self;
        this.inner.schemafy_path = String::from_str(schemafy_path);
        this
    }

    /// Finishes the builder.
    pub fn build(self) -> (r: Generator)
        ensures
            r == self.inner,
    {
        self.inner
    }
}

} // verus!
