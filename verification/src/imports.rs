//! Resolution of a module's imports against the functions that the host
//! provides, and the adapter between a bound host function and the engine.

use crate::error::WasmError;
use crate::text;
use crate::value::{
    from_wasmedge_value, into_wasmedge_val_type, into_wasmedge_value, is_numeric, val_type_eq,
    val_type_of, WasmValue,
};
use sp_wasm_interface::{Value, ValueType};
use vstd::prelude::*;
use vstd::string::StringExecFns;
use wasmedge_types::ValType;

verus! {

/// The kinds of the parameters and of the results of a function.
#[derive(Debug)]
pub struct FuncSignature {
    pub params: Vec<ValType>,
    pub results: Vec<ValType>,
}

/// What an import asks the host for.
#[derive(Debug)]
pub enum ImportKind {
    Func(FuncSignature),
    Table,
    Memory,
    Global,
    /// The engine could not tell.
    Unknown,
}

/// One import that a module declares.
#[derive(Debug)]
pub struct ImportType {
    pub module_name: String,
    pub name: String,
    pub kind: ImportKind,
}

/// What the host says of one of the functions it provides.
#[derive(Debug)]
pub struct HostFunction {
    pub name: String,
    pub args: Vec<ValueType>,
    pub return_value: Option<ValueType>,
}

/// How one import of a module is satisfied.
#[derive(Debug)]
pub enum ImportBinding {
    /// The import at position `import` of the module's list, by the host
    /// function at position `host_func` of the host's list, which returns
    /// `returns_len` values.
    HostFunction { name: String, import: usize, host_func: usize, returns_len: usize },
    /// The import at position `import` of the module's list, by a stub that
    /// fails whenever the guest calls it.
    MissingStub { name: String, import: usize },
}

/// An `ImportBinding` with its name as a sequence of characters.
pub enum BindingView {
    HostFunction { name: Seq<char>, import: int, host_func: int, returns_len: nat },
    MissingStub { name: Seq<char>, import: int },
}

impl View for ImportBinding {
    type V = BindingView;

    open spec fn view(&self) -> BindingView {
        match self {
            ImportBinding::HostFunction { name, import, host_func, returns_len } => {
                BindingView::HostFunction {
                    name: name@,
                    import: *import as int,
                    host_func: *host_func as int,
                    returns_len: *returns_len as nat,
                }
            },
            ImportBinding::MissingStub { name, import } => BindingView::MissingStub {
                name: name@,
                import: *import as int,
            },
        }
    }
}

impl HostFunction {
    /// The engine kinds of the parameters.
    pub open spec fn params(&self) -> Seq<ValType> {
        Seq::new(self.args@.len(), |i: int| val_type_of(self.args@[i]))
    }

    /// The engine kinds of the results: one or none.
    pub open spec fn results(&self) -> Seq<ValType> {
        match self.return_value {
            Some(t) => seq![val_type_of(t)],
            None => Seq::empty(),
        }
    }

    /// Whether an import of signature `signature` can be bound to this
    /// function.
    pub open spec fn accepts(&self, signature: &FuncSignature) -> bool {
        signature.params@ == self.params() && signature.results@ == self.results()
    }
}

/// The one module from which a guest may import.
pub open spec fn env() -> Seq<char> {
    "env"@
}

/// Whether a later import has the name of import `i`. Such an import is
/// passed over: of the imports of one name, the last decides.
pub open spec fn shadowed(imports: Seq<ImportType>, i: int) -> bool {
    exists|j: int| i < j < imports.len() && imports[j].name@ == imports[i].name@
}

/// Whether `k` is the position of the first host function called `name`.
pub open spec fn is_first_host(hosts: Seq<HostFunction>, name: Seq<char>, k: int) -> bool {
    &&& 0 <= k < hosts.len()
    &&& hosts[k].name@ == name
    &&& forall|j: int| 0 <= j < k ==> hosts[j].name@ != name
}

/// Whether the host provides a function called `name`.
pub open spec fn has_host(hosts: Seq<HostFunction>, name: Seq<char>) -> bool {
    exists|k: int| 0 <= k < hosts.len() && hosts[k].name@ == name
}

/// The position of the first host function called `name`.
pub open spec fn host_index(hosts: Seq<HostFunction>, name: Seq<char>) -> int {
    choose|k: int| is_first_host(hosts, name, k)
}

/// The signature that import `i` declares.
pub open spec fn declared(imports: Seq<ImportType>, i: int) -> FuncSignature
    recommends
        0 <= i < imports.len(),
        imports[i].kind is Func,
{
    imports[i].kind->Func_0
}

/// Whether import `i` counts, the host has a function of its name, and the
/// signatures of the two differ.
pub open spec fn mismatch_at(imports: Seq<ImportType>, hosts: Seq<HostFunction>, i: int) -> bool {
    &&& 0 <= i < imports.len()
    &&& !shadowed(imports, i)
    &&& has_host(hosts, imports[i].name@)
    &&& !hosts[host_index(hosts, imports[i].name@)].accepts(&declared(imports, i))
}

/// What the host finds of an import when it resolves it.
pub enum Finding {
    /// The import is not from the module `env`.
    NonEnv,
    /// The import is from the module `env` and is not a function.
    NonFunction,
    /// The import counts, the host has a function of its name, and the
    /// signatures of the two differ.
    Mismatch,
    /// The import counts and the host has no function of its name.
    Missing,
    /// The import counts and the host has a function of its name and
    /// signature.
    Bound,
}

/// Whether the host finds `finding` of import `i`. An import counts where no
/// later import has its name.
pub open spec fn found_at(
    imports: Seq<ImportType>,
    hosts: Seq<HostFunction>,
    finding: Finding,
    i: int,
) -> bool {
    match finding {
        Finding::NonEnv => imports[i].module_name@ != env(),
        Finding::NonFunction => imports[i].module_name@ == env() && !(imports[i].kind is Func),
        Finding::Mismatch => mismatch_at(imports, hosts, i),
        Finding::Missing => !shadowed(imports, i) && !has_host(hosts, imports[i].name@),
        Finding::Bound => !shadowed(imports, i) && has_host(hosts, imports[i].name@)
            && hosts[host_index(hosts, imports[i].name@)].accepts(&declared(imports, i)),
    }
}

/// The positions, among the first `n` imports and in their order, of the
/// imports of which the host finds `finding`.
pub open spec fn positions(
    imports: Seq<ImportType>,
    hosts: Seq<HostFunction>,
    finding: Finding,
    n: nat,
) -> Seq<int>
    decreases n,
{
    if n == 0 {
        Seq::empty()
    } else {
        let before = positions(imports, hosts, finding, (n - 1) as nat);
        if found_at(imports, hosts, finding, n - 1) {
            before.push(n - 1)
        } else {
            before
        }
    }
}

/// An import as an error message names it: its module and its name, in
/// quotes where `quote` says so.
pub open spec fn named(import: &ImportType, quote: bool) -> Seq<char> {
    if quote {
        "'"@ + import.module_name@ + ":"@ + import.name@ + "'"@
    } else {
        import.module_name@ + ":"@ + import.name@
    }
}

/// The imports at the positions `at`, each as an error message names it, with
/// `, ` between them.
pub open spec fn listed(imports: Seq<ImportType>, at: Seq<int>, quote: bool) -> Seq<char>
    decreases at.len(),
{
    if at.len() == 0 {
        Seq::empty()
    } else if at.len() == 1 {
        named(&imports[at[0]], quote)
    } else {
        listed(imports, at.drop_last(), quote) + ", "@ + named(&imports[at.last()], quote)
    }
}

/// The message that names every import that the host refuses for what it is:
/// those that are not from the module `env`, and those that are no functions.
pub open spec fn refusal_message(
    imports: Seq<ImportType>,
    non_env: Seq<int>,
    non_function: Seq<int>,
) -> Seq<char> {
    let first = "host doesn't provide any imports from non-env module: "@ + listed(
        imports,
        non_env,
        false,
    );
    let second = "host doesn't provide any non function imports: "@ + listed(
        imports,
        non_function,
        false,
    );
    if non_function.len() == 0 {
        first
    } else if non_env.len() == 0 {
        second
    } else {
        first + "; "@ + second
    }
}

/// The message that names every import whose signature differs from that of
/// the host function of its name.
pub open spec fn mismatch_message(imports: Seq<ImportType>, at: Seq<int>) -> Seq<char> {
    "signature mismatch for: "@ + listed(imports, at, false)
}

/// The message that names every import for which the host has no function.
pub open spec fn missing_message(imports: Seq<ImportType>, at: Seq<int>) -> Seq<char> {
    "runtime requires function imports which are not present on the host: "@ + listed(
        imports,
        at,
        true,
    )
}

/// The bindings to host functions for the imports at the positions `at`.
pub open spec fn bindings(
    imports: Seq<ImportType>,
    hosts: Seq<HostFunction>,
    at: Seq<int>,
) -> Seq<BindingView> {
    Seq::new(
        at.len(),
        |k: int|
            BindingView::HostFunction {
                name: imports[at[k]].name@,
                import: at[k],
                host_func: host_index(hosts, imports[at[k]].name@),
                returns_len: hosts[host_index(hosts, imports[at[k]].name@)].results().len(),
            },
    )
}

/// One stub for each of the imports at the positions `at`.
pub open spec fn stubs(imports: Seq<ImportType>, at: Seq<int>) -> Seq<BindingView> {
    Seq::new(
        at.len(),
        |k: int| BindingView::MissingStub { name: imports[at[k]].name@, import: at[k] },
    )
}

/// What the resolution of `imports` against `hosts` gives: the bindings, or
/// the message of the error. Where the host refuses imports for what they are,
/// the error names every one of them. Failing that, where signatures differ,
/// the error names every import of which that holds. Failing that, where the
/// host has no function for some imports and that is not allowed, the error
/// names every one of them. Otherwise the bindings to host functions come
/// first, then the stubs, each group in the order of the imports.
pub open spec fn resolution(
    imports: Seq<ImportType>,
    hosts: Seq<HostFunction>,
    allow_missing: bool,
) -> Result<Seq<BindingView>, Seq<char>> {
    let non_env = positions(imports, hosts, Finding::NonEnv, imports.len());
    let non_function = positions(imports, hosts, Finding::NonFunction, imports.len());
    let mismatches = positions(imports, hosts, Finding::Mismatch, imports.len());
    let missing = positions(imports, hosts, Finding::Missing, imports.len());
    let bound = positions(imports, hosts, Finding::Bound, imports.len());
    if non_env.len() > 0 || non_function.len() > 0 {
        Err(refusal_message(imports, non_env, non_function))
    } else if mismatches.len() > 0 {
        Err(mismatch_message(imports, mismatches))
    } else if !allow_missing && missing.len() > 0 {
        Err(missing_message(imports, missing))
    } else {
        Ok(bindings(imports, hosts, bound) + stubs(imports, missing))
    }
}

/// Whether every import can be satisfied.
pub open spec fn imports_resolve(
    imports: Seq<ImportType>,
    hosts: Seq<HostFunction>,
    allow_missing: bool,
) -> bool {
    resolution(imports, hosts, allow_missing) is Ok
}

/// Whether `outcome` is what the resolution of `imports` against `hosts`
/// gives.
pub open spec fn resolves_to(
    imports: Seq<ImportType>,
    hosts: Seq<HostFunction>,
    allow_missing: bool,
    outcome: Result<Seq<BindingView>, Seq<char>>,
) -> bool {
    outcome == resolution(imports, hosts, allow_missing)
}

/// The view of each binding.
pub open spec fn binding_views(bindings: Seq<ImportBinding>) -> Seq<BindingView> {
    Seq::new(bindings.len(), |i: int| bindings[i]@)
}

/// Positions as mathematical integers.
pub open spec fn ints(at: Seq<usize>) -> Seq<int> {
    Seq::new(at.len(), |i: int| at[i] as int)
}

fn is_shadowed(imports: &Vec<ImportType>, i: usize) -> (r: bool)
    requires
        i < imports@.len(),
    ensures
        r == shadowed(imports@, i as int),
{
    let n: usize = imports.len();
    let mut j: usize = i + 1;
    while j < n
        invariant
            n == imports@.len(),
            i < j <= n,
            forall|k: int| i < k < j ==> imports@[k].name@ != imports@[i as int].name@,
        decreases n - j,
    {
        if imports[j].name == imports[i].name {
            assert(i < j < imports@.len() && imports@[j as int].name@ == imports@[i as int].name@);
            return true;
        }
        j += 1;
    }
    false
}

fn find_host(hosts: &Vec<HostFunction>, name: &String) -> (r: Option<usize>)
    ensures
        r.is_some() == has_host(hosts@, name@),
        r matches Some(k) ==> is_first_host(hosts@, name@, k as int) && k == host_index(
            hosts@,
            name@,
        ),
{
    let mut k: usize = 0;
    while k < hosts.len()
        invariant
            k <= hosts@.len(),
            forall|j: int| 0 <= j < k ==> hosts@[j].name@ != name@,
        decreases hosts@.len() - k,
    {
        if hosts[k].name == *name {
            proof {
                let c = host_index(hosts@, name@);
                assert(is_first_host(hosts@, name@, k as int));
                assert(is_first_host(hosts@, name@, c));
                if c < k {
                    assert(hosts@[c].name@ != name@);
                } else if k < c {
                    assert(hosts@[k as int].name@ != name@);
                }
            }
            return Some(k);
        }
        k += 1;
    }
    None
}

fn same_kinds(declared: &Vec<ValType>, args: &Vec<ValueType>) -> (r: bool)
    ensures
        r == (declared@ == Seq::new(args@.len(), |i: int| val_type_of(args@[i]))),
{
    let ghost wanted = Seq::new(args@.len(), |i: int| val_type_of(args@[i]));
    if declared.len() != args.len() {
        return false;
    }
    let mut i: usize = 0;
    while i < declared.len()
        invariant
            i <= declared@.len(),
            declared@.len() == args@.len(),
            wanted == Seq::new(args@.len(), |i: int| val_type_of(args@[i])),
            forall|j: int| 0 <= j < i ==> declared@[j] == wanted[j],
        decreases declared@.len() - i,
    {
        if !val_type_eq(declared[i], into_wasmedge_val_type(args[i])) {
            assert(declared@[i as int] != wanted[i as int]);
            return false;
        }
        i += 1;
    }
    assert(declared@ =~= wanted);
    true
}

fn signature_accepted(signature: &FuncSignature, host: &HostFunction) -> (r: bool)
    ensures
        r == host.accepts(signature),
{
    if !same_kinds(&signature.params, &host.args) {
        return false;
    }
    match host.return_value {
        Some(t) => {
            let ok = signature.results.len() == 1 && val_type_eq(
                signature.results[0],
                into_wasmedge_val_type(t),
            );
            proof {
                if ok {
                    assert(signature.results@ =~= seq![val_type_of(t)]);
                } else if signature.results@.len() == 1 {
                    assert(seq![val_type_of(t)][0] == val_type_of(t));
                }
            }
            ok
        },
        None => {
            let ok = signature.results.len() == 0;
            proof {
                if ok {
                    assert(signature.results@ =~= Seq::<ValType>::empty());
                }
            }
            ok
        },
    }
}

fn returns_len_of(host: &HostFunction) -> (r: usize)
    ensures
        r == host.results().len(),
{
    match host.return_value {
        Some(_) => 1,
        None => 0,
    }
}

fn name_of(import: &ImportType, quote: bool) -> (r: String)
    ensures
        r@ == named(import, quote),
{
    let mut text = if quote {
        "'".to_owned()
    } else {
        String::new()
    };
    assert(text@ + import.module_name@ =~= if quote {
        "'"@ + import.module_name@
    } else {
        import.module_name@
    });
    text.append(import.module_name.as_str());
    text.append(":");
    text.append(import.name.as_str());
    if quote {
        text.append("'");
    }
    text
}

fn list_imports(imports: &Vec<ImportType>, at: &Vec<usize>, quote: bool) -> (r: String)
    requires
        forall|k: int| 0 <= k < at@.len() ==> at@[k] < imports@.len(),
    ensures
        r@ == listed(imports@, ints(at@), quote),
{
    let ghost all = ints(at@);
    if at.len() == 0 {
        return String::new();
    }
    let mut list = name_of(&imports[at[0]], quote);
    proof {
        assert(all.take(1).len() == 1);
        assert(all.take(1)[0] == at@[0] as int);
    }
    let mut i: usize = 1;
    while i < at.len()
        invariant
            1 <= i <= at@.len(),
            all == ints(at@),
            forall|k: int| 0 <= k < at@.len() ==> at@[k] < imports@.len(),
            list@ == listed(imports@, all.take(i as int), quote),
        decreases at@.len() - i,
    {
        let next = name_of(&imports[at[i]], quote);
        list.append(", ");
        list.append(next.as_str());
        proof {
            let now = all.take(i + 1);
            assert(now.drop_last() =~= all.take(i as int));
            assert(now.last() == at@[i as int] as int);
        }
        i += 1;
    }
    proof {
        assert(all.take(at@.len() as int) =~= all);
    }
    list
}

fn message_of(prefix: &str, imports: &Vec<ImportType>, at: &Vec<usize>, quote: bool) -> (r: String)
    requires
        forall|k: int| 0 <= k < at@.len() ==> at@[k] < imports@.len(),
    ensures
        r@ == prefix@ + listed(imports@, ints(at@), quote),
{
    let mut message = prefix.to_owned();
    let list = list_imports(imports, at, quote);
    message.append(list.as_str());
    message
}

/// Goes over the imports of a module and binds each to a function of the
/// host: the result is what `resolution` gives.
///
/// An import that is not from the module `env`, or is not a function, is
/// refused. Of several imports of one name only the last counts. An import
/// that counts is bound to the first host function of its name, and the two
/// signatures have to be the same. The imports for which the host has no
/// function get a stub each where missing imports are allowed. An error names
/// every import that it is about, in the order of the imports. The bindings to
/// host functions come first, then the stubs, each group in the order of the
/// imports.
pub fn prepare_imports(
    imports: &Vec<ImportType>,
    host_functions: &Vec<HostFunction>,
    allow_missing_func_imports: bool,
) -> (r: Result<Vec<ImportBinding>, WasmError>)
    ensures
        r.is_ok() == imports_resolve(imports@, host_functions@, allow_missing_func_imports),
        resolves_to(
            imports@,
            host_functions@,
            allow_missing_func_imports,
            match r {
                Ok(bindings) => Ok(binding_views(bindings@)),
                Err(e) => Err(e.text()),
            },
        ),
{
    let env_name = "env".to_owned();
    let mut non_env: Vec<usize> = Vec::new();
    let mut non_function: Vec<usize> = Vec::new();
    let mut i: usize = 0;
    while i < imports.len()
        invariant
            i <= imports@.len(),
            env_name@ == env(),
            ints(non_env@) == positions(imports@, host_functions@, Finding::NonEnv, i as nat),
            ints(non_function@) == positions(
                imports@,
                host_functions@,
                Finding::NonFunction,
                i as nat,
            ),
            forall|k: int| 0 <= k < non_env@.len() ==> non_env@[k] < imports@.len(),
            forall|k: int| 0 <= k < non_function@.len() ==> non_function@[k] < imports@.len(),
            non_env@.len() == 0 && non_function@.len() == 0 ==> forall|j: int|
                0 <= j < i ==> (#[trigger] imports@[j]).kind is Func,
        decreases imports@.len() - i,
    {
        let import = &imports[i];
        let ghost env_before = ints(non_env@);
        let ghost function_before = ints(non_function@);
        if !(import.module_name == env_name) {
            non_env.push(i);
            assert(ints(non_env@) =~= env_before.push(i as int));
        } else {
            match import.kind {
                ImportKind::Func(_) => {},
                _ => {
                    non_function.push(i);
                    assert(ints(non_function@) =~= function_before.push(i as int));
                },
            }
        }
        i += 1;
    }
    if non_env.len() > 0 || non_function.len() > 0 {
        let first = message_of(
            "host doesn't provide any imports from non-env module: ",
            imports,
            &non_env,
            false,
        );
        let second = message_of(
            "host doesn't provide any non function imports: ",
            imports,
            &non_function,
            false,
        );
        let message = if non_function.len() == 0 {
            first
        } else if non_env.len() == 0 {
            second
        } else {
            let mut both = first;
            both.append("; ");
            both.append(second.as_str());
            both
        };
        return Err(WasmError::Other(message));
    }
    let mut bound: Vec<ImportBinding> = Vec::new();
    let ghost mut bound_at: Seq<int> = Seq::empty();
    let mut mismatches: Vec<usize> = Vec::new();
    let mut missing: Vec<usize> = Vec::new();
    let mut i: usize = 0;
    while i < imports.len()
        invariant
            i <= imports@.len(),
            forall|j: int| 0 <= j < imports@.len() ==> (#[trigger] imports@[j]).kind is Func,
            ints(mismatches@) == positions(imports@, host_functions@, Finding::Mismatch, i as nat),
            ints(missing@) == positions(imports@, host_functions@, Finding::Missing, i as nat),
            bound_at == positions(imports@, host_functions@, Finding::Bound, i as nat),
            binding_views(bound@) == bindings(imports@, host_functions@, bound_at),
            forall|k: int| 0 <= k < mismatches@.len() ==> mismatches@[k] < imports@.len(),
            forall|k: int| 0 <= k < missing@.len() ==> missing@[k] < imports@.len(),
        decreases imports@.len() - i,
    {
        let import = &imports[i];
        let ghost bound_before = bound@;
        let ghost at_before = bound_at;
        let ghost mismatches_before = ints(mismatches@);
        let ghost missing_before = ints(missing@);
        if !is_shadowed(imports, i) {
            match find_host(host_functions, &import.name) {
                Some(k) => {
                    let host = &host_functions[k];
                    let accepted = match &import.kind {
                        ImportKind::Func(signature) => signature_accepted(signature, host),
                        _ => false,
                    };
                    if accepted {
                        bound.push(
                            ImportBinding::HostFunction {
                                name: import.name.clone(),
                                import: i,
                                host_func: k,
                                returns_len: returns_len_of(host),
                            },
                        );
                        proof {
                            bound_at = bound_at.push(i as int);
                            assert(binding_views(bound@) =~= binding_views(bound_before).push(
                                bound@[bound_before.len() as int]@,
                            ));
                            assert(bindings(imports@, host_functions@, bound_at) =~= bindings(
                                imports@,
                                host_functions@,
                                at_before,
                            ).push(bound@[bound_before.len() as int]@));
                        }
                    } else {
                        mismatches.push(i);
                        assert(ints(mismatches@) =~= mismatches_before.push(i as int));
                    }
                },
                None => {
                    missing.push(i);
                    assert(ints(missing@) =~= missing_before.push(i as int));
                },
            }
        }
        i += 1;
    }
    if mismatches.len() > 0 {
        return Err(
            WasmError::Other(message_of("signature mismatch for: ", imports, &mismatches, false)),
        );
    }
    if missing.len() > 0 && !allow_missing_func_imports {
        return Err(
            WasmError::Other(
                message_of(
                    "runtime requires function imports which are not present on the host: ",
                    imports,
                    &missing,
                    true,
                ),
            ),
        );
    }
    let ghost bound_views = binding_views(bound@);
    let ghost missing_at = ints(missing@);
    let mut m: usize = 0;
    while m < missing.len()
        invariant
            m <= missing@.len(),
            missing_at == ints(missing@),
            forall|k: int| 0 <= k < missing@.len() ==> missing@[k] < imports@.len(),
            binding_views(bound@) == bound_views + stubs(imports@, missing_at.take(m as int)),
        decreases missing@.len() - m,
    {
        let ghost before = bound@;
        let at: usize = missing[m];
        bound.push(ImportBinding::MissingStub { name: imports[at].name.clone(), import: at });
        assert(binding_views(bound@) =~= bound_views + stubs(imports@, missing_at.take(m + 1))) by {
            let stub = BindingView::MissingStub { name: imports@[at as int].name@, import: at as int };
            assert(binding_views(bound@) =~= binding_views(before).push(stub));
            assert(stubs(imports@, missing_at.take(m + 1)) =~= stubs(
                imports@,
                missing_at.take(m as int),
            ).push(stub));
        }
        m += 1;
    }
    assert(missing_at.take(missing@.len() as int) =~= missing_at);
    Ok(bound)
}

/// The code with which a host function fails towards the engine.
#[derive(Clone, Copy, Debug, PartialEq, Eq)]
pub enum HostFuncErrorWasmEdge {
    /// The guest called an import for which the host has no function.
    MissingHostFunc,
    /// The host function could not allocate memory.
    AllocateMemoryErr,
    /// A task that the host function spawned failed.
    SpawnedTaskErr,
    /// Any other failure of the host function.
    Others,
}

impl HostFuncErrorWasmEdge {
    /// The number that stands for the error.
    pub open spec fn spec_code(&self) -> u32 {
        match self {
            HostFuncErrorWasmEdge::MissingHostFunc => 1,
            HostFuncErrorWasmEdge::AllocateMemoryErr => 2,
            HostFuncErrorWasmEdge::SpawnedTaskErr => 3,
            HostFuncErrorWasmEdge::Others => 4,
        }
    }

    /// The number that stands for the error.
    pub fn code(&self) -> (r: u32)
        ensures
            r == self.spec_code(),
    {
        match self {
            HostFuncErrorWasmEdge::MissingHostFunc => 1,
            HostFuncErrorWasmEdge::AllocateMemoryErr => 2,
            HostFuncErrorWasmEdge::SpawnedTaskErr => 3,
            HostFuncErrorWasmEdge::Others => 4,
        }
    }

    /// The number that stands for the error, as text.
    pub fn to_string(&self) -> (r: String)
        ensures
            r@ == match self {
                HostFuncErrorWasmEdge::MissingHostFunc => "1"@,
                HostFuncErrorWasmEdge::AllocateMemoryErr => "2"@,
                HostFuncErrorWasmEdge::SpawnedTaskErr => "3"@,
                HostFuncErrorWasmEdge::Others => "4"@,
            },
    {
        match self {
            HostFuncErrorWasmEdge::MissingHostFunc => "1".to_owned(),
            HostFuncErrorWasmEdge::AllocateMemoryErr => "2".to_owned(),
            HostFuncErrorWasmEdge::SpawnedTaskErr => "3".to_owned(),
            HostFuncErrorWasmEdge::Others => "4".to_owned(),
        }
    }
}

/// How the execution of a host function ended.
#[derive(Debug)]
pub enum HostCallOutcome {
    /// It returned a value, or none.
    Returned(Option<Value>),
    /// It reported a failure.
    Failed(String),
    /// It aborted. The message is there where the abort carried one as text.
    Aborted(Option<String>),
}

/// The error code for a host function that aborted with `message`.
pub open spec fn abort_code(message: Option<Seq<char>>) -> HostFuncErrorWasmEdge {
    match message {
        None => HostFuncErrorWasmEdge::Others,
        Some(text) => if text::occurs(text, "Spawned task"@) {
            HostFuncErrorWasmEdge::SpawnedTaskErr
        } else if text::occurs(text, "Failed to allocate memory"@) {
            HostFuncErrorWasmEdge::AllocateMemoryErr
        } else {
            HostFuncErrorWasmEdge::Others
        },
    }
}

/// The boundary values for the raw arguments with which the guest called a
/// host function. The kinds are numeric, since the function was bound under a
/// signature made of boundary kinds.
pub fn host_call_params(inputs: &Vec<WasmValue>) -> (r: Vec<Value>)
    requires
        forall|i: int| 0 <= i < inputs@.len() ==> is_numeric(inputs@[i].spec_ty()),
    ensures
        r@.len() == inputs@.len(),
        forall|i: int| 0 <= i < inputs@.len() ==> r@[i] == inputs@[i].value(),
{
    let mut params: Vec<Value> = Vec::new();
    let mut i: usize = 0;
    while i < inputs.len()
        invariant
            i <= inputs@.len(),
            params@.len() == i,
            forall|j: int| 0 <= j < inputs@.len() ==> is_numeric(inputs@[j].spec_ty()),
            forall|j: int| 0 <= j < i ==> params@[j] == inputs@[j].value(),
        decreases inputs@.len() - i,
    {
        params.push(from_wasmedge_value(inputs[i]));
        i += 1;
    }
    params
}

/// Turns the outcome of a host function into what the engine gets back: the
/// returned value as a raw value, or none; or an error code. A failure gives
/// `Others`; an abort gives the code that its message calls for, so that no
/// failure of host code goes beyond the call. `returns_len` is the number of
/// results of the signature under which the function was bound: the outcome
/// has to agree with it.
pub fn host_call_result(outcome: HostCallOutcome, returns_len: usize) -> (r: Result<
    Vec<WasmValue>,
    HostFuncErrorWasmEdge,
>)
    requires
        outcome matches HostCallOutcome::Returned(v) ==> returns_len == (if v.is_some() {
            1usize
        } else {
            0usize
        }),
    ensures
        match outcome {
            HostCallOutcome::Returned(Some(value)) => r matches Ok(results) && results@.len() == 1
                && results@[0].wf() && results@[0].spec_ty() == val_type_of(
                crate::value::value_type_of(value),
            ) && results@[0].value() == value,
            HostCallOutcome::Returned(None) => r matches Ok(results) && results@.len() == 0,
            HostCallOutcome::Failed(_) => r == Err::<Vec<WasmValue>, _>(
                HostFuncErrorWasmEdge::Others,
            ),
            HostCallOutcome::Aborted(None) => r == Err::<Vec<WasmValue>, _>(
                abort_code(None),
            ),
            HostCallOutcome::Aborted(Some(message)) => r == Err::<Vec<WasmValue>, _>(
                abort_code(Some(message@)),
            ),
        },
{
    match outcome {
        HostCallOutcome::Returned(Some(value)) => {
            let mut results: Vec<WasmValue> = Vec::new();
            results.push(into_wasmedge_value(value));
            Ok(results)
        },
        HostCallOutcome::Returned(None) => Ok(Vec::new()),
        HostCallOutcome::Failed(_) => Err(HostFuncErrorWasmEdge::Others),
        HostCallOutcome::Aborted(None) => Err(HostFuncErrorWasmEdge::Others),
        HostCallOutcome::Aborted(Some(message)) => {
            if text::contains(message.as_str(), "Spawned task") {
                Err(HostFuncErrorWasmEdge::SpawnedTaskErr)
            } else if text::contains(message.as_str(), "Failed to allocate memory") {
                Err(HostFuncErrorWasmEdge::AllocateMemoryErr)
            } else {
                Err(HostFuncErrorWasmEdge::Others)
            }
        },
    }
}

/// What the stub of a missing import gives the engine whenever the guest
/// calls it.
pub fn missing_host_function_result() -> (r: Result<Vec<WasmValue>, HostFuncErrorWasmEdge>)
    ensures
        r == Err::<Vec<WasmValue>, _>(HostFuncErrorWasmEdge::MissingHostFunc),
{
    Err(HostFuncErrorWasmEdge::MissingHostFunc)
}

} // verus!
