//! The entry points of compilation: a source is parsed first, and compiled
//! against the environment only where it parsed.

use vstd::prelude::*;
use crate::state::external::ExternalEnv;
use crate::state::local::LocalEnv;
use crate::type_def::DetailsView;

verus! {

/// What a compilation yields where `parse` and `build` are the parser and the
/// compiler: either the source does not parse, the result is the list that
/// holds the parser's error alone and the environment is untouched; or it
/// parses, and result and environment are what `build` makes of the tree, the
/// functions and the state it was given.
pub open spec fn compiled<F, A, P, E, Parse, Build>(
    source: &str,
    fns: &F,
    before: ExternalEnv,
    local: LocalEnv,
    parse: Parse,
    build: Build,
    after: ExternalEnv,
    result: Result<P, Vec<E>>,
) -> bool where
    Parse: FnOnce(&str) -> Result<A, E>,
    Build: FnOnce(&F, A, ExternalEnv, LocalEnv) -> (ExternalEnv, Result<P, Vec<E>>),
 {
    ||| exists|error: E|
        {
            &&& call_ensures(parse, (source,), Err::<A, E>(error))
            &&& result matches Err(list)
            &&& list@ == seq![error]
            &&& after == before
        }
    ||| exists|ast: A|
        {
            &&& call_ensures(parse, (source,), Ok::<A, E>(ast))
            &&& call_ensures(build, (fns, ast, before, local), (after, result))
        }
}

/// The list of diagnostics that reports a single error.
pub fn diagnostics_of<E>(error: E) -> (list: Vec<E>)
    ensures
        list@ == seq![error],
{
    let mut list: Vec<E> = Vec::new();
    list.push(error);
    list
}

/// Compiles `source` against `external` and `local`. `parse` turns a source
/// into a syntax tree or fails with an error; `build` compiles a tree against
/// the functions and the state and hands the environment back with its
/// result.
///
/// Parsing comes first. Where the source does not parse, `build` is not
/// called, the result is the list that holds the parser's error alone, and
/// `external` is as it was. Where it parses, result and `external` are those
/// that `build` leaves, on success and on failure alike: a failed compilation
/// is not rolled back.
pub fn compile_with_state<F, A, P, E, Parse, Build>(
    source: &str,
    fns: &F,
    external: &mut ExternalEnv,
    local: LocalEnv,
    parse: Parse,
    build: Build,
) -> (result: Result<P, Vec<E>>) where
    Parse: FnOnce(&str) -> Result<A, E>,
    Build: FnOnce(&F, A, ExternalEnv, LocalEnv) -> (ExternalEnv, Result<P, Vec<E>>),

    requires
        call_requires(parse, (source,)),
        forall|ast: A|
            call_ensures(parse, (source,), Ok::<A, E>(ast)) ==> call_requires(
                build,
                (fns, ast, *old(external), local),
            ),
    ensures
        compiled(source, fns, *old(external), local, parse, build, *final(external), result),
{
    match parse(source) {
        Err(error) => Err(diagnostics_of(error)),
        Ok(ast) => {
            let mut held = ExternalEnv::default();
            core::mem::swap(external, &mut held);
            let (after, result) = build(fns, ast, held, local);
            *external = after;
            result
        },
    }
}

/// Compiles `source` against `external`, starting from a scope that binds
/// nothing.
pub fn compile_with_external<F, A, P, E, Parse, Build>(
    source: &str,
    fns: &F,
    external: &mut ExternalEnv,
    parse: Parse,
    build: Build,
) -> (result: Result<P, Vec<E>>) where
    Parse: FnOnce(&str) -> Result<A, E>,
    Build: FnOnce(&F, A, ExternalEnv, LocalEnv) -> (ExternalEnv, Result<P, Vec<E>>),

    requires
        call_requires(parse, (source,)),
        forall|ast: A, local: LocalEnv|
            call_ensures(parse, (source,), Ok::<A, E>(ast)) && local@ == Map::<
                Seq<char>,
                DetailsView,
            >::empty() ==> call_requires(build, (fns, ast, *old(external), local)),
    ensures
        exists|local: LocalEnv|
            local@ == Map::<Seq<char>, DetailsView>::empty() && compiled(
                source,
                fns,
                *old(external),
                local,
                parse,
                build,
                *final(external),
                result,
            ),
{
    compile_with_state(source, fns, external, LocalEnv::default(), parse, build)
}

/// Compiles `source` from the initial environment and a scope that binds
/// nothing, and returns the result alone.
pub fn compile<F, A, P, E, Parse, Build>(source: &str, fns: &F, parse: Parse, build: Build) -> (result:
    Result<P, Vec<E>>) where
    Parse: FnOnce(&str) -> Result<A, E>,
    Build: FnOnce(&F, A, ExternalEnv, LocalEnv) -> (ExternalEnv, Result<P, Vec<E>>),

    requires
        call_requires(parse, (source,)),
        forall|ast: A, external: ExternalEnv, local: LocalEnv|
            call_ensures(parse, (source,), Ok::<A, E>(ast)) && external.is_initial() && local@
                == Map::<Seq<char>, DetailsView>::empty() ==> call_requires(
                build,
                (fns, ast, external, local),
            ),
    ensures
        exists|before: ExternalEnv, local: LocalEnv, after: ExternalEnv|
            before.is_initial() && local@ == Map::<Seq<char>, DetailsView>::empty() && compiled(
                source,
                fns,
                before,
                local,
                parse,
                build,
                after,
                result,
            ),
{
    let mut state = ExternalEnv::default();
    compile_with_external(source, fns, &mut state, parse, build)
}

} // verus!
