//! What a resolution amounts to: the steps of the resolver, taken one after
//! the other against a fixed set of sources, assemble the module tree that
//! the sources describe, depth first and in declaration order.
use vstd::prelude::*;
use crate::module::{
    BuilderModel, KindModel, ModuleErrorModel, ModuleModel, ProgressModel, ResolverModel,
    ScanModel,
};
use crate::raw::RawFile;

verus! {

/// What the caller answers to a request: the parsed source of each module by
/// its name, or nothing where it cannot be read or is no valid source.
pub type Sources = spec_fn(Seq<char>) -> Option<RawFile>;

/// Where a resolution stands after at most `steps` requests were answered
/// from `sources`.
pub open spec fn run_spec(sources: Sources, p: ProgressModel, steps: nat) -> ProgressModel
    decreases steps,
{
    match p {
        ProgressModel::Read { request, resume } => if steps == 0 {
            p
        } else {
            run_spec(
                sources,
                crate::module::accept_spec(resume, sources(request.name)),
                (steps - 1) as nat,
            )
        },
        _ => p,
    }
}

/// The tree that `sources` describe below the module `name`, followed to
/// `depth` levels of nesting: `None` if the nesting goes deeper. A module
/// without a source is invalid. Its exported nested modules are resolved
/// first, in declaration order, and the first that fails, fails the tree;
/// then a declaration that could not be extracted fails it; else the module
/// holds what the scan of its source kept, and its nested modules in order.
pub open spec fn tree_spec(
    sources: Sources,
    markers: Seq<Seq<char>>,
    path: Seq<char>,
    name: Seq<char>,
    kind: KindModel,
    depth: nat,
) -> Option<Result<ModuleModel, ModuleErrorModel>>
    decreases depth, 0nat, 0nat,
{
    if depth == 0 {
        None
    } else {
        match sources(name) {
            None => Some(Err(ModuleErrorModel::InvalidModule { name: name, path: path })),
            Some(f) => {
                let found = crate::module::scan_file(crate::module::empty_scan(), f, markers);
                match children_spec(
                    sources,
                    markers,
                    path,
                    name,
                    found.pending,
                    (depth - 1) as nat,
                    found.pending.len(),
                ) {
                    None => None,
                    Some(Err(e)) => Some(Err(e)),
                    Some(Ok(children)) => match found.failure {
                        Some(e) => Some(Err(ModuleErrorModel::Conversion(e))),
                        None => Some(
                            Ok(
                                ModuleModel {
                                    name: name,
                                    path: path,
                                    kind: kind,
                                    children: children,
                                    structs: found.structs,
                                    functions: found.functions,
                                    enums: found.enums,
                                },
                            ),
                        ),
                    },
                }
            },
        }
    }
}

/// The trees of the first `n` of the nested modules `names` of the module
/// `parent`, in order, or the failure of the first that fails.
pub open spec fn children_spec(
    sources: Sources,
    markers: Seq<Seq<char>>,
    path: Seq<char>,
    parent: Seq<char>,
    names: Seq<Seq<char>>,
    depth: nat,
    n: nat,
) -> Option<Result<Seq<ModuleModel>, ModuleErrorModel>>
    decreases depth, 1nat, n,
{
    if n == 0 {
        Some(Ok(Seq::empty()))
    } else {
        match children_spec(sources, markers, path, parent, names, depth, (n - 1) as nat) {
            None => None,
            Some(Err(e)) => Some(Err(e)),
            Some(Ok(before)) => match tree_spec(
                sources,
                markers,
                path,
                names[n - 1],
                KindModel::Sub { parent: parent },
                depth,
            ) {
                None => None,
                Some(Err(e)) => Some(Err(e)),
                Some(Ok(m)) => Some(Ok(before.push(m))),
            },
        }
    }
}

/// A tree that the sources describe has the name, the path and the place it
/// was asked for, and each of its nested modules has the same path and
/// names it as its parent.
pub proof fn lemma_tree_knows_its_place(
    sources: Sources,
    markers: Seq<Seq<char>>,
    path: Seq<char>,
    name: Seq<char>,
    kind: KindModel,
    depth: nat,
)
    ensures
        tree_spec(sources, markers, path, name, kind, depth) matches Some(Ok(m)) ==> m.name == name
            && m.path == path && m.kind == kind && forall|i: int|
            0 <= i < m.children.len() ==> (#[trigger] m.children[i]).path == path
                && m.children[i].kind == (KindModel::Sub { parent: name }),
    decreases depth, 0nat, 0nat,
{
    if depth > 0 {
        if let Some(f) = sources(name) {
            let found = crate::module::scan_file(crate::module::empty_scan(), f, markers);
            lemma_children_know_their_parent(
                sources,
                markers,
                path,
                name,
                found.pending,
                (depth - 1) as nat,
                found.pending.len(),
            );
        }
    }
}

/// Each of the trees of the nested modules of `parent` has the path of its
/// parent and names it, and stands for the nested module at its position.
pub proof fn lemma_children_know_their_parent(
    sources: Sources,
    markers: Seq<Seq<char>>,
    path: Seq<char>,
    parent: Seq<char>,
    names: Seq<Seq<char>>,
    depth: nat,
    n: nat,
)
    requires
        n <= names.len(),
    ensures
        children_spec(sources, markers, path, parent, names, depth, n) matches Some(Ok(cs))
            ==> cs.len() == n && forall|i: int|
            0 <= i < n ==> (#[trigger] cs[i]).path == path && cs[i].kind == (KindModel::Sub {
                parent: parent,
            }) && cs[i].name == names[i],
    decreases depth, 1nat, n,
{
    if n > 0 {
        lemma_children_know_their_parent(
            sources,
            markers,
            path,
            parent,
            names,
            depth,
            (n - 1) as nat,
        );
        lemma_tree_knows_its_place(
            sources,
            markers,
            path,
            names[n - 1],
            KindModel::Sub { parent: parent },
            depth,
        );
    }
}

/// How a resolution ends with `outcome`.
pub open spec fn ended(outcome: Result<ModuleModel, ModuleErrorModel>) -> ProgressModel {
    match outcome {
        Ok(m) => ProgressModel::Done(m),
        Err(e) => ProgressModel::Failed(e),
    }
}

/// What follows once the awaited module is complete as `m`: it is the tree
/// if no builder is around it, and else becomes the last child of the
/// builder around it.
pub open spec fn completed(stack: Seq<BuilderModel>, m: ModuleModel) -> ProgressModel {
    if stack.len() == 0 {
        ProgressModel::Done(m)
    } else {
        crate::module::settle(
            stack.drop_last(),
            BuilderModel { children: stack.last().children.push(m), ..stack.last() },
        )
    }
}

/// A builder that awaits the source of its module: it has a name and a path
/// and holds nothing yet.
pub open spec fn awaits(b: BuilderModel) -> bool {
    b.name is Some && b.path is Some && b.children.len() == 0 && b.found
        == crate::module::empty_scan()
}

/// The request for the source of `b`, to be resumed with `stack` around it.
pub open spec fn asking(stack: Seq<BuilderModel>, b: BuilderModel) -> ProgressModel {
    ProgressModel::Read {
        request: crate::module::request_for(b),
        resume: ResolverModel { stack: stack, awaited: b },
    }
}

/// `b` with `names` pending and `children` resolved.
pub open spec fn advanced(
    b: BuilderModel,
    names: Seq<Seq<char>>,
    children: Seq<ModuleModel>,
) -> BuilderModel {
    BuilderModel { children: children, found: ScanModel { pending: names, ..b.found }, ..b }
}

/// Steps add up.
pub proof fn lemma_run_in_two(sources: Sources, p: ProgressModel, a: nat, b: nat)
    ensures
        run_spec(sources, p, a + b) == run_spec(sources, run_spec(sources, p, a), b),
    decreases a,
{
    match p {
        ProgressModel::Read { request, resume } => {
            if a > 0 {
                lemma_run_in_two(
                    sources,
                    crate::module::accept_spec(resume, sources(request.name)),
                    (a - 1) as nat,
                    b,
                );
            }
        },
        _ => {},
    }
}

/// The resolution of one awaited module: answered from `sources`, it fails
/// as the tree below that module fails, or completes with that tree.
/// Returns the number of requests that it takes.
pub proof fn lemma_awaited_module(
    sources: Sources,
    stack: Seq<BuilderModel>,
    b: BuilderModel,
    depth: nat,
) -> (steps: nat)
    requires
        awaits(b),
        tree_spec(sources, b.markers, b.path->0, b.name->0, b.kind, depth) is Some,
    ensures
        run_spec(sources, asking(stack, b), steps) == (match tree_spec(
            sources,
            b.markers,
            b.path->0,
            b.name->0,
            b.kind,
            depth,
        )->0 {
            Ok(m) => completed(stack, m),
            Err(e) => ProgressModel::Failed(e),
        }),
    decreases depth, 0nat, 0nat,
{
    let name = b.name->0;
    let path = b.path->0;
    let resume = ResolverModel { stack: stack, awaited: b };
    let next = crate::module::accept_spec(resume, sources(name));
    assert(run_spec(sources, asking(stack, b), 1) == run_spec(sources, next, 0));
    match sources(name) {
        None => {
            1
        },
        Some(f) => {
            let found = crate::module::scan_file(crate::module::empty_scan(), f, b.markers);
            let loaded = BuilderModel { found: found, ..b };
            assert(next == crate::module::settle(stack, loaded));
            let k = lemma_pending_modules(
                sources,
                stack,
                loaded,
                found.pending,
                (depth - 1) as nat,
                found.pending.len(),
            );
            lemma_run_in_two(sources, asking(stack, b), 1, k);
            assert(run_spec(sources, next, 0) == next);
            assert(advanced(loaded, found.pending.skip(0), Seq::empty()) == loaded) by {
                assert(found.pending.skip(0) =~= found.pending);
                assert(loaded.children =~= Seq::empty());
            }
            match children_spec(
                sources,
                b.markers,
                path,
                name,
                found.pending,
                (depth - 1) as nat,
                found.pending.len(),
            )->0 {
                Err(e) => {},
                Ok(children) => {
                    let done = advanced(
                        loaded,
                        found.pending.skip(found.pending.len() as int),
                        Seq::<ModuleModel>::empty() + children,
                    );
                    assert(done.found.pending.len() == 0);
                    assert(Seq::<ModuleModel>::empty() + children =~= children);
                    if found.failure is None {
                        assert(crate::module::built(done) == (ModuleModel {
                            name: name,
                            path: path,
                            kind: b.kind,
                            children: children,
                            structs: found.structs,
                            functions: found.functions,
                            enums: found.enums,
                        }));
                    }
                },
            }
            1 + k
        },
    }
}

/// The resolution of the first `n` pending modules of a scanned module:
/// answered from `sources`, it fails as the first of them that fails, or
/// leaves the builder with their trees as its children, in order, and the
/// rest pending. Returns the number of requests that it takes.
pub proof fn lemma_pending_modules(
    sources: Sources,
    stack: Seq<BuilderModel>,
    b: BuilderModel,
    names: Seq<Seq<char>>,
    depth: nat,
    n: nat,
) -> (steps: nat)
    requires
        b.name is Some,
        b.path is Some,
        b.found.pending == names,
        n <= names.len(),
        children_spec(sources, b.markers, b.path->0, b.name->0, names, depth, n) is Some,
    ensures
        run_spec(sources, crate::module::settle(stack, b), steps) == (match children_spec(
            sources,
            b.markers,
            b.path->0,
            b.name->0,
            names,
            depth,
            n,
        )->0 {
            Ok(children) => crate::module::settle(
                stack,
                advanced(b, names.skip(n as int), b.children + children),
            ),
            Err(e) => ProgressModel::Failed(e),
        }),
    decreases depth, 1nat, n,
{
    let start = crate::module::settle(stack, b);
    if n == 0 {
        assert(advanced(b, names.skip(0), b.children + Seq::<ModuleModel>::empty()) == b) by {
            assert(names.skip(0) =~= names);
            assert(b.children + Seq::<ModuleModel>::empty() =~= b.children);
        }
        0
    } else {
        let k1 = lemma_pending_modules(sources, stack, b, names, depth, (n - 1) as nat);
        match children_spec(
            sources,
            b.markers,
            b.path->0,
            b.name->0,
            names,
            depth,
            (n - 1) as nat,
        )->0 {
            Err(e) => {
                k1
            },
            Ok(before) => {
                let cur = advanced(b, names.skip(n - 1), b.children + before);
                let rest = crate::module::without_first_pending(cur);
                let child = crate::module::child_builder(rest, names[n - 1]);
                assert(cur.found.pending[0] == names[n - 1]);
                assert(crate::module::settle(stack, cur) == asking(stack.push(rest), child));
                assert(child.kind == KindModel::Sub { parent: b.name->0 });
                let k2 = lemma_awaited_module(sources, stack.push(rest), child, depth);
                lemma_run_in_two(sources, start, k1, k2);
                match tree_spec(
                    sources,
                    b.markers,
                    b.path->0,
                    names[n - 1],
                    KindModel::Sub { parent: b.name->0 },
                    depth,
                )->0 {
                    Err(e) => {},
                    Ok(m) => {
                        assert(stack.push(rest).drop_last() =~= stack);
                        assert(stack.push(rest).last() == rest);
                        assert(names.skip(n - 1).skip(1) =~= names.skip(n as int));
                        assert(b.children + before.push(m) =~= (b.children + before).push(m));
                        assert((BuilderModel { children: rest.children.push(m), ..rest })
                            == advanced(b, names.skip(n as int), b.children + before.push(m)));
                    },
                }
                k1 + k2
            },
        }
    }
}

/// A resolution that is answered from a fixed set of sources ends with the
/// tree that the sources describe below the root, or with the failure of
/// that tree. In particular the outcome depends on nothing but the name, the
/// path, the markers and the sources, and every list of the tree is in
/// declaration order. Returns the number of requests that it takes.
pub proof fn lemma_resolution_assembles_the_tree(
    sources: Sources,
    b: BuilderModel,
    depth: nat,
) -> (steps: nat)
    requires
        awaits(b),
        tree_spec(sources, b.markers, b.path->0, b.name->0, b.kind, depth) is Some,
    ensures
        run_spec(sources, crate::module::begin_spec(b), steps) == ended(
            tree_spec(sources, b.markers, b.path->0, b.name->0, b.kind, depth)->0,
        ),
{
    lemma_awaited_module(sources, Seq::empty(), b, depth)
}

} // verus!
