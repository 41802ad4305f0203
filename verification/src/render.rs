//! Source text, built with the `codegen` crate.
//!
//! Verus does not read `codegen`. What this library needs of it is stated
//! here and believed: what a scope, a struct, an impl block and a function
//! hold after each call. Which text a scope becomes is left to `codegen` and
//! has a name only.

use vstd::prelude::*;

verus! {

/// `codegen::Scope`: imports and items that become one source text. Nothing of its inside is
/// known here.
#[verifier::external_type_specification]
#[verifier::external_body]
pub struct ExScope(codegen::Scope);

/// `codegen::Struct`: the definition of a struct. Nothing of its inside is known here.
#[verifier::external_type_specification]
#[verifier::external_body]
pub struct ExStruct(codegen::Struct);

/// `codegen::Impl`: an impl block. Nothing of its inside is known here.
#[verifier::external_type_specification]
#[verifier::external_body]
pub struct ExImpl(codegen::Impl);

/// `codegen::Function`: the definition of a function. Nothing of its inside is known here.
#[verifier::external_type_specification]
#[verifier::external_body]
pub struct ExFunction(codegen::Function);

/// A name and the type that goes with it.
pub type Named = (Seq<char>, Seq<char>);

/// What a struct definition holds.
pub struct StructView {
    pub name: Seq<char>,
    pub vis: Option<Seq<char>>,
    pub derives: Seq<Seq<char>>,
    pub fields: Seq<Named>,
}

/// What a function definition holds.
pub struct FunctionView {
    pub name: Seq<char>,
    pub vis: Option<Seq<char>>,
    pub arg_self: Option<Seq<char>>,
    pub args: Seq<Named>,
    pub ret: Option<Seq<char>>,
    pub lines: Seq<Seq<char>>,
}

/// What an impl block holds.
pub struct ImplView {
    pub target: Seq<char>,
    pub fns: Seq<FunctionView>,
}

/// One item of a scope.
pub enum ItemView {
    Struct(StructView),
    Impl(ImplView),
}

/// What a scope holds: for each path the names imported from it, paths and
/// names in the order in which they came first, and the items in their order.
pub struct ScopeView {
    pub imports: Seq<(Seq<char>, Seq<Seq<char>>)>,
    pub items: Seq<ItemView>,
}

/// What `s` holds, where it holds nothing but a name, a visibility, derives
/// and named fields.
pub uninterp spec fn struct_view(s: codegen::Struct) -> Option<StructView>;

/// What `f` holds, where it holds nothing but a name, a visibility, a
/// receiver, arguments, a return type and lines.
pub uninterp spec fn function_view(f: codegen::Function) -> Option<FunctionView>;

/// What `i` holds, where it holds nothing but a target and such functions.
pub uninterp spec fn impl_view(i: codegen::Impl) -> Option<ImplView>;

/// What `s` holds, where it holds nothing but imports without a visibility
/// and such structs and impl blocks.
pub uninterp spec fn scope_view(s: codegen::Scope) -> Option<ScopeView>;

/// The source text of a scope that holds `s`.
pub uninterp spec fn scope_text(s: ScopeView) -> Seq<char>;

/// The beginning of `ty` up to its first `::`, or all of it.
pub open spec fn first_segment(ty: Seq<char>) -> Seq<char>
    decreases ty.len(),
{
    if ty.len() < 2 {
        ty
    } else if ty[0] == ':' && ty[1] == ':' {
        Seq::empty()
    } else {
        seq![ty[0]] + first_segment(ty.drop_first())
    }
}

/// The index of the entry for `path` in `imports`, or their number where
/// there is none.
pub open spec fn path_index(imports: Seq<(Seq<char>, Seq<Seq<char>>)>, path: Seq<char>) -> int
    decreases imports.len(),
{
    if imports.len() == 0 {
        0
    } else if imports[0].0 == path {
        0
    } else {
        1 + path_index(imports.drop_first(), path)
    }
}

/// The imports after `name` is imported from `path`: a new name goes behind
/// the names of its path, a new path behind the other paths, and a name that
/// is there already changes nothing.
pub open spec fn imported(
    imports: Seq<(Seq<char>, Seq<Seq<char>>)>,
    path: Seq<char>,
    name: Seq<char>,
) -> Seq<(Seq<char>, Seq<Seq<char>>)> {
    let i = path_index(imports, path);
    if i >= imports.len() {
        imports.push((path, seq![name]))
    } else if imports[i].1.contains(name) {
        imports
    } else {
        imports.update(i, (path, imports[i].1.push(name)))
    }
}

/// `codegen::Scope::new`: a scope without imports and without items.
#[verifier::external_body]
pub(crate) fn scope_new() -> (r: codegen::Scope)
    ensures
        scope_view(r) == Some(ScopeView { imports: Seq::empty(), items: Seq::empty() }),
{
    codegen::Scope::new()
}

/// `codegen::Scope::import`: the scope then imports from `path` the first
/// segment of `ty`; its items stay.
#[verifier::external_body]
pub(crate) fn scope_import(scope: &mut codegen::Scope, path: &str, ty: &str)
    requires
        scope_view(*old(scope)).is_some(),
    ensures
        scope_view(*final(scope)) == Some(
            ScopeView {
                imports: imported(
                    scope_view(*old(scope))->0.imports,
                    path@,
                    first_segment(ty@),
                ),
                items: scope_view(*old(scope))->0.items,
            },
        ),
{
    scope.import(path, ty);
}

/// `codegen::Scope::push_struct`: the struct becomes the scope's last item.
#[verifier::external_body]
pub(crate) fn scope_push_struct(scope: &mut codegen::Scope, item: codegen::Struct)
    requires
        scope_view(*old(scope)).is_some(),
        struct_view(item).is_some(),
    ensures
        scope_view(*final(scope)) == Some(
            ScopeView {
                imports: scope_view(*old(scope))->0.imports,
                items: scope_view(*old(scope))->0.items.push(ItemView::Struct(struct_view(item)->0)),
            },
        ),
{
    scope.push_struct(item);
}

/// `codegen::Scope::push_impl`: the impl block becomes the scope's last item.
#[verifier::external_body]
pub(crate) fn scope_push_impl(scope: &mut codegen::Scope, item: codegen::Impl)
    requires
        scope_view(*old(scope)).is_some(),
        impl_view(item).is_some(),
    ensures
        scope_view(*final(scope)) == Some(
            ScopeView {
                imports: scope_view(*old(scope))->0.imports,
                items: scope_view(*old(scope))->0.items.push(ItemView::Impl(impl_view(item)->0)),
            },
        ),
{
    scope.push_impl(item);
}

/// `codegen::Scope::to_string`: the source text of what the scope holds.
#[verifier::external_body]
pub(crate) fn scope_to_string(scope: &codegen::Scope) -> (r: String)
    requires
        scope_view(*scope).is_some(),
    ensures
        r@ == scope_text(scope_view(*scope)->0),
{
    scope.to_string()
}

/// `codegen::Struct::new`: a struct of this name and nothing else.
#[verifier::external_body]
pub(crate) fn struct_new(name: &str) -> (r: codegen::Struct)
    ensures
        struct_view(r) == Some(
            StructView { name: name@, vis: None, derives: Seq::empty(), fields: Seq::empty() },
        ),
{
    codegen::Struct::new(name)
}

/// `codegen::Struct::vis`: sets the visibility.
#[verifier::external_body]
pub(crate) fn struct_vis(item: &mut codegen::Struct, vis: &str)
    requires
        struct_view(*old(item)).is_some(),
    ensures
        struct_view(*final(item)) == Some(
            StructView { vis: Some(vis@), ..struct_view(*old(item))->0 },
        ),
{
    item.vis(vis);
}

/// `codegen::Struct::derive`: adds a derive behind the others.
#[verifier::external_body]
pub(crate) fn struct_derive(item: &mut codegen::Struct, name: &str)
    requires
        struct_view(*old(item)).is_some(),
    ensures
        struct_view(*final(item)) == Some(
            StructView {
                derives: struct_view(*old(item))->0.derives.push(name@),
                ..struct_view(*old(item))->0
            },
        ),
{
    item.derive(name);
}

/// `codegen::Struct::field`: adds a named field behind the others.
#[verifier::external_body]
pub(crate) fn struct_field(item: &mut codegen::Struct, name: &str, ty: &str)
    requires
        struct_view(*old(item)).is_some(),
    ensures
        struct_view(*final(item)) == Some(
            StructView {
                fields: struct_view(*old(item))->0.fields.push((name@, ty@)),
                ..struct_view(*old(item))->0
            },
        ),
{
    item.field(name, ty);
}

/// `codegen::Impl::new`: an impl block for this target, without functions.
#[verifier::external_body]
pub(crate) fn impl_new(target: &str) -> (r: codegen::Impl)
    ensures
        impl_view(r) == Some(ImplView { target: target@, fns: Seq::empty() }),
{
    codegen::Impl::new(target)
}

/// `codegen::Impl::push_fn`: the function becomes the block's last one.
#[verifier::external_body]
pub(crate) fn impl_push_fn(item: &mut codegen::Impl, function: codegen::Function)
    requires
        impl_view(*old(item)).is_some(),
        function_view(function).is_some(),
    ensures
        impl_view(*final(item)) == Some(
            ImplView {
                fns: impl_view(*old(item))->0.fns.push(function_view(function)->0),
                ..impl_view(*old(item))->0
            },
        ),
{
    item.push_fn(function);
}

/// `codegen::Function::new`: a function of this name with an empty body.
#[verifier::external_body]
pub(crate) fn function_new(name: &str) -> (r: codegen::Function)
    ensures
        function_view(r) == Some(
            FunctionView {
                name: name@,
                vis: None,
                arg_self: None,
                args: Seq::empty(),
                ret: None,
                lines: Seq::empty(),
            },
        ),
{
    codegen::Function::new(name)
}

/// `codegen::Function::vis`: sets the visibility.
#[verifier::external_body]
pub(crate) fn function_vis(function: &mut codegen::Function, vis: &str)
    requires
        function_view(*old(function)).is_some(),
    ensures
        function_view(*final(function)) == Some(
            FunctionView { vis: Some(vis@), ..function_view(*old(function))->0 },
        ),
{
    function.vis(vis);
}

/// `codegen::Function::arg_ref_self`: the receiver becomes `&self`.
#[verifier::external_body]
pub(crate) fn function_arg_ref_self(function: &mut codegen::Function)
    requires
        function_view(*old(function)).is_some(),
    ensures
        function_view(*final(function)) == Some(
            FunctionView { arg_self: Some("&self"@), ..function_view(*old(function))->0 },
        ),
{
    function.arg_ref_self();
}

/// `codegen::Function::arg_mut_self`: the receiver becomes `&mut self`.
#[verifier::external_body]
pub(crate) fn function_arg_mut_self(function: &mut codegen::Function)
    requires
        function_view(*old(function)).is_some(),
    ensures
        function_view(*final(function)) == Some(
            FunctionView { arg_self: Some("&mut self"@), ..function_view(*old(function))->0 },
        ),
{
    function.arg_mut_self();
}

/// `codegen::Function::arg`: adds an argument behind the others.
#[verifier::external_body]
pub(crate) fn function_arg(function: &mut codegen::Function, name: &str, ty: &str)
    requires
        function_view(*old(function)).is_some(),
    ensures
        function_view(*final(function)) == Some(
            FunctionView {
                args: function_view(*old(function))->0.args.push((name@, ty@)),
                ..function_view(*old(function))->0
            },
        ),
{
    function.arg(name, ty);
}

/// `codegen::Function::ret`: sets the return type.
#[verifier::external_body]
pub(crate) fn function_ret(function: &mut codegen::Function, ty: &str)
    requires
        function_view(*old(function)).is_some(),
    ensures
        function_view(*final(function)) == Some(
            FunctionView { ret: Some(ty@), ..function_view(*old(function))->0 },
        ),
{
    function.ret(ty);
}

/// `codegen::Function::line`: adds a line at the end of the body.
#[verifier::external_body]
pub(crate) fn function_line(function: &mut codegen::Function, line: &str)
    requires
        function_view(*old(function)).is_some(),
    ensures
        function_view(*final(function)) == Some(
            FunctionView {
                lines: function_view(*old(function))->0.lines.push(line@),
                ..function_view(*old(function))->0
            },
        ),
{
    function.line(line);
}

} // verus!
