//! Rust source for the definitions of a module: a struct for each sequence,
//! with a `write` function and accessors for its fields.

use crate::model::{Definition, DefinitionView, Field, Import, ImportView, Model, ModelView, Role};
use crate::model::{definition_views, import_views};
use crate::render::{first_segment, function_arg, function_arg_mut_self, function_arg_ref_self};
use crate::render::{function_line, function_new, function_ret, function_view, function_vis};
use crate::render::{impl_new, impl_push_fn, impl_view, imported, scope_import, scope_new};
use crate::render::{scope_push_impl, scope_push_struct, scope_text, scope_to_string, scope_view};
use crate::render::{struct_derive, struct_field, struct_new, struct_view, struct_vis};
use crate::render::{FunctionView, ImplView, ItemView, Named, ScopeView, StructView};
use vstd::prelude::*;
use vstd::string::{StrSliceExecFns, StringExecFns};

verus! {

/// What can go wrong while source is generated. Nothing does so far: no
/// function of this module makes such a value.
#[derive(Debug)]
pub struct Error(());

/// Collects modules and turns each into a source file.
pub struct Generator {
    models: Vec<Model>,
}

/// The text that `str::to_lowercase` gives for `text`.
pub uninterp spec fn lowercase_of(text: Seq<char>) -> Seq<char>;

/// `str::to_lowercase`: the text in lower case.
#[verifier::external_body]
fn lowercase(text: &str) -> (r: String)
    ensures
        r@ == lowercase_of(text@),
{
    text.to_lowercase()
}

/// `String::push`: appends one character.
#[verifier::external_body]
fn push_char(text: &mut String, c: char)
    ensures
        final(text)@ == old(text)@.push(c),
{
    text.push(c);
}

/// The character of the decimal digit `d`.
pub open spec fn digit_char(d: int) -> char {
    ((48 + d) as u8) as char
}

/// A natural number in decimal digits, without leading zeros.
pub open spec fn nat_text(n: nat) -> Seq<char>
    decreases n,
{
    if n < 10 {
        seq![digit_char(n as int)]
    } else {
        nat_text(n / 10).push(digit_char((n % 10) as int))
    }
}

/// An integer in decimal digits, with `-` before a negative one.
pub open spec fn int_text(v: int) -> Seq<char> {
    if v < 0 {
        seq!['-'] + nat_text((-v) as nat)
    } else {
        nat_text(v as nat)
    }
}

fn push_nat(text: &mut String, n: u64)
    ensures
        final(text)@ == old(text)@ + nat_text(n as nat),
    decreases n,
{
    if n >= 10 {
        push_nat(text, n / 10);
    }
    let d: u8 = (n % 10) as u8;
    push_char(text, (48 + d) as char);
    assert(final(text)@ =~= old(text)@ + nat_text(n as nat));
}

fn push_int(text: &mut String, v: i64)
    ensures
        final(text)@ == old(text)@ + int_text(v as int),
{
    if v < 0 {
        push_char(text, '-');
        let magnitude: u64 = if v == i64::MIN {
            0x8000_0000_0000_0000u64
        } else {
            (-v) as u64
        };
        push_nat(text, magnitude);
        assert(final(text)@ =~= old(text)@ + int_text(v as int));
    } else {
        push_nat(text, v as u64);
    }
}

/// The Rust type of a role: `bool`, the narrowest of `i8`, `i16`, `i32` and
/// `i64` that the width of the range asks for (`i64` where there is no range
/// or the range is empty), or the name of the type.
pub open spec fn role_type(role: Role) -> Seq<char> {
    match role {
        Role::Boolean => "bool"@,
        Role::Integer(Some((start, end))) => {
            let width = end - start;
            if 0 <= width <= 0xFF {
                "i8"@
            } else if 0 <= width <= 0xFFFF {
                "i16"@
            } else if 0 <= width <= 0xFFFF_FFFF {
                "i32"@
            } else {
                "i64"@
            }
        },
        Role::Integer(None) => "i64"@,
        Role::Custom(name) => name@,
    }
}

/// The name of a field in Rust: each `-` becomes `_`.
pub open spec fn field_name(name: Seq<char>) -> Seq<char> {
    Seq::new(
        name.len(),
        |i: int|
            if name[i] == '-' {
                '_'
            } else {
                name[i]
            },
    )
}

/// The type of a field in the struct: that of its role, in `Option` where the
/// field is optional.
pub open spec fn field_type(field: Field) -> Seq<char> {
    if field.optional {
        "Option<"@ + role_type(field.role) + ">"@
    } else {
        role_type(field.role)
    }
}

/// The fields of the struct for the first `n` fields of a sequence.
pub open spec fn struct_fields(fields: Seq<Field>, n: int) -> Seq<Named>
    decreases n,
{
    if n <= 0 {
        Seq::empty()
    } else {
        struct_fields(fields, n - 1).push(
            (field_name(fields[n - 1].name@), field_type(fields[n - 1])),
        )
    }
}

/// A public struct that derives `Default` and `Debug`.
pub open spec fn struct_of(name: Seq<char>, fields: Seq<Named>) -> StructView {
    StructView { name, vis: Some("pub"@), derives: seq!["Default"@, "Debug"@], fields }
}

/// The struct of a definition: the fields of a sequence, or the one field
/// `values` of a sequence-of.
pub open spec fn struct_for(definition: DefinitionView) -> StructView {
    match definition {
        DefinitionView::SequenceOf(name, role) => struct_of(
            name@,
            seq![("values"@, role_type(role))],
        ),
        DefinitionView::Sequence(name, fields) => struct_of(
            name@,
            struct_fields(fields, fields.len() as int),
        ),
    }
}

/// The first and the last value of an integer's range; the whole of `i64`
/// where none is given.
pub open spec fn range_of(range: Option<(i64, i64)>) -> (i64, i64) {
    match range {
        Some(r) => r,
        None => (i64::MIN, i64::MAX),
    }
}

/// The lines that write the first `n` fields: one for each integer and for
/// each field of a named type, none for a boolean.
pub open spec fn write_lines(fields: Seq<Field>, n: int) -> Seq<Seq<char>>
    decreases n,
{
    if n <= 0 {
        Seq::empty()
    } else {
        let field = fields[n - 1];
        let before = write_lines(fields, n - 1);
        match field.role {
            Role::Boolean => before,
            Role::Integer(range) => before.push(
                "buffer.write_int(self."@ + field_name(field.name@) + " as i64, ("@ + int_text(
                    range_of(range).0 as int,
                ) + " as i64, "@ + int_text(range_of(range).1 as int) + " as i64))?;"@,
            ),
            Role::Custom(_) => before.push(
                "self."@ + field_name(field.name@) + ".write(buffer)?;"@,
            ),
        }
    }
}

/// The function `write` of a sequence.
pub open spec fn write_fn(fields: Seq<Field>) -> FunctionView {
    FunctionView {
        name: "write"@,
        vis: Some("pub"@),
        arg_self: Some("&self"@),
        args: seq![("buffer"@, "&mut BitBuffer"@)],
        ret: Some("Result<(), Error>"@),
        lines: write_lines(fields, fields.len() as int).push("Ok(())"@),
    }
}

/// The function that hands out a field by reference.
pub open spec fn getter(field: Field) -> FunctionView {
    FunctionView {
        name: field_name(field.name@),
        vis: Some("pub"@),
        arg_self: Some("&self"@),
        args: Seq::empty(),
        ret: Some("&"@ + role_type(field.role)),
        lines: seq!["&self."@ + field_name(field.name@)],
    }
}

/// The function that sets a field.
pub open spec fn setter(field: Field) -> FunctionView {
    FunctionView {
        name: "set_"@ + field_name(field.name@),
        vis: Some("pub"@),
        arg_self: Some("&mut self"@),
        args: seq![("value"@, role_type(field.role))],
        ret: None,
        lines: seq!["self."@ + field_name(field.name@) + " = value;"@],
    }
}

/// `fns` and behind it the getter and the setter of each of the first `n`
/// fields.
pub open spec fn with_accessors(fns: Seq<FunctionView>, fields: Seq<Field>, n: int) -> Seq<
    FunctionView,
>
    decreases n,
{
    if n <= 0 {
        fns
    } else {
        with_accessors(fns, fields, n - 1).push(getter(fields[n - 1])).push(setter(fields[n - 1]))
    }
}

/// The impl block of a definition: `write` and the accessors for a sequence,
/// nothing for a sequence-of.
pub open spec fn impl_for(definition: DefinitionView) -> ImplView {
    match definition {
        DefinitionView::SequenceOf(name, _) => ImplView { target: name@, fns: Seq::empty() },
        DefinitionView::Sequence(name, fields) => ImplView {
            target: name@,
            fns: with_accessors(seq![write_fn(fields)], fields, fields.len() as int),
        },
    }
}

/// The struct and the impl block of each of the first `n` definitions, in
/// their order.
pub open spec fn items_for(definitions: Seq<DefinitionView>, n: int) -> Seq<ItemView>
    decreases n,
{
    if n <= 0 {
        Seq::empty()
    } else {
        items_for(definitions, n - 1).push(ItemView::Struct(struct_for(definitions[n - 1]))).push(
            ItemView::Impl(impl_for(definitions[n - 1])),
        )
    }
}

/// `imports` and the first `n` names of `what`, each imported from `from`.
pub open spec fn with_names(
    imports: Seq<(Seq<char>, Seq<Seq<char>>)>,
    from: Seq<char>,
    what: Seq<String>,
    n: int,
) -> Seq<(Seq<char>, Seq<Seq<char>>)>
    decreases n,
{
    if n <= 0 {
        imports
    } else {
        imported(with_names(imports, from, what, n - 1), from, first_segment(what[n - 1]@))
    }
}

/// `imports` and what the first `n` imports of a module name.
pub open spec fn with_imports(
    imports: Seq<(Seq<char>, Seq<Seq<char>>)>,
    of_module: Seq<ImportView>,
    n: int,
) -> Seq<(Seq<char>, Seq<Seq<char>>)>
    decreases n,
{
    if n <= 0 {
        imports
    } else {
        with_names(
            with_imports(imports, of_module, n - 1),
            of_module[n - 1].from@,
            of_module[n - 1].what,
            of_module[n - 1].what.len() as int,
        )
    }
}

/// What every generated file imports: `Error` and `BitBuffer` from `buffer`.
pub open spec fn buffer_imports() -> Seq<(Seq<char>, Seq<Seq<char>>)> {
    imported(
        imported(Seq::empty(), "buffer"@, first_segment("Error"@)),
        "buffer"@,
        first_segment("BitBuffer"@),
    )
}

/// The scope that is generated for a module.
pub open spec fn scope_for(model: ModelView) -> ScopeView {
    ScopeView {
        imports: with_imports(buffer_imports(), model.imports, model.imports.len() as int),
        items: items_for(model.definitions, model.definitions.len() as int),
    }
}

/// The name of the file for a module whose name in lower case is `lowered`.
pub open spec fn file_name(lowered: Seq<char>) -> Seq<char> {
    lowered + ".rs"@
}

/// Whether `file` is the file of `model`: its name is the module's name in
/// lower case and `.rs`, its content the source text of the module's scope.
pub open spec fn generated(model: Model, file: (String, String)) -> bool {
    file.0@ == file_name(lowercase_of(model.name@)) && file.1@ == scope_text(scope_for(model@))
}

/// The name of the file for a module whose name in lower case is `lowered`.
pub fn file_name_for(lowered: String) -> (r: String)
    ensures
        r@ == file_name(lowered@),
{
    let mut file = lowered;
    file.append(".rs");
    file
}

fn field_type_of(field: &Field) -> (r: String)
    ensures
        r@ == field_type(*field),
{
    let role = Generator::role_to_type(&field.role);
    if field.optional {
        let mut ty = String::from_str("Option<");
        ty.append(role.as_str());
        ty.append(">");
        ty
    } else {
        role
    }
}

fn struct_item(definition: &Definition) -> (r: codegen::Struct)
    ensures
        struct_view(r) == Some(struct_for(definition@)),
{
    match definition {
        Definition::SequenceOf(name, role) => {
            let mut item = Generator::new_struct(name.as_str());
            let ty = Generator::role_to_type(role);
            struct_field(&mut item, "values", ty.as_str());
            assert(Seq::<Named>::empty().push(("values"@, ty@)) =~= seq![("values"@, ty@)]);
            item
        },
        Definition::Sequence(name, fields) => {
            let mut item = Generator::new_struct(name.as_str());
            let mut i: usize = 0;
            while i < fields.len()
                invariant
                    i <= fields@.len(),
                    struct_view(item) == Some(struct_of(name@, struct_fields(fields@, i as int))),
                decreases fields@.len() - i,
            {
                let field_name = Generator::rust_field_name(fields[i].name.as_str());
                let ty = field_type_of(&fields[i]);
                struct_field(&mut item, field_name.as_str(), ty.as_str());
                i += 1;
            }
            item
        },
    }
}

fn write_line_for(field: &Field) -> (r: Option<String>)
    ensures
        match field.role {
            Role::Boolean => r.is_none(),
            Role::Integer(range) => r matches Some(line) && line@ == "buffer.write_int(self."@
                + field_name(field.name@) + " as i64, ("@ + int_text(range_of(range).0 as int)
                + " as i64, "@ + int_text(range_of(range).1 as int) + " as i64))?;"@,
            Role::Custom(_) => r matches Some(line) && line@ == "self."@ + field_name(field.name@)
                + ".write(buffer)?;"@,
        },
{
    match &field.role {
        Role::Boolean => None,
        Role::Integer(range) => {
            let (lower, upper): (i64, i64) = match range {
                Some(r) => (r.0, r.1),
                None => (i64::MIN, i64::MAX),
            };
            let mut line = String::from_str("buffer.write_int(self.");
            line.append(Generator::rust_field_name(field.name.as_str()).as_str());
            line.append(" as i64, (");
            push_int(&mut line, lower);
            line.append(" as i64, ");
            push_int(&mut line, upper);
            line.append(" as i64))?;");
            Some(line)
        },
        Role::Custom(_) => {
            let mut line = String::from_str("self.");
            line.append(Generator::rust_field_name(field.name.as_str()).as_str());
            line.append(".write(buffer)?;");
            Some(line)
        },
    }
}

fn write_function(fields: &Vec<Field>) -> (r: codegen::Function)
    ensures
        function_view(r) == Some(write_fn(fields@)),
{
    let mut function = function_new("write");
    function_vis(&mut function, "pub");
    function_arg_ref_self(&mut function);
    function_arg(&mut function, "buffer", "&mut BitBuffer");
    function_ret(&mut function, "Result<(), Error>");
    assert(Seq::<Named>::empty().push(("buffer"@, "&mut BitBuffer"@)) =~= seq![
        ("buffer"@, "&mut BitBuffer"@),
    ]);
    let ghost head = function_view(function)->0;
    let mut i: usize = 0;
    while i < fields.len()
        invariant
            i <= fields@.len(),
            head == (FunctionView { lines: Seq::empty(), ..write_fn(fields@) }),
            function_view(function) == Some(
                FunctionView { lines: write_lines(fields@, i as int), ..head },
            ),
        decreases fields@.len() - i,
    {
        match write_line_for(&fields[i]) {
            Some(line) => {
                function_line(&mut function, line.as_str());
            },
            None => {},
        }
        i += 1;
    }
    function_line(&mut function, "Ok(())");
    function
}

fn getter_function(field: &Field) -> (r: codegen::Function)
    ensures
        function_view(r) == Some(getter(*field)),
{
    let name = Generator::rust_field_name(field.name.as_str());
    let mut ret = String::from_str("&");
    ret.append(Generator::role_to_type(&field.role).as_str());
    let mut line = String::from_str("&self.");
    line.append(name.as_str());
    let mut function = function_new(name.as_str());
    function_vis(&mut function, "pub");
    function_arg_ref_self(&mut function);
    function_ret(&mut function, ret.as_str());
    function_line(&mut function, line.as_str());
    assert(Seq::<Seq<char>>::empty().push(line@) =~= seq![line@]);
    function
}

fn setter_function(field: &Field) -> (r: codegen::Function)
    ensures
        function_view(r) == Some(setter(*field)),
{
    let field_name = Generator::rust_field_name(field.name.as_str());
    let mut name = String::from_str("set_");
    name.append(field_name.as_str());
    let mut line = String::from_str("self.");
    line.append(field_name.as_str());
    line.append(" = value;");
    let mut function = function_new(name.as_str());
    function_vis(&mut function, "pub");
    function_arg_mut_self(&mut function);
    function_arg(&mut function, "value", Generator::role_to_type(&field.role).as_str());
    function_line(&mut function, line.as_str());
    assert(Seq::<Seq<char>>::empty().push(line@) =~= seq![line@]);
    assert(Seq::<Named>::empty().push(("value"@, role_type(field.role))) =~= seq![
        ("value"@, role_type(field.role)),
    ]);
    function
}

fn impl_item(definition: &Definition) -> (r: codegen::Impl)
    ensures
        impl_view(r) == Some(impl_for(definition@)),
{
    match definition {
        Definition::SequenceOf(name, _) => impl_new(name.as_str()),
        Definition::Sequence(name, fields) => {
            let mut item = impl_new(name.as_str());
            impl_push_fn(&mut item, write_function(fields));
            assert(Seq::<FunctionView>::empty().push(write_fn(fields@)) =~= seq![write_fn(fields@)]);
            let mut i: usize = 0;
            while i < fields.len()
                invariant
                    i <= fields@.len(),
                    impl_view(item) == Some(
                        ImplView {
                            target: name@,
                            fns: with_accessors(seq![write_fn(fields@)], fields@, i as int),
                        },
                    ),
                decreases fields@.len() - i,
            {
                impl_push_fn(&mut item, getter_function(&fields[i]));
                impl_push_fn(&mut item, setter_function(&fields[i]));
                i += 1;
            }
            item
        },
    }
}

fn import_names(scope: &mut codegen::Scope, import: &Import)
    requires
        scope_view(*old(scope)).is_some(),
    ensures
        scope_view(*final(scope)) == Some(
            ScopeView {
                imports: with_names(
                    scope_view(*old(scope))->0.imports,
                    import.from@,
                    import.what@,
                    import.what@.len() as int,
                ),
                items: scope_view(*old(scope))->0.items,
            },
        ),
{
    let mut i: usize = 0;
    while i < import.what.len()
        invariant
            i <= import.what@.len(),
            scope_view(*old(scope)).is_some(),
            scope_view(*scope) == Some(
                ScopeView {
                    imports: with_names(
                        scope_view(*old(scope))->0.imports,
                        import.from@,
                        import.what@,
                        i as int,
                    ),
                    items: scope_view(*old(scope))->0.items,
                },
            ),
        decreases import.what@.len() - i,
    {
        scope_import(scope, import.from.as_str(), import.what[i].as_str());
        i += 1;
    }
}

impl Generator {
    /// The modules added so far, in the order in which they came.
    pub closed spec fn view(&self) -> Seq<Model> {
        self.models@
    }

    pub fn new() -> (r: Generator)
        ensures
            r@.len() == 0,
    {
        Generator { models: Vec::new() }
    }

    pub fn add_model(&mut self, model: Model)
        ensures
            final(self)@ == old(self)@.push(model),
    {
        self.models.push(model);
    }

    /// The file of each module, in the order in which the modules were added.
    pub fn to_string(&self) -> (r: Result<Vec<(String, String)>, Error>)
        ensures
            r matches Ok(files) && files@.len() == self@.len() && forall|i: int|
                0 <= i < self@.len() ==> generated(#[trigger] self@[i], files@[i]),
    {
        let mut files: Vec<(String, String)> = Vec::new();
        let mut i: usize = 0;
        while i < self.models.len()
            invariant
                i <= self.models@.len(),
                files@.len() == i,
                forall|j: int| 0 <= j < i ==> generated(#[trigger] self.models@[j], files@[j]),
            decreases self.models@.len() - i,
        {
            files.push(Self::model_to_file(&self.models[i])?);
            i += 1;
        }
        Ok(files)
    }

    /// The file of one module: its name, and the source text.
    ///
    /// The source imports `Error` and `BitBuffer` from `buffer` and what the
    /// module imports, and holds a struct and an impl block for each
    /// definition.
    pub fn model_to_file(model: &Model) -> (r: Result<(String, String), Error>)
        ensures
            r matches Ok(file) && generated(*model, file),
    {
        let file = file_name_for(lowercase(model.name.as_str()));
        let mut scope = scope_new();
        scope_import(&mut scope, "buffer", "Error");
        scope_import(&mut scope, "buffer", "BitBuffer");
        let mut i: usize = 0;
        while i < model.imports.len()
            invariant
                i <= model.imports@.len(),
                scope_view(scope) == Some(
                    ScopeView {
                        imports: with_imports(
                            buffer_imports(),
                            import_views(model.imports@),
                            i as int,
                        ),
                        items: Seq::empty(),
                    },
                ),
            decreases model.imports@.len() - i,
        {
            import_names(&mut scope, &model.imports[i]);
            i += 1;
        }
        let ghost imports = scope_view(scope)->0.imports;
        let mut k: usize = 0;
        while k < model.definitions.len()
            invariant
                k <= model.definitions@.len(),
                scope_view(scope) == Some(
                    ScopeView {
                        imports,
                        items: items_for(definition_views(model.definitions@), k as int),
                    },
                ),
            decreases model.definitions@.len() - k,
        {
            scope_push_struct(&mut scope, struct_item(&model.definitions[k]));
            scope_push_impl(&mut scope, impl_item(&model.definitions[k]));
            k += 1;
        }
        Ok((file, scope_to_string(&scope)))
    }

    /// The Rust type of a role.
    pub fn role_to_type(role: &Role) -> (r: String)
        ensures
            r@ == role_type(*role),
    {
        match role {
            Role::Boolean => String::from_str("bool"),
            Role::Integer(Some(range)) => {
                let width: i128 = (range.1 as i128) - (range.0 as i128);
                if 0 <= width && width <= 0xFF {
                    String::from_str("i8")
                } else if 0 <= width && width <= 0xFFFF {
                    String::from_str("i16")
                } else if 0 <= width && width <= 0xFFFF_FFFF {
                    String::from_str("i32")
                } else {
                    String::from_str("i64")
                }
            },
            Role::Integer(None) => String::from_str("i64"),
            Role::Custom(name) => name.clone(),
        }
    }

    /// The name of a field in Rust: each `-` becomes `_`.
    pub fn rust_field_name(name: &str) -> (r: String)
        ensures
            r@ == field_name(name@),
    {
        let n: usize = name.unicode_len();
        let mut out = String::new();
        let mut i: usize = 0;
        while i < n
            invariant
                i <= n,
                n == name@.len(),
                out@ == field_name(name@.take(i as int)),
            decreases n - i,
        {
            let c: char = name.get_char(i);
            push_char(
                &mut out,
                if c == '-' {
                    '_'
                } else {
                    c
                },
            );
            assert(out@ =~= field_name(name@.take(i + 1)));
            i += 1;
        }
        assert(name@.take(n as int) =~= name@);
        out
    }

    /// A public struct of this name that derives `Default` and `Debug`.
    fn new_struct(name: &str) -> (r: codegen::Struct)
        ensures
            struct_view(r) == Some(struct_of(name@, Seq::empty())),
    {
        let mut item = struct_new(name);
        struct_vis(&mut item, "pub");
        struct_derive(&mut item, "Default");
        struct_derive(&mut item, "Debug");
        assert(Seq::<Seq<char>>::empty().push("Default"@).push("Debug"@) =~= seq![
            "Default"@,
            "Debug"@,
        ]);
        item
    }
}

} // verus!
