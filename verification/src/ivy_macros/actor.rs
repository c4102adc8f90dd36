//! Generates a command enum and a handle from the trait that an actor serves.
//!
//! Every method of the trait becomes a variant of the command enum and an `async` method of the
//! handle. The method sends the variant to the actor, with a consumer for the reply, and waits
//! for the reply.

use vstd::prelude::*;

use crate::codegen::{
    lists_go_by_the_parameters, name_list, names_code, nothing_is_listed_of_nothing, param_list, params_code, type_list,
    types_code,
};
use crate::methods::{
    collect_methods, method_views, methods_are_the_functions, methods_of, strip_raw, unraw, variants_have_names, ExpandError, ExpandErrorView, MethodInfo,
    MethodView,
};
use crate::syntax::{
    parse_ident, parse_trait, parsed_ident, parsed_trait, GenericsSyntax, GenericsView,
};
use crate::text::{join, joined, occurs, occurs_within, piece_occurs_in_joined, texts};

verus! {

/// The name of the command enum of a trait.
pub open spec fn command_name(trait_name: Seq<char>) -> Seq<char> {
    unraw(trait_name) + "Command"@
}

/// The variant that carries a call: the consumer of the reply, then the arguments.
pub open spec fn variant_decl(m: MethodView) -> Seq<char> {
    m.variant + " ( ::ivy_types::actor::ReplyConsumer < "@ + m.ret + " > , "@ + type_list(m.args)
        + " )"@
}

/// The command enum.
pub open spec fn command_enum(
    command: Seq<char>,
    generics: GenericsView,
    methods: Seq<MethodView>,
) -> Seq<char> {
    "pub enum "@ + command + " "@ + generics.params + " "@ + generics.where_clause + " { "@
        + joined(methods.map_values(|m: MethodView| variant_decl(m)), " , "@) + " } "@
}

/// The method of the handle that sends a call and waits for the reply.
pub open spec fn handle_method(command: Seq<char>, m: MethodView) -> Seq<char> {
    "pub async fn "@ + m.name + " ( & self"@ + param_list(m.args) + " ) -> "@ + m.ret
        + " { ::ivy_types::actor::rt::request ( & self . cmd_tx , | c | "@ + command + " :: "@
        + m.variant + " ( c , "@ + name_list(m.args) + " ) ) . await }"@
}

/// The field of the handle, which is also the parameter of its constructor.
pub open spec fn handle_field(command: Seq<char>, generics: GenericsView) -> Seq<char> {
    "cmd_tx : ::embassy_sync::channel::DynamicSender < 'static , "@ + command + " "@
        + generics.ty_generics + " , > , "@
}

/// The struct of the handle.
pub open spec fn handle_head(
    handle: Seq<char>,
    command: Seq<char>,
    generics: GenericsView,
) -> Seq<char> {
    "#[derive(Clone)] pub struct "@ + handle + " "@ + generics.params + " "@
        + generics.where_clause + " { "@ + handle_field(command, generics) + "} impl "@
        + generics.impl_generics + " "@ + handle + " "@ + generics.ty_generics + " "@
        + generics.where_clause + " { "@
}

/// The handle's implementation of `ActorHandle`.
pub open spec fn handle_impl(
    handle: Seq<char>,
    command: Seq<char>,
    generics: GenericsView,
) -> Seq<char> {
    " } impl "@ + generics.impl_generics + " ::ivy_types::actor::ActorHandle for "@ + handle + " "@
        + generics.ty_generics + " "@ + generics.where_clause + " { type Cmd = "@ + command + " "@
        + generics.ty_generics + " ; fn create ( "@ + handle_field(command, generics)
        + ") -> Self { Self { cmd_tx , } } }"@
}

/// The handle: its struct, its methods, and its implementation of `ActorHandle`.
pub open spec fn handle_struct(
    handle: Seq<char>,
    command: Seq<char>,
    generics: GenericsView,
    methods: Seq<MethodView>,
) -> Seq<char> {
    handle_head(handle, command, generics) + joined(
        methods.map_values(|m: MethodView| handle_method(command, m)),
        " "@,
    ) + handle_impl(handle, command, generics)
}

/// The generated code.
pub open spec fn handle_text(
    handle: Seq<char>,
    trait_name: Seq<char>,
    generics: GenericsView,
    methods: Seq<MethodView>,
) -> Seq<char> {
    let command = command_name(trait_name);
    command_enum(command, generics, methods) + handle_struct(handle, command, generics, methods)
}

/// What becomes of a trait: its text is parsed, then the argument of the attribute, then the methods
/// are described, and the first of these that fails is what is reported.
pub open spec fn expansion(attrs: Seq<char>, item: Seq<char>) -> Result<
    Seq<char>,
    ExpandErrorView,
> {
    match parsed_trait(item) {
        Err(report) => Err(ExpandErrorView::Syntax(report)),
        Ok(decl) => match parsed_ident(attrs) {
            Err(report) => Err(ExpandErrorView::Syntax(report)),
            Ok(handle) => match methods_of(decl.members) {
                Err(name) => Err(ExpandErrorView::Identifier(name)),
                Ok(methods) => Ok(
                    handle_text(handle, decl.head.name, decl.head.generics, methods),
                ),
            },
        },
    }
}

/// Whatever parses is expanded, provided that each function of the trait has a variant with an
/// identifier for its name.
pub proof fn what_parses_is_expanded(attrs: Seq<char>, item: Seq<char>)
    ensures
        expansion(attrs, item) is Ok <==> {
            &&& parsed_trait(item) matches Ok(decl)
            &&& parsed_ident(attrs) is Ok
            &&& variants_have_names(decl.members)
        },
        expansion(attrs, item) matches Err(ExpandErrorView::Syntax(_)) ==> parsed_trait(item) is Err
            || parsed_ident(attrs) is Err,
        match (parsed_trait(item), parsed_ident(attrs)) {
            (Err(report), _) => expansion(attrs, item) == Err::<Seq<char>, _>(
                ExpandErrorView::Syntax(report),
            ),
            (Ok(_), Err(report)) => expansion(attrs, item) == Err::<Seq<char>, _>(
                ExpandErrorView::Syntax(report),
            ),
            (Ok(decl), Ok(handle)) => match methods_of(decl.members) {
                Ok(methods) => expansion(attrs, item) == Ok::<_, ExpandErrorView>(
                    handle_text(handle, decl.head.name, decl.head.generics, methods),
                ),
                Err(name) => expansion(attrs, item) == Err::<Seq<char>, _>(
                    ExpandErrorView::Identifier(name),
                ),
            },
        },
{
    if parsed_trait(item) is Ok {
        methods_are_the_functions(parsed_trait(item)->Ok_0.members);
    }
}

/// The view of a result of an expansion.
pub open spec fn expansion_result(result: Result<String, ExpandError>) -> Result<
    Seq<char>,
    ExpandErrorView,
> {
    match result {
        Ok(code) => Ok(code@),
        Err(e) => Err(e@),
    }
}

/// What came of an expansion is its code, or the error in its place.
pub proof fn expansion_gives_code_or_error(code: String, e: ExpandError)
    ensures
        expansion_result(Ok(code)) == Ok::<_, ExpandErrorView>(code@),
        expansion_result(Err(e)) == Err::<Seq<char>, _>(e@),
{
}

/// Every method of the trait is served: the command enum declares its variant, and the handle has
/// a method that sends this variant.
pub proof fn every_method_is_served(
    handle: Seq<char>,
    trait_name: Seq<char>,
    generics: GenericsView,
    methods: Seq<MethodView>,
    i: int,
)
    requires
        0 <= i < methods.len(),
    ensures
        occurs(
            variant_decl(methods[i]),
            command_enum(command_name(trait_name), generics, methods),
        ),
        occurs(
            handle_method(command_name(trait_name), methods[i]),
            handle_struct(handle, command_name(trait_name), generics, methods),
        ),
        occurs(
            variant_decl(methods[i]),
            handle_text(handle, trait_name, generics, methods),
        ),
        occurs(
            handle_method(command_name(trait_name), methods[i]),
            handle_text(handle, trait_name, generics, methods),
        ),
{
    let none = Seq::<char>::empty();
    let command = command_name(trait_name);
    let decls = methods.map_values(|m: MethodView| variant_decl(m));
    let calls = methods.map_values(|m: MethodView| handle_method(command, m));
    let declared = command_enum(command, generics, methods);
    let served = handle_struct(handle, command, generics, methods);

    piece_occurs_in_joined(decls, " , "@, i);
    let before = "pub enum "@ + command + " "@ + generics.params + " "@ + generics.where_clause
        + " { "@;
    occurs_within(decls[i], before, joined(decls, " , "@), " } "@);
    occurs_within(decls[i], none, declared, served);
    assert(none + declared + served =~= declared + served);

    piece_occurs_in_joined(calls, " "@, i);
    occurs_within(
        calls[i],
        handle_head(handle, command, generics),
        joined(calls, " "@),
        handle_impl(handle, command, generics),
    );
    occurs_within(calls[i], declared, served, none);
    assert(declared + served + none =~= declared + served);
}

/// A call keeps the order of its parameters: the parameter with the number `i` stands in the same place
/// among the types that the variant carries, among the parameters of the handle's method, and among
/// the arguments that the method puts into the variant. The method sends the variant to the actor and
/// gives back the reply.
pub proof fn call_keeps_the_order(command: Seq<char>, m: MethodView, i: int)
    requires
        0 <= i < m.args.len(),
    ensures
        ({
            let before = m.args.take(i);
            let after = m.args.skip(i + 1);
            let arg = m.args[i];
            let types = type_list(before) + (arg.ty + " , "@) + type_list(after);
            let params = param_list(before) + (" , "@ + arg.name + " : "@ + arg.ty) + param_list(
                after,
            );
            let names = name_list(before) + (arg.name + " , "@) + name_list(after);
            &&& variant_decl(m) == m.variant + " ( ::ivy_types::actor::ReplyConsumer < "@ + m.ret
                + " > , "@ + types + " )"@
            &&& handle_method(command, m) == "pub async fn "@ + m.name + " ( & self"@ + params
                + " ) -> "@ + m.ret
                + " { ::ivy_types::actor::rt::request ( & self . cmd_tx , | c | "@ + command
                + " :: "@ + m.variant + " ( c , "@ + names + " ) ) . await }"@
        }),
{
    lists_go_by_the_parameters(m.args, i);
}

/// A call without parameters carries nothing but the consumer of its reply.
pub proof fn call_without_parameters(command: Seq<char>, m: MethodView)
    requires
        m.args.len() == 0,
    ensures
        variant_decl(m) == m.variant + " ( ::ivy_types::actor::ReplyConsumer < "@ + m.ret
            + " > , "@ + " )"@,
        handle_method(command, m) == "pub async fn "@ + m.name + " ( & self"@ + " ) -> "@ + m.ret
            + " { ::ivy_types::actor::rt::request ( & self . cmd_tx , | c | "@ + command + " :: "@
            + m.variant + " ( c , "@ + " ) ) . await }"@,
{
    nothing_is_listed_of_nothing(m.args);
    let none = Seq::<char>::empty();
    let front = m.variant + " ( ::ivy_types::actor::ReplyConsumer < "@ + m.ret + " > , "@;
    assert(front + none =~= front);
    let sig = "pub async fn "@ + m.name + " ( & self"@;
    assert(sig + none =~= sig);
    let call = sig + " ) -> "@ + m.ret
        + " { ::ivy_types::actor::rt::request ( & self . cmd_tx , | c | "@ + command + " :: "@
        + m.variant + " ( c , "@;
    assert(call + none =~= call);
}

/// The generated code, item by item: the enum with the variants of all methods in order, the struct
/// with the sender of that enum, an `impl` with the methods in order, and the implementation of
/// `ActorHandle`, which makes a handle of a sender. Wherever the enum or the handle is declared it has
/// the parameters with their bounds, and wherever it is used it has them by name. The enum is named
/// after the trait, without the mark of a raw name.
pub proof fn handle_code_item_by_item(
    handle: Seq<char>,
    trait_name: Seq<char>,
    generics: GenericsView,
    methods: Seq<MethodView>,
)
    ensures
        ({
            let command = unraw(trait_name) + "Command"@;
            let params = generics.params;
            let bounds = generics.where_clause;
            let used = generics.ty_generics;
            let given = generics.impl_generics;
            let sender = "cmd_tx : ::embassy_sync::channel::DynamicSender < 'static , "@ + command
                + " "@ + used + " , > , "@;
            let variants = joined(
                Seq::new(methods.len(), |i: int| variant_decl(methods[i])),
                " , "@,
            );
            let calls = joined(
                Seq::new(methods.len(), |i: int| handle_method(command, methods[i])),
                " "@,
            );
            let the_enum = "pub enum "@ + command + " "@ + params + " "@ + bounds + " { "@ + variants
                + " } "@;
            let the_struct = "#[derive(Clone)] pub struct "@ + handle + " "@ + params + " "@ + bounds
                + " { "@ + sender + "} impl "@ + given + " "@ + handle + " "@ + used + " "@ + bounds
                + " { "@;
            let the_impl = " } impl "@ + given + " ::ivy_types::actor::ActorHandle for "@ + handle
                + " "@ + used + " "@ + bounds + " { type Cmd = "@ + command + " "@ + used
                + " ; fn create ( "@ + sender + ") -> Self { Self { cmd_tx , } } }"@;
            handle_text(handle, trait_name, generics, methods) == the_enum + (the_struct + calls
                + the_impl)
        }),
{
    let command = unraw(trait_name) + "Command"@;
    assert(methods.map_values(|m: MethodView| variant_decl(m)) =~= Seq::new(
        methods.len(),
        |i: int| variant_decl(methods[i]),
    ));
    assert(methods.map_values(|m: MethodView| handle_method(command, m)) =~= Seq::new(
        methods.len(),
        |i: int| handle_method(command, methods[i]),
    ));
}

/// Writes the variant that carries a call.
fn variant_code(m: &MethodInfo) -> (out: String)
    ensures
        out@ == variant_decl(m@),
{
    let mut out = m.variant.clone();
    out.append(" ( ::ivy_types::actor::ReplyConsumer < ");
    out.append(m.ret.as_str());
    out.append(" > , ");
    out.append(types_code(&m.args).as_str());
    out.append(" )");
    out
}

/// Writes the command enum.
fn command_enum_code(command: &str, generics: &GenericsSyntax, methods: &Vec<MethodInfo>) -> (out:
    String)
    ensures
        out@ == command_enum(command@, generics@, method_views(methods@)),
{
    let mut variants: Vec<String> = Vec::new();
    let mut i: usize = 0;
    while i < methods.len()
        invariant
            i <= methods@.len(),
            variants@.len() == i,
            forall|j: int| 0 <= j < i ==> (#[trigger] variants@[j])@ == variant_decl(methods@[j]@),
        decreases methods@.len() - i,
    {
        variants.push(variant_code(&methods[i]));
        i += 1;
    }
    assert(texts(variants@) =~= method_views(methods@).map_values(
        |m: MethodView| variant_decl(m),
    ));
    let mut out = "pub enum ".to_owned();
    out.append(command);
    out.append(" ");
    out.append(generics.params.as_str());
    out.append(" ");
    out.append(generics.where_clause.as_str());
    out.append(" { ");
    out.append(join(&variants, " , ").as_str());
    out.append(" } ");
    out
}

/// Writes the method of the handle that sends a call.
fn handle_method_code(command: &str, m: &MethodInfo) -> (out: String)
    ensures
        out@ == handle_method(command@, m@),
{
    let mut out = "pub async fn ".to_owned();
    out.append(m.name.as_str());
    out.append(" ( & self");
    out.append(params_code(&m.args).as_str());
    out.append(" ) -> ");
    out.append(m.ret.as_str());
    out.append(" { ::ivy_types::actor::rt::request ( & self . cmd_tx , | c | ");
    out.append(command);
    out.append(" :: ");
    out.append(m.variant.as_str());
    out.append(" ( c , ");
    out.append(names_code(&m.args).as_str());
    out.append(" ) ) . await }");
    out
}

/// Writes the field of the handle.
fn handle_field_code(command: &str, generics: &GenericsSyntax) -> (out: String)
    ensures
        out@ == handle_field(command@, generics@),
{
    let mut out = "cmd_tx : ::embassy_sync::channel::DynamicSender < 'static , ".to_owned();
    out.append(command);
    out.append(" ");
    out.append(generics.ty_generics.as_str());
    out.append(" , > , ");
    out
}

/// Writes the struct of the handle.
fn handle_head_code(handle: &str, command: &str, generics: &GenericsSyntax) -> (out: String)
    ensures
        out@ == handle_head(handle@, command@, generics@),
{
    let mut out = "#[derive(Clone)] pub struct ".to_owned();
    out.append(handle);
    out.append(" ");
    out.append(generics.params.as_str());
    out.append(" ");
    out.append(generics.where_clause.as_str());
    out.append(" { ");
    out.append(handle_field_code(command, generics).as_str());
    out.append("} impl ");
    out.append(generics.impl_generics.as_str());
    out.append(" ");
    out.append(handle);
    out.append(" ");
    out.append(generics.ty_generics.as_str());
    out.append(" ");
    out.append(generics.where_clause.as_str());
    out.append(" { ");
    out
}

/// Writes the handle's implementation of `ActorHandle`.
fn handle_impl_code(handle: &str, command: &str, generics: &GenericsSyntax) -> (out: String)
    ensures
        out@ == handle_impl(handle@, command@, generics@),
{
    let mut out = " } impl ".to_owned();
    out.append(generics.impl_generics.as_str());
    out.append(" ::ivy_types::actor::ActorHandle for ");
    out.append(handle);
    out.append(" ");
    out.append(generics.ty_generics.as_str());
    out.append(" ");
    out.append(generics.where_clause.as_str());
    out.append(" { type Cmd = ");
    out.append(command);
    out.append(" ");
    out.append(generics.ty_generics.as_str());
    out.append(" ; fn create ( ");
    out.append(handle_field_code(command, generics).as_str());
    out.append(") -> Self { Self { cmd_tx , } } }");
    out
}

/// Writes the handle.
fn handle_struct_code(
    handle: &str,
    command: &str,
    generics: &GenericsSyntax,
    methods: &Vec<MethodInfo>,
) -> (out: String)
    ensures
        out@ == handle_struct(handle@, command@, generics@, method_views(methods@)),
{
    let mut calls: Vec<String> = Vec::new();
    let mut i: usize = 0;
    while i < methods.len()
        invariant
            i <= methods@.len(),
            calls@.len() == i,
            forall|j: int|
                0 <= j < i ==> (#[trigger] calls@[j])@ == handle_method(command@, methods@[j]@),
        decreases methods@.len() - i,
    {
        calls.push(handle_method_code(command, &methods[i]));
        i += 1;
    }
    assert(texts(calls@) =~= method_views(methods@).map_values(
        |m: MethodView| handle_method(command@, m),
    ));
    let mut out = handle_head_code(handle, command, generics);
    out.append(join(&calls, " ").as_str());
    out.append(handle_impl_code(handle, command, generics).as_str());
    out
}

/// Writes the code for a trait whose parts are known.
pub fn handle_code(
    handle: &str,
    trait_name: &str,
    generics: &GenericsSyntax,
    methods: &Vec<MethodInfo>,
) -> (out: String)
    ensures
        out@ == handle_text(handle@, trait_name@, generics@, method_views(methods@)),
{
    let command = strip_raw(trait_name).concat("Command");
    let mut out = command_enum_code(command.as_str(), generics, methods);
    out.append(handle_struct_code(handle, command.as_str(), generics, methods).as_str());
    out
}

/// Expands `#[actor_handle(attrs)]` on the trait `item`.
///
/// `Err(Syntax(_))` holds the `compile_error!` to put in place of the trait.
pub fn expand_handle(attrs: &str, item: &str) -> (out: Result<String, ExpandError>)
    ensures
        expansion_result(out) == expansion(attrs@, item@),
{
    let decl = match parse_trait(item) {
        Ok(decl) => decl,
        Err(report) => return Err(ExpandError::Syntax(report)),
    };
    let handle = match parse_ident(attrs) {
        Ok(handle) => handle,
        Err(report) => return Err(ExpandError::Syntax(report)),
    };
    match collect_methods(&decl.members) {
        Ok(methods) => Ok(
            handle_code(
                handle.as_str(),
                decl.head.name.as_str(),
                &decl.head.generics,
                &methods,
            ),
        ),
        Err(name) => Err(ExpandError::Identifier(name)),
    }
}

} // verus!
