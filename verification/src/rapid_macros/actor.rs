//! Generates handles, actors and tasks.
//!
//! A handle here shares one signal per method with its actor, and a lock that admits one call at a
//! time. The signals, the lock and the channel are fields that the actor's struct is given.

use vstd::prelude::*;

use crate::codegen::{
    lists_go_by_the_parameters, name_list, names_code, nothing_is_listed_of_nothing, param_list, params_code, type_list,
    types_code,
};
use crate::ivy_macros::actor::{command_name, expansion_result};
use crate::methods::{
    collect_methods, method_views, methods_are_the_functions, methods_of, strip_raw, unraw, variants_have_names, ExpandError, ExpandErrorView, MethodInfo,
    MethodView,
};
use crate::syntax::{
    parse_ident, parse_trait, parsed_ident, parsed_trait, GenericsSyntax, GenericsView,
};
use crate::text::{join, joined, occurs, occurs_within, piece_occurs_in_joined, texts};

verus! {

/// The name of the struct that holds the signals of a handle.
pub open spec fn signals_name(handle: Seq<char>) -> Seq<char> {
    unraw(handle) + "Signals"@
}

/// The signal through which the replies to a method come.
pub open spec fn signal_field(m: MethodView) -> Seq<char> {
    "reply_"@ + unraw(m.name)
}

/// The variant that carries a call: the arguments, then the consumer of the reply.
pub open spec fn variant_decl(m: MethodView) -> Seq<char> {
    m.variant + " ( "@ + type_list(m.args) + "::rapid_types::ResponseConsumer < "@ + m.ret
        + " > , )"@
}

/// The command enum.
pub open spec fn command_enum(
    command: Seq<char>,
    generics: GenericsView,
    methods: Seq<MethodView>,
) -> Seq<char> {
    "pub enum "@ + command + " "@ + generics.params + " "@ + generics.where_clause + " { "@
        + joined(methods.map_values(|m: MethodView| variant_decl(m)), " , "@) + " } "@
}

/// The field that holds the signal of a method.
pub open spec fn signal_decl(m: MethodView) -> Seq<char> {
    "pub "@ + signal_field(m)
        + " : ::embassy_sync::signal::Signal < ::embassy_sync::blocking_mutex::raw::CriticalSectionRawMutex , "@
        + m.ret + " > , "@
}

/// The initial value of that field.
pub open spec fn signal_init(m: MethodView) -> Seq<char> {
    signal_field(m) + " : ::embassy_sync::signal::Signal::new() , "@
}

/// The constructor of the struct of signals.
pub open spec fn signals_impl(
    signals: Seq<char>,
    generics: GenericsView,
    methods: Seq<MethodView>,
) -> Seq<char> {
    "} impl "@ + generics.impl_generics + " "@ + signals + " "@ + generics.ty_generics + " "@
        + generics.where_clause + " { pub const fn new() -> Self { Self { "@ + joined(
        methods.map_values(|m: MethodView| signal_init(m)),
        ""@,
    ) + "} } } "@
}

/// The struct of signals, with its constructor.
pub open spec fn signals_struct(
    signals: Seq<char>,
    generics: GenericsView,
    methods: Seq<MethodView>,
) -> Seq<char> {
    "pub struct "@ + signals + " "@ + generics.params + " "@ + generics.where_clause + " { "@
        + joined(methods.map_values(|m: MethodView| signal_decl(m)), ""@) + signals_impl(
        signals,
        generics,
        methods,
    )
}

/// The method of the handle: it takes the lock, clears the signal, sends the call, and waits for
/// the signal.
pub open spec fn handle_method(command: Seq<char>, m: MethodView) -> Seq<char> {
    "pub async fn "@ + m.name + " ( & self"@ + param_list(m.args) + " ) -> "@ + m.ret
        + " { let _guard = self.call_lock.lock().await; self.signals. "@ + signal_field(m)
        + " .reset(); self.cmd_tx.send( "@ + command + " :: "@ + m.variant + " ( "@ + name_list(
        m.args,
    ) + "::rapid_types::ResponseConsumer :: < "@ + m.ret + " > (&self.signals. "@ + signal_field(m)
        + " ) )).await; self.signals. "@ + signal_field(m) + " .wait().await }"@
}

/// The fields of the handle, which are also the parameters of its constructor.
pub open spec fn handle_fields(
    command: Seq<char>,
    signals: Seq<char>,
    generics: GenericsView,
) -> Seq<char> {
    "cmd_tx : ::embassy_sync::channel::Sender < 'static , ::embassy_sync::blocking_mutex::raw::CriticalSectionRawMutex , "@
        + command + " "@ + generics.ty_generics
        + " , 4 , > , call_lock : &'static ::embassy_sync::mutex::Mutex < ::embassy_sync::blocking_mutex::raw::CriticalSectionRawMutex , () , > , signals : &'static "@
        + signals + " "@ + generics.ty_generics + " , "@
}

/// The struct of the handle, and its constructor.
pub open spec fn handle_head(
    handle: Seq<char>,
    command: Seq<char>,
    signals: Seq<char>,
    generics: GenericsView,
) -> Seq<char> {
    let fields = handle_fields(command, signals, generics);
    "#[derive(Clone)] pub struct "@ + handle + " "@ + generics.params + " "@
        + generics.where_clause + " { "@ + fields + "} impl "@ + generics.impl_generics + " "@
        + handle + " "@ + generics.ty_generics + " "@ + generics.where_clause
        + " { pub(crate) fn new( "@ + fields
        + ") -> Self { Self { cmd_tx , call_lock , signals , } } "@
}

/// The handle's implementation of `ActorHandle`.
pub open spec fn handle_impl(
    handle: Seq<char>,
    command: Seq<char>,
    signals: Seq<char>,
    generics: GenericsView,
) -> Seq<char> {
    " } impl "@ + generics.impl_generics + " ::rapid_types::ActorHandle for "@ + handle + " "@
        + generics.ty_generics + " "@ + generics.where_clause + " { type Command = "@ + command
        + " "@ + generics.ty_generics + " ; type Signals = "@ + signals + " "@
        + generics.ty_generics + " ; }"@
}

/// The handle: its struct, its constructor and methods, and its implementation of `ActorHandle`.
pub open spec fn handle_struct(
    handle: Seq<char>,
    command: Seq<char>,
    signals: Seq<char>,
    generics: GenericsView,
    methods: Seq<MethodView>,
) -> Seq<char> {
    handle_head(handle, command, signals, generics) + joined(
        methods.map_values(|m: MethodView| handle_method(command, m)),
        " "@,
    ) + handle_impl(handle, command, signals, generics)
}

/// The generated code.
pub open spec fn handle_text(
    handle: Seq<char>,
    trait_name: Seq<char>,
    generics: GenericsView,
    methods: Seq<MethodView>,
) -> Seq<char> {
    let command = command_name(trait_name);
    let signals = signals_name(handle);
    command_enum(command, generics, methods) + signals_struct(signals, generics, methods)
        + handle_struct(handle, command, signals, generics, methods)
}

/// What becomes of a trait: its text is parsed, then the argument of the attribute, then the methods
/// are described, and the first of these that fails is what is reported.
pub open spec fn handle_expansion(attrs: Seq<char>, item: Seq<char>) -> Result<
    Seq<char>,
    ExpandErrorView,
> {
    match parsed_trait(item) {
        Err(report) => Err(ExpandErrorView::Syntax(report)),
        Ok(decl) => match parsed_ident(attrs) {
            Err(report) => Err(ExpandErrorView::Syntax(report)),
            Ok(handle) => match methods_of(decl.members) {
                Err(name) => Err(ExpandErrorView::Identifier(name)),
                Ok(methods) => Ok(
                    handle_text(handle, decl.head.name, decl.head.generics, methods),
                ),
            },
        },
    }
}

/// Whatever parses is expanded, provided that each function of the trait has a variant with an
/// identifier for its name.
pub proof fn what_parses_is_expanded(attrs: Seq<char>, item: Seq<char>)
    ensures
        handle_expansion(attrs, item) is Ok <==> {
            &&& parsed_trait(item) matches Ok(decl)
            &&& parsed_ident(attrs) is Ok
            &&& variants_have_names(decl.members)
        },
        handle_expansion(attrs, item) matches Err(ExpandErrorView::Syntax(_)) ==> parsed_trait(item) is Err
            || parsed_ident(attrs) is Err,
        match (parsed_trait(item), parsed_ident(attrs)) {
            (Err(report), _) => handle_expansion(attrs, item) == Err::<Seq<char>, _>(
                ExpandErrorView::Syntax(report),
            ),
            (Ok(_), Err(report)) => handle_expansion(attrs, item) == Err::<Seq<char>, _>(
                ExpandErrorView::Syntax(report),
            ),
            (Ok(decl), Ok(handle)) => match methods_of(decl.members) {
                Ok(methods) => handle_expansion(attrs, item) == Ok::<_, ExpandErrorView>(
                    handle_text(handle, decl.head.name, decl.head.generics, methods),
                ),
                Err(name) => handle_expansion(attrs, item) == Err::<Seq<char>, _>(
                    ExpandErrorView::Identifier(name),
                ),
            },
        },
{
    if parsed_trait(item) is Ok {
        methods_are_the_functions(parsed_trait(item)->Ok_0.members);
    }
}

/// Every method of the trait is served: the command enum declares its variant, the signals have a
/// field for its replies, and the handle has a method that sends the variant and waits on that
/// field.
pub proof fn every_method_is_served(
    handle: Seq<char>,
    trait_name: Seq<char>,
    generics: GenericsView,
    methods: Seq<MethodView>,
    i: int,
)
    requires
        0 <= i < methods.len(),
    ensures
        occurs(variant_decl(methods[i]), handle_text(handle, trait_name, generics, methods)),
        occurs(signal_decl(methods[i]), handle_text(handle, trait_name, generics, methods)),
        occurs(
            handle_method(command_name(trait_name), methods[i]),
            handle_text(handle, trait_name, generics, methods),
        ),
{
    let none = Seq::<char>::empty();
    let command = command_name(trait_name);
    let signals = signals_name(handle);
    let decls = methods.map_values(|m: MethodView| variant_decl(m));
    let fields = methods.map_values(|m: MethodView| signal_decl(m));
    let calls = methods.map_values(|m: MethodView| handle_method(command, m));
    let declared = command_enum(command, generics, methods);
    let waited = signals_struct(signals, generics, methods);
    let served = handle_struct(handle, command, signals, generics, methods);

    piece_occurs_in_joined(decls, " , "@, i);
    let before = "pub enum "@ + command + " "@ + generics.params + " "@ + generics.where_clause
        + " { "@;
    occurs_within(decls[i], before, joined(decls, " , "@), " } "@);
    occurs_within(decls[i], none, declared, waited + served);
    assert(none + declared + (waited + served) =~= declared + waited + served);

    piece_occurs_in_joined(fields, ""@, i);
    let front = "pub struct "@ + signals + " "@ + generics.params + " "@ + generics.where_clause
        + " { "@;
    occurs_within(
        fields[i],
        front,
        joined(fields, ""@),
        signals_impl(signals, generics, methods),
    );
    occurs_within(fields[i], declared, waited, served);

    piece_occurs_in_joined(calls, " "@, i);
    occurs_within(
        calls[i],
        handle_head(handle, command, signals, generics),
        joined(calls, " "@),
        handle_impl(handle, command, signals, generics),
    );
    occurs_within(calls[i], declared + waited, served, none);
    assert(declared + waited + served + none =~= declared + waited + served);
}

/// A call keeps the order of its parameters: the parameter with the number `i` stands in the same place
/// among the types that the variant carries, among the parameters of the handle's method, and among
/// the arguments that the method puts into the variant. The method takes the lock, clears its own
/// signal, sends the variant with that signal for the reply, and waits on that signal.
pub proof fn call_keeps_the_order(command: Seq<char>, m: MethodView, i: int)
    requires
        0 <= i < m.args.len(),
    ensures
        ({
            let before = m.args.take(i);
            let after = m.args.skip(i + 1);
            let arg = m.args[i];
            let types = type_list(before) + (arg.ty + " , "@) + type_list(after);
            let params = param_list(before) + (" , "@ + arg.name + " : "@ + arg.ty) + param_list(
                after,
            );
            let names = name_list(before) + (arg.name + " , "@) + name_list(after);
            let signal = "reply_"@ + unraw(m.name);
            &&& variant_decl(m) == m.variant + " ( "@ + types + "::rapid_types::ResponseConsumer < "@
                + m.ret + " > , )"@
            &&& handle_method(command, m) == "pub async fn "@ + m.name + " ( & self"@ + params
                + " ) -> "@ + m.ret
                + " { let _guard = self.call_lock.lock().await; self.signals. "@ + signal
                + " .reset(); self.cmd_tx.send( "@ + command + " :: "@ + m.variant + " ( "@ + names
                + "::rapid_types::ResponseConsumer :: < "@ + m.ret + " > (&self.signals. "@ + signal
                + " ) )).await; self.signals. "@ + signal + " .wait().await }"@
        }),
{
    lists_go_by_the_parameters(m.args, i);
}

/// A call without parameters carries nothing but the consumer of its reply.
pub proof fn call_without_parameters(command: Seq<char>, m: MethodView)
    requires
        m.args.len() == 0,
    ensures
        ({
            let signal = "reply_"@ + unraw(m.name);
            &&& variant_decl(m) == m.variant + " ( "@ + "::rapid_types::ResponseConsumer < "@ + m.ret
                + " > , )"@
            &&& handle_method(command, m) == "pub async fn "@ + m.name + " ( & self"@ + " ) -> "@
                + m.ret + " { let _guard = self.call_lock.lock().await; self.signals. "@ + signal
                + " .reset(); self.cmd_tx.send( "@ + command + " :: "@ + m.variant + " ( "@
                + "::rapid_types::ResponseConsumer :: < "@ + m.ret + " > (&self.signals. "@ + signal
                + " ) )).await; self.signals. "@ + signal + " .wait().await }"@
        }),
{
    nothing_is_listed_of_nothing(m.args);
    let none = Seq::<char>::empty();
    let signal = "reply_"@ + unraw(m.name);
    let front = m.variant + " ( "@;
    assert(front + none =~= front);
    let sig = "pub async fn "@ + m.name + " ( & self"@;
    assert(sig + none =~= sig);
    let call = sig + " ) -> "@ + m.ret
        + " { let _guard = self.call_lock.lock().await; self.signals. "@ + signal
        + " .reset(); self.cmd_tx.send( "@ + command + " :: "@ + m.variant + " ( "@;
    assert(call + none =~= call);
}

/// The generated code, item by item: the enum with the variants of all methods in order, the signals
/// with one for each method and in the same order, each of them new to begin with, the struct of the
/// handle with its constructor, the methods in order, and the implementation of `ActorHandle`.
/// Wherever an item is declared it has the parameters with their bounds, and wherever it is used it
/// has them by name. The enum is named after the trait and the signals after the handle, without the
/// mark of a raw name.
pub proof fn handle_code_item_by_item(
    handle: Seq<char>,
    trait_name: Seq<char>,
    generics: GenericsView,
    methods: Seq<MethodView>,
)
    ensures
        ({
            let command = unraw(trait_name) + "Command"@;
            let signals = unraw(handle) + "Signals"@;
            let params = generics.params;
            let bounds = generics.where_clause;
            let used = generics.ty_generics;
            let given = generics.impl_generics;
            let variants = joined(
                Seq::new(methods.len(), |i: int| variant_decl(methods[i])),
                " , "@,
            );
            let decls = joined(
                Seq::new(
                    methods.len(),
                    |i: int|
                        "pub "@ + ("reply_"@ + unraw(methods[i].name))
                            + " : ::embassy_sync::signal::Signal < ::embassy_sync::blocking_mutex::raw::CriticalSectionRawMutex , "@ + methods[i].ret
                            + " > , "@,
                ),
                ""@,
            );
            let inits = joined(
                Seq::new(
                    methods.len(),
                    |i: int|
                        ("reply_"@ + unraw(methods[i].name))
                            + " : ::embassy_sync::signal::Signal::new() , "@,
                ),
                ""@,
            );
            let calls = joined(
                Seq::new(methods.len(), |i: int| handle_method(command, methods[i])),
                " "@,
            );
            let fields =
                "cmd_tx : ::embassy_sync::channel::Sender < 'static , ::embassy_sync::blocking_mutex::raw::CriticalSectionRawMutex , "@
                + command + " "@ + used
                + " , 4 , > , call_lock : &'static ::embassy_sync::mutex::Mutex < ::embassy_sync::blocking_mutex::raw::CriticalSectionRawMutex , () , > , signals : &'static "@
                + signals + " "@ + used + " , "@;
            let the_enum = "pub enum "@ + command + " "@ + params + " "@ + bounds + " { "@ + variants
                + " } "@;
            let the_signals = "pub struct "@ + signals + " "@ + params + " "@ + bounds + " { "@
                + decls + ("} impl "@ + given + " "@ + signals + " "@ + used + " "@ + bounds
                + " { pub const fn new() -> Self { Self { "@ + inits + "} } } "@);
            let the_struct = "#[derive(Clone)] pub struct "@ + handle + " "@ + params + " "@ + bounds
                + " { "@ + fields + "} impl "@ + given + " "@ + handle + " "@ + used + " "@ + bounds
                + " { pub(crate) fn new( "@ + fields
                + ") -> Self { Self { cmd_tx , call_lock , signals , } } "@;
            let the_impl = " } impl "@ + given + " ::rapid_types::ActorHandle for "@ + handle + " "@
                + used + " "@ + bounds + " { type Command = "@ + command + " "@ + used
                + " ; type Signals = "@ + signals + " "@ + used + " ; }"@;
            handle_text(handle, trait_name, generics, methods) == the_enum + the_signals + (
            the_struct + calls + the_impl)
        }),
{
    let command = unraw(trait_name) + "Command"@;
    assert(methods.map_values(|m: MethodView| variant_decl(m)) =~= Seq::new(
        methods.len(),
        |i: int| variant_decl(methods[i]),
    ));
    assert(methods.map_values(|m: MethodView| signal_decl(m)) =~= Seq::new(
        methods.len(),
        |i: int|
            "pub "@ + ("reply_"@ + unraw(methods[i].name))
                + " : ::embassy_sync::signal::Signal < ::embassy_sync::blocking_mutex::raw::CriticalSectionRawMutex , "@ + methods[i].ret + " > , "@,
    ));
    assert(methods.map_values(|m: MethodView| signal_init(m)) =~= Seq::new(
        methods.len(),
        |i: int|
            ("reply_"@ + unraw(methods[i].name)) + " : ::embassy_sync::signal::Signal::new() , "@,
    ));
    assert(methods.map_values(|m: MethodView| handle_method(command, m)) =~= Seq::new(
        methods.len(),
        |i: int| handle_method(command, methods[i]),
    ));
}

/// Writes the name of the signal of a method.
fn signal_field_code(m: &MethodInfo) -> (out: String)
    ensures
        out@ == signal_field(m@),
{
    let mut out = "reply_".to_owned();
    out.append(strip_raw(m.name.as_str()).as_str());
    out
}

/// Writes the variant that carries a call.
fn variant_code(m: &MethodInfo) -> (out: String)
    ensures
        out@ == variant_decl(m@),
{
    let mut out = m.variant.clone();
    out.append(" ( ");
    out.append(types_code(&m.args).as_str());
    out.append("::rapid_types::ResponseConsumer < ");
    out.append(m.ret.as_str());
    out.append(" > , )");
    out
}

/// Writes the command enum.
fn command_enum_code(command: &str, generics: &GenericsSyntax, methods: &Vec<MethodInfo>) -> (out:
    String)
    ensures
        out@ == command_enum(command@, generics@, method_views(methods@)),
{
    let mut variants: Vec<String> = Vec::new();
    let mut i: usize = 0;
    while i < methods.len()
        invariant
            i <= methods@.len(),
            variants@.len() == i,
            forall|j: int| 0 <= j < i ==> (#[trigger] variants@[j])@ == variant_decl(methods@[j]@),
        decreases methods@.len() - i,
    {
        variants.push(variant_code(&methods[i]));
        i += 1;
    }
    assert(texts(variants@) =~= method_views(methods@).map_values(
        |m: MethodView| variant_decl(m),
    ));
    let mut out = "pub enum ".to_owned();
    out.append(command);
    out.append(" ");
    out.append(generics.params.as_str());
    out.append(" ");
    out.append(generics.where_clause.as_str());
    out.append(" { ");
    out.append(join(&variants, " , ").as_str());
    out.append(" } ");
    out
}

/// Writes the constructor of the struct of signals.
fn signals_impl_code(signals: &str, generics: &GenericsSyntax, methods: &Vec<MethodInfo>) -> (out:
    String)
    ensures
        out@ == signals_impl(signals@, generics@, method_views(methods@)),
{
    let mut inits: Vec<String> = Vec::new();
    let mut i: usize = 0;
    while i < methods.len()
        invariant
            i <= methods@.len(),
            inits@.len() == i,
            forall|j: int| 0 <= j < i ==> (#[trigger] inits@[j])@ == signal_init(methods@[j]@),
        decreases methods@.len() - i,
    {
        inits.push(
            signal_field_code(&methods[i]).concat(" : ::embassy_sync::signal::Signal::new() , "),
        );
        i += 1;
    }
    assert(texts(inits@) =~= method_views(methods@).map_values(|m: MethodView| signal_init(m)));
    let mut out = "} impl ".to_owned();
    out.append(generics.impl_generics.as_str());
    out.append(" ");
    out.append(signals);
    out.append(" ");
    out.append(generics.ty_generics.as_str());
    out.append(" ");
    out.append(generics.where_clause.as_str());
    out.append(" { pub const fn new() -> Self { Self { ");
    out.append(join(&inits, "").as_str());
    out.append("} } } ");
    out
}

/// Writes the field that holds the signal of a method.
fn signal_decl_code(m: &MethodInfo) -> (out: String)
    ensures
        out@ == signal_decl(m@),
{
    let mut out = "pub ".to_owned();
    out.append(signal_field_code(m).as_str());
    out.append(
        " : ::embassy_sync::signal::Signal < ::embassy_sync::blocking_mutex::raw::CriticalSectionRawMutex , ",
    );
    out.append(m.ret.as_str());
    out.append(" > , ");
    out
}

/// Writes the struct of signals.
fn signals_struct_code(signals: &str, generics: &GenericsSyntax, methods: &Vec<MethodInfo>) -> (out:
    String)
    ensures
        out@ == signals_struct(signals@, generics@, method_views(methods@)),
{
    let mut fields: Vec<String> = Vec::new();
    let mut i: usize = 0;
    while i < methods.len()
        invariant
            i <= methods@.len(),
            fields@.len() == i,
            forall|j: int| 0 <= j < i ==> (#[trigger] fields@[j])@ == signal_decl(methods@[j]@),
        decreases methods@.len() - i,
    {
        fields.push(signal_decl_code(&methods[i]));
        i += 1;
    }
    assert(texts(fields@) =~= method_views(methods@).map_values(|m: MethodView| signal_decl(m)));
    let mut out = "pub struct ".to_owned();
    out.append(signals);
    out.append(" ");
    out.append(generics.params.as_str());
    out.append(" ");
    out.append(generics.where_clause.as_str());
    out.append(" { ");
    out.append(join(&fields, "").as_str());
    out.append(signals_impl_code(signals, generics, methods).as_str());
    out
}

/// Writes the method of the handle that sends a call.
fn handle_method_code(command: &str, m: &MethodInfo) -> (out: String)
    ensures
        out@ == handle_method(command@, m@),
{
    let field = signal_field_code(m);
    let mut out = "pub async fn ".to_owned();
    out.append(m.name.as_str());
    out.append(" ( & self");
    out.append(params_code(&m.args).as_str());
    out.append(" ) -> ");
    out.append(m.ret.as_str());
    out.append(" { let _guard = self.call_lock.lock().await; self.signals. ");
    out.append(field.as_str());
    out.append(" .reset(); self.cmd_tx.send( ");
    out.append(command);
    out.append(" :: ");
    out.append(m.variant.as_str());
    out.append(" ( ");
    out.append(names_code(&m.args).as_str());
    out.append("::rapid_types::ResponseConsumer :: < ");
    out.append(m.ret.as_str());
    out.append(" > (&self.signals. ");
    out.append(field.as_str());
    out.append(" ) )).await; self.signals. ");
    out.append(field.as_str());
    out.append(" .wait().await }");
    out
}

/// Writes the fields of the handle.
fn handle_fields_code(command: &str, signals: &str, generics: &GenericsSyntax) -> (out: String)
    ensures
        out@ == handle_fields(command@, signals@, generics@),
{
    let mut out =
        "cmd_tx : ::embassy_sync::channel::Sender < 'static , ::embassy_sync::blocking_mutex::raw::CriticalSectionRawMutex , ".to_owned();
    out.append(command);
    out.append(" ");
    out.append(generics.ty_generics.as_str());
    out.append(
        " , 4 , > , call_lock : &'static ::embassy_sync::mutex::Mutex < ::embassy_sync::blocking_mutex::raw::CriticalSectionRawMutex , () , > , signals : &'static ",
    );
    out.append(signals);
    out.append(" ");
    out.append(generics.ty_generics.as_str());
    out.append(" , ");
    out
}

/// Writes the struct of the handle, and its constructor.
fn handle_head_code(handle: &str, command: &str, signals: &str, generics: &GenericsSyntax) -> (out:
    String)
    ensures
        out@ == handle_head(handle@, command@, signals@, generics@),
{
    let fields = handle_fields_code(command, signals, generics);
    let mut out = "#[derive(Clone)] pub struct ".to_owned();
    out.append(handle);
    out.append(" ");
    out.append(generics.params.as_str());
    out.append(" ");
    out.append(generics.where_clause.as_str());
    out.append(" { ");
    out.append(fields.as_str());
    out.append("} impl ");
    out.append(generics.impl_generics.as_str());
    out.append(" ");
    out.append(handle);
    out.append(" ");
    out.append(generics.ty_generics.as_str());
    out.append(" ");
    out.append(generics.where_clause.as_str());
    out.append(" { pub(crate) fn new( ");
    out.append(fields.as_str());
    out.append(") -> Self { Self { cmd_tx , call_lock , signals , } } ");
    out
}

/// Writes the handle's implementation of `ActorHandle`.
fn handle_impl_code(handle: &str, command: &str, signals: &str, generics: &GenericsSyntax) -> (out:
    String)
    ensures
        out@ == handle_impl(handle@, command@, signals@, generics@),
{
    let mut out = " } impl ".to_owned();
    out.append(generics.impl_generics.as_str());
    out.append(" ::rapid_types::ActorHandle for ");
    out.append(handle);
    out.append(" ");
    out.append(generics.ty_generics.as_str());
    out.append(" ");
    out.append(generics.where_clause.as_str());
    out.append(" { type Command = ");
    out.append(command);
    out.append(" ");
    out.append(generics.ty_generics.as_str());
    out.append(" ; type Signals = ");
    out.append(signals);
    out.append(" ");
    out.append(generics.ty_generics.as_str());
    out.append(" ; }");
    out
}

/// Writes the handle.
fn handle_struct_code(
    handle: &str,
    command: &str,
    signals: &str,
    generics: &GenericsSyntax,
    methods: &Vec<MethodInfo>,
) -> (out: String)
    ensures
        out@ == handle_struct(
            handle@,
            command@,
            signals@,
            generics@,
            method_views(methods@),
        ),
{
    let mut calls: Vec<String> = Vec::new();
    let mut i: usize = 0;
    while i < methods.len()
        invariant
            i <= methods@.len(),
            calls@.len() == i,
            forall|j: int|
                0 <= j < i ==> (#[trigger] calls@[j])@ == handle_method(command@, methods@[j]@),
        decreases methods@.len() - i,
    {
        calls.push(handle_method_code(command, &methods[i]));
        i += 1;
    }
    assert(texts(calls@) =~= method_views(methods@).map_values(
        |m: MethodView| handle_method(command@, m),
    ));
    let mut out = handle_head_code(handle, command, signals, generics);
    out.append(join(&calls, " ").as_str());
    out.append(handle_impl_code(handle, command, signals, generics).as_str());
    out
}

/// Writes the code for a trait whose parts are known.
pub fn handle_code(
    handle: &str,
    trait_name: &str,
    generics: &GenericsSyntax,
    methods: &Vec<MethodInfo>,
) -> (out: String)
    ensures
        out@ == handle_text(handle@, trait_name@, generics@, method_views(methods@)),
{
    let command = strip_raw(trait_name).concat("Command");
    let signals = strip_raw(handle).concat("Signals");
    let mut out = command_enum_code(command.as_str(), generics, methods);
    out.append(signals_struct_code(signals.as_str(), generics, methods).as_str());
    out.append(
        handle_struct_code(handle, command.as_str(), signals.as_str(), generics, methods).as_str(),
    );
    out
}

/// Expands `#[actor_handle(attrs)]` on the trait `item`.
///
/// `Err(Syntax(_))` holds the `compile_error!` to put in place of the trait.
pub fn expand_handle(attrs: &str, item: &str) -> (out: Result<String, ExpandError>)
    ensures
        expansion_result(out) == handle_expansion(attrs@, item@),
{
    let decl = match parse_trait(item) {
        Ok(decl) => decl,
        Err(report) => return Err(ExpandError::Syntax(report)),
    };
    let handle = match parse_ident(attrs) {
        Ok(handle) => handle,
        Err(report) => return Err(ExpandError::Syntax(report)),
    };
    match collect_methods(&decl.members) {
        Ok(methods) => Ok(
            handle_code(
                handle.as_str(),
                decl.head.name.as_str(),
                &decl.head.generics,
                &methods,
            ),
        ),
        Err(name) => Err(ExpandError::Identifier(name)),
    }
}

} // verus!
