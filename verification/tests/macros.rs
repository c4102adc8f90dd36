use ivy::codegen::{names_code, params_code, types_code};
use ivy::ivy_macros;
use ivy::methods::{collect_methods, strip_raw, Arg, ExpandError};
use ivy::syntax::{parse_struct, parse_trait, GenericsSyntax, InputSyntax, MemberSyntax};
use ivy::rapid_macros;
use ivy::rapid_macros::spawn::{channel_fn_name, SpawnInput};
use ivy::text::{join, same_text};
use proc_macro2::{Delimiter, TokenStream, TokenTree};

fn flatten(stream: TokenStream, out: &mut String) {
    for tree in stream {
        match tree {
            TokenTree::Group(group) => {
                let (open, close) = match group.delimiter() {
                    Delimiter::Parenthesis => (" (", " )"),
                    Delimiter::Brace => (" {", " }"),
                    Delimiter::Bracket => (" [", " ]"),
                    Delimiter::None => ("", ""),
                };
                out.push_str(open);
                flatten(group.stream(), out);
                out.push_str(close);
            }
            other => {
                out.push(' ');
                out.push_str(&other.to_string());
            }
        }
    }
}

/// The tokens of a text, each after one space.
fn tokens(text: &str) -> String {
    let mut out = String::new();
    flatten(text.parse().unwrap(), &mut out);
    out
}

fn code(result: Result<String, ExpandError>) -> String {
    match result {
        Ok(code) => tokens(&code),
        Err(_) => panic!("no code"),
    }
}

#[test]
fn ivy_handle_of_a_trait() {
    let item = "pub trait MqttHandle<const N: usize> {
        const LIMIT: usize;
        async fn __publish(&self, topic: &'static str, payload: [u8; N], len: usize) -> Result<(), Error>;
        async fn stop(&self);
    }";
    let expected = "
        pub enum MqttHandleCommand <const N: usize> {
            Publish(::ivy_types::actor::ReplyConsumer<Result<(), Error> >, &'static str, [u8; N], usize,),
            Stop(::ivy_types::actor::ReplyConsumer<()>,)
        }
        #[derive(Clone)]
        pub struct MqttHandle <const N: usize> {
            cmd_tx: ::embassy_sync::channel::DynamicSender<'static, MqttHandleCommand <N>,>,
        }
        impl <const N: usize> MqttHandle <N> {
            pub async fn __publish(&self, topic: &'static str, payload: [u8; N], len: usize) -> Result<(), Error> {
                ::ivy_types::actor::rt::request(&self.cmd_tx, |c| MqttHandleCommand::Publish(c, topic, payload, len,)).await
            }
            pub async fn stop(&self) -> () {
                ::ivy_types::actor::rt::request(&self.cmd_tx, |c| MqttHandleCommand::Stop(c,)).await
            }
        }
        impl <const N: usize> ::ivy_types::actor::ActorHandle for MqttHandle <N> {
            type Cmd = MqttHandleCommand <N>;
            fn create(cmd_tx: ::embassy_sync::channel::DynamicSender<'static, MqttHandleCommand <N>,>,) -> Self {
                Self { cmd_tx, }
            }
        }";
    assert_eq!(code(ivy_macros::actor_handle("MqttHandle", item)), tokens(expected));
    assert_eq!(code(ivy_macros::actor::expand_handle("MqttHandle", item)), tokens(expected));
}

#[test]
fn ivy_handle_with_a_where_clause() {
    let item = "pub trait Api<P> where P: Protocol { async fn request_connection(&self) -> Option<Io<P>>; }";
    let expected = "
        pub enum ApiCommand <P> where P: Protocol {
            RequestConnection(::ivy_types::actor::ReplyConsumer<Option<Io<P>> >,)
        }
        #[derive(Clone)]
        pub struct Handle <P> where P: Protocol {
            cmd_tx: ::embassy_sync::channel::DynamicSender<'static, ApiCommand <P>,>,
        }
        impl <P> Handle <P> where P: Protocol {
            pub async fn request_connection(&self) -> Option<Io<P>> {
                ::ivy_types::actor::rt::request(&self.cmd_tx, |c| ApiCommand::RequestConnection(c,)).await
            }
        }
        impl <P> ::ivy_types::actor::ActorHandle for Handle <P> where P: Protocol {
            type Cmd = ApiCommand <P>;
            fn create(cmd_tx: ::embassy_sync::channel::DynamicSender<'static, ApiCommand <P>,>,) -> Self {
                Self { cmd_tx, }
            }
        }";
    assert_eq!(code(ivy_macros::actor_handle("Handle", item)), tokens(expected));
}

#[test]
fn parameters_without_a_plain_name_are_left_out() {
    let item = "trait T { async fn mix(&self, (a, b): (u8, u8), c: u16, _: u32); }";
    let got = code(ivy_macros::actor_handle("H", item));
    let variant = tokens("Mix(::ivy_types::actor::ReplyConsumer<()>, u16,)");
    let method = tokens("pub async fn mix(&self, c: u16) -> ()");
    assert!(got.contains(&variant));
    assert!(got.contains(&method));
}

#[test]
fn raw_names_lose_their_mark_in_made_up_names() {
    let got = code(ivy_macros::actor_handle("H", "trait r#Box { async fn r#loop(&self); }"));
    assert!(got.contains("BoxCommand"));
    assert!(!got.contains("r#Box"));
    assert!(got.contains(&tokens("pub async fn r#loop(&self)")));
    let got = code(rapid_macros::actor_handle("H", "trait T { async fn r#loop(&self); }"));
    assert!(got.contains("reply_loop"));
    assert_eq!(strip_raw("r#type"), "type");
    assert_eq!(strip_raw("r"), "r");
    assert_eq!(strip_raw("rapid"), "rapid");
}

#[test]
fn rapid_handle_of_a_trait() {
    let item = "trait BluetoothHandleTrait { async fn start_advertising(&self, ms: u32) -> bool; }";
    let expected = "
        pub enum BluetoothHandleTraitCommand {
            StartAdvertising(u32, ::rapid_types::ResponseConsumer<bool>,)
        }
        pub struct BluetoothHandleSignals {
            pub reply_start_advertising: ::embassy_sync::signal::Signal<
                ::embassy_sync::blocking_mutex::raw::CriticalSectionRawMutex, bool>,
        }
        impl BluetoothHandleSignals {
            pub const fn new() -> Self {
                Self { reply_start_advertising: ::embassy_sync::signal::Signal::new(), }
            }
        }
        #[derive(Clone)]
        pub struct BluetoothHandle {
            cmd_tx: ::embassy_sync::channel::Sender<'static,
                ::embassy_sync::blocking_mutex::raw::CriticalSectionRawMutex, BluetoothHandleTraitCommand, 4,>,
            call_lock: &'static ::embassy_sync::mutex::Mutex<
                ::embassy_sync::blocking_mutex::raw::CriticalSectionRawMutex, (),>,
            signals: &'static BluetoothHandleSignals,
        }
        impl BluetoothHandle {
            pub(crate) fn new(
                cmd_tx: ::embassy_sync::channel::Sender<'static,
                    ::embassy_sync::blocking_mutex::raw::CriticalSectionRawMutex, BluetoothHandleTraitCommand, 4,>,
                call_lock: &'static ::embassy_sync::mutex::Mutex<
                    ::embassy_sync::blocking_mutex::raw::CriticalSectionRawMutex, (),>,
                signals: &'static BluetoothHandleSignals,
            ) -> Self {
                Self { cmd_tx, call_lock, signals, }
            }
            pub async fn start_advertising(&self, ms: u32) -> bool {
                let _guard = self.call_lock.lock().await;
                self.signals.reply_start_advertising.reset();
                self.cmd_tx.send(BluetoothHandleTraitCommand::StartAdvertising(
                    ms,
                    ::rapid_types::ResponseConsumer::<bool>(&self.signals.reply_start_advertising)
                )).await;
                self.signals.reply_start_advertising.wait().await
            }
        }
        impl ::rapid_types::ActorHandle for BluetoothHandle {
            type Command = BluetoothHandleTraitCommand;
            type Signals = BluetoothHandleSignals;
        }";
    assert_eq!(code(rapid_macros::actor_handle("BluetoothHandle", item)), tokens(expected));
    assert_eq!(code(rapid_macros::actor::expand_handle("BluetoothHandle", item)), tokens(expected));
}

#[test]
fn actor_around_a_struct() {
    let input = "/// A radio.
        pub struct Radio<C: Controller + 'static> where C: Send { pub controller: C, #[serde(skip)] count: u8 }";
    let expected = "
        /// A radio.
        pub struct Radio <C: Controller + 'static> where C: Send {
            pub controller: C, #[serde(skip)] count: u8,
            pub(crate) cmd_channel: ::embassy_sync::channel::Channel<
                ::embassy_sync::blocking_mutex::raw::CriticalSectionRawMutex,
                <Handle<C> as ::rapid_types::ActorHandle>::Command, 4,>,
            pub(crate) call_lock: ::embassy_sync::mutex::Mutex<
                ::embassy_sync::blocking_mutex::raw::CriticalSectionRawMutex, (),>,
            pub(crate) signals: <Handle<C> as ::rapid_types::ActorHandle>::Signals
        }
        impl <C: Controller + 'static> ::rapid_types::Actor for Radio <C> where C: Send {
            type Handle = Handle<C>;
        }
        impl <C: Controller + 'static> Radio <C> where C: Send {
            pub fn new(controller: C, count: u8) -> Self {
                Self {
                    controller, count,
                    cmd_channel: ::embassy_sync::channel::Channel::new(),
                    call_lock: ::embassy_sync::mutex::Mutex::new(()),
                    signals: < <Handle<C> as ::rapid_types::ActorHandle>::Signals>::new(),
                }
            }
            pub fn handle(&'static self) -> Handle<C> {
                <Handle<C> >::new(self.cmd_channel.sender(), &self.call_lock, &self.signals,)
            }
            pub async fn next_command(&self) -> <Handle<C> as ::rapid_types::ActorHandle>::Command {
                self.cmd_channel.receive().await
            }
        }";
    assert_eq!(code(rapid_macros::actor("Handle<C>", input)), tokens(expected));
    assert_eq!(code(rapid_macros::spawn::expand_actor("Handle<C>", input)), tokens(expected));
}

#[test]
fn actor_needs_named_fields() {
    assert!(matches!(rapid_macros::actor("Handle", "struct Unit;"), Err(ExpandError::UnnamedFields)));
    assert!(matches!(rapid_macros::actor("Handle", "struct Pair(u8, u8);"), Err(ExpandError::UnnamedFields)));
    let got = code(rapid_macros::actor("Handle", "struct Empty {}"));
    assert!(got.contains(&tokens("pub fn new() -> Self")));
}

#[test]
fn spawned_actor() {
    let expected = "{
        let actor_inst = Radio::new(controller, 0);
        #[::embassy_executor::task]
        async fn __embassy_actor_task(mut instance: Radio<C>) -> ! {
            < _ as Runnable>::run(instance).await
        }
        spawner.must_spawn(__embassy_actor_task(actor_inst));
        <Radio<C> as Actor>::Handle::from_static_parts()
    }";
    let input = "spawner, Radio<C>, Radio::new(controller, 0)";
    assert_eq!(code(rapid_macros::spawn_actor(input)), tokens(expected));
    assert_eq!(code(rapid_macros::spawn::expand_spawn_actor(input)), tokens(expected));
}

#[test]
fn spawn_input_has_three_parts() {
    match SpawnInput::parse("a.b(), [u8; 2], 1 + 2") {
        Ok(input) => {
            assert_eq!(tokens(&input.spawner), tokens("a.b()"));
            assert_eq!(tokens(&input.actor_type), tokens("[u8; 2]"));
            assert_eq!(tokens(&input.actor), tokens("1 + 2"));
        }
        Err(_) => panic!("no input"),
    }
    assert!(SpawnInput::parse("").is_err());
    assert!(SpawnInput::parse("a").is_err());
    assert!(SpawnInput::parse("a, B").is_err());
    assert!(SpawnInput::parse("a, B, ").is_err());
    assert!(SpawnInput::parse("a, B, c, d").is_err());
    assert!(SpawnInput::parse("a, 1 + 2, c").is_err());
    assert!(matches!(rapid_macros::spawn_actor("a"), Err(ExpandError::Syntax(_))));
}

fn report(result: Result<String, ExpandError>) -> String {
    match result {
        Err(ExpandError::Syntax(report)) => report,
        _ => panic!("no report"),
    }
}

#[test]
fn broken_input_is_reported_as_a_compile_error() {
    let not_a_trait = report(ivy_macros::actor_handle("H", "struct S;"));
    assert!(not_a_trait.contains("compile_error"));
    assert!(not_a_trait.contains("expected `trait`"));
    let no_handle = report(ivy_macros::actor_handle("", "trait T {}"));
    assert!(no_handle.contains("compile_error"));
    assert!(report(rapid_macros::actor_handle("1", "trait T {}")).contains("expected identifier"));
    assert!(report(rapid_macros::actor("Handle", "enum E {}")).contains("compile_error"));
    assert!(report(rapid_macros::actor("", "struct S {}")).contains("compile_error"));
}

#[test]
fn the_trait_is_looked_at_before_the_handle() {
    let both = report(ivy_macros::actor_handle("1", "struct S;"));
    assert_eq!(both, report(ivy_macros::actor_handle("H", "struct S;")));
    let both = report(rapid_macros::actor("", "enum E {}"));
    assert_eq!(both, report(rapid_macros::actor("Handle", "enum E {}")));
}

#[test]
fn method_without_a_name_for_its_variant() {
    let result = ivy_macros::actor_handle("H", "trait T { async fn __(&self); }");
    match result {
        Err(ExpandError::Identifier(name)) => assert_eq!(name, ""),
        _ => panic!("an identifier"),
    }
    assert!(matches!(
        rapid_macros::actor_handle("H", "trait T { async fn __(&self); }"),
        Err(ExpandError::Identifier(_))
    ));
}

fn named(name: &str, ty: &str) -> InputSyntax {
    InputSyntax::Named { name: name.to_string(), ty: ty.to_string() }
}

fn method(name: &str, inputs: Vec<InputSyntax>, output: Option<&str>) -> MemberSyntax {
    MemberSyntax::Method { name: name.to_string(), inputs, output: output.map(str::to_string) }
}

#[test]
fn methods_are_the_functions_of_a_trait() {
    let members = vec![
        MemberSyntax::Other,
        method("first_one", vec![InputSyntax::Receiver, named("a", "u8"), InputSyntax::Pattern, named("b", "i8")], Some("u16")),
        method("second", vec![], None),
    ];
    match collect_methods(&members) {
        Ok(methods) => {
            assert_eq!(methods.len(), 2);
            assert_eq!(methods[0].name, "first_one");
            assert_eq!(methods[0].variant, "FirstOne");
            assert_eq!(methods[0].args.len(), 2);
            assert_eq!(methods[0].args[0].name, "a");
            assert_eq!(methods[0].args[0].ty, "u8");
            assert_eq!(methods[0].args[1].name, "b");
            assert_eq!(methods[0].args[1].ty, "i8");
            assert_eq!(methods[0].ret, "u16");
            assert_eq!(methods[1].name, "second");
            assert_eq!(methods[1].variant, "Second");
            assert_eq!(methods[1].args.len(), 0);
            assert_eq!(methods[1].ret, "()");
        }
        Err(_) => panic!("no methods"),
    }
    match collect_methods(&vec![method("__", vec![], None)]) {
        Ok(_) => panic!("a variant without a name"),
        Err(name) => assert_eq!(name, ""),
    }
}

#[test]
fn trait_is_parsed_into_its_parts() {
    let item = "trait T<A: Copy = u8> where A: Send { const N: u8; fn f(&self, a: A, _: u8, (b, c): (u8, u8)) -> [A; 2]; fn g(); }";
    let decl = match parse_trait(item) {
        Ok(decl) => decl,
        Err(_) => panic!("no trait"),
    };
    assert_eq!(decl.head.name, "T");
    assert_eq!(decl.head.generics.params, "< A : Copy = u8 >");
    assert_eq!(decl.head.generics.impl_generics, "< A : Copy >");
    assert_eq!(decl.head.generics.ty_generics, "< A >");
    assert_eq!(decl.head.generics.where_clause, "where A : Send");
    assert_eq!(decl.members.len(), 3);
    assert!(matches!(decl.members[0], MemberSyntax::Other));
    match &decl.members[1] {
        MemberSyntax::Method { name, inputs, output } => {
            assert_eq!(name, "f");
            assert_eq!(output.as_deref(), Some("[A ; 2]"));
            assert_eq!(inputs.len(), 4);
            assert!(matches!(inputs[0], InputSyntax::Receiver));
            assert!(matches!(&inputs[1], InputSyntax::Named { name, ty } if name == "a" && ty == "A"));
            assert!(matches!(inputs[2], InputSyntax::Pattern));
            assert!(matches!(inputs[3], InputSyntax::Pattern));
        }
        MemberSyntax::Other => panic!("no method"),
    }
    assert!(matches!(&decl.members[2], MemberSyntax::Method { name, inputs, output: None } if name == "g" && inputs.is_empty()));
    match parse_trait("struct S;") {
        Ok(_) => panic!("a trait"),
        Err(report) => assert!(report.contains("expected `trait`")),
    }
}

#[test]
fn struct_is_parsed_into_its_parts() {
    let decl = match parse_struct("#[a] #[b] pub struct S<T> where T: Copy { pub x: T, #[c] y: u8 }") {
        Ok(decl) => decl,
        Err(_) => panic!("no struct"),
    };
    assert_eq!(decl.head.attrs, vec!["# [a]".to_string(), "# [b]".to_string()]);
    assert_eq!(decl.head.vis, "pub");
    assert_eq!(decl.head.name, "S");
    assert_eq!(decl.head.generics.params, "< T >");
    assert_eq!(decl.head.generics.where_clause, "where T : Copy");
    let fields = decl.fields.unwrap();
    assert_eq!(fields.len(), 2);
    assert_eq!(fields[0].name, "x");
    assert_eq!(fields[0].ty, "T");
    assert_eq!(fields[0].declaration, "pub x : T");
    assert_eq!(fields[1].name, "y");
    assert_eq!(fields[1].ty, "u8");
    assert_eq!(fields[1].declaration, "# [c] y : u8");
    for unnamed in ["struct Unit;", "struct Pair(u8, u8);"] {
        match parse_struct(unnamed) {
            Ok(decl) => assert!(decl.fields.is_none()),
            Err(_) => panic!("no struct"),
        }
    }
    match parse_struct("enum E {}") {
        Ok(_) => panic!("a struct"),
        Err(report) => assert!(report.contains("compile_error")),
    }
}

#[test]
fn whatever_parses_is_expanded() {
    let members = [
        "fn f(&self);",
        "fn f(self: Box<Self>, x: impl Fn(u8) -> u8 + 'static);",
        "fn f<'a, T: ?Sized>(&'a mut self, #[allow(x)] mut y: &'a T) -> &'a T where T: 'a { y }",
        "type A<'a>: Copy where Self: 'a; const C: [u8; { 1 + 2 }] = [0; 3];",
    ];
    for member in members {
        let item = format!("pub trait T<const N: usize, U: Clone = u8>: Sized where U: Send {{ {member} }}");
        assert!(ivy_macros::actor_handle("H", &item).is_ok());
        assert!(rapid_macros::actor_handle("H", &item).is_ok());
    }
    let fields = ["a: u8", "pub(in crate::x) r#type: fn(u8) -> u8", "#[doc = \"x\"] a: [u8; N], b: &'static dyn Fn()", ""];
    for field in fields {
        assert!(rapid_macros::actor("H<'static, 2>", &format!("struct S<const N: usize = 3> {{ {field} }}")).is_ok());
    }
}

#[test]
fn handle_code_from_known_parts() {
    let methods = match collect_methods(&vec![method("go", vec![InputSyntax::Receiver], None)]) {
        Ok(methods) => methods,
        Err(_) => panic!("no methods"),
    };
    let generics = GenericsSyntax {
        params: String::new(),
        impl_generics: String::new(),
        ty_generics: String::new(),
        where_clause: String::new(),
    };
    let ivy_code = ivy_macros::actor::handle_code("H", "T", &generics, &methods);
    assert_eq!(tokens(&ivy_code), code(ivy_macros::actor_handle("H", "trait T { async fn go(&self); }")));
    let rapid_code = rapid_macros::actor::handle_code("H", "T", &generics, &methods);
    assert_eq!(tokens(&rapid_code), code(rapid_macros::actor_handle("H", "trait T { async fn go(&self); }")));
}

#[test]
fn lists_of_arguments() {
    let args = vec![
        Arg { name: "a".to_string(), ty: "u8".to_string() },
        Arg { name: "b".to_string(), ty: "u16".to_string() },
    ];
    assert_eq!(tokens(&types_code(&args)), tokens("u8, u16,"));
    assert_eq!(tokens(&names_code(&args)), tokens("a, b,"));
    assert_eq!(tokens(&params_code(&args)), tokens(", a: u8, b: u16"));
}

#[test]
fn joined_texts() {
    let parts = vec!["a".to_string(), "b".to_string(), "c".to_string()];
    assert_eq!(join(&parts, ", "), "a, b, c");
    assert_eq!(join(&parts[..1].to_vec(), ", "), "a");
    assert_eq!(join(&Vec::new(), ", "), "");
    assert!(same_text("lamp", "lamp"));
    assert!(!same_text("lamp", "lamps"));
    assert!(!same_text("lamp", "Lamp"));
    assert_eq!(channel_fn_name(), "__actor_channel");
}

#[test]
fn parsed_parts_are_printed_anew() {
    match SpawnInput::parse("a.b()  ,Radio<C>,1+2") {
        Ok(input) => {
            assert_eq!(input.spawner, "a . b ()");
            assert_eq!(input.actor_type, "Radio < C >");
            assert_eq!(input.actor, "1 + 2");
        }
        Err(_) => panic!("no input"),
    }
    match ivy_macros::actor_handle(" /* the handle */ H", "trait T<A:Copy> where A:Send {}") {
        Ok(code) => {
            assert!(code.contains("pub struct H < A : Copy > where A : Send {"));
            assert!(code.contains("impl < A : Copy > H < A > where A : Send {"));
            assert!(!code.contains("/*"));
        }
        Err(_) => panic!("no code"),
    }
    match rapid_macros::actor("Handle<C>", "pub(crate)struct S{pub a:Vec<u8>}") {
        Ok(code) => {
            assert!(code.contains("pub (crate) struct S"));
            assert!(code.contains("pub a : Vec < u8 >"));
            assert!(code.contains("new( a : Vec < u8 > )"));
            assert!(code.contains("type Handle = Handle < C > ;"));
        }
        Err(_) => panic!("no code"),
    }
}
